//! What holds of the rewrite on every module, stated over the views.

use vstd::prelude::*;
use crate::ast::{
    DefaultExportBindingView, ExprView, IdentView, ModuleItemView, StmtView, NO_SCOPE,
};
use crate::naming::{
    class_name_of, hyphenated, is_uppercase, lowercase_form, piece, tag_name_of,
    without_leading_hyphens,
};
use crate::synth::{class_decl_of, class_ident_of, export_of, registration_of, replacement_of};
use crate::transform::{
    component_of, is_last_default_export, last_default_export, lemma_last_default_export,
    rewritten, spliced, target_of,
};

verus! {

/// The hyphenated form is made character by character: that of two names in a
/// row is the two forms in a row.
pub proof fn law_hyphenated_concat(a: Seq<char>, b: Seq<char>)
    ensures
        hyphenated(a + b) == hyphenated(a) + hyphenated(b),
    decreases b.len(),
{
    if b.len() == 0 {
        assert(a + b =~= a);
        assert(hyphenated(a) + hyphenated(b) =~= hyphenated(a));
    } else {
        let last = piece(b.last(), is_uppercase(b.last()), lowercase_form(b.last()));
        law_hyphenated_concat(a, b.drop_last());
        assert((a + b).drop_last() =~= a + b.drop_last());
        assert((a + b).last() == b.last());
        assert((hyphenated(a) + hyphenated(b.drop_last())) + last =~= hyphenated(a) + (hyphenated(
            b.drop_last(),
        ) + last));
    }
}

/// A name without an uppercase character is its own hyphenated form.
pub proof fn law_name_without_uppercase(name: Seq<char>)
    requires
        forall|i: int| 0 <= i < name.len() ==> !is_uppercase(#[trigger] name[i]),
    ensures
        hyphenated(name) == name,
        tag_name_of(name) == "fluxel-"@ + without_leading_hyphens(name),
    decreases name.len(),
{
    if name.len() > 0 {
        let front = name.drop_last();
        assert forall|i: int| 0 <= i < front.len() implies !is_uppercase(#[trigger] front[i]) by {
            assert(front[i] == name[i]);
        }
        law_name_without_uppercase(front);
        assert(!is_uppercase(name[name.len() - 1]));
        assert(front + seq![name.last()] =~= name);
    } else {
        assert(hyphenated(name) =~= name);
    }
}

/// A name that begins with an uppercase character: the hyphen that stands for
/// it is stripped, and the tag name goes on with its lowercase form.
pub proof fn law_leading_uppercase(first: char, rest: Seq<char>)
    requires
        is_uppercase(first),
    ensures
        hyphenated(seq![first] + rest) == seq!['-'] + lowercase_form(first) + hyphenated(rest),
        tag_name_of(seq![first] + rest) == "fluxel-"@ + without_leading_hyphens(
            lowercase_form(first) + hyphenated(rest),
        ),
{
    let one = seq![first];
    law_hyphenated_concat(one, rest);
    assert(one.drop_last() =~= Seq::<char>::empty());
    assert(one.last() == first);
    assert(hyphenated(one.drop_last()) =~= Seq::<char>::empty());
    assert(hyphenated(one) =~= seq!['-'] + lowercase_form(first));
    let form = hyphenated(one + rest);
    assert(form =~= seq!['-'] + (lowercase_form(first) + hyphenated(rest)));
    assert(form.drop_first() =~= lowercase_form(first) + hyphenated(rest));
}

/// What is left when the leading hyphens are gone does not begin with a hyphen,
/// and is a tail of what was there.
pub proof fn law_without_leading_hyphens(s: Seq<char>)
    ensures
        without_leading_hyphens(s).len() > 0 ==> without_leading_hyphens(s)[0] != '-',
        without_leading_hyphens(s).len() <= s.len(),
        without_leading_hyphens(s) == s.subrange(
            s.len() - without_leading_hyphens(s).len(),
            s.len() as int,
        ),
        forall|i: int|
            0 <= i < s.len() - without_leading_hyphens(s).len() ==> #[trigger] s[i] == '-',
    decreases s.len(),
{
    if s.len() > 0 && s[0] == '-' {
        let rest = s.drop_first();
        law_without_leading_hyphens(rest);
        let kept = without_leading_hyphens(rest);
        assert(kept =~= s.subrange(s.len() - kept.len(), s.len() as int));
        assert forall|i: int| 0 <= i < s.len() - kept.len() implies #[trigger] s[i] == '-' by {
            if i > 0 {
                assert(s[i] == rest[i - 1]);
            }
        }
    } else {
        assert(s =~= s.subrange(0, s.len() as int));
    }
}

/// Every tag name begins with `fluxel-`, so it is not empty and holds a hyphen,
/// and no second hyphen follows that prefix at once.
pub proof fn law_tag_name_shape(name: Seq<char>)
    ensures
        tag_name_of(name).len() >= 7,
        tag_name_of(name).subrange(0, 7) == "fluxel-"@,
        tag_name_of(name)[6] == '-',
        tag_name_of(name).len() > 7 ==> tag_name_of(name)[7] != '-',
{
    reveal_strlit("fluxel-");
    law_without_leading_hyphens(hyphenated(name));
    assert(tag_name_of(name).subrange(0, 7) =~= "fluxel-"@);
}

/// A module without a default export is left as it is.
pub proof fn law_identity_without_default_export(items: Seq<ModuleItemView>)
    requires
        forall|j: int| 0 <= j < items.len() ==> !(#[trigger] items[j] is DefaultExport),
    ensures
        target_of(items) is None,
        rewritten(items) == items,
{
    lemma_last_default_export(items);
}

/// A module whose last default export names no component is left as it is.
pub proof fn law_identity_without_component(items: Seq<ModuleItemView>, index: int)
    requires
        is_last_default_export(items, index),
        match items[index] {
            ModuleItemView::DefaultExport(binding) => component_of(binding) is None,
            _ => false,
        },
    ensures
        target_of(items) is None,
        rewritten(items) == items,
{
    lemma_last_default_export(items);
}

/// The target of a module is its last default export, together with the
/// component that this export names.
pub proof fn law_target_is_last_default_export(
    items: Seq<ModuleItemView>,
    index: int,
    component: IdentView,
)
    ensures
        target_of(items) == Some((index, component)) <==> is_last_default_export(items, index)
            && match items[index] {
            ModuleItemView::DefaultExport(binding) => component_of(binding) == Some(component),
            _ => false,
        },
{
    lemma_last_default_export(items);
}

/// Where a module has a target, the rewrite makes it longer by two items: the
/// items before the target's export stay where they are, those after it stand
/// two places further, and the class, its registration and the export of the
/// class stand in between, in this order.
pub proof fn law_shape(items: Seq<ModuleItemView>, index: int, component: IdentView)
    requires
        target_of(items) == Some((index, component)),
    ensures
        0 <= index < items.len(),
        rewritten(items).len() == items.len() + 2,
        forall|j: int| 0 <= j < index ==> #[trigger] rewritten(items)[j] == items[j],
        forall|j: int| index < j < items.len() ==> rewritten(items)[j + 2] == #[trigger] items[j],
        rewritten(items)[index] == ModuleItemView::Class(class_decl_of(component)),
        rewritten(items)[index + 1] == ModuleItemView::Stmt(registration_of(component)),
        rewritten(items)[index + 2] == ModuleItemView::DefaultExport(export_of(component)),
{
    lemma_last_default_export(items);
}

/// The generated class never has the component's own name.
pub proof fn law_class_name_differs(name: Seq<char>)
    ensures
        class_name_of(name) != name,
        class_name_of(name).len() == name.len() + 7,
        class_name_of(name).subrange(0, name.len() as int) == name,
{
    reveal_strlit("Element");
    assert(class_name_of(name).subrange(0, name.len() as int) =~= name);
}

/// Where a module has a target, the last of the three new items exports by
/// default the generated class, named after the component with `Element` behind
/// it, and not the component.
pub proof fn law_export_repointed(items: Seq<ModuleItemView>, index: int, component: IdentView)
    requires
        target_of(items) == Some((index, component)),
    ensures
        rewritten(items)[index + 2] == ModuleItemView::DefaultExport(
            DefaultExportBindingView::Identifier(
                IdentView { name: component.name + "Element"@, scope: NO_SCOPE },
            ),
        ),
        rewritten(items)[index + 2] != ModuleItemView::DefaultExport(
            DefaultExportBindingView::Identifier(component),
        ),
{
    law_shape(items, index, component);
    law_class_name_differs(component.name);
}

/// The registration of a component is a call with two arguments: first the
/// component's tag name as a string literal, then a reference to the generated
/// class.
pub proof fn law_registration_arguments(component: IdentView)
    ensures
        registration_of(component) matches StmtView::Expr(ExprView::Call(_, args)) && {
            &&& args.len() == 2
            &&& args[0] == ExprView::Str(tag_name_of(component.name))
            &&& args[1] == ExprView::Ident(class_decl_of(component).ident)
        },
        class_decl_of(component).ident.name == component.name + "Element"@,
{
}

/// Where a module has a target, the second of the three new items registers
/// the class that the first of them declares, under the component's tag name.
pub proof fn law_registration_follows_class(
    items: Seq<ModuleItemView>,
    index: int,
    component: IdentView,
)
    requires
        target_of(items) == Some((index, component)),
    ensures
        rewritten(items)[index] matches ModuleItemView::Class(class) && class == class_decl_of(
            component,
        ),
        rewritten(items)[index + 1] matches ModuleItemView::Stmt(stmt) && stmt == registration_of(
            component,
        ),
{
    law_shape(items, index, component);
}

/// The rewrite applies again to what it made: the export of the generated class
/// is the target of the rewritten module, two places after the first target, so
/// that a second rewrite builds a class and a registration for the generated
/// class in turn.
pub proof fn law_second_application(items: Seq<ModuleItemView>, index: int, component: IdentView)
    requires
        target_of(items) == Some((index, component)),
    ensures
        target_of(rewritten(items)) == Some((index + 2, class_ident_of(component))),
        rewritten(rewritten(items)) == spliced(
            rewritten(items),
            index + 2,
            replacement_of(class_ident_of(component)),
        ),
        rewritten(rewritten(items)).len() == items.len() + 4,
        rewritten(rewritten(items))[index + 3] == ModuleItemView::Stmt(
            registration_of(class_ident_of(component)),
        ),
        rewritten(rewritten(items))[index + 4] == ModuleItemView::DefaultExport(
            DefaultExportBindingView::Identifier(
                IdentView { name: component.name + "Element"@ + "Element"@, scope: NO_SCOPE },
            ),
        ),
        rewritten(rewritten(items)) != rewritten(items),
{
    let once = rewritten(items);
    law_shape(items, index, component);
    lemma_last_default_export(items);
    assert forall|j: int| index + 2 < j < once.len() implies !(
    #[trigger] once[j] is DefaultExport) by {
        assert(once[j] == items[j - 2]);
    }
    assert(is_last_default_export(once, index + 2));
    lemma_last_default_export(once);
    assert(last_default_export(once) == Some(index + 2));
    law_shape(once, index + 2, class_ident_of(component));
}

} // verus!
