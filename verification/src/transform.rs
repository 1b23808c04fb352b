//! The rewrite itself: find the component that a module exports by default, and
//! put the element class, its registration and the export of the class in the
//! place of that export.

use vstd::prelude::*;
use crate::ast::{
    DefaultExportBinding, DefaultExportBindingView, Ident, IdentView, Module, ModuleItem,
    ModuleItemView,
};
use crate::synth::{
    class_declaration, class_export, copy_ident, registration, replacement_of,
};

verus! {

/// The component that a default export names: the name of the exported
/// function, or the exported identifier. Any other export names none.
pub open spec fn component_of(binding: DefaultExportBindingView) -> Option<IdentView> {
    match binding {
        DefaultExportBindingView::Function(name, _) => name,
        DefaultExportBindingView::Identifier(id) => Some(id),
        DefaultExportBindingView::Other(_) => None,
    }
}

/// Whether `index` is the place of the last default export among `items`.
pub open spec fn is_last_default_export(items: Seq<ModuleItemView>, index: int) -> bool {
    &&& 0 <= index < items.len()
    &&& items[index] is DefaultExport
    &&& forall|j: int| index < j < items.len() ==> !(#[trigger] items[j] is DefaultExport)
}

/// The place of the last default export among `items`, where there is one.
pub open spec fn last_default_export(items: Seq<ModuleItemView>) -> Option<int>
    decreases items.len(),
{
    if items.len() == 0 {
        None
    } else if items.last() is DefaultExport {
        Some(items.len() - 1)
    } else {
        last_default_export(items.drop_last())
    }
}

/// What the rewrite acts on: the place of the last default export and the
/// component that it names. There is none where the module has no default
/// export, or where its last one names no component.
pub open spec fn target_of(items: Seq<ModuleItemView>) -> Option<(int, IdentView)> {
    match last_default_export(items) {
        Some(index) => match items[index] {
            ModuleItemView::DefaultExport(binding) => match component_of(binding) {
                Some(component) => Some((index, component)),
                None => None,
            },
            _ => None,
        },
        None => None,
    }
}

/// `items` with the run `replacement` in the place of the one item at `index`.
pub open spec fn spliced<T>(items: Seq<T>, index: int, replacement: Seq<T>) -> Seq<T> {
    items.subrange(0, index) + replacement + items.subrange(index + 1, items.len() as int)
}

/// The module after the rewrite: where it has a target, the class, the
/// registration and the export of the class stand in the place of the target's
/// export; otherwise it is the module itself.
pub open spec fn rewritten(items: Seq<ModuleItemView>) -> Seq<ModuleItemView> {
    match target_of(items) {
        Some((index, component)) => spliced(items, index, replacement_of(component)),
        None => items,
    }
}

/// `last_default_export` finds the one place that `is_last_default_export`
/// describes, and finds none exactly where no item is a default export.
pub proof fn lemma_last_default_export(items: Seq<ModuleItemView>)
    ensures
        match last_default_export(items) {
            Some(index) => is_last_default_export(items, index),
            None => forall|j: int| 0 <= j < items.len() ==> !(#[trigger] items[j] is DefaultExport),
        },
        forall|index: int| #[trigger]
            is_last_default_export(items, index) ==> last_default_export(items) == Some(index),
    decreases items.len(),
{
    if items.len() > 0 {
        let front = items.drop_last();
        lemma_last_default_export(front);
        assert forall|j: int| 0 <= j < front.len() implies front[j] == items[j] by {}
        if !(items.last() is DefaultExport) {
            match last_default_export(front) {
                Some(index) => {
                    assert(items[index] == front[index]);
                    assert forall|j: int| index < j < items.len() implies !(
                    #[trigger] items[j] is DefaultExport) by {
                        if j < front.len() {
                            assert(front[j] == items[j]);
                        }
                    }
                },
                None => {
                    assert forall|j: int| 0 <= j < items.len() implies !(
                    #[trigger] items[j] is DefaultExport) by {
                        if j < front.len() {
                            assert(front[j] == items[j]);
                        }
                    }
                },
            }
            assert forall|index: int| #[trigger]
                is_last_default_export(items, index) implies last_default_export(items) == Some(
                index,
            ) by {
                assert(index < front.len());
                assert(front[index] == items[index]);
                assert forall|j: int| index < j < front.len() implies !(
                #[trigger] front[j] is DefaultExport) by {
                    assert(front[j] == items[j]);
                }
                assert(is_last_default_export(front, index));
            }
        } else {
            assert forall|index: int| #[trigger]
                is_last_default_export(items, index) implies last_default_export(items) == Some(
                index,
            ) by {
                if index < items.len() - 1 {
                    assert(items[items.len() - 1] is DefaultExport);
                }
            }
        }
    }
}

/// Scans the module once and tells what the rewrite acts on: the place of the
/// last default export, with a copy of the identifier of the component that
/// it names.
pub fn find_target(m: &Module) -> (found: Option<(usize, Ident)>)
    ensures
        match found {
            Some((index, component)) => target_of(m@) == Some((index as int, component@)),
            None => target_of(m@) is None,
        },
{
    let n: usize = m.body.len();
    let mut last: Option<usize> = None;
    let mut k: usize = 0;
    assert(m@.subrange(0, 0) =~= Seq::empty());
    while k < n
        invariant
            n == m.body@.len(),
            k <= n,
            match last {
                Some(index) => last_default_export(m@.subrange(0, k as int)) == Some(index as int)
                    && index < k,
                None => last_default_export(m@.subrange(0, k as int)) is None,
            },
        decreases n - k,
    {
        proof {
            let next = m@.subrange(0, k + 1);
            assert(next.drop_last() =~= m@.subrange(0, k as int));
            assert(next.last() == m.body@[k as int]@);
        }
        match &m.body[k] {
            ModuleItem::DefaultExport(_) => {
                last = Some(k);
            },
            _ => {},
        }
        k = k + 1;
    }
    assert(m@.subrange(0, n as int) =~= m@);
    match last {
        Some(index) => {
            assert(m@[index as int] == m.body@[index as int]@);
            match &m.body[index] {
                ModuleItem::DefaultExport(DefaultExportBinding::Function(Some(id), _)) => Some(
                    (index, copy_ident(id)),
                ),
                ModuleItem::DefaultExport(DefaultExportBinding::Identifier(id)) => Some(
                    (index, copy_ident(id)),
                ),
                _ => None,
            }
        },
        None => None,
    }
}

/// Puts `first`, `second` and `third`, in this order, in the place of the item
/// at `index`. Every other item stays, in its order.
pub fn splice_three(
    items: &mut Vec<ModuleItem>,
    index: usize,
    first: ModuleItem,
    second: ModuleItem,
    third: ModuleItem,
)
    requires
        index < old(items)@.len(),
    ensures
        final(items)@ == spliced(old(items)@, index as int, seq![first, second, third]),
{
    let _ = items.remove(index);
    items.insert(index, third);
    items.insert(index, second);
    items.insert(index, first);
    assert(items@ =~= spliced(old(items)@, index as int, seq![first, second, third]));
}

/// Rewrites the module in place. Where the last default export names a
/// component, that export gives way to the element class, the registration of
/// the class under the component's tag name, and a default export of the class.
/// Any other module is left as it is.
pub fn transform(m: &mut Module)
    ensures
        final(m)@ == rewritten(old(m)@),
        target_of(old(m)@) is None ==> *final(m) == *old(m),
{
    match find_target(m) {
        Some((index, component)) => {
            proof {
                lemma_last_default_export(m@);
            }
            let class = ModuleItem::Class(class_declaration(&component));
            let define = ModuleItem::Stmt(registration(&component));
            let export = ModuleItem::DefaultExport(class_export(&component));
            splice_three(&mut m.body, index, class, define, export);
            assert(m@ =~= rewritten(old(m)@));
        },
        None => {},
    }
}

} // verus!
