//! The nodes that the rewrite builds for a component: the element class, the
//! statement that registers it, and the default export of the class.

use vstd::prelude::*;
use vstd::string::*;
use crate::ast::{
    ClassDecl, ClassDeclView, DefaultExportBinding, DefaultExportBindingView, Expr, ExprView,
    Ident, IdentView, ModuleItemView, Property, Stmt, StmtView, NO_SCOPE, exprs_view, props_view,
    stmts_view,
};
use crate::naming::{class_name, class_name_of, tag_name, tag_name_of};

verus! {

/// A reference to a name that the rewrite itself introduces.
pub open spec fn name_ref(name: Seq<char>) -> ExprView {
    ExprView::Ident(IdentView { name, scope: NO_SCOPE })
}

/// The call `callee(args..)`.
pub open spec fn call_of(callee: ExprView, args: Seq<ExprView>) -> ExprView {
    ExprView::Call(Box::new(callee), args)
}

/// The property access `object.name`.
pub open spec fn member_of(object: ExprView, name: Seq<char>) -> ExprView {
    ExprView::Member(Box::new(object), name)
}

/// The identifier of the class generated for `component`.
pub open spec fn class_ident_of(component: IdentView) -> IdentView {
    IdentView { name: class_name_of(component.name), scope: NO_SCOPE }
}

/// The constructor's body, in its fixed order: an empty object of properties;
/// the component called with it; a shadow root attached to the receiver, to
/// which the node that the component returned is appended.
pub open spec fn constructor_body_of(component: IdentView) -> Seq<StmtView> {
    seq![
        StmtView::Const("__props"@, ExprView::Object(Seq::empty())),
        StmtView::Const(
            "_n"@,
            call_of(ExprView::Ident(component), seq![name_ref("__props"@)]),
        ),
        StmtView::Expr(
            call_of(
                member_of(
                    call_of(
                        member_of(ExprView::This, "attachShadow"@),
                        seq![ExprView::Object(seq![("mode"@, ExprView::Str("open"@))])],
                    ),
                    "appendChild"@,
                ),
                seq![name_ref("_n"@)],
            ),
        ),
    ]
}

/// The class generated for `component`.
pub open spec fn class_decl_of(component: IdentView) -> ClassDeclView {
    ClassDeclView {
        ident: class_ident_of(component),
        constructor: constructor_body_of(component),
    }
}

/// The statement that registers the class generated for `component`: the
/// registry's `define`, called with the tag name as a string literal and with a
/// reference to the class.
pub open spec fn registration_of(component: IdentView) -> StmtView {
    StmtView::Expr(
        call_of(
            member_of(name_ref("customElements"@), "define"@),
            seq![
                ExprView::Str(tag_name_of(component.name)),
                ExprView::Ident(class_ident_of(component)),
            ],
        ),
    )
}

/// The default export of the class generated for `component`.
pub open spec fn export_of(component: IdentView) -> DefaultExportBindingView {
    DefaultExportBindingView::Identifier(class_ident_of(component))
}

/// The three items that take the place of the component's default export.
pub open spec fn replacement_of(component: IdentView) -> Seq<ModuleItemView> {
    seq![
        ModuleItemView::Class(class_decl_of(component)),
        ModuleItemView::Stmt(registration_of(component)),
        ModuleItemView::DefaultExport(export_of(component)),
    ]
}

/// A copy of `id`.
pub fn copy_ident(id: &Ident) -> (copy: Ident)
    ensures
        copy@ == id@,
{
    Ident { name: id.name.clone(), scope: id.scope }
}

/// A reference to the name `name`, which the rewrite itself introduces.
pub fn reference(name: &str) -> (e: Expr)
    ensures
        e@ == name_ref(name@),
{
    Expr::Ident(Ident { name: String::from_str(name), scope: NO_SCOPE })
}

/// The property access `object.name`.
pub fn member(object: Expr, name: &str) -> (e: Expr)
    ensures
        e@ == member_of(object@, name@),
{
    Expr::Member(Box::new(object), String::from_str(name))
}

/// The object literal with the entries `props`.
pub fn object(props: Vec<Property>) -> (e: Expr)
    ensures
        e@ == ExprView::Object(props_view(props@)),
{
    let ghost keyed = props_view(props@);
    let e = Expr::Object(props);
    proof {
        match e@ {
            ExprView::Object(got) => {
                assert(got =~= keyed);
            },
            _ => {},
        }
    }
    e
}

/// The call `callee(args..)`.
pub fn call(callee: Expr, args: Vec<Expr>) -> (e: Expr)
    ensures
        e@ == call_of(callee@, exprs_view(args@)),
{
    let ghost viewed = exprs_view(args@);
    let e = Expr::Call(Box::new(callee), args);
    proof {
        match e@ {
            ExprView::Call(_, got) => {
                assert(got =~= viewed);
            },
            _ => {},
        }
    }
    e
}

/// The call `callee(arg)`.
pub fn call_one(callee: Expr, arg: Expr) -> (e: Expr)
    ensures
        e@ == call_of(callee@, seq![arg@]),
{
    let mut args: Vec<Expr> = Vec::new();
    args.push(arg);
    assert(exprs_view(args@) =~= seq![arg@]);
    call(callee, args)
}

/// The call `callee(first, second)`.
pub fn call_two(callee: Expr, first: Expr, second: Expr) -> (e: Expr)
    ensures
        e@ == call_of(callee@, seq![first@, second@]),
{
    let mut args: Vec<Expr> = Vec::new();
    args.push(first);
    args.push(second);
    assert(exprs_view(args@) =~= seq![first@, second@]);
    call(callee, args)
}

/// The body of the generated constructor for `component`.
pub fn constructor_body(component: &Ident) -> (body: Vec<Stmt>)
    ensures
        stmts_view(body@) == constructor_body_of(component@),
{
    let props = Stmt::Const(String::from_str("__props"), object(Vec::new()));
    assert(props@ == constructor_body_of(component@)[0]) by {
        match props@ {
            StmtView::Const(_, ExprView::Object(got)) => {
                assert(got =~= Seq::empty());
            },
            _ => {},
        }
    }
    let node = Stmt::Const(
        String::from_str("_n"),
        call_one(Expr::Ident(copy_ident(component)), reference("__props")),
    );
    let mut mode: Vec<Property> = Vec::new();
    mode.push(Property { key: String::from_str("mode"), value: Expr::Str(String::from_str("open")) });
    let options = object(mode);
    assert(options@ == ExprView::Object(seq![("mode"@, ExprView::Str("open"@))])) by {
        match options@ {
            ExprView::Object(got) => {
                assert(got =~= seq![("mode"@, ExprView::Str("open"@))]);
            },
            _ => {},
        }
    }
    let shadow = call_one(member(Expr::This, "attachShadow"), options);
    let attach = Stmt::Expr(call_one(member(shadow, "appendChild"), reference("_n")));
    let mut body: Vec<Stmt> = Vec::new();
    body.push(props);
    body.push(node);
    body.push(attach);
    assert(stmts_view(body@) =~= constructor_body_of(component@));
    body
}

/// The identifier of the class generated for `component`.
pub fn class_ident(component: &Ident) -> (id: Ident)
    ensures
        id@ == class_ident_of(component@),
{
    Ident { name: class_name(component.name.as_str()), scope: NO_SCOPE }
}

/// The class generated for `component`: its only member is the constructor.
pub fn class_declaration(component: &Ident) -> (class: ClassDecl)
    ensures
        class@ == class_decl_of(component@),
{
    ClassDecl { ident: class_ident(component), constructor: constructor_body(component) }
}

/// The statement that registers the class generated for `component` under the
/// component's tag name.
pub fn registration(component: &Ident) -> (stmt: Stmt)
    ensures
        stmt@ == registration_of(component@),
{
    Stmt::Expr(
        call_two(
            member(reference("customElements"), "define"),
            Expr::Str(tag_name(component.name.as_str())),
            Expr::Ident(class_ident(component)),
        ),
    )
}

/// The default export of the class generated for `component`.
pub fn class_export(component: &Ident) -> (binding: DefaultExportBinding)
    ensures
        binding@ == export_of(component@),
{
    DefaultExportBinding::Identifier(class_ident(component))
}

} // verus!
