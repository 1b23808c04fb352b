//! The syntax tree: the executable types and, for each, its mathematical view.

use vstd::prelude::*;

verus! {

/// The hygiene scope of a name that the rewrite itself introduces.
pub const NO_SCOPE: u32 = 0;

/// A name together with the scope that tells it from equal names bound elsewhere.
#[derive(Clone, Debug, PartialEq, Eq)]
pub struct Ident {
    pub name: String,
    pub scope: u32,
}

/// An identifier as a value: the characters of its name, and its scope.
pub struct IdentView {
    pub name: Seq<char>,
    pub scope: u32,
}

impl View for Ident {
    type V = IdentView;

    open spec fn view(&self) -> IdentView {
        IdentView { name: self.name@, scope: self.scope }
    }
}

/// One `key: value` entry of an object literal.
#[derive(Debug, PartialEq, Eq)]
pub struct Property {
    pub key: String,
    pub value: Expr,
}

/// An expression.
#[derive(Debug, PartialEq, Eq)]
pub enum Expr {
    /// A reference to a binding.
    Ident(Ident),
    /// The implicit receiver.
    This,
    /// A string literal.
    Str(String),
    /// An object literal.
    Object(Vec<Property>),
    /// A call: the callee, then the arguments in order.
    Call(Box<Expr>, Vec<Expr>),
    /// A property access `object.name`.
    Member(Box<Expr>, String),
}

/// An expression as a value, with sequences in place of vectors and strings.
pub enum ExprView {
    Ident(IdentView),
    This,
    Str(Seq<char>),
    Object(Seq<(Seq<char>, ExprView)>),
    Call(Box<ExprView>, Seq<ExprView>),
    Member(Box<ExprView>, Seq<char>),
}

/// What an expression is, as a value.
pub open spec fn expr_view(e: Expr) -> ExprView
    decreases e,
{
    match e {
        Expr::Ident(id) => ExprView::Ident(id@),
        Expr::This => ExprView::This,
        Expr::Str(s) => ExprView::Str(s@),
        Expr::Object(props) => ExprView::Object(
            Seq::new(
                props@.len(),
                |i: int|
                    if 0 <= i < props@.len() {
                        (props@[i].key@, expr_view(props@[i].value))
                    } else {
                        (Seq::empty(), ExprView::This)
                    },
            ),
        ),
        Expr::Call(callee, args) => ExprView::Call(
            Box::new(expr_view(*callee)),
            Seq::new(
                args@.len(),
                |i: int|
                    if 0 <= i < args@.len() {
                        expr_view(args@[i])
                    } else {
                        ExprView::This
                    },
            ),
        ),
        Expr::Member(object, name) => ExprView::Member(Box::new(expr_view(*object)), name@),
    }
}

/// The views of a run of expressions, in order.
pub open spec fn exprs_view(exprs: Seq<Expr>) -> Seq<ExprView> {
    Seq::new(exprs.len(), |i: int| expr_view(exprs[i]))
}

/// The views of an object literal's entries, in order.
pub open spec fn props_view(props: Seq<Property>) -> Seq<(Seq<char>, ExprView)> {
    Seq::new(props.len(), |i: int| (props[i].key@, expr_view(props[i].value)))
}

impl View for Expr {
    type V = ExprView;

    open spec fn view(&self) -> ExprView {
        expr_view(*self)
    }
}

/// A statement.
#[derive(Debug, PartialEq, Eq)]
pub enum Stmt {
    /// `const <name> = <init>;`
    Const(String, Expr),
    /// An expression evaluated for its effect.
    Expr(Expr),
}

/// A statement as a value.
pub enum StmtView {
    Const(Seq<char>, ExprView),
    Expr(ExprView),
}

impl View for Stmt {
    type V = StmtView;

    open spec fn view(&self) -> StmtView {
        match self {
            Stmt::Const(name, init) => StmtView::Const(name@, init@),
            Stmt::Expr(e) => StmtView::Expr(e@),
        }
    }
}

/// The views of a run of statements, in order.
pub open spec fn stmts_view(stmts: Seq<Stmt>) -> Seq<StmtView> {
    Seq::new(stmts.len(), |i: int| stmts[i]@)
}

/// A class declaration without a superclass, whose only member is a constructor
/// without parameters.
#[derive(Debug, PartialEq, Eq)]
pub struct ClassDecl {
    pub ident: Ident,
    /// The statements of the constructor's body, in order.
    pub constructor: Vec<Stmt>,
}

/// A class declaration as a value.
pub struct ClassDeclView {
    pub ident: IdentView,
    pub constructor: Seq<StmtView>,
}

impl View for ClassDecl {
    type V = ClassDeclView;

    open spec fn view(&self) -> ClassDeclView {
        ClassDeclView {
            ident: self.ident@,
            constructor: stmts_view(self.constructor@),
        }
    }
}

/// What a default export exports.
#[derive(Debug, PartialEq, Eq)]
pub enum DefaultExportBinding {
    /// `export default function ..`: the function's name, where it has one, and
    /// the handle that the owner of the declaration gave it.
    Function(Option<Ident>, u64),
    /// `export default <name>;`
    Identifier(Ident),
    /// Anything else (a class, a literal, another expression), known only by the
    /// handle that its owner gave it.
    Other(u64),
}

/// What a default export exports, as a value.
pub enum DefaultExportBindingView {
    Function(Option<IdentView>, u64),
    Identifier(IdentView),
    Other(u64),
}

impl View for DefaultExportBinding {
    type V = DefaultExportBindingView;

    open spec fn view(&self) -> DefaultExportBindingView {
        match self {
            DefaultExportBinding::Function(Some(id), decl) => DefaultExportBindingView::Function(
                Some(id@),
                *decl,
            ),
            DefaultExportBinding::Function(None, decl) => DefaultExportBindingView::Function(
                None,
                *decl,
            ),
            DefaultExportBinding::Identifier(id) => DefaultExportBindingView::Identifier(id@),
            DefaultExportBinding::Other(decl) => DefaultExportBindingView::Other(*decl),
        }
    }
}

/// A top-level item of a module.
#[derive(Debug, PartialEq, Eq)]
pub enum ModuleItem {
    /// A default export.
    DefaultExport(DefaultExportBinding),
    /// A class declaration.
    Class(ClassDecl),
    /// A statement.
    Stmt(Stmt),
    /// Any other item, known only by the handle that its owner gave it.
    Opaque(u64),
}

/// A top-level item as a value.
pub enum ModuleItemView {
    DefaultExport(DefaultExportBindingView),
    Class(ClassDeclView),
    Stmt(StmtView),
    Opaque(u64),
}

impl View for ModuleItem {
    type V = ModuleItemView;

    open spec fn view(&self) -> ModuleItemView {
        match self {
            ModuleItem::DefaultExport(b) => ModuleItemView::DefaultExport(b@),
            ModuleItem::Class(c) => ModuleItemView::Class(c@),
            ModuleItem::Stmt(s) => ModuleItemView::Stmt(s@),
            ModuleItem::Opaque(h) => ModuleItemView::Opaque(*h),
        }
    }
}

/// A module: its top-level items in source order.
#[derive(Debug, PartialEq, Eq)]
pub struct Module {
    pub body: Vec<ModuleItem>,
}

/// The views of a run of top-level items, in order.
pub open spec fn items_view(items: Seq<ModuleItem>) -> Seq<ModuleItemView> {
    Seq::new(items.len(), |i: int| items[i]@)
}

impl View for Module {
    type V = Seq<ModuleItemView>;

    open spec fn view(&self) -> Seq<ModuleItemView> {
        items_view(self.body@)
    }
}

} // verus!
