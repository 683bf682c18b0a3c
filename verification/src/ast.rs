//! The syntax model the engine works on.
//!
//! Every executable type here has a mathematical view (`@`) in which names are
//! `Seq<char>` and lists are `Seq`. Contracts in the other modules speak only of
//! views. Parts of a tree that the engine moves but never inspects (expressions,
//! class and function bodies, plain statements) are held as `swc_ecma_ast` nodes.

use vstd::prelude::*;

verus! {

/// The view of every element of a sequence.
pub open spec fn views<T: View>(s: Seq<T>) -> Seq<T::V> {
    s.map_values(|x: T| x@)
}

/// Viewing commutes with `push`.
pub proof fn lemma_views_push<T: View>(s: Seq<T>, x: T)
    ensures
        views(s.push(x)) == views(s).push(x@),
{
    assert(views(s.push(x)) =~= views(s).push(x@));
}

/// Viewing commutes with concatenation.
pub proof fn lemma_views_add<T: View>(a: Seq<T>, b: Seq<T>)
    ensures
        views(a + b) == views(a) + views(b),
{
    assert(views(a + b) =~= views(a) + views(b));
}

/// The view of an optional value.
pub open spec fn view_opt<T: View>(o: Option<T>) -> Option<T::V> {
    match o {
        Some(x) => Some(x@),
        None => None,
    }
}

/// Source range of a node, as byte offsets.
#[derive(Clone, Copy, Debug, PartialEq, Eq, Structural)]
pub struct Span {
    pub lo: u32,
    pub hi: u32,
}

/// The span given to nodes that the engine synthesizes.
pub open spec fn dummy_span() -> Span {
    Span { lo: 0, hi: 0 }
}

impl Span {
    pub fn dummy() -> (s: Span)
        ensures
            s == dummy_span(),
    {
        Span { lo: 0, hi: 0 }
    }
}

/// Identity of a binding: its textual name and its hygiene context. Two
/// occurrences denote the same binding exactly when both are equal.
#[derive(Clone, Debug, PartialEq, Eq)]
pub struct Id {
    pub sym: String,
    pub ctxt: u32,
}

pub struct IdView {
    pub sym: Seq<char>,
    pub ctxt: u32,
}

impl View for Id {
    type V = IdView;

    open spec fn view(&self) -> IdView {
        IdView { sym: self.sym@, ctxt: self.ctxt }
    }
}

impl IdView {
    /// The same name under another hygiene context.
    pub open spec fn with_ctxt(self, ctxt: u32) -> IdView {
        IdView { sym: self.sym, ctxt }
    }
}

impl Id {
    pub fn new(sym: String, ctxt: u32) -> (id: Id)
        ensures
            id@ == (IdView { sym: sym@, ctxt }),
    {
        Id { sym, ctxt }
    }

    /// A copy with the same view.
    pub fn dup(&self) -> (id: Id)
        ensures
            id@ == self@,
    {
        Id { sym: self.sym.clone(), ctxt: self.ctxt }
    }

    /// Whether both denote the same binding.
    pub fn same(&self, other: &Id) -> (r: bool)
        ensures
            r == (self@ == other@),
    {
        let r = self.ctxt == other.ctxt && self.sym == other.sym;
        proof {
            if self.sym@ == other.sym@ && self.ctxt == other.ctxt {
                assert(self@ == other@);
            }
        }
        r
    }
}

/// An identifier occurrence: a binding identity and where it was written.
#[derive(Clone, Debug, PartialEq, Eq)]
pub struct Ident {
    pub id: Id,
    pub span: Span,
}

pub struct IdentView {
    pub id: IdView,
    pub span: Span,
}

impl View for Ident {
    type V = IdentView;

    open spec fn view(&self) -> IdentView {
        IdentView { id: self.id@, span: self.span }
    }
}

impl IdentView {
    /// The same occurrence moved to another hygiene context.
    pub open spec fn with_ctxt(self, ctxt: u32) -> IdentView {
        IdentView { id: self.id.with_ctxt(ctxt), span: self.span }
    }

    /// An occurrence of `id` with no source position.
    pub open spec fn of(id: IdView) -> IdentView {
        IdentView { id, span: dummy_span() }
    }
}

impl Ident {
    pub fn new(sym: String, ctxt: u32, span: Span) -> (ident: Ident)
        ensures
            ident@ == (IdentView { id: IdView { sym: sym@, ctxt }, span }),
    {
        Ident { id: Id { sym, ctxt }, span }
    }

    /// A copy with the same view.
    pub fn dup(&self) -> (ident: Ident)
        ensures
            ident@ == self@,
    {
        Ident { id: self.id.dup(), span: self.span }
    }

    /// A copy moved to the hygiene context `ctxt`.
    pub fn with_ctxt(&self, ctxt: u32) -> (ident: Ident)
        ensures
            ident@ == self@.with_ctxt(ctxt),
    {
        Ident { id: Id { sym: self.id.sym.clone(), ctxt }, span: self.span }
    }

    /// An occurrence of `id` with no source position.
    pub fn of(id: &Id) -> (ident: Ident)
        ensures
            ident@ == IdentView::of(id@),
    {
        Ident { id: id.dup(), span: Span::dummy() }
    }
}

/// One binding that an importer requests from a dependency.
#[derive(Clone, Debug, PartialEq, Eq)]
pub enum Specifier {
    /// A single export, bound to `local` in the importer; `alias` is the
    /// exported name where it differs.
    Specific { local: Id, alias: Option<Id> },
    /// All exports as one object bound to `local`. With `all` set it subsumes
    /// every other specifier of the edge.
    Namespace { local: Id, all: bool },
}

pub enum SpecifierView {
    Specific { local: IdView, alias: Option<IdView> },
    Namespace { local: IdView, all: bool },
}

impl View for Specifier {
    type V = SpecifierView;

    open spec fn view(&self) -> SpecifierView {
        match *self {
            Specifier::Specific { local, alias } => SpecifierView::Specific {
                local: local@,
                alias: view_opt(alias),
            },
            Specifier::Namespace { local, all } => SpecifierView::Namespace { local: local@, all },
        }
    }
}

/// What the module registry knows of one module.
#[derive(Clone, Debug, PartialEq, Eq)]
pub struct ModuleRecord {
    pub id: u32,
    /// Context of the module's bindings as seen from inside.
    pub local_ctxt: u32,
    /// Context of the same bindings as seen by importers.
    pub export_ctxt: u32,
    /// For a wrapped module, the binding that holds its namespace object.
    pub wrapped: Option<Id>,
}

pub struct ModuleRecordView {
    pub id: u32,
    pub local_ctxt: u32,
    pub export_ctxt: u32,
    pub wrapped: Option<IdView>,
}

impl View for ModuleRecord {
    type V = ModuleRecordView;

    open spec fn view(&self) -> ModuleRecordView {
        ModuleRecordView {
            id: self.id,
            local_ctxt: self.local_ctxt,
            export_ctxt: self.export_ctxt,
            wrapped: view_opt(self.wrapped),
        }
    }
}

/// The module whose import and export statements are being inlined.
#[derive(Clone, Debug, PartialEq, Eq)]
pub struct Source {
    /// The specifier string by which importers name the module.
    pub src: String,
    pub export_ctxt: u32,
}

pub struct SourceView {
    pub src: Seq<char>,
    pub export_ctxt: u32,
}

impl View for Source {
    type V = SourceView;

    open spec fn view(&self) -> SourceView {
        SourceView { src: self.src@, export_ctxt: self.export_ctxt }
    }
}

#[derive(Clone, Debug, PartialEq, Eq)]
pub enum ImportSpecifier {
    /// `import { imported as local }`, or `import { local }` without `imported`.
    Named { local: Ident, imported: Option<Ident> },
    /// `import local`.
    Default { local: Ident },
    /// `import * as local`.
    Namespace { local: Ident },
}

pub enum ImportSpecifierView {
    Named { local: IdentView, imported: Option<IdentView> },
    Default { local: IdentView },
    Namespace { local: IdentView },
}

impl View for ImportSpecifier {
    type V = ImportSpecifierView;

    open spec fn view(&self) -> ImportSpecifierView {
        match *self {
            ImportSpecifier::Named { local, imported } => ImportSpecifierView::Named {
                local: local@,
                imported: view_opt(imported),
            },
            ImportSpecifier::Default { local } => ImportSpecifierView::Default { local: local@ },
            ImportSpecifier::Namespace { local } => ImportSpecifierView::Namespace {
                local: local@,
            },
        }
    }
}

/// `import <specifiers> from <src>`.
#[derive(Clone, Debug, PartialEq, Eq)]
pub struct ImportDecl {
    pub specifiers: Vec<ImportSpecifier>,
    pub src: String,
    pub type_only: bool,
}

pub struct ImportDeclView {
    pub specifiers: Seq<ImportSpecifierView>,
    pub src: Seq<char>,
    pub type_only: bool,
}

impl View for ImportDecl {
    type V = ImportDeclView;

    open spec fn view(&self) -> ImportDeclView {
        ImportDeclView {
            specifiers: views(self.specifiers@),
            src: self.src@,
            type_only: self.type_only,
        }
    }
}

/// `export * from <src>`.
#[derive(Clone, Debug, PartialEq, Eq)]
pub struct ExportAll {
    pub src: String,
    pub type_only: bool,
}

pub struct ExportAllView {
    pub src: Seq<char>,
    pub type_only: bool,
}

impl View for ExportAll {
    type V = ExportAllView;

    open spec fn view(&self) -> ExportAllView {
        ExportAllView { src: self.src@, type_only: self.type_only }
    }
}

#[derive(Clone, Debug, PartialEq, Eq)]
pub enum ExportSpecifier {
    /// `export * as name from ..`.
    Namespace { name: Ident },
    /// `export exported from ..`.
    Default { exported: Ident },
    /// `export { orig as exported }`, or `export { orig }` without `exported`.
    Named { span: Span, orig: Ident, exported: Option<Ident> },
}

pub enum ExportSpecifierView {
    Namespace { name: IdentView },
    Default { exported: IdentView },
    Named { span: Span, orig: IdentView, exported: Option<IdentView> },
}

impl View for ExportSpecifier {
    type V = ExportSpecifierView;

    open spec fn view(&self) -> ExportSpecifierView {
        match *self {
            ExportSpecifier::Namespace { name } => ExportSpecifierView::Namespace { name: name@ },
            ExportSpecifier::Default { exported } => ExportSpecifierView::Default {
                exported: exported@,
            },
            ExportSpecifier::Named { span, orig, exported } => ExportSpecifierView::Named {
                span,
                orig: orig@,
                exported: view_opt(exported),
            },
        }
    }
}

/// `export { <specifiers> }`, with `from <src>` where `src` is present.
#[derive(Clone, Debug, PartialEq, Eq)]
pub struct NamedExport {
    pub span: Span,
    pub specifiers: Vec<ExportSpecifier>,
    pub src: Option<String>,
    pub type_only: bool,
}

pub struct NamedExportView {
    pub span: Span,
    pub specifiers: Seq<ExportSpecifierView>,
    pub src: Option<Seq<char>>,
    pub type_only: bool,
}

impl View for NamedExport {
    type V = NamedExportView;

    open spec fn view(&self) -> NamedExportView {
        NamedExportView {
            span: self.span,
            specifiers: views(self.specifiers@),
            src: view_opt(self.src),
            type_only: self.type_only,
        }
    }
}

/// The initializer of a synthesized variable.
#[derive(Debug, PartialEq, Eq)]
pub enum Init {
    /// Another binding: the variable is an alias.
    Ident(Ident),
    /// An expression taken from the tree.
    Expr(Box<swc_ecma_ast::Expr>),
}

pub enum InitView {
    Ident(IdentView),
    Expr(swc_ecma_ast::Expr),
}

impl View for Init {
    type V = InitView;

    open spec fn view(&self) -> InitView {
        match *self {
            Init::Ident(i) => InitView::Ident(i@),
            Init::Expr(e) => InitView::Expr(*e),
        }
    }
}

/// `name = init` inside a synthesized `const` statement.
#[derive(Debug, PartialEq, Eq)]
pub struct VarDeclarator {
    pub span: Span,
    pub name: Ident,
    pub init: Init,
    pub definite: bool,
}

pub struct VarDeclaratorView {
    pub span: Span,
    pub name: IdentView,
    pub init: InitView,
    pub definite: bool,
}

impl View for VarDeclarator {
    type V = VarDeclaratorView;

    open spec fn view(&self) -> VarDeclaratorView {
        VarDeclaratorView {
            span: self.span,
            name: self.name@,
            init: self.init@,
            definite: self.definite,
        }
    }
}

/// A `const` statement that the engine synthesized.
#[derive(Debug, PartialEq, Eq)]
pub struct ConstDecl {
    pub span: Span,
    pub decls: Vec<VarDeclarator>,
}

pub struct ConstDeclView {
    pub span: Span,
    pub decls: Seq<VarDeclaratorView>,
}

impl View for ConstDecl {
    type V = ConstDeclView;

    open spec fn view(&self) -> ConstDeclView {
        ConstDeclView { span: self.span, decls: views(self.decls@) }
    }
}

/// A declaration statement.
#[derive(Debug, PartialEq, Eq)]
pub enum Declaration {
    Class { ident: Ident, declare: bool, class: Box<swc_ecma_ast::Class> },
    Fn { ident: Ident, declare: bool, function: Box<swc_ecma_ast::Function> },
    /// A variable statement of the source, with patterns and initializers.
    Var(Box<swc_ecma_ast::VarDecl>),
    /// A `const` statement that the engine synthesized.
    Const(ConstDecl),
    TsInterface(Box<swc_ecma_ast::TsInterfaceDecl>),
    /// Any other declaration; it declares no value the engine tracks.
    Other(swc_ecma_ast::Decl),
}

pub enum DeclarationView {
    Class { ident: IdentView, declare: bool, class: swc_ecma_ast::Class },
    Fn { ident: IdentView, declare: bool, function: swc_ecma_ast::Function },
    Var(swc_ecma_ast::VarDecl),
    Const(ConstDeclView),
    TsInterface(swc_ecma_ast::TsInterfaceDecl),
    Other(swc_ecma_ast::Decl),
}

impl View for Declaration {
    type V = DeclarationView;

    open spec fn view(&self) -> DeclarationView {
        match *self {
            Declaration::Class { ident, declare, class } => DeclarationView::Class {
                ident: ident@,
                declare,
                class: *class,
            },
            Declaration::Fn { ident, declare, function } => DeclarationView::Fn {
                ident: ident@,
                declare,
                function: *function,
            },
            Declaration::Var(v) => DeclarationView::Var(*v),
            Declaration::Const(c) => DeclarationView::Const(c@),
            Declaration::TsInterface(t) => DeclarationView::TsInterface(*t),
            Declaration::Other(d) => DeclarationView::Other(d),
        }
    }
}

/// The declaration of an `export default` statement.
#[derive(Debug, PartialEq, Eq)]
pub enum DefaultDecl {
    Class { ident: Option<Ident>, class: Box<swc_ecma_ast::Class> },
    Fn { ident: Option<Ident>, function: Box<swc_ecma_ast::Function> },
    TsInterface(Box<swc_ecma_ast::TsInterfaceDecl>),
}

pub enum DefaultDeclView {
    Class { ident: Option<IdentView>, class: swc_ecma_ast::Class },
    Fn { ident: Option<IdentView>, function: swc_ecma_ast::Function },
    TsInterface(swc_ecma_ast::TsInterfaceDecl),
}

impl View for DefaultDecl {
    type V = DefaultDeclView;

    open spec fn view(&self) -> DefaultDeclView {
        match *self {
            DefaultDecl::Class { ident, class } => DefaultDeclView::Class {
                ident: view_opt(ident),
                class: *class,
            },
            DefaultDecl::Fn { ident, function } => DefaultDeclView::Fn {
                ident: view_opt(ident),
                function: *function,
            },
            DefaultDecl::TsInterface(t) => DefaultDeclView::TsInterface(*t),
        }
    }
}

/// One top-level item of a module body.
#[derive(Debug, PartialEq, Eq)]
pub enum ModuleItem {
    Import(ImportDecl),
    /// `export <declaration>`.
    ExportDecl(Declaration),
    ExportNamed(NamedExport),
    /// `export default <declaration>`.
    ExportDefaultDecl(DefaultDecl),
    /// `export default <expression>`.
    ExportDefaultExpr(Box<swc_ecma_ast::Expr>),
    ExportAll(ExportAll),
    /// A module declaration of a shape the engine does not handle.
    Unsupported(swc_ecma_ast::ModuleDecl),
    /// The empty statement, used as a placeholder.
    Empty,
    /// A declaration that is not exported.
    Decl(Declaration),
    /// Any other statement.
    Stmt(swc_ecma_ast::Stmt),
}

pub enum ModuleItemView {
    Import(ImportDeclView),
    ExportDecl(DeclarationView),
    ExportNamed(NamedExportView),
    ExportDefaultDecl(DefaultDeclView),
    ExportDefaultExpr(swc_ecma_ast::Expr),
    ExportAll(ExportAllView),
    Unsupported(swc_ecma_ast::ModuleDecl),
    Empty,
    Decl(DeclarationView),
    Stmt(swc_ecma_ast::Stmt),
}

impl View for ModuleItem {
    type V = ModuleItemView;

    open spec fn view(&self) -> ModuleItemView {
        match *self {
            ModuleItem::Import(i) => ModuleItemView::Import(i@),
            ModuleItem::ExportDecl(d) => ModuleItemView::ExportDecl(d@),
            ModuleItem::ExportNamed(n) => ModuleItemView::ExportNamed(n@),
            ModuleItem::ExportDefaultDecl(d) => ModuleItemView::ExportDefaultDecl(d@),
            ModuleItem::ExportDefaultExpr(e) => ModuleItemView::ExportDefaultExpr(*e),
            ModuleItem::ExportAll(e) => ModuleItemView::ExportAll(e@),
            ModuleItem::Unsupported(d) => ModuleItemView::Unsupported(d),
            ModuleItem::Empty => ModuleItemView::Empty,
            ModuleItem::Decl(d) => ModuleItemView::Decl(d@),
            ModuleItem::Stmt(s) => ModuleItemView::Stmt(s),
        }
    }
}

} // verus!
