//! The syntax nodes and functions of the `swc` crates that the engine uses.
//!
//! The node types are opaque here: the engine moves such values and never looks
//! inside them. Two functions of those crates are called, each through one
//! wrapper whose contract is taken on trust.

use vstd::prelude::*;
use crate::ast::{views, Ident, IdentView, Span};

verus! {

#[verifier::external_type_specification]
#[verifier::external_body]
pub struct ExExpr(swc_ecma_ast::Expr);

#[verifier::external_type_specification]
#[verifier::external_body]
pub struct ExClass(swc_ecma_ast::Class);

#[verifier::external_type_specification]
#[verifier::external_body]
pub struct ExFunction(swc_ecma_ast::Function);

#[verifier::external_type_specification]
#[verifier::external_body]
pub struct ExVarDecl(swc_ecma_ast::VarDecl);

#[verifier::external_type_specification]
#[verifier::external_body]
pub struct ExTsInterfaceDecl(swc_ecma_ast::TsInterfaceDecl);

#[verifier::external_type_specification]
#[verifier::external_body]
pub struct ExDecl(swc_ecma_ast::Decl);

#[verifier::external_type_specification]
#[verifier::external_body]
pub struct ExModuleDecl(swc_ecma_ast::ModuleDecl);

#[verifier::external_type_specification]
#[verifier::external_body]
pub struct ExStmt(swc_ecma_ast::Stmt);

/// The identifiers that the patterns of a variable statement bind, in source
/// order: what `swc_ecma_utils::find_pat_ids` collects from its declarators.
pub uninterp spec fn pattern_ids(decl: swc_ecma_ast::VarDecl) -> Seq<IdentView>;

/// The source range of an expression: what `swc_common::Spanned::span` returns
/// for it.
pub uninterp spec fn expr_span(expr: swc_ecma_ast::Expr) -> Span;

/// Calls `swc_ecma_utils::find_pat_ids` on the declarators of `decl` and copies
/// each identifier found, in order, with its name, context and span. The result
/// depends on `decl` alone; the contract names it `pattern_ids(decl)` and says
/// nothing else of it.
#[verifier::external_body]
pub(crate) fn bound_idents(decl: &swc_ecma_ast::VarDecl) -> (ids: Vec<Ident>)
    ensures
        views(ids@) == pattern_ids(*decl),
{
    let found: Vec<swc_ecma_ast::Ident> = swc_ecma_utils::find_pat_ids(&decl.decls);
    let mut ids: Vec<Ident> = Vec::new();
    for i in found {
        let span = Span { lo: i.span.lo.0, hi: i.span.hi.0 };
        ids.push(Ident::new(i.sym.to_string(), i.ctxt.as_u32(), span));
    }
    ids
}

/// Calls `swc_common::Spanned::span` on `expr` and copies the two offsets. The
/// result depends on `expr` alone; the contract names it `expr_span(expr)` and
/// says nothing else of it.
#[verifier::external_body]
pub(crate) fn span_of(expr: &swc_ecma_ast::Expr) -> (span: Span)
    ensures
        span == expr_span(*expr),
{
    let s = swc_common::Spanned::span(expr);
    Span { lo: s.lo.0, hi: s.hi.0 }
}

} // verus!
