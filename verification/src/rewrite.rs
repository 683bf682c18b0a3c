//! The export-to-variable rewriter: export statements that name no source
//! become ordinary `const` statements.

use vstd::prelude::*;
use crate::ast::{
    lemma_views_push, views, ConstDecl, ConstDeclView, Declaration, DeclarationView,
    ExportSpecifier, ExportSpecifierView, Ident, IdentView, IdView, Init, InitView, ModuleItem,
    ModuleItemView, Span, VarDeclarator, VarDeclaratorView,
};
use crate::hoist::{const_item, make_const};
use crate::outside::{expr_span, span_of};

verus! {

/// The name under which a default-exported expression is kept.
pub open spec fn default_name() -> Seq<char> {
    "__default"@
}

/// The identifier that holds a default-exported expression: `__default` under
/// the export context, positioned at the expression.
pub open spec fn default_ident(expr: swc_ecma_ast::Expr, export_ctxt: u32) -> IdentView {
    IdentView { id: IdView { sym: default_name(), ctxt: export_ctxt }, span: expr_span(expr) }
}

/// The declarator that one specifier of a source-less `export { .. }` gives.
///
/// With an explicit alias that differs from the exported binding in name or
/// context it is `alias = orig`. Without an alias, and with the binding outside
/// the export context, it is `orig(export_ctxt) = orig`. Otherwise the name is
/// already reachable and there is none.
pub open spec fn specifier_decl(s: ExportSpecifierView, export_ctxt: u32) -> Option<
    VarDeclaratorView,
> {
    match s {
        ExportSpecifierView::Named { span, orig, exported: Some(exported) } => {
            if exported.id != orig.id {
                Some(
                    VarDeclaratorView {
                        span,
                        name: exported,
                        init: InitView::Ident(orig),
                        definite: true,
                    },
                )
            } else {
                None
            }
        },
        ExportSpecifierView::Named { span, orig, exported: None } => {
            if orig.id.ctxt != export_ctxt {
                Some(
                    VarDeclaratorView {
                        span,
                        name: orig.with_ctxt(export_ctxt),
                        init: InitView::Ident(orig),
                        definite: false,
                    },
                )
            } else {
                None
            }
        },
        _ => None,
    }
}

/// `specifier_decl` for a fixed export context.
pub open spec fn specifier_decl_with(export_ctxt: u32) -> spec_fn(ExportSpecifierView) -> Option<
    VarDeclaratorView,
> {
    |s: ExportSpecifierView| specifier_decl(s, export_ctxt)
}

/// The declarators for the specifiers of one export statement, in order.
pub open spec fn specifier_decls(specifiers: Seq<ExportSpecifierView>, export_ctxt: u32) -> Seq<
    VarDeclaratorView,
> {
    specifiers.filter_map(specifier_decl_with(export_ctxt))
}

/// What the rewriter makes of one statement.
///
/// `export default <expr>` becomes `const __default = <expr>`. A source-less
/// `export { .. }` becomes one `const` statement with the declarators of its
/// specifiers, or the empty statement where there are none. Any other
/// statement is unchanged.
pub open spec fn rewrite_item(item: ModuleItemView, export_ctxt: u32) -> ModuleItemView {
    match item {
        ModuleItemView::ExportDefaultExpr(expr) => const_item(
            default_ident(expr, export_ctxt),
            InitView::Expr(expr),
        ),
        ModuleItemView::ExportNamed(export) => if export.src is None {
            let decls = specifier_decls(export.specifiers, export_ctxt);
            if decls.len() == 0 {
                ModuleItemView::Empty
            } else {
                ModuleItemView::Decl(
                    DeclarationView::Const(ConstDeclView { span: export.span, decls }),
                )
            }
        } else {
            item
        },
        _ => item,
    }
}

/// `rewrite_item` for a fixed export context.
pub open spec fn rewrite_with(export_ctxt: u32) -> spec_fn(ModuleItemView) -> ModuleItemView {
    |item: ModuleItemView| rewrite_item(item, export_ctxt)
}

/// The rewritten body: statement by statement, in place.
pub open spec fn rewrite(body: Seq<ModuleItemView>, export_ctxt: u32) -> Seq<ModuleItemView> {
    body.map_values(rewrite_with(export_ctxt))
}

/// Whether two identifiers differ in name or in context.
fn differs(a: &Ident, b: &Ident) -> (r: bool)
    ensures
        r == (a@.id != b@.id),
{
    !a.id.same(&b.id)
}

/// The declarators for the specifiers of one source-less export statement.
fn export_declarators(specifiers: &Vec<ExportSpecifier>, export_ctxt: u32) -> (decls: Vec<
    VarDeclarator,
>)
    ensures
        views(decls@) == specifier_decls(views(specifiers@), export_ctxt),
{
    let ghost f = specifier_decl_with(export_ctxt);
    let ghost vs = views(specifiers@);
    let mut decls: Vec<VarDeclarator> = Vec::new();
    let mut k: usize = 0;
    proof {
        assert(views(decls@) =~= vs.take(0).filter_map(f));
    }
    while k < specifiers.len()
        invariant
            k <= specifiers.len(),
            f == specifier_decl_with(export_ctxt),
            vs == views(specifiers@),
            views(decls@) == vs.take(k as int).filter_map(f),
        decreases specifiers.len() - k,
    {
        let ghost done = vs.take(k as int).filter_map(f);
        proof {
            assert(vs.take(k + 1).drop_last() =~= vs.take(k as int));
            assert(vs.take(k + 1).last() == specifiers@[k as int]@);
            assert(f(specifiers@[k as int]@) == specifier_decl(specifiers@[k as int]@, export_ctxt));
        }
        let mut found: Option<VarDeclarator> = None;
        match &specifiers[k] {
            ExportSpecifier::Named { span, orig, exported: Some(exported) } => {
                if differs(exported, orig) {
                    found =
                    Some(
                        VarDeclarator {
                            span: *span,
                            name: exported.dup(),
                            init: Init::Ident(orig.dup()),
                            definite: true,
                        },
                    );
                }
            },
            ExportSpecifier::Named { span, orig, exported: None } => {
                if orig.id.ctxt != export_ctxt {
                    found =
                    Some(
                        VarDeclarator {
                            span: *span,
                            name: orig.with_ctxt(export_ctxt),
                            init: Init::Ident(orig.dup()),
                            definite: false,
                        },
                    );
                }
            },
            _ => {},
        }
        match found {
            Some(d) => {
                proof {
                    lemma_views_push(decls@, d);
                    assert(specifier_decl(specifiers@[k as int]@, export_ctxt) == Some(d@));
                    assert(vs.take(k + 1).filter_map(f) == done + seq![d@]);
                    assert(done.push(d@) =~= done + seq![d@]);
                }
                decls.push(d);
            },
            None => {
                proof {
                    assert(specifier_decl(specifiers@[k as int]@, export_ctxt) is None);
                    assert(vs.take(k + 1).filter_map(f) == done);
                }
            },
        }
        k = k + 1;
    }
    proof {
        assert(vs.take(k as int) =~= vs);
    }
    decls
}

/// The variable that holds a default-exported expression positioned at `span`:
/// `const __default = <expr>` under the export context.
pub fn default_variable(expr: Box<swc_ecma_ast::Expr>, span: Span, export_ctxt: u32) -> (item:
    ModuleItem)
    ensures
        item@ == const_item(
            IdentView { id: IdView { sym: default_name(), ctxt: export_ctxt }, span },
            InitView::Expr(*expr),
        ),
{
    let name = Ident::new("__default".to_owned(), export_ctxt, span);
    make_const(name, Init::Expr(expr))
}

/// Turns one export statement that names no source into a `const` statement;
/// returns any other statement unchanged.
pub fn unexport_as_var(item: ModuleItem, export_ctxt: u32) -> (out: ModuleItem)
    ensures
        out@ == rewrite_item(item@, export_ctxt),
{
    match item {
        ModuleItem::ExportDefaultExpr(expr) => {
            let span = span_of(&expr);
            default_variable(expr, span, export_ctxt)
        },
        ModuleItem::ExportNamed(export) => {
            if export.src.is_none() {
                let decls = export_declarators(&export.specifiers, export_ctxt);
                if decls.len() == 0 {
                    ModuleItem::Empty
                } else {
                    ModuleItem::Decl(Declaration::Const(ConstDecl { span: export.span, decls }))
                }
            } else {
                ModuleItem::ExportNamed(export)
            }
        },
        other => other,
    }
}

/// Applies `unexport_as_var` to every top-level statement of `body`. Nested
/// scopes are not entered.
pub fn unexport_all_as_var(body: Vec<ModuleItem>, export_ctxt: u32) -> (out: Vec<ModuleItem>)
    ensures
        views(out@) == rewrite(views(body@), export_ctxt),
{
    let ghost src = views(body@);
    let ghost all = rewrite(src, export_ctxt);
    let mut out: Vec<ModuleItem> = Vec::new();
    proof {
        assert(views(out@) =~= all.take(0));
    }
    for item in it: body.into_iter()
        invariant
            src == views(it.seq()),
            all == rewrite(src, export_ctxt),
            views(out@) == all.take(it.index()),
    {
        let ghost k = it.index();
        let new = unexport_as_var(item, export_ctxt);
        proof {
            lemma_views_push(out@, new);
            assert(src[k] == item@);
            assert(all[k] == rewrite_item(src[k], export_ctxt));
            assert(all.take(k + 1) =~= all.take(k).push(all[k]));
        }
        out.push(new);
    }
    proof {
        assert(all.take(all.len() as int) =~= all);
    }
    out
}

} // verus!
