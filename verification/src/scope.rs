//! The top-level bindings of a module body.

use vstd::prelude::*;
use crate::ast::{
    DefaultDeclView, IdView, IdentView, ImportSpecifierView, ModuleItemView, SpecifierView,
};
use crate::hoist::declared_idents;
use crate::seqs::{lemma_flat_map_add, lemma_flat_map_contains, lemma_flat_map_member};
use crate::unexport::{stays, unexport, unexport_item};

verus! {

/// The binding identities of a sequence of identifiers.
pub open spec fn ids(idents: Seq<IdentView>) -> Seq<IdView> {
    idents.map_values(|i: IdentView| i.id)
}

/// The binding that an import specifier introduces.
pub open spec fn import_local(s: ImportSpecifierView) -> IdView {
    match s {
        ImportSpecifierView::Named { local, .. } => local.id,
        ImportSpecifierView::Default { local } => local.id,
        ImportSpecifierView::Namespace { local } => local.id,
    }
}

/// The bindings that one statement introduces at top level, in source order:
/// the local names of an import, the names of a declaration, exported or not,
/// and the name of a default-exported class or function that has one.
pub open spec fn item_bindings(item: ModuleItemView) -> Seq<IdView> {
    match item {
        ModuleItemView::Import(i) => i.specifiers.map_values(
            |s: ImportSpecifierView| import_local(s),
        ),
        ModuleItemView::ExportDecl(d) => ids(declared_idents(d)),
        ModuleItemView::Decl(d) => ids(declared_idents(d)),
        ModuleItemView::ExportDefaultDecl(d) => match d {
            DefaultDeclView::Class { ident: Some(ident), .. } => seq![ident.id],
            DefaultDeclView::Fn { ident: Some(ident), .. } => seq![ident.id],
            _ => Seq::empty(),
        },
        _ => Seq::empty(),
    }
}

/// `item_bindings` as a function value.
pub open spec fn bindings_of() -> spec_fn(ModuleItemView) -> Seq<IdView> {
    |item: ModuleItemView| item_bindings(item)
}

/// The top-level bindings of a body, in source order.
pub open spec fn bindings(body: Seq<ModuleItemView>) -> Seq<IdView> {
    body.flat_map(bindings_of())
}

/// The bindings of a concatenation are those of its parts.
pub proof fn lemma_bindings_add(a: Seq<ModuleItemView>, b: Seq<ModuleItemView>)
    ensures
        bindings(a + b) == bindings(a) + bindings(b),
{
    lemma_flat_map_add(a, b, bindings_of());
}

/// A body binds what one of its statements binds.
pub proof fn lemma_bindings_contains(body: Seq<ModuleItemView>, k: int, x: IdView)
    requires
        0 <= k < body.len(),
        item_bindings(body[k]).contains(x),
    ensures
        bindings(body).contains(x),
{
    lemma_flat_map_contains(body, bindings_of(), k, x);
}

/// What a body binds, one of its statements binds.
pub proof fn lemma_bindings_member(body: Seq<ModuleItemView>, x: IdView) -> (k: int)
    requires
        bindings(body).contains(x),
    ensures
        0 <= k < body.len(),
        item_bindings(body[k]).contains(x),
{
    lemma_flat_map_member(body, bindings_of(), x)
}

/// The unexporter introduces no binding: what a statement binds after it, the
/// statement bound before.
pub proof fn lemma_unexport_binds_no_more(
    item: ModuleItemView,
    exports: Seq<SpecifierView>,
    x: IdView,
)
    requires
        item_bindings(unexport_item(item, exports)).contains(x),
    ensures
        item_bindings(item).contains(x),
{
    match item {
        ModuleItemView::ExportDefaultDecl(d) => {
            match d {
                DefaultDeclView::Class { ident: Some(ident), .. } => {
                    assert(declared_idents(unexport_item(item, exports)->Decl_0) =~= seq![ident]);
                    assert(item_bindings(unexport_item(item, exports)) =~= seq![ident.id]);
                },
                DefaultDeclView::Fn { ident: Some(ident), .. } => {
                    assert(declared_idents(unexport_item(item, exports)->Decl_0) =~= seq![ident]);
                    assert(item_bindings(unexport_item(item, exports)) =~= seq![ident.id]);
                },
                _ => {},
            }
        },
        _ => {},
    }
}

/// Dead-export elimination. An exported declaration that does not stay leaves
/// the empty statement in its place, and a binding that only it introduced is
/// no binding of the result.
pub proof fn dead_export_is_eliminated(
    body: Seq<ModuleItemView>,
    exports: Seq<SpecifierView>,
    k: int,
    x: IdView,
)
    requires
        0 <= k < body.len(),
        body[k] matches ModuleItemView::ExportDecl(d) && !stays(d, exports),
        forall|j: int| 0 <= j < body.len() && j != k ==> !item_bindings(#[trigger] body[j]).contains(x),
    ensures
        unexport(body, exports)[k] == ModuleItemView::Empty,
        !bindings(unexport(body, exports)).contains(x),
{
    let out = unexport(body, exports);
    if bindings(out).contains(x) {
        let j = lemma_bindings_member(out, x);
        assert(out[j] == unexport_item(body[j], exports));
        if j != k {
            lemma_unexport_binds_no_more(body[j], exports, x);
        }
    }
}

/// An exported declaration that stays becomes the plain declaration, in
/// place, and every binding it introduces is a binding of the result.
pub proof fn demanded_export_is_kept(
    body: Seq<ModuleItemView>,
    exports: Seq<SpecifierView>,
    k: int,
    x: IdView,
)
    requires
        0 <= k < body.len(),
        body[k] matches ModuleItemView::ExportDecl(d) && stays(d, exports),
        item_bindings(body[k]).contains(x),
    ensures
        unexport(body, exports)[k] == ModuleItemView::Decl(body[k]->ExportDecl_0),
        bindings(unexport(body, exports)).contains(x),
{
    let out = unexport(body, exports);
    assert(out[k] == unexport_item(body[k], exports));
    lemma_bindings_contains(out, k, x);
}

} // verus!
