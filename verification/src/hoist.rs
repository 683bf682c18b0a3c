//! The re-export hoister: before any export wrapper is stripped, every exported
//! binding gets a variable of its own under the dependency's export context.

use vstd::prelude::*;
use crate::ast::{
    dummy_span, lemma_views_add, lemma_views_push, views, ConstDecl, ConstDeclView, Declaration,
    DeclarationView, Ident, IdentView, ImportDecl, ImportDeclView, ImportSpecifier,
    ImportSpecifierView, Init, InitView, ModuleItem, ModuleItemView, ModuleRecord, Span,
    VarDeclarator, VarDeclaratorView,
};
use crate::outside::{bound_idents, pattern_ids};

verus! {

/// The statement `const name = init`, as the engine synthesizes it.
pub open spec fn const_item(name: IdentView, init: InitView) -> ModuleItemView {
    ModuleItemView::Decl(
        DeclarationView::Const(
            ConstDeclView {
                span: dummy_span(),
                decls: seq![
                    VarDeclaratorView { span: dummy_span(), name, init, definite: false },
                ],
            },
        ),
    )
}

/// The statement `const to = from`, where `to` is written without a position.
pub open spec fn alias_item(to: IdentView, from: IdentView) -> ModuleItemView {
    const_item(IdentView::of(to.id), InitView::Ident(from))
}

/// The variable that keeps an import specifier's local name alive: for
/// `import { imported as local }` it is `const local = imported`; the other
/// forms of specifier give none.
pub open spec fn import_alias(s: ImportSpecifierView) -> Option<ModuleItemView> {
    match s {
        ImportSpecifierView::Named { local, imported: Some(imported) } => Some(
            alias_item(local, imported),
        ),
        _ => None,
    }
}

/// The variables for the specifiers of one import, in the specifiers' order.
pub open spec fn import_aliases(specifiers: Seq<ImportSpecifierView>) -> Seq<ModuleItemView> {
    specifiers.filter_map(|s: ImportSpecifierView| import_alias(s))
}

/// The identifiers that a declaration binds at top level, in source order.
pub open spec fn declared_idents(d: DeclarationView) -> Seq<IdentView> {
    match d {
        DeclarationView::Class { ident, .. } => seq![ident],
        DeclarationView::Fn { ident, .. } => seq![ident],
        DeclarationView::Var(v) => pattern_ids(v),
        DeclarationView::Const(c) => c.decls.map_values(|d: VarDeclaratorView| d.name),
        DeclarationView::TsInterface(_) => Seq::empty(),
        DeclarationView::Other(_) => Seq::empty(),
    }
}

/// The variable that exposes a declared name under the export context:
/// `const name(export_ctxt) = name`.
pub open spec fn export_alias(ident: IdentView, export_ctxt: u32) -> ModuleItemView {
    alias_item(ident.with_ctxt(export_ctxt), ident)
}

/// The variables for all names of one exported declaration.
pub open spec fn export_aliases(idents: Seq<IdentView>, export_ctxt: u32) -> Seq<ModuleItemView> {
    idents.map_values(|i: IdentView| export_alias(i, export_ctxt))
}

/// What the hoister leaves of one statement: the statement itself, an import
/// without its specifiers.
pub open spec fn hoist_kept(item: ModuleItemView) -> ModuleItemView {
    match item {
        ModuleItemView::Import(i) => ModuleItemView::Import(
            ImportDeclView { specifiers: Seq::empty(), src: i.src, type_only: i.type_only },
        ),
        _ => item,
    }
}

/// The variables that the hoister synthesizes for one statement.
pub open spec fn hoist_added(item: ModuleItemView, export_ctxt: u32) -> Seq<ModuleItemView> {
    match item {
        ModuleItemView::Import(i) => import_aliases(i.specifiers),
        ModuleItemView::ExportDecl(d) => export_aliases(declared_idents(d), export_ctxt),
        _ => Seq::empty(),
    }
}

/// What one statement becomes: itself, then the variables synthesized for it.
pub open spec fn hoist_item(item: ModuleItemView, export_ctxt: u32) -> Seq<ModuleItemView> {
    seq![hoist_kept(item)] + hoist_added(item, export_ctxt)
}

/// `hoist_item` for a fixed export context.
pub open spec fn hoist_with(export_ctxt: u32) -> spec_fn(ModuleItemView) -> Seq<ModuleItemView> {
    |item: ModuleItemView| hoist_item(item, export_ctxt)
}

/// The hoisted body: each statement's result, in the statements' order.
pub open spec fn hoist(body: Seq<ModuleItemView>, export_ctxt: u32) -> Seq<ModuleItemView> {
    body.flat_map(hoist_with(export_ctxt))
}

/// Builds the statement `const name = init`.
pub fn make_const(name: Ident, init: Init) -> (item: ModuleItem)
    ensures
        item@ == const_item(name@, init@),
{
    let mut decls: Vec<VarDeclarator> = Vec::new();
    decls.push(VarDeclarator { span: Span::dummy(), name, init, definite: false });
    let item = ModuleItem::Decl(Declaration::Const(ConstDecl { span: Span::dummy(), decls }));
    proof {
        assert(views(decls@) =~= seq![decls@[0]@]);
    }
    item
}

/// Builds the statement `const to = from`.
pub fn make_alias(to: &Ident, from: &Ident) -> (item: ModuleItem)
    ensures
        item@ == alias_item(to@, from@),
{
    make_const(Ident::of(&to.id), Init::Ident(from.dup()))
}

/// Appends to `out` the variables for the specifiers of one import.
fn push_import_aliases(out: &mut Vec<ModuleItem>, specifiers: &Vec<ImportSpecifier>)
    ensures
        views(final(out)@) == views(old(out)@) + import_aliases(views(specifiers@)),
{
    let ghost f = |s: ImportSpecifierView| import_alias(s);
    let ghost before = views(out@);
    let mut k: usize = 0;
    while k < specifiers.len()
        invariant
            k <= specifiers.len(),
            f == (|s: ImportSpecifierView| import_alias(s)),
            views(out@) == before + views(specifiers@).take(k as int).filter_map(f),
        decreases specifiers.len() - k,
    {
        let ghost vs = views(specifiers@);
        let ghost done = vs.take(k as int).filter_map(f);
        proof {
            assert(vs.take(k + 1).drop_last() =~= vs.take(k as int));
            assert(vs.take(k + 1).last() == specifiers@[k as int]@);
            assert(f(specifiers@[k as int]@) == import_alias(specifiers@[k as int]@));
        }
        match &specifiers[k] {
            ImportSpecifier::Named { local, imported: Some(imported) } => {
                let item = make_alias(local, imported);
                proof {
                    lemma_views_push(out@, item);
                    assert(import_alias(specifiers@[k as int]@) == Some(item@));
                    assert(vs.take(k + 1).filter_map(f) == done + seq![item@]);
                    assert((before + done).push(item@) =~= before + (done + seq![item@]));
                }
                out.push(item);
            },
            _ => {
                proof {
                    assert(import_alias(specifiers@[k as int]@) is None);
                    assert(vs.take(k + 1).filter_map(f) == done);
                }
            },
        }
        k = k + 1;
    }
    proof {
        assert(views(specifiers@).take(k as int) =~= views(specifiers@));
    }
}

/// The identifiers that a declaration binds at top level.
pub fn declared(decl: &Declaration) -> (ids: Vec<Ident>)
    ensures
        views(ids@) == declared_idents(decl@),
{
    match decl {
        Declaration::Class { ident, .. } => {
            let mut ids: Vec<Ident> = Vec::new();
            ids.push(ident.dup());
            proof {
                assert(views(ids@) =~= seq![ident@]);
            }
            ids
        },
        Declaration::Fn { ident, .. } => {
            let mut ids: Vec<Ident> = Vec::new();
            ids.push(ident.dup());
            proof {
                assert(views(ids@) =~= seq![ident@]);
            }
            ids
        },
        Declaration::Var(v) => bound_idents(v),
        Declaration::Const(c) => {
            let mut ids: Vec<Ident> = Vec::new();
            let mut k: usize = 0;
            while k < c.decls.len()
                invariant
                    k <= c.decls.len(),
                    views(ids@) == declared_idents(decl@).take(k as int),
                    decl == Declaration::Const(*c),
                decreases c.decls.len() - k,
            {
                let name = c.decls[k].name.dup();
                proof {
                    lemma_views_push(ids@, name);
                    let all = declared_idents(decl@);
                    assert(all[k as int] == c.decls@[k as int]@.name);
                    assert(all.take(k + 1) =~= all.take(k as int).push(all[k as int]));
                }
                ids.push(name);
                k = k + 1;
            }
            proof {
                assert(declared_idents(decl@).take(k as int) =~= declared_idents(decl@));
            }
            ids
        },
        Declaration::TsInterface(_) => {
            let ids: Vec<Ident> = Vec::new();
            proof {
                assert(views(ids@) =~= Seq::empty());
            }
            ids
        },
        Declaration::Other(_) => {
            let ids: Vec<Ident> = Vec::new();
            proof {
                assert(views(ids@) =~= Seq::empty());
            }
            ids
        },
    }
}

/// The export-context variables for the names of one exported declaration:
/// `const name(export_ctxt) = name` for each of `idents`, in order.
pub fn export_alias_items(idents: &Vec<Ident>, export_ctxt: u32) -> (items: Vec<ModuleItem>)
    ensures
        views(items@) == export_aliases(views(idents@), export_ctxt),
{
    let ghost all = export_aliases(views(idents@), export_ctxt);
    let mut items: Vec<ModuleItem> = Vec::new();
    let mut k: usize = 0;
    proof {
        assert(views(items@) =~= all.take(0));
    }
    while k < idents.len()
        invariant
            k <= idents.len(),
            all == export_aliases(views(idents@), export_ctxt),
            views(items@) == all.take(k as int),
        decreases idents.len() - k,
    {
        let exported = idents[k].with_ctxt(export_ctxt);
        let item = make_alias(&exported, &idents[k]);
        proof {
            lemma_views_push(items@, item);
            assert(all[k as int] == export_alias(idents@[k as int]@, export_ctxt));
            assert(all.take(k + 1) =~= all.take(k as int).push(all[k as int]));
        }
        items.push(item);
        k = k + 1;
    }
    proof {
        assert(all.take(k as int) =~= all);
    }
    items
}

/// Rewrites a dependency's body so that every binding it exports, and every
/// local name an import statement bound to another name, is an ordinary
/// variable.
///
/// Each statement stays in place. An import loses its specifiers and is
/// followed by `const local = imported` for every specifier
/// `{ imported as local }`. An exported declaration is followed by
/// `const name(export context) = name` for every name it declares. Nothing is
/// removed.
pub fn handle_reexport(info: &ModuleRecord, body: Vec<ModuleItem>) -> (out: Vec<ModuleItem>)
    ensures
        views(out@) == hoist(views(body@), info.export_ctxt),
{
    let ghost f = hoist_with(info.export_ctxt);
    let ghost src = views(body@);
    let mut out: Vec<ModuleItem> = Vec::new();
    proof {
        assert(src.take(0) =~= Seq::empty());
        assert(views(out@) =~= src.take(0).flat_map(f));
    }
    for item in it: body.into_iter()
        invariant
            f == hoist_with(info.export_ctxt),
            src == views(it.seq()),
            views(out@) == src.take(it.index()).flat_map(f),
    {
        let ghost k = it.index();
        let ghost before = views(out@);
        proof {
            src.lemma_flat_map_take_append(f, k);
            assert(src[k] == item@);
        }
        match item {
            ModuleItem::Import(import) => {
                let ImportDecl { specifiers, src: from, type_only } = import;
                out.push(
                    ModuleItem::Import(ImportDecl { specifiers: Vec::new(), src: from, type_only }),
                );
                proof {
                    assert(views(Seq::<ImportSpecifier>::empty()) =~= Seq::empty());
                    assert(views(out@) =~= before + seq![hoist_kept(item@)]);
                }
                push_import_aliases(&mut out, &specifiers);
            },
            ModuleItem::ExportDecl(decl) => {
                let ids = declared(&decl);
                let mut aliases = export_alias_items(&ids, info.export_ctxt);
                out.push(ModuleItem::ExportDecl(decl));
                proof {
                    assert(views(out@) =~= before + seq![hoist_kept(item@)]);
                    lemma_views_add(out@, aliases@);
                }
                out.append(&mut aliases);
            },
            other => {
                out.push(other);
                proof {
                    assert(views(out@) =~= before + seq![hoist_kept(item@)]);
                }
            },
        }
        proof {
            assert(views(out@) =~= before + hoist_item(item@, info.export_ctxt));
        }
    }
    proof {
        assert(src.take(src.len() as int) =~= src);
    }
    out
}

} // verus!
