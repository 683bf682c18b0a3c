//! Hygiene of a merge: bindings that were distinct stay distinct, and the
//! variables that the passes synthesize collide with none of them.

use vstd::prelude::*;
use crate::ast::{
    DefaultDeclView, IdView, IdentView, ImportSpecifierView, InitView, ModuleItemView,
    SpecifierView, VarDeclaratorView,
};
use crate::hoist::{
    const_item, declared_idents, export_aliases, hoist, hoist_added, hoist_item, hoist_kept,
    hoist_with, import_alias, import_aliases,
};
use crate::laws::{passes, passes_preserve_order};
use crate::rewrite::{
    default_ident, default_name, rewrite, rewrite_item, rewrite_with, specifier_decls,
};
use crate::scope::{
    bindings, bindings_of, ids, import_local, item_bindings, lemma_bindings_add,
};
use crate::seqs::{lemma_contains_add, lemma_map_add, lemma_no_dup_join, lemma_no_dup_parts};
use crate::unexport::{unexport, unexport_item, unexport_with};

verus! {

/// Moving a binding to the context `ctxt`, as a function value.
pub open spec fn recontext(ctxt: u32) -> spec_fn(IdView) -> IdView {
    |id: IdView| id.with_ctxt(ctxt)
}

/// The bindings that a merge introduces for one statement: the export-context
/// alias of every name an exported declaration declares, the variables of a
/// source-less `export { .. }`, and `__default` for a default-exported
/// expression.
pub open spec fn introduced(item: ModuleItemView, export_ctxt: u32) -> Seq<IdView> {
    match item {
        ModuleItemView::ExportDecl(d) => ids(declared_idents(d)).map_values(recontext(export_ctxt)),
        ModuleItemView::ExportNamed(n) => if n.src is None {
            specifier_decls(n.specifiers, export_ctxt).map_values(|d: VarDeclaratorView| d.name.id)
        } else {
            Seq::empty()
        },
        ModuleItemView::ExportDefaultExpr(_) => seq![
            IdView { sym: default_name(), ctxt: export_ctxt },
        ],
        _ => Seq::empty(),
    }
}

/// `introduced` for a fixed export context.
pub open spec fn introduced_with(export_ctxt: u32) -> spec_fn(ModuleItemView) -> Seq<IdView> {
    |item: ModuleItemView| introduced(item, export_ctxt)
}

/// The bindings that a merge introduces for a body, in source order.
pub open spec fn all_introduced(body: Seq<ModuleItemView>, export_ctxt: u32) -> Seq<IdView> {
    body.flat_map(introduced_with(export_ctxt))
}

/// A synthesized `const name = init` binds `name` and nothing else.
proof fn lemma_const_binding(name: IdentView, init: InitView)
    ensures
        item_bindings(const_item(name, init)) == seq![name.id],
{
    let item = const_item(name, init);
    let d = item->Decl_0;
    assert(declared_idents(d) =~= seq![name]);
    assert(item_bindings(item) =~= seq![name.id]);
}

/// Declaration statements pass the rewriter and the unexporter unchanged.
proof fn lemma_pass_through(items: Seq<ModuleItemView>, export_ctxt: u32, exports: Seq<SpecifierView>)
    requires
        forall|k: int| 0 <= k < items.len() ==> #[trigger] items[k] is Decl,
    ensures
        unexport(rewrite(items, export_ctxt), exports) == items,
{
    assert(unexport(rewrite(items, export_ctxt), exports) =~= items);
}

/// Statements that bind one name each bind those names, in order.
proof fn lemma_single_bindings(items: Seq<ModuleItemView>, names: Seq<IdView>)
    requires
        items.len() == names.len(),
        forall|k: int| 0 <= k < items.len() ==> item_bindings(#[trigger] items[k]) == seq![names[k]],
    ensures
        bindings(items) == names,
    decreases items.len(),
{
    if items.len() == 0 {
        assert(items.map_values(bindings_of()) =~= Seq::empty());
        assert(bindings(items) =~= names);
    } else {
        let rest = items.drop_last();
        lemma_single_bindings(rest, names.drop_last());
        assert(items =~= rest.push(items.last()));
        rest.lemma_flat_map_push(bindings_of(), items.last());
        assert(bindings(items) =~= names);
    }
}

/// A body of one statement binds what the statement binds.
proof fn lemma_one_binding(item: ModuleItemView)
    ensures
        bindings(seq![item]) == item_bindings(item),
{
    seq![item].lemma_flat_map_singleton(bindings_of());
}

/// The variables hoisted out of an import bind local names of the import,
/// none of them twice where the import bound none twice.
proof fn lemma_import_alias_bindings(specifiers: Seq<ImportSpecifierView>)
    ensures
        forall|x: IdView|
            bindings(import_aliases(specifiers)).contains(x) ==> specifiers.map_values(
                |s: ImportSpecifierView| import_local(s),
            ).contains(x),
        specifiers.map_values(|s: ImportSpecifierView| import_local(s)).no_duplicates()
            ==> bindings(import_aliases(specifiers)).no_duplicates(),
        forall|k: int|
            0 <= k < import_aliases(specifiers).len() ==> #[trigger] import_aliases(
                specifiers,
            )[k] is Decl,
    decreases specifiers.len(),
{
    let local = |s: ImportSpecifierView| import_local(s);
    let f = |s: ImportSpecifierView| import_alias(s);
    let locals = specifiers.map_values(local);
    if specifiers.len() == 0 {
        assert(import_aliases(specifiers) =~= Seq::empty());
        assert(import_aliases(specifiers).map_values(bindings_of()) =~= Seq::empty());
        assert(bindings(import_aliases(specifiers)) =~= Seq::empty());
    } else {
        let rest = specifiers.drop_last();
        let last = specifiers.last();
        let rest_locals = rest.map_values(local);
        lemma_import_alias_bindings(rest);
        assert(locals =~= rest_locals + seq![import_local(last)]);
        let before = bindings(import_aliases(rest));
        match import_alias(last) {
            Some(a) => {
                assert(import_aliases(specifiers) == import_aliases(rest) + seq![a]);
                lemma_bindings_add(import_aliases(rest), seq![a]);
                lemma_one_binding(a);
                let l = last->Named_local;
                let imported = last->Named_imported;
                lemma_const_binding(IdentView::of(l.id), InitView::Ident(imported->Some_0));
                assert(bindings(import_aliases(specifiers)) == before + seq![import_local(last)]);
                assert forall|x: IdView|
                    bindings(import_aliases(specifiers)).contains(x) implies locals.contains(
                    x,
                ) by {
                    lemma_contains_add(before, seq![import_local(last)], x);
                    lemma_contains_add(rest_locals, seq![import_local(last)], x);
                }
                if locals.no_duplicates() {
                    lemma_no_dup_parts(rest_locals, seq![import_local(last)]);
                    assert forall|x: IdView| before.contains(x) implies !seq![
                        import_local(last),
                    ].contains(x) by {
                        assert(rest_locals.contains(x));
                    }
                    lemma_no_dup_join(before, seq![import_local(last)]);
                }
            },
            None => {
                assert(import_aliases(specifiers) == import_aliases(rest));
                assert forall|x: IdView|
                    bindings(import_aliases(specifiers)).contains(x) implies locals.contains(
                    x,
                ) by {
                    lemma_contains_add(rest_locals, seq![import_local(last)], x);
                }
                if locals.no_duplicates() {
                    lemma_no_dup_parts(rest_locals, seq![import_local(last)]);
                }
            },
        }
    }
}

/// The export aliases of a declaration bind its names under the export
/// context, in order.
proof fn lemma_export_alias_bindings(idents: Seq<IdentView>, export_ctxt: u32)
    ensures
        bindings(export_aliases(idents, export_ctxt)) == ids(idents).map_values(
            recontext(export_ctxt),
        ),
        forall|k: int|
            0 <= k < export_aliases(idents, export_ctxt).len() ==> #[trigger] export_aliases(
                idents,
                export_ctxt,
            )[k] is Decl,
{
    let items = export_aliases(idents, export_ctxt);
    let names = ids(idents).map_values(recontext(export_ctxt));
    assert forall|k: int| 0 <= k < items.len() implies item_bindings(#[trigger] items[k]) == seq![
        names[k],
    ] by {
        let i = idents[k];
        lemma_const_binding(IdentView::of(i.with_ctxt(export_ctxt).id), InitView::Ident(i));
    }
    lemma_single_bindings(items, names);
}

/// What the three passes bind for one statement: nothing twice, and nothing
/// but what the statement bound or what the merge introduces for it.
proof fn lemma_item_bindings_distinct(
    item: ModuleItemView,
    export_ctxt: u32,
    exports: Seq<SpecifierView>,
)
    requires
        (item_bindings(item) + introduced(item, export_ctxt)).no_duplicates(),
    ensures
        bindings(passes(seq![item], export_ctxt, exports)).no_duplicates(),
        forall|x: IdView|
            bindings(passes(seq![item], export_ctxt, exports)).contains(x) ==> item_bindings(
                item,
            ).contains(x) || introduced(item, export_ctxt).contains(x),
{
    let own = item_bindings(item);
    let new = introduced(item, export_ctxt);
    passes_preserve_order(seq![item], export_ctxt, exports, 0);
    let kept = hoist_kept(item);
    let added = hoist_added(item, export_ctxt);
    let r = rewrite_with(export_ctxt);
    let u = unexport_with(exports);
    let first = unexport_item(rewrite_item(kept, export_ctxt), exports);
    // The synthesized variables pass the later passes unchanged.
    match item {
        ModuleItemView::Import(i) => {
            lemma_import_alias_bindings(i.specifiers);
        },
        ModuleItemView::ExportDecl(d) => {
            lemma_export_alias_bindings(declared_idents(d), export_ctxt);
        },
        _ => {},
    }
    lemma_pass_through(added, export_ctxt, exports);
    lemma_map_add(seq![kept], added, r);
    lemma_map_add(seq![kept].map_values(r), added.map_values(r), u);
    assert(seq![kept].map_values(r).map_values(u) =~= seq![first]);
    let out = bindings(passes(seq![item], export_ctxt, exports));
    lemma_bindings_add(seq![first], added);
    lemma_one_binding(first);
    assert(out == item_bindings(first) + bindings(added));
    lemma_no_dup_parts(own, new);
    match item {
        ModuleItemView::Import(i) => {
            assert(item_bindings(first) =~= Seq::empty());
            assert(out =~= bindings(added));
        },
        ModuleItemView::ExportDecl(d) => {
            assert(bindings(added) == new);
            if first is Empty {
                assert(out =~= new);
            } else {
                assert(out == own + new);
            }
        },
        ModuleItemView::ExportNamed(n) => {
            assert(added =~= Seq::empty());
            assert(bindings(added) =~= Seq::empty()) by {
                assert(added.map_values(bindings_of()) =~= Seq::empty());
            }
            if n.src is None {
                let decls = specifier_decls(n.specifiers, export_ctxt);
                if decls.len() == 0 {
                    assert(out =~= Seq::empty());
                } else {
                    assert(item_bindings(first) =~= new);
                    assert(out =~= new);
                }
            } else {
                assert(out =~= Seq::empty());
            }
        },
        ModuleItemView::ExportDefaultExpr(e) => {
            assert(bindings(added) =~= Seq::empty()) by {
                assert(added.map_values(bindings_of()) =~= Seq::empty());
            }
            lemma_const_binding(default_ident(e, export_ctxt), InitView::Expr(e));
            assert(out =~= new);
        },
        ModuleItemView::ExportDefaultDecl(d) => {
            assert(bindings(added) =~= Seq::empty()) by {
                assert(added.map_values(bindings_of()) =~= Seq::empty());
            }
            match d {
                DefaultDeclView::Class { ident: Some(ident), .. } => {
                    assert(declared_idents(first->Decl_0) =~= seq![ident]);
                    assert(item_bindings(first) =~= own);
                },
                DefaultDeclView::Fn { ident: Some(ident), .. } => {
                    assert(declared_idents(first->Decl_0) =~= seq![ident]);
                    assert(item_bindings(first) =~= own);
                },
                _ => {
                    assert(item_bindings(first) =~= own);
                },
            }
            assert(out =~= own);
        },
        _ => {
            assert(bindings(added) =~= Seq::empty()) by {
                assert(added.map_values(bindings_of()) =~= Seq::empty());
            }
            assert(item_bindings(first) =~= own);
            assert(out =~= own);
        },
    }
    assert forall|x: IdView| out.contains(x) implies own.contains(x) || new.contains(x) by {
        lemma_contains_add(own, new, x);
    }
}

/// Hygiene uniqueness. Where the top-level bindings of a body, together with
/// the bindings that a merge introduces for it, are pairwise distinct, the
/// merged body binds nothing twice; and it binds nothing but what the body
/// bound or what the merge introduces.
pub proof fn merge_keeps_bindings_distinct(
    body: Seq<ModuleItemView>,
    export_ctxt: u32,
    exports: Seq<SpecifierView>,
)
    requires
        (bindings(body) + all_introduced(body, export_ctxt)).no_duplicates(),
    ensures
        bindings(passes(body, export_ctxt, exports)).no_duplicates(),
        forall|x: IdView|
            bindings(passes(body, export_ctxt, exports)).contains(x) ==> bindings(body).contains(
                x,
            ) || all_introduced(body, export_ctxt).contains(x),
    decreases body.len(),
{
    let out = bindings(passes(body, export_ctxt, exports));
    if body.len() == 0 {
        assert(passes(body, export_ctxt, exports) =~= Seq::empty()) by {
            assert(body.map_values(hoist_with(export_ctxt)) =~= Seq::empty());
        }
        assert(out =~= Seq::empty()) by {
            assert(passes(body, export_ctxt, exports).map_values(bindings_of()) =~= Seq::empty());
        }
    } else {
        let k = body.len() - 1;
        let rest = body.drop_last();
        let last = body.last();
        let own_rest = bindings(rest);
        let own_last = item_bindings(last);
        let new_rest = all_introduced(rest, export_ctxt);
        let new_last = introduced(last, export_ctxt);
        assert(body =~= rest.push(last));
        assert(body.take(k) =~= rest);
        rest.lemma_flat_map_push(bindings_of(), last);
        rest.lemma_flat_map_push(introduced_with(export_ctxt), last);
        assert(bindings(body) == own_rest + own_last);
        assert(all_introduced(body, export_ctxt) == new_rest + new_last);
        lemma_no_dup_parts(bindings(body), all_introduced(body, export_ctxt));
        lemma_no_dup_parts(own_rest, own_last);
        lemma_no_dup_parts(new_rest, new_last);
        assert forall|x: IdView| own_rest.contains(x) implies !new_rest.contains(x) by {
            lemma_contains_add(own_rest, own_last, x);
            lemma_contains_add(new_rest, new_last, x);
        }
        lemma_no_dup_join(own_rest, new_rest);
        assert forall|x: IdView| own_last.contains(x) implies !new_last.contains(x) by {
            lemma_contains_add(own_rest, own_last, x);
            lemma_contains_add(new_rest, new_last, x);
        }
        lemma_no_dup_join(own_last, new_last);
        merge_keeps_bindings_distinct(rest, export_ctxt, exports);
        lemma_item_bindings_distinct(last, export_ctxt, exports);
        passes_preserve_order(body, export_ctxt, exports, k);
        let a = passes(rest, export_ctxt, exports);
        let b = passes(seq![last], export_ctxt, exports);
        assert(passes(body.skip(k + 1), export_ctxt, exports) =~= Seq::empty()) by {
            assert(body.skip(k + 1).map_values(hoist_with(export_ctxt))
                =~= Seq::empty());
        }
        assert(passes(body, export_ctxt, exports) =~= a + b);
        lemma_bindings_add(a, b);
        assert(out == bindings(a) + bindings(b));
        assert forall|x: IdView| bindings(a).contains(x) implies !bindings(b).contains(x) by {
            lemma_contains_add(own_rest, own_last, x);
            lemma_contains_add(new_rest, new_last, x);
            if bindings(b).contains(x) {
                if own_rest.contains(x) {
                    assert(bindings(body).contains(x));
                } else {
                    assert(new_rest.contains(x));
                    assert(all_introduced(body, export_ctxt).contains(x));
                }
            }
        }
        lemma_no_dup_join(bindings(a), bindings(b));
        assert forall|x: IdView| out.contains(x) implies bindings(body).contains(x)
            || all_introduced(body, export_ctxt).contains(x) by {
            lemma_contains_add(bindings(a), bindings(b), x);
            lemma_contains_add(own_rest, own_last, x);
            lemma_contains_add(new_rest, new_last, x);
        }
    }
}

/// Whether `x` is a binding among `own`, or the export-context alias of one.
pub open spec fn hoisted_from(x: IdView, own: Seq<IdView>, local_ctxt: u32, export_ctxt: u32) -> bool {
    own.contains(x) || (x.ctxt == export_ctxt && own.contains(x.with_ctxt(local_ctxt)))
}

/// What hoisting binds for one statement under the hygiene discipline.
proof fn lemma_hoisted_item(item: ModuleItemView, local_ctxt: u32, export_ctxt: u32)
    requires
        local_ctxt != export_ctxt,
        item_bindings(item).no_duplicates(),
        forall|x: IdView| item_bindings(item).contains(x) ==> x.ctxt == local_ctxt,
    ensures
        bindings(hoist_item(item, export_ctxt)).no_duplicates(),
        forall|x: IdView|
            bindings(hoist_item(item, export_ctxt)).contains(x) ==> hoisted_from(
                x,
                item_bindings(item),
                local_ctxt,
                export_ctxt,
            ),
{
    let own = item_bindings(item);
    let kept = hoist_kept(item);
    let added = hoist_added(item, export_ctxt);
    let out = bindings(hoist_item(item, export_ctxt));
    lemma_bindings_add(seq![kept], added);
    lemma_one_binding(kept);
    assert(out == item_bindings(kept) + bindings(added));
    match item {
        ModuleItemView::Import(i) => {
            lemma_import_alias_bindings(i.specifiers);
            assert(item_bindings(kept) =~= Seq::empty());
            assert(out =~= bindings(added));
        },
        ModuleItemView::ExportDecl(d) => {
            lemma_export_alias_bindings(declared_idents(d), export_ctxt);
            let moved = own.map_values(recontext(export_ctxt));
            assert(out == own + moved);
            assert forall|i: int, j: int|
                0 <= i < moved.len() && 0 <= j < moved.len() && i != j implies moved[i]
                != moved[j] by {
                assert(own.contains(own[i]) && own.contains(own[j]));
                assert(own[i] != own[j]);
            }
            assert forall|x: IdView| own.contains(x) implies !moved.contains(x) by {
                if moved.contains(x) {
                    let j = choose|j: int| 0 <= j < moved.len() && moved[j] == x;
                    assert(moved[j].ctxt == export_ctxt);
                }
            }
            lemma_no_dup_join(own, moved);
            assert forall|x: IdView| out.contains(x) implies hoisted_from(
                x,
                own,
                local_ctxt,
                export_ctxt,
            ) by {
                lemma_contains_add(own, moved, x);
                if moved.contains(x) {
                    let j = choose|j: int| 0 <= j < moved.len() && moved[j] == x;
                    assert(own.contains(own[j]));
                    assert(x.with_ctxt(local_ctxt) == own[j]);
                }
            }
        },
        _ => {
            assert(added =~= Seq::empty());
            assert(bindings(added) =~= Seq::empty()) by {
                assert(added.map_values(bindings_of()) =~= Seq::empty());
            }
            assert(out =~= own);
        },
    }
}

/// Under the hygiene discipline synthesized aliases are fresh. Where every
/// top-level binding of a body carries the module's local context, the export
/// context is another one, and the bindings are pairwise distinct, the
/// hoisted body binds nothing twice: each of its bindings is a binding of the
/// body or the export-context alias of one.
pub proof fn hoisted_aliases_are_fresh(
    body: Seq<ModuleItemView>,
    local_ctxt: u32,
    export_ctxt: u32,
)
    requires
        local_ctxt != export_ctxt,
        bindings(body).no_duplicates(),
        forall|x: IdView| bindings(body).contains(x) ==> x.ctxt == local_ctxt,
    ensures
        bindings(hoist(body, export_ctxt)).no_duplicates(),
        forall|x: IdView|
            bindings(hoist(body, export_ctxt)).contains(x) ==> hoisted_from(
                x,
                bindings(body),
                local_ctxt,
                export_ctxt,
            ),
    decreases body.len(),
{
    let out = bindings(hoist(body, export_ctxt));
    if body.len() == 0 {
        assert(hoist(body, export_ctxt) =~= Seq::empty()) by {
            assert(body.map_values(hoist_with(export_ctxt)) =~= Seq::empty());
        }
        assert(out =~= Seq::empty()) by {
            assert(hoist(body, export_ctxt).map_values(bindings_of()) =~= Seq::empty());
        }
    } else {
        let rest = body.drop_last();
        let last = body.last();
        let own_rest = bindings(rest);
        let own_last = item_bindings(last);
        assert(body =~= rest.push(last));
        rest.lemma_flat_map_push(bindings_of(), last);
        rest.lemma_flat_map_push(hoist_with(export_ctxt), last);
        assert(bindings(body) == own_rest + own_last);
        lemma_no_dup_parts(own_rest, own_last);
        assert forall|x: IdView| own_rest.contains(x) implies x.ctxt == local_ctxt by {
            lemma_contains_add(own_rest, own_last, x);
        }
        assert forall|x: IdView| own_last.contains(x) implies x.ctxt == local_ctxt by {
            lemma_contains_add(own_rest, own_last, x);
        }
        hoisted_aliases_are_fresh(rest, local_ctxt, export_ctxt);
        lemma_hoisted_item(last, local_ctxt, export_ctxt);
        let a = hoist(rest, export_ctxt);
        let b = hoist_item(last, export_ctxt);
        lemma_bindings_add(a, b);
        assert(out == bindings(a) + bindings(b));
        assert forall|x: IdView| bindings(a).contains(x) implies !bindings(b).contains(x) by {
            if bindings(b).contains(x) {
                assert(hoisted_from(x, own_rest, local_ctxt, export_ctxt));
                assert(hoisted_from(x, own_last, local_ctxt, export_ctxt));
            }
        }
        lemma_no_dup_join(bindings(a), bindings(b));
        assert forall|x: IdView| out.contains(x) implies hoisted_from(
            x,
            bindings(body),
            local_ctxt,
            export_ctxt,
        ) by {
            lemma_contains_add(bindings(a), bindings(b), x);
            lemma_contains_add(own_rest, own_last, x);
            lemma_contains_add(own_rest, own_last, x.with_ctxt(local_ctxt));
        }
    }
}

} // verus!
