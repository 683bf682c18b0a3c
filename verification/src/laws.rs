//! Laws of the passes, stated over the models of module bodies and proved.

use vstd::prelude::*;
use crate::ast::{DeclarationView, ModuleItemView, ModuleRecordView, SourceView, SpecifierView};
use crate::hoist::{hoist, hoist_added, hoist_item, hoist_kept, hoist_with};
use crate::inject::{
    any_names_source, bridge, bridge_with, bridges, inject, inject_item, left_over, names_source,
};
use crate::merge::{bound, finished};
use crate::rewrite::{rewrite, rewrite_item, rewrite_with};
use crate::seqs::{lemma_contains_add, lemma_flat_map_split, lemma_map_add};
use crate::unexport::{stays, unexport, unexport_item, unexport_with};

verus! {

/// What the three passes of a merge make of a body when the dependency is not
/// wrapped and the specifier list is `exports`: hoisting, then the
/// export-to-variable rewriter, then the unexporter.
pub open spec fn passes(body: Seq<ModuleItemView>, export_ctxt: u32, exports: Seq<SpecifierView>) -> Seq<
    ModuleItemView,
> {
    unexport(rewrite(hoist(body, export_ctxt), export_ctxt), exports)
}

/// Hoisting keeps the statements in their order: what statement `k` becomes
/// stands after what the statements before it become and before what the
/// statements after it become, and the variables synthesized for it follow it
/// directly.
pub proof fn hoist_preserves_order(body: Seq<ModuleItemView>, export_ctxt: u32, k: int)
    requires
        0 <= k < body.len(),
    ensures
        hoist(body, export_ctxt) == hoist(body.take(k), export_ctxt) + seq![hoist_kept(body[k])]
            + hoist_added(body[k], export_ctxt) + hoist(body.skip(k + 1), export_ctxt),
{
    let f = hoist_with(export_ctxt);
    lemma_flat_map_split(body, f, k);
    assert(hoist(body.take(k), export_ctxt) + hoist_item(body[k], export_ctxt) =~= hoist(
        body.take(k),
        export_ctxt,
    ) + seq![hoist_kept(body[k])] + hoist_added(body[k], export_ctxt));
}

/// The export-to-variable rewriter and the unexporter work statement by
/// statement: the result has the length of the body, and its statement `k`
/// comes from statement `k` alone.
pub proof fn rewriting_is_in_place(
    body: Seq<ModuleItemView>,
    export_ctxt: u32,
    exports: Seq<SpecifierView>,
    k: int,
)
    requires
        0 <= k < body.len(),
    ensures
        rewrite(body, export_ctxt).len() == body.len(),
        rewrite(body, export_ctxt)[k] == rewrite_item(body[k], export_ctxt),
        unexport(body, exports).len() == body.len(),
        unexport(body, exports)[k] == unexport_item(body[k], exports),
{
}

/// The three passes together keep the statements in their order: the result
/// for a body is the result for the statements before `k`, then the result
/// for statement `k` alone, then the result for the statements after it.
pub proof fn passes_preserve_order(
    body: Seq<ModuleItemView>,
    export_ctxt: u32,
    exports: Seq<SpecifierView>,
    k: int,
)
    requires
        0 <= k < body.len(),
    ensures
        passes(body, export_ctxt, exports) == passes(body.take(k), export_ctxt, exports) + passes(
            seq![body[k]],
            export_ctxt,
            exports,
        ) + passes(body.skip(k + 1), export_ctxt, exports),
        passes(seq![body[k]], export_ctxt, exports) == unexport(
            rewrite(hoist_item(body[k], export_ctxt), export_ctxt),
            exports,
        ),
{
    let f = hoist_with(export_ctxt);
    let r = rewrite_with(export_ctxt);
    let u = unexport_with(exports);
    let a = hoist(body.take(k), export_ctxt);
    let b = hoist_item(body[k], export_ctxt);
    let c = hoist(body.skip(k + 1), export_ctxt);
    lemma_flat_map_split(body, f, k);
    seq![body[k]].lemma_flat_map_singleton(f);
    lemma_map_add(a + b, c, r);
    lemma_map_add(a, b, r);
    lemma_map_add(a.map_values(r) + b.map_values(r), c.map_values(r), u);
    lemma_map_add(a.map_values(r), b.map_values(r), u);
}

/// Injection keeps the statements in their order. Where statement `k` is the
/// first that names the source, the result is what the statements before it
/// become, then the imported variables, then what statement `k` and the
/// statements after it become.
pub proof fn inject_preserves_order(
    body: Seq<ModuleItemView>,
    imported: Seq<ModuleItemView>,
    source: SourceView,
    k: int,
)
    requires
        0 <= k < body.len(),
        names_source(body[k], source.src),
        !any_names_source(body.take(k), source.src),
    ensures
        inject(body, imported, source) == body.take(k).flat_map(
            |item: ModuleItemView| inject_item(item, source),
        ) + imported + body.skip(k).flat_map(|item: ModuleItemView| inject_item(item, source)),
{
    let f = |item: ModuleItemView| inject_item(item, source);
    inject_is_flat_map_until(body.take(k), imported, source, f);
    inject_from(body, imported, source, f, k, body.len() as int);
    assert(body.take(body.len() as int) =~= body);
    assert(body.subrange(k, body.len() as int) =~= body.skip(k));
}

/// Where no statement names the source, injection places nothing: every
/// statement is replaced on its own, in order, and all imported variables are
/// left over.
pub proof fn inject_without_source(
    body: Seq<ModuleItemView>,
    imported: Seq<ModuleItemView>,
    source: SourceView,
)
    requires
        !any_names_source(body, source.src),
    ensures
        inject(body, imported, source) == body.flat_map(
            |item: ModuleItemView| inject_item(item, source),
        ),
        left_over(body, imported, source) == imported,
{
    let f = |item: ModuleItemView| inject_item(item, source);
    inject_is_flat_map_until(body, imported, source, f);
}

/// Before the first statement that names the source, injection replaces each
/// statement on its own.
proof fn inject_is_flat_map_until(
    body: Seq<ModuleItemView>,
    imported: Seq<ModuleItemView>,
    source: SourceView,
    f: spec_fn(ModuleItemView) -> Seq<ModuleItemView>,
)
    requires
        !any_names_source(body, source.src),
        forall|item: ModuleItemView| #[trigger] f(item) == inject_item(item, source),
    ensures
        inject(body, imported, source) == body.flat_map(f),
    decreases body.len(),
{
    if body.len() == 0 {
        assert(body.map_values(f) =~= Seq::empty());
        assert(body.flat_map(f) =~= Seq::empty());
    } else {
        let rest = body.drop_last();
        assert forall|j: int| 0 <= j < rest.len() implies !names_source(
            #[trigger] rest[j],
            source.src,
        ) by {
            assert(rest[j] == body[j]);
        }
        assert(!names_source(body[body.len() - 1], source.src));
        inject_is_flat_map_until(rest, imported, source, f);
        assert(body =~= rest.push(body.last()));
        rest.lemma_flat_map_push(f, body.last());
        assert(inject(rest, imported, source) + Seq::<ModuleItemView>::empty() + inject_item(
            body.last(),
            source,
        ) =~= rest.flat_map(f) + f(body.last()));
    }
}

/// From the first statement that names the source on, injection has placed
/// the imported variables and replaces each statement on its own.
proof fn inject_from(
    body: Seq<ModuleItemView>,
    imported: Seq<ModuleItemView>,
    source: SourceView,
    f: spec_fn(ModuleItemView) -> Seq<ModuleItemView>,
    k: int,
    n: int,
)
    requires
        0 <= k < n <= body.len(),
        names_source(body[k], source.src),
        !any_names_source(body.take(k), source.src),
        inject(body.take(k), imported, source) == body.take(k).flat_map(f),
        forall|item: ModuleItemView| #[trigger] f(item) == inject_item(item, source),
    ensures
        inject(body.take(n), imported, source) == body.take(k).flat_map(f) + imported
            + body.subrange(k, n).flat_map(f),
    decreases n - k,
{
    let upto = body.take(n);
    let rest = upto.drop_last();
    assert(rest =~= body.take(n - 1));
    assert(upto.last() == body[n - 1]);
    assert(body.subrange(k, n) =~= body.subrange(k, n - 1).push(body[n - 1]));
    body.subrange(k, n - 1).lemma_flat_map_push(f, body[n - 1]);
    if n - 1 == k {
        assert(body.subrange(k, k).map_values(f) =~= Seq::empty());
        assert(body.subrange(k, k).flat_map(f) =~= Seq::empty());
        assert(inject(upto, imported, source) =~= body.take(k).flat_map(f) + imported
            + body.subrange(k, n).flat_map(f));
    } else {
        inject_from(body, imported, source, f, k, n - 1);
        assert(names_source(rest[k], source.src));
        assert(any_names_source(rest, source.src));
        assert(inject(upto, imported, source) =~= body.take(k).flat_map(f) + imported
            + body.subrange(k, n).flat_map(f));
    }
}

/// Whether a statement is an export statement of any form.
pub open spec fn is_export(item: ModuleItemView) -> bool {
    ||| item is ExportDecl
    ||| item is ExportNamed
    ||| item is ExportDefaultDecl
    ||| item is ExportDefaultExpr
    ||| item is ExportAll
}

/// The unexporter leaves no export statement behind, whatever the list.
pub proof fn unexport_strips_every_export(
    body: Seq<ModuleItemView>,
    exports: Seq<SpecifierView>,
    k: int,
)
    requires
        0 <= k < body.len(),
    ensures
        !is_export(unexport(body, exports)[k]),
{
}

/// A merge of a dependency that is not wrapped, with a non-empty specifier
/// list, is the three passes in a row.
pub proof fn merge_is_the_three_passes(
    body: Seq<ModuleItemView>,
    record: ModuleRecordView,
    exports: Seq<SpecifierView>,
)
    requires
        record.wrapped is None,
        exports.len() > 0,
    ensures
        finished(hoist(body, record.export_ctxt), record, exports) == passes(
            body,
            record.export_ctxt,
            exports,
        ),
{
}

/// Bridging variables name no module.
proof fn bridges_name_no_source(
    specifiers: Seq<crate::ast::ImportSpecifierView>,
    export_ctxt: u32,
    src: Seq<char>,
)
    ensures
        !any_names_source(bridges(specifiers, export_ctxt), src),
    decreases specifiers.len(),
{
    let f = bridge_with(export_ctxt);
    if specifiers.len() > 0 {
        let rest = specifiers.drop_last();
        bridges_name_no_source(rest, export_ctxt, src);
        let all = bridges(specifiers, export_ctxt);
        assert(f(specifiers.last()) == bridge(specifiers.last(), export_ctxt));
        assert forall|k: int| 0 <= k < all.len() implies !names_source(#[trigger] all[k], src) by {
            if k < bridges(rest, export_ctxt).len() {
                assert(all[k] == bridges(rest, export_ctxt)[k]);
            }
        }
    }
}

/// After injection no statement names the inlined module any more, provided
/// that none of the imported variables does: every import and re-export from
/// it has been replaced.
pub proof fn inject_leaves_no_statement_of_the_source(
    body: Seq<ModuleItemView>,
    imported: Seq<ModuleItemView>,
    source: SourceView,
)
    requires
        !any_names_source(imported, source.src),
    ensures
        !any_names_source(inject(body, imported, source), source.src),
    decreases body.len(),
{
    if body.len() > 0 {
        let rest = body.drop_last();
        let last = body.last();
        inject_leaves_no_statement_of_the_source(rest, imported, source);
        let a = inject(rest, imported, source);
        let here = if names_source(last, source.src) && !any_names_source(rest, source.src) {
            imported
        } else {
            Seq::empty()
        };
        let b = inject_item(last, source);
        match last {
            ModuleItemView::Import(i) => {
                bridges_name_no_source(i.specifiers, source.export_ctxt, source.src);
            },
            _ => {},
        }
        assert(!any_names_source(b, source.src)) by {
            if any_names_source(b, source.src) {
                let k = choose|k: int| 0 <= k < b.len() && names_source(#[trigger] b[k], source.src);
                assert(b[k] == b[0]);
            }
        }
        let out = inject(body, imported, source);
        assert(out == a + here + b);
        assert forall|k: int| 0 <= k < out.len() implies !names_source(
            #[trigger] out[k],
            source.src,
        ) by {
            assert(out.contains(out[k]));
            lemma_contains_add(a + here, b, out[k]);
            lemma_contains_add(a, here, out[k]);
            if a.contains(out[k]) {
                let j = choose|j: int| 0 <= j < a.len() && a[j] == out[k];
                assert(!names_source(a[j], source.src));
            } else if here.contains(out[k]) {
                let j = choose|j: int| 0 <= j < here.len() && here[j] == out[k];
                assert(!names_source(imported[j], source.src));
            } else {
                let j = choose|j: int| 0 <= j < b.len() && b[j] == out[k];
                assert(!names_source(b[j], source.src));
            }
        }
    }
}

/// With an empty specifier list every exported declaration stays.
pub proof fn empty_list_keeps_every_declaration(d: DeclarationView)
    ensures
        stays(d, Seq::empty()),
        unexport_item(ModuleItemView::ExportDecl(d), Seq::empty()) == ModuleItemView::Decl(d),
{
}

/// Running the unexporter again, with any list and so with the empty one,
/// changes nothing: a body that went through it holds no export wrapper, and
/// no declaration is removed a second time.
pub proof fn unexport_again_changes_nothing(
    body: Seq<ModuleItemView>,
    exports: Seq<SpecifierView>,
    again: Seq<SpecifierView>,
)
    ensures
        unexport(unexport(body, exports), again) == unexport(body, exports),
        unexport(unexport(body, exports), Seq::empty()) == unexport(body, exports),
{
    assert(unexport(unexport(body, exports), again) =~= unexport(body, exports));
    assert(unexport(unexport(body, exports), Seq::empty()) =~= unexport(body, exports));
}

/// A merge with an empty specifier list keeps everything: the body comes out
/// of it as it went in, with the namespace binding of a wrapped dependency at
/// its end, and unexporting the result with the empty list removes no
/// declaration from it.
pub proof fn empty_merge_keeps_all(body: Seq<ModuleItemView>, record: ModuleRecordView, k: int)
    requires
        0 <= k < body.len(),
        body[k] is Decl || body[k] is ExportDecl,
    ensures
        finished(body, record, Seq::empty()) == bound(body, record.wrapped, Seq::empty()),
        finished(body, record, Seq::empty())[k] == body[k],
        unexport(finished(body, record, Seq::empty()), Seq::empty())[k] is Decl,
{
}

} // verus!
