//! Forwarding through re-exports: a name that one module re-exports from
//! another resolves, alias by alias, to the declaration in the module that
//! declares it.

use vstd::prelude::*;
use crate::ast::{
    ConstDeclView, DeclarationView, ExportSpecifierView, IdView, InitView, ModuleItemView,
    SourceView, SpecifierView,
};
use crate::hoist::{alias_item, declared_idents, export_aliases, hoist_item};
use crate::inject::{any_names_source, inject, inject_item, names_source, reexport};
use crate::laws::{passes, passes_preserve_order};
use crate::rewrite::{rewrite, specifier_decl, specifier_decl_with, specifier_decls};
use crate::scope::ids;
use crate::seqs::lemma_contains_add;
use crate::unexport::{stays, unexport};

verus! {

/// Whether declarator `j` of a synthesized `const` statement is `from = to`.
pub open spec fn is_alias(item: ModuleItemView, j: int, from: IdView, to: IdView) -> bool {
    &&& item matches ModuleItemView::Decl(DeclarationView::Const(c))
    &&& 0 <= j < c.decls.len()
    &&& c.decls[j].name.id == from
    &&& c.decls[j].init matches InitView::Ident(target)
    &&& target.id == to
}

/// Whether a body holds the alias `const from = to`.
pub open spec fn aliases(body: Seq<ModuleItemView>, from: IdView, to: IdView) -> bool {
    exists|item: ModuleItemView, j: int| body.contains(item) && is_alias(item, j, from, to)
}

/// Whether a statement is a declaration of the source, stripped of any export
/// wrapper, that binds `id`.
pub open spec fn is_declaration_of(item: ModuleItemView, id: IdView) -> bool {
    &&& item matches ModuleItemView::Decl(d)
    &&& !(d is Const)
    &&& ids(declared_idents(d)).contains(id)
}

/// Whether a body holds a declaration that binds `id`.
pub open spec fn declares(body: Seq<ModuleItemView>, id: IdView) -> bool {
    exists|item: ModuleItemView| body.contains(item) && is_declaration_of(item, id)
}

/// Whether `from` resolves to the declared binding `to` through exactly
/// `steps` aliases of the body.
pub open spec fn resolves(body: Seq<ModuleItemView>, from: IdView, to: IdView, steps: nat) -> bool
    decreases steps,
{
    if steps == 0 {
        from == to && declares(body, to)
    } else {
        exists|via: IdView|
            aliases(body, from, via) && resolves(body, via, to, (steps - 1) as nat)
    }
}

/// A declaration statement alone passes a merge unchanged.
proof fn lemma_passes_of_declaration(
    item: ModuleItemView,
    export_ctxt: u32,
    exports: Seq<SpecifierView>,
)
    requires
        item is Decl,
    ensures
        passes(seq![item], export_ctxt, exports) == seq![item],
{
    passes_preserve_order(seq![item], export_ctxt, exports, 0);
    assert(hoist_item(item, export_ctxt) =~= seq![item]);
    assert(unexport(rewrite(seq![item], export_ctxt), exports) =~= seq![item]);
}

/// What the passes make of one statement is part of what they make of the
/// body.
proof fn lemma_passes_contains(
    body: Seq<ModuleItemView>,
    export_ctxt: u32,
    exports: Seq<SpecifierView>,
    k: int,
    y: ModuleItemView,
)
    requires
        0 <= k < body.len(),
        passes(seq![body[k]], export_ctxt, exports).contains(y),
    ensures
        passes(body, export_ctxt, exports).contains(y),
{
    passes_preserve_order(body, export_ctxt, exports, k);
    let a = passes(body.take(k), export_ctxt, exports);
    let b = passes(seq![body[k]], export_ctxt, exports);
    let c = passes(body.skip(k + 1), export_ctxt, exports);
    lemma_contains_add(a, b, y);
    lemma_contains_add(a + b, c, y);
}

/// A declaration statement passes a merge unchanged.
proof fn lemma_declaration_survives(
    body: Seq<ModuleItemView>,
    export_ctxt: u32,
    exports: Seq<SpecifierView>,
    y: ModuleItemView,
)
    requires
        body.contains(y),
        y is Decl,
    ensures
        passes(body, export_ctxt, exports).contains(y),
{
    let k = choose|k: int| 0 <= k < body.len() && body[k] == y;
    lemma_passes_of_declaration(y, export_ctxt, exports);
    assert(seq![y][0] == y);
    lemma_passes_contains(body, export_ctxt, exports, k, y);
}

/// Where a statement names the source, the injected body holds every
/// imported variable.
proof fn lemma_inject_holds_imported(
    body: Seq<ModuleItemView>,
    imported: Seq<ModuleItemView>,
    source: SourceView,
    y: ModuleItemView,
)
    requires
        any_names_source(body, source.src),
        imported.contains(y),
    ensures
        inject(body, imported, source).contains(y),
    decreases body.len(),
{
    let rest = body.drop_last();
    let last = body.last();
    let k = choose|k: int| 0 <= k < body.len() && names_source(#[trigger] body[k], source.src);
    let here = if names_source(last, source.src) && !any_names_source(rest, source.src) {
        imported
    } else {
        Seq::empty()
    };
    let a = inject(rest, imported, source);
    if any_names_source(rest, source.src) {
        lemma_inject_holds_imported(rest, imported, source, y);
    } else {
        if k < body.len() - 1 {
            assert(names_source(rest[k], source.src));
        }
        assert(here == imported);
    }
    lemma_contains_add(a, here, y);
    lemma_contains_add(a + here, inject_item(last, source), y);
}

/// The injected body holds what takes the place of each statement.
proof fn lemma_inject_holds_item(
    body: Seq<ModuleItemView>,
    imported: Seq<ModuleItemView>,
    source: SourceView,
    m: int,
    y: ModuleItemView,
)
    requires
        0 <= m < body.len(),
        inject_item(body[m], source).contains(y),
    ensures
        inject(body, imported, source).contains(y),
    decreases body.len(),
{
    let rest = body.drop_last();
    let last = body.last();
    let here = if names_source(last, source.src) && !any_names_source(rest, source.src) {
        imported
    } else {
        Seq::empty()
    };
    let a = inject(rest, imported, source);
    if m < body.len() - 1 {
        assert(rest[m] == body[m]);
        lemma_inject_holds_item(rest, imported, source, m, y);
    }
    lemma_contains_add(a, here, y);
    lemma_contains_add(a + here, inject_item(last, source), y);
}

/// A filtered mapping holds the image of every element that has one.
proof fn lemma_filter_map_holds<A, B>(s: Seq<A>, f: spec_fn(A) -> Option<B>, p: int)
    requires
        0 <= p < s.len(),
        f(s[p]) is Some,
    ensures
        s.filter_map(f).contains(f(s[p])->Some_0),
    decreases s.len(),
{
    let rest = s.drop_last();
    let y = f(s[p])->Some_0;
    if p < s.len() - 1 {
        assert(rest[p] == s[p]);
        lemma_filter_map_holds(rest, f, p);
        match f(s.last()) {
            Some(z) => {
                lemma_contains_add(rest.filter_map(f), seq![z], y);
            },
            None => {},
        }
    } else {
        assert(seq![y][0] == y);
        lemma_contains_add(rest.filter_map(f), seq![y], y);
    }
}

/// One link. After a merge with a non-empty specifier list, a name that an
/// exported declaration declares, and that stays, is declared by the plain
/// declaration and aliased under the export context: the export-context name
/// resolves to the declaration in one step.
pub proof fn exported_name_resolves(
    body: Seq<ModuleItemView>,
    export_ctxt: u32,
    exports: Seq<SpecifierView>,
    k: int,
    x: IdView,
)
    requires
        0 <= k < body.len(),
        body[k] matches ModuleItemView::ExportDecl(d) && !(d is Const) && stays(d, exports)
            && ids(declared_idents(d)).contains(x),
    ensures
        declares(passes(body, export_ctxt, exports), x),
        aliases(passes(body, export_ctxt, exports), x.with_ctxt(export_ctxt), x),
        resolves(passes(body, export_ctxt, exports), x.with_ctxt(export_ctxt), x, 1),
{
    let d = body[k]->ExportDecl_0;
    let idents = declared_idents(d);
    let q = choose|q: int| 0 <= q < ids(idents).len() && ids(idents)[q] == x;
    let added = export_aliases(idents, export_ctxt);
    let plain = ModuleItemView::Decl(d);
    let alias = alias_item(idents[q].with_ctxt(export_ctxt), idents[q]);
    passes_preserve_order(seq![body[k]], export_ctxt, exports, 0);
    let own = passes(seq![body[k]], export_ctxt, exports);
    assert(hoist_item(body[k], export_ctxt) =~= seq![body[k]] + added);
    assert(own =~= seq![plain] + added);
    assert(own[0] == plain);
    assert(own[1 + q] == alias);
    lemma_passes_contains(body, export_ctxt, exports, k, plain);
    lemma_passes_contains(body, export_ctxt, exports, k, alias);
    let out = passes(body, export_ctxt, exports);
    assert(is_declaration_of(plain, x));
    assert(is_alias(alias, 0, x.with_ctxt(export_ctxt), x));
    assert(resolves(out, x, x, 0));
}

/// Resolution carries over to any body that holds every declaration statement
/// of the first.
proof fn lemma_resolves_carries_over(
    from_body: Seq<ModuleItemView>,
    to_body: Seq<ModuleItemView>,
    from: IdView,
    to: IdView,
    steps: nat,
)
    requires
        resolves(from_body, from, to, steps),
        forall|item: ModuleItemView|
            from_body.contains(item) && item is Decl ==> to_body.contains(item),
    ensures
        resolves(to_body, from, to, steps),
    decreases steps,
{
    if steps == 0 {
        let item = choose|item: ModuleItemView|
            from_body.contains(item) && is_declaration_of(item, to);
        assert(to_body.contains(item) && is_declaration_of(item, to));
        assert(declares(to_body, to));
    } else {
        let via = choose|via: IdView|
            aliases(from_body, from, via) && resolves(from_body, via, to, (steps - 1) as nat);
        let (item, j) = choose|item: ModuleItemView, j: int|
            from_body.contains(item) && is_alias(item, j, from, via);
        assert(to_body.contains(item) && is_alias(item, j, from, via));
        assert(aliases(to_body, from, via));
        lemma_resolves_carries_over(from_body, to_body, via, to, (steps - 1) as nat);
        assert(aliases(to_body, from, via) && resolves(to_body, via, to, (steps - 1) as nat));
    }
}

/// One more link. In the merged body of a dependency the name `y` resolves to
/// the declared binding `x`. An importer re-exports `y` from the dependency,
/// unaliased, in an `export { .. } from` statement. Once the dependency's
/// body is injected into the importer's and the importer is merged in turn,
/// under an export context other than that of `y` and with a non-empty
/// specifier list, the name as the importer exports it resolves to `x` with
/// one step more: the declaration is the one that came with the dependency.
pub proof fn reexport_extends_resolution(
    dep: Seq<ModuleItemView>,
    y: IdView,
    x: IdView,
    steps: nat,
    body: Seq<ModuleItemView>,
    export_ctxt: u32,
    exports: Seq<SpecifierView>,
    source: SourceView,
    m: int,
    p: int,
)
    requires
        resolves(dep, y, x, steps),
        y.ctxt != export_ctxt,
        exports.len() > 0,
        0 <= m < body.len(),
        body[m] matches ModuleItemView::ExportNamed(n) && n.src == Some(source.src) && 0 <= p
            < n.specifiers.len() && (n.specifiers[p] matches ExportSpecifierView::Named {
            orig,
            exported: None,
            ..
        } && orig.id == y),
    ensures
        resolves(
            passes(inject(body, dep, source), export_ctxt, exports),
            y.with_ctxt(export_ctxt),
            x,
            steps + 1,
        ),
{
    let assembled = inject(body, dep, source);
    let merged = passes(assembled, export_ctxt, exports);
    // What the dependency contributes arrives in the merged body unchanged.
    assert(names_source(body[m], source.src));
    assert forall|item: ModuleItemView| dep.contains(item) && item is Decl implies merged.contains(
        item,
    ) by {
        lemma_inject_holds_imported(body, dep, source, item);
        lemma_declaration_survives(assembled, export_ctxt, exports, item);
    }
    lemma_resolves_carries_over(dep, merged, y, x, steps);
    // The importer's own re-export becomes the alias from its export context.
    let n = body[m]->ExportNamed_0;
    let cleared = ModuleItemView::ExportNamed(reexport(n));
    assert(inject_item(body[m], source)[0] == cleared);
    lemma_inject_holds_item(body, dep, source, m, cleared);
    let at = choose|at: int| 0 <= at < assembled.len() && assembled[at] == cleared;
    let f = specifier_decl_with(export_ctxt);
    let decls = specifier_decls(n.specifiers, export_ctxt);
    assert(f(n.specifiers[p]) == specifier_decl(n.specifiers[p], export_ctxt));
    lemma_filter_map_holds(n.specifiers, f, p);
    let decl = f(n.specifiers[p])->Some_0;
    let q = choose|q: int| 0 <= q < decls.len() && decls[q] == decl;
    let bridge = ModuleItemView::Decl(
        DeclarationView::Const(ConstDeclView { span: n.span, decls }),
    );
    passes_preserve_order(seq![cleared], export_ctxt, exports, 0);
    assert(hoist_item(cleared, export_ctxt) =~= seq![cleared]);
    assert(passes(seq![cleared], export_ctxt, exports) =~= seq![bridge]);
    assert(seq![bridge][0] == bridge);
    lemma_passes_contains(assembled, export_ctxt, exports, at, bridge);
    assert(is_alias(bridge, q, y.with_ctxt(export_ctxt), y));
    assert(aliases(merged, y.with_ctxt(export_ctxt), y));
}

/// Re-export forwarding through a chain. Module C exports a declaration of
/// `x`, which stays in its merge. Module B re-exports that name from C, and
/// module A re-exports it from B, each unaliased in an `export { .. } from`
/// statement that names it under the export context of the module it comes
/// from. The three export contexts differ, and every merge has a non-empty
/// specifier list. After C is merged and injected into B, and B is merged and
/// injected into A, and A is merged, the name as A exports it resolves in
/// three steps to the declaration of `x` that came from C; the name as B
/// exports it resolves there in two, and C's export alias in one.
pub proof fn reexport_chain_resolves(
    body_c: Seq<ModuleItemView>,
    ctxt_c: u32,
    exports_c: Seq<SpecifierView>,
    k: int,
    x: IdView,
    body_b: Seq<ModuleItemView>,
    ctxt_b: u32,
    exports_b: Seq<SpecifierView>,
    source_c: SourceView,
    m_b: int,
    p_b: int,
    body_a: Seq<ModuleItemView>,
    ctxt_a: u32,
    exports_a: Seq<SpecifierView>,
    source_b: SourceView,
    m_a: int,
    p_a: int,
)
    requires
        0 <= k < body_c.len(),
        body_c[k] matches ModuleItemView::ExportDecl(d) && !(d is Const) && stays(d, exports_c)
            && ids(declared_idents(d)).contains(x),
        ctxt_b != ctxt_c,
        ctxt_a != ctxt_b,
        exports_b.len() > 0,
        exports_a.len() > 0,
        0 <= m_b < body_b.len(),
        body_b[m_b] matches ModuleItemView::ExportNamed(n) && n.src == Some(source_c.src) && 0
            <= p_b < n.specifiers.len() && (n.specifiers[p_b] matches ExportSpecifierView::Named {
            orig,
            exported: None,
            ..
        } && orig.id == x.with_ctxt(ctxt_c)),
        0 <= m_a < body_a.len(),
        body_a[m_a] matches ModuleItemView::ExportNamed(n) && n.src == Some(source_b.src) && 0
            <= p_a < n.specifiers.len() && (n.specifiers[p_a] matches ExportSpecifierView::Named {
            orig,
            exported: None,
            ..
        } && orig.id == x.with_ctxt(ctxt_b)),
    ensures
        ({
            let merged_c = passes(body_c, ctxt_c, exports_c);
            let merged_b = passes(inject(body_b, merged_c, source_c), ctxt_b, exports_b);
            let merged_a = passes(inject(body_a, merged_b, source_b), ctxt_a, exports_a);
            &&& resolves(merged_c, x.with_ctxt(ctxt_c), x, 1)
            &&& resolves(merged_b, x.with_ctxt(ctxt_b), x, 2)
            &&& resolves(merged_a, x.with_ctxt(ctxt_a), x, 3)
        }),
{
    let merged_c = passes(body_c, ctxt_c, exports_c);
    let merged_b = passes(inject(body_b, merged_c, source_c), ctxt_b, exports_b);
    exported_name_resolves(body_c, ctxt_c, exports_c, k, x);
    reexport_extends_resolution(
        merged_c,
        x.with_ctxt(ctxt_c),
        x,
        1,
        body_b,
        ctxt_b,
        exports_b,
        source_c,
        m_b,
        p_b,
    );
    assert(x.with_ctxt(ctxt_c).with_ctxt(ctxt_b) == x.with_ctxt(ctxt_b));
    reexport_extends_resolution(
        merged_b,
        x.with_ctxt(ctxt_b),
        x,
        2,
        body_a,
        ctxt_a,
        exports_a,
        source_b,
        m_a,
        p_a,
    );
    assert(x.with_ctxt(ctxt_b).with_ctxt(ctxt_a) == x.with_ctxt(ctxt_a));
}

} // verus!
