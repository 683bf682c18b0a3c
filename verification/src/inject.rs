//! The import/export injector: while an importer's own body is assembled, the
//! variables that stand for an inlined module take the place of the statements
//! that named it.

use vstd::prelude::*;
use crate::ast::{
    dummy_span, lemma_views_add, lemma_views_push, views, ExportSpecifier, ExportSpecifierView,
    Ident, ImportSpecifier, ImportSpecifierView, Init, InitView, ModuleItem, ModuleItemView,
    NamedExport, NamedExportView, Source, SourceView, Span,
};
use crate::hoist::{const_item, make_const};

verus! {

/// Whether a statement imports or re-exports from the module named `src`.
pub open spec fn names_source(item: ModuleItemView, src: Seq<char>) -> bool {
    match item {
        ModuleItemView::Import(i) => i.src == src,
        ModuleItemView::ExportAll(e) => e.src == src,
        ModuleItemView::ExportNamed(n) => n.src == Some(src),
        _ => false,
    }
}

/// Whether some statement of `body` names the module `src`.
pub open spec fn any_names_source(body: Seq<ModuleItemView>, src: Seq<char>) -> bool {
    exists|k: int| 0 <= k < body.len() && names_source(#[trigger] body[k], src)
}

/// The variable that bridges an aliased import to the inlined module: for
/// `import { imported as local }` it is `const local = imported(export_ctxt)`.
pub open spec fn bridge(s: ImportSpecifierView, export_ctxt: u32) -> Option<ModuleItemView> {
    match s {
        ImportSpecifierView::Named { local, imported: Some(imported) } => Some(
            const_item(local, InitView::Ident(imported.with_ctxt(export_ctxt))),
        ),
        _ => None,
    }
}

/// `bridge` for a fixed export context.
pub open spec fn bridge_with(export_ctxt: u32) -> spec_fn(ImportSpecifierView) -> Option<
    ModuleItemView,
> {
    |s: ImportSpecifierView| bridge(s, export_ctxt)
}

/// The bridging variables for the specifiers of one import, in order.
pub open spec fn bridges(specifiers: Seq<ImportSpecifierView>, export_ctxt: u32) -> Seq<
    ModuleItemView,
> {
    specifiers.filter_map(bridge_with(export_ctxt))
}

/// Whether an export statement holds a namespace specifier and nothing else.
pub open spec fn only_namespace(export: NamedExportView) -> bool {
    export.specifiers.len() == 1 && export.specifiers[0] is Namespace
}

/// What `export { .. } from <inlined module>` is re-emitted as: the same
/// statement without its source, or, where it holds a namespace specifier and
/// nothing else, a single named re-export of that binding.
pub open spec fn reexport(export: NamedExportView) -> NamedExportView {
    if only_namespace(export) {
        NamedExportView {
            span: export.span,
            specifiers: seq![
                ExportSpecifierView::Named {
                    span: dummy_span(),
                    orig: export.specifiers[0]->Namespace_name,
                    exported: None,
                },
            ],
            src: None,
            type_only: false,
        }
    } else {
        NamedExportView {
            span: export.span,
            specifiers: export.specifiers,
            src: None,
            type_only: export.type_only,
        }
    }
}

/// What takes the place of one statement, apart from the imported variables.
///
/// An empty statement is dropped. An import of the inlined module gives its
/// bridging variables; `export *` from it gives nothing; `export { .. }` from
/// it is re-emitted as `reexport` says. Any other statement stays.
pub open spec fn inject_item(item: ModuleItemView, source: SourceView) -> Seq<ModuleItemView> {
    match item {
        ModuleItemView::Empty => Seq::empty(),
        ModuleItemView::Import(i) => if i.src == source.src {
            bridges(i.specifiers, source.export_ctxt)
        } else {
            seq![item]
        },
        ModuleItemView::ExportAll(e) => if e.src == source.src {
            Seq::empty()
        } else {
            seq![item]
        },
        ModuleItemView::ExportNamed(n) => if n.src == Some(source.src) {
            seq![ModuleItemView::ExportNamed(reexport(n))]
        } else {
            seq![item]
        },
        _ => seq![item],
    }
}

/// The importer's body after injection: each statement's replacement, in the
/// statements' order, with the `imported` variables placed once, directly
/// before the replacement of the first statement that names the source.
pub open spec fn inject(
    body: Seq<ModuleItemView>,
    imported: Seq<ModuleItemView>,
    source: SourceView,
) -> Seq<ModuleItemView>
    decreases body.len(),
{
    if body.len() == 0 {
        Seq::empty()
    } else {
        let rest = body.drop_last();
        let here = if names_source(body.last(), source.src) && !any_names_source(
            rest,
            source.src,
        ) {
            imported
        } else {
            Seq::empty()
        };
        inject(rest, imported, source) + here + inject_item(body.last(), source)
    }
}

/// The imported variables that injection leaves unused: all of them where no
/// statement names the source, none otherwise.
pub open spec fn left_over(
    body: Seq<ModuleItemView>,
    imported: Seq<ModuleItemView>,
    source: SourceView,
) -> Seq<ModuleItemView> {
    if any_names_source(body, source.src) {
        Seq::empty()
    } else {
        imported
    }
}

/// Appends to `out` the bridging variables for the specifiers of one import.
fn push_bridges(out: &mut Vec<ModuleItem>, specifiers: &Vec<ImportSpecifier>, export_ctxt: u32)
    ensures
        views(final(out)@) == views(old(out)@) + bridges(views(specifiers@), export_ctxt),
{
    let ghost f = bridge_with(export_ctxt);
    let ghost before = views(out@);
    let ghost vs = views(specifiers@);
    let mut k: usize = 0;
    proof {
        assert(views(out@) =~= before + vs.take(0).filter_map(f));
    }
    while k < specifiers.len()
        invariant
            k <= specifiers.len(),
            f == bridge_with(export_ctxt),
            vs == views(specifiers@),
            views(out@) == before + vs.take(k as int).filter_map(f),
        decreases specifiers.len() - k,
    {
        let ghost done = vs.take(k as int).filter_map(f);
        proof {
            assert(vs.take(k + 1).drop_last() =~= vs.take(k as int));
            assert(vs.take(k + 1).last() == specifiers@[k as int]@);
            assert(f(specifiers@[k as int]@) == bridge(specifiers@[k as int]@, export_ctxt));
        }
        match &specifiers[k] {
            ImportSpecifier::Named { local, imported: Some(imported) } => {
                let item = make_const(local.dup(), Init::Ident(imported.with_ctxt(export_ctxt)));
                proof {
                    lemma_views_push(out@, item);
                    assert(bridge(specifiers@[k as int]@, export_ctxt) == Some(item@));
                    assert(vs.take(k + 1).filter_map(f) == done + seq![item@]);
                    assert((before + done).push(item@) =~= before + (done + seq![item@]));
                }
                out.push(item);
            },
            _ => {
                proof {
                    assert(bridge(specifiers@[k as int]@, export_ctxt) is None);
                    assert(vs.take(k + 1).filter_map(f) == done);
                }
            },
        }
        k = k + 1;
    }
    proof {
        assert(vs.take(k as int) =~= vs);
    }
}

/// The namespace binding of an export statement that holds a namespace
/// specifier and nothing else.
fn sole_namespace(export: &NamedExport) -> (name: Option<Ident>)
    ensures
        name is Some <==> only_namespace(export@),
        name matches Some(n) ==> n@ == export@.specifiers[0]->Namespace_name,
{
    if export.specifiers.len() != 1 {
        return None;
    }
    proof {
        assert(export@.specifiers[0] == export.specifiers@[0]@);
    }
    match &export.specifiers[0] {
        ExportSpecifier::Namespace { name } => Some(name.dup()),
        _ => None,
    }
}

/// Re-emits an export statement without its source.
fn clear_source(export: NamedExport) -> (out: NamedExport)
    ensures
        out@ == reexport(export@),
{
    match sole_namespace(&export) {
        Some(name) => {
            let mut specifiers: Vec<ExportSpecifier> = Vec::new();
            specifiers.push(ExportSpecifier::Named { span: Span::dummy(), orig: name, exported: None });
            proof {
                assert(views(specifiers@) =~= seq![specifiers@[0]@]);
            }
            NamedExport { span: export.span, specifiers, src: None, type_only: false }
        },
        None => NamedExport {
            span: export.span,
            specifiers: export.specifiers,
            src: None,
            type_only: export.type_only,
        },
    }
}

/// Splices the variables that stand for one inlined module into an importer's
/// body.
pub struct ExportInjector {
    /// The variables synthesized for the inlined module.
    pub imported: Vec<ModuleItem>,
    /// The inlined module.
    pub source: Source,
}

impl ExportInjector {
    /// Rewrites the importer's `body`. Returns the new body and the imported
    /// variables that were not placed.
    ///
    /// The imported variables go, once and in their order, where the first
    /// statement that names the source stood. Every import of the source is
    /// replaced by its bridging variables, every `export *` from it is dropped,
    /// every `export { .. }` from it loses the source, and one that is only a
    /// namespace specifier becomes a named re-export of that binding. Empty
    /// statements are dropped; all else stays in order.
    pub fn inject(self, body: Vec<ModuleItem>) -> (r: (Vec<ModuleItem>, Vec<ModuleItem>))
        ensures
            views(r.0@) == inject(views(body@), views(self.imported@), self.source@),
            views(r.1@) == left_over(views(body@), views(self.imported@), self.source@),
    {
        let ExportInjector { imported, source } = self;
        let mut imported = imported;
        let ghost src = views(body@);
        let ghost all = views(imported@);
        let ghost name = source@.src;
        let mut out: Vec<ModuleItem> = Vec::new();
        proof {
            assert(src.take(0) =~= Seq::empty());
            assert(views(out@) =~= inject(src.take(0), all, source@));
        }
        for item in it: body.into_iter()
            invariant
                src == views(it.seq()),
                name == source@.src,
                views(out@) == inject(src.take(it.index()), all, source@),
                views(imported@) == left_over(src.take(it.index()), all, source@),
        {
            let ghost k = it.index();
            let ghost before = views(out@);
            let ghost seen = src.take(k);
            let ghost next = src.take(k + 1);
            proof {
                assert(src[k] == item@);
                assert(next.drop_last() =~= seen);
                assert(next.last() == item@);
                if any_names_source(seen, name) {
                    let j = choose|j: int| 0 <= j < seen.len() && names_source(#[trigger] seen[j], name);
                    assert(next[j] == seen[j]);
                } else if names_source(item@, name) {
                    assert(names_source(next[k], name));
                } else {
                    assert forall|j: int| 0 <= j < next.len() implies !names_source(
                        #[trigger] next[j],
                        name,
                    ) by {
                        if j < k {
                            assert(next[j] == seen[j]);
                        }
                    }
                }
                assert(any_names_source(next, name) == (any_names_source(seen, name)
                    || names_source(item@, name)));
            }
            match item {
                ModuleItem::Empty => {
                    proof {
                        assert(before + Seq::<ModuleItemView>::empty() + inject_item(
                            item@,
                            source@,
                        ) =~= before);
                    }
                },
                ModuleItem::Import(import) => {
                    if import.src == source.src {
                        proof {
                            lemma_views_add(out@, imported@);
                        }
                        out.append(&mut imported);
                        push_bridges(&mut out, &import.specifiers, source.export_ctxt);
                    } else {
                        proof {
                            lemma_views_push(out@, item);
                            assert(before + Seq::<ModuleItemView>::empty() + seq![item@]
                                =~= before.push(item@));
                        }
                        out.push(ModuleItem::Import(import));
                    }
                },
                ModuleItem::ExportAll(export) => {
                    if export.src == source.src {
                        proof {
                            lemma_views_add(out@, imported@);
                            assert(before + views(imported@) + Seq::<ModuleItemView>::empty()
                                =~= before + views(imported@));
                        }
                        out.append(&mut imported);
                    } else {
                        proof {
                            lemma_views_push(out@, item);
                            assert(before + Seq::<ModuleItemView>::empty() + seq![item@]
                                =~= before.push(item@));
                        }
                        out.push(ModuleItem::ExportAll(export));
                    }
                },
                ModuleItem::ExportNamed(export) => {
                    let from_source = match &export.src {
                        Some(s) => *s == source.src,
                        None => false,
                    };
                    if from_source {
                        proof {
                            lemma_views_add(out@, imported@);
                        }
                        out.append(&mut imported);
                        let new = ModuleItem::ExportNamed(clear_source(export));
                        proof {
                            lemma_views_push(out@, new);
                            assert((before + left_over(seen, all, source@)).push(new@) =~= before
                                + left_over(seen, all, source@) + seq![new@]);
                        }
                        out.push(new);
                    } else {
                        proof {
                            lemma_views_push(out@, item);
                            assert(before + Seq::<ModuleItemView>::empty() + seq![item@]
                                =~= before.push(item@));
                        }
                        out.push(ModuleItem::ExportNamed(export));
                    }
                },
                other => {
                    proof {
                        lemma_views_push(out@, other);
                        assert(before + Seq::<ModuleItemView>::empty() + seq![item@]
                            =~= before.push(item@));
                    }
                    out.push(other);
                },
            }
            proof {
                assert(views(imported@) =~= left_over(next, all, source@));
            }
        }
        proof {
            assert(src.take(src.len() as int) =~= src);
        }
        (out, imported)
    }
}

} // verus!
