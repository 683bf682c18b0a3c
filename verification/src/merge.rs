//! One merge of a dependency into its importer: the order of the passes, and
//! the decisions between the steps that only the caller can perform.
//!
//! Looking up the dependency's record, loading its body and wrapping a module
//! that must stay a namespace object are the caller's work. `merge_step` says,
//! for each answer the caller brings back, what is to be done next.

use vstd::prelude::*;
use crate::ast::{
    lemma_views_push, view_opt, views, Id, IdView, Ident, IdentView, ModuleItem, ModuleItemView,
    ModuleRecord, ModuleRecordView, Specifier, SpecifierView,
};
use crate::hoist::{alias_item, handle_reexport, hoist, make_alias};
use crate::rewrite::{rewrite, unexport_all_as_var};
use crate::unexport::{all_expected, first_unexpected, unexport, DepUnexporter, MergeError};

verus! {

/// The local name of the first namespace specifier among `specifiers`.
pub open spec fn first_namespace(specifiers: Seq<SpecifierView>) -> Option<IdView>
    decreases specifiers.len(),
{
    if specifiers.len() == 0 {
        None
    } else {
        match specifiers[0] {
            SpecifierView::Namespace { local, .. } => Some(local),
            _ => first_namespace(specifiers.drop_first()),
        }
    }
}

/// What is appended to the body of a wrapped dependency: `const local = name`
/// for the first namespace specifier, where `name` holds the module's
/// namespace object; nothing where no specifier asks for the namespace.
pub open spec fn namespace_binding(specifiers: Seq<SpecifierView>, name: IdView) -> Seq<
    ModuleItemView,
> {
    match first_namespace(specifiers) {
        Some(local) => seq![alias_item(IdentView::of(local), IdentView::of(name))],
        None => Seq::empty(),
    }
}

/// The body that enters the last two passes: for a wrapped dependency the
/// body with its namespace binding, otherwise the body as it is.
pub open spec fn bound(
    body: Seq<ModuleItemView>,
    wrapped: Option<IdView>,
    specifiers: Seq<SpecifierView>,
) -> Seq<ModuleItemView> {
    match wrapped {
        Some(name) => body + namespace_binding(specifiers, name),
        None => body,
    }
}

/// The body as the export-to-variable rewriter leaves it on the way to the
/// unexporter.
pub open spec fn rewritten(
    body: Seq<ModuleItemView>,
    record: ModuleRecordView,
    specifiers: Seq<SpecifierView>,
) -> Seq<ModuleItemView> {
    rewrite(bound(body, record.wrapped, specifiers), record.export_ctxt)
}

/// The merged body, where the merge succeeds. With no specifiers everything
/// is kept and the last two passes do not run.
pub open spec fn finished(
    body: Seq<ModuleItemView>,
    record: ModuleRecordView,
    specifiers: Seq<SpecifierView>,
) -> Seq<ModuleItemView> {
    if specifiers.len() == 0 {
        bound(body, record.wrapped, specifiers)
    } else {
        unexport(rewritten(body, record, specifiers), specifiers)
    }
}

/// Whether the last passes handle every statement of the body.
pub open spec fn finishes(
    body: Seq<ModuleItemView>,
    record: ModuleRecordView,
    specifiers: Seq<SpecifierView>,
) -> bool {
    specifiers.len() == 0 || all_expected(rewritten(body, record, specifiers))
}

/// The local name of the first namespace specifier.
fn find_namespace(specifiers: &Vec<Specifier>) -> (found: Option<Id>)
    ensures
        view_opt(found) == first_namespace(views(specifiers@)),
{
    let ghost vs = views(specifiers@);
    let mut found: Option<Id> = None;
    let mut k: usize = specifiers.len();
    proof {
        assert(vs.skip(k as int).len() == 0);
    }
    while k > 0
        invariant
            k <= specifiers.len(),
            vs == views(specifiers@),
            view_opt(found) == first_namespace(vs.skip(k as int)),
        decreases k,
    {
        k = k - 1;
        proof {
            assert(vs.skip(k as int)[0] == specifiers@[k as int]@);
            assert(vs.skip(k as int).drop_first() =~= vs.skip(k + 1));
        }
        match &specifiers[k] {
            Specifier::Namespace { local, .. } => {
                found = Some(local.dup());
            },
            _ => {},
        }
    }
    proof {
        assert(vs.skip(0) =~= vs);
    }
    found
}

/// Runs what follows hoisting and, for a wrapped dependency, wrapping.
///
/// For a wrapped dependency the namespace binding is appended first. With a
/// non-empty specifier list the export statements are then turned into
/// variables and the export wrappers stripped. Fails exactly when a non-empty
/// list meets a module declaration of an unsupported shape, and names the
/// place of the first one.
pub fn finish_merge(
    record: &ModuleRecord,
    body: Vec<ModuleItem>,
    specifiers: &Vec<Specifier>,
) -> (r: Result<Vec<ModuleItem>, MergeError>)
    ensures
        finishes(views(body@), record@, views(specifiers@)) ==> r is Ok && views(r->Ok_0@)
            == finished(views(body@), record@, views(specifiers@)),
        !finishes(views(body@), record@, views(specifiers@)) ==> (r matches Err(
            MergeError::UnexpectedDeclaration { index },
        ) && first_unexpected(rewritten(views(body@), record@, views(specifiers@)), index as int)),
{
    let mut body = body;
    match &record.wrapped {
        Some(name) => {
            match find_namespace(specifiers) {
                Some(local) => {
                    let item = make_alias(&Ident::of(&local), &Ident::of(name));
                    proof {
                        lemma_views_push(body@, item);
                        assert(views(body@).push(item@) =~= views(body@) + seq![item@]);
                    }
                    body.push(item);
                },
                None => {
                    proof {
                        assert(views(body@) + Seq::<ModuleItemView>::empty() =~= views(body@));
                    }
                },
            }
        },
        None => {},
    }
    if specifiers.len() == 0 {
        return Ok(body);
    }
    let body = unexport_all_as_var(body, record.export_ctxt);
    let unexporter = DepUnexporter { exports: specifiers };
    unexporter.fold_module(body)
}

/// Where a merge stands.
#[derive(Clone, Debug, PartialEq, Eq)]
pub enum MergeState {
    /// The registry has been asked for the dependency's record.
    AwaitRecord,
    /// The dependency's body has been asked for.
    AwaitBody { record: ModuleRecord },
    /// The wrapped form of the hoisted body has been asked for.
    AwaitWrapped { record: ModuleRecord },
    /// The merge has ended.
    Done,
}

pub enum MergeStateView {
    AwaitRecord,
    AwaitBody { record: ModuleRecordView },
    AwaitWrapped { record: ModuleRecordView },
    Done,
}

impl View for MergeState {
    type V = MergeStateView;

    open spec fn view(&self) -> MergeStateView {
        match *self {
            MergeState::AwaitRecord => MergeStateView::AwaitRecord,
            MergeState::AwaitBody { record } => MergeStateView::AwaitBody { record: record@ },
            MergeState::AwaitWrapped { record } => MergeStateView::AwaitWrapped {
                record: record@,
            },
            MergeState::Done => MergeStateView::Done,
        }
    }
}

/// What the caller brings back.
#[derive(Debug, PartialEq, Eq)]
pub enum MergeEvent {
    /// The registry's answer; `None` where it holds no record.
    Record(Option<ModuleRecord>),
    /// The dependency's body; `None` where loading failed.
    Body(Option<Vec<ModuleItem>>),
    /// The wrapped body; `None` where wrapping failed.
    Wrapped(Option<Vec<ModuleItem>>),
}

pub enum MergeEventView {
    Record(Option<ModuleRecordView>),
    Body(Option<Seq<ModuleItemView>>),
    Wrapped(Option<Seq<ModuleItemView>>),
}

/// The view of an optional body.
pub open spec fn view_body(body: Option<Vec<ModuleItem>>) -> Option<Seq<ModuleItemView>> {
    match body {
        Some(b) => Some(views(b@)),
        None => None,
    }
}

impl View for MergeEvent {
    type V = MergeEventView;

    open spec fn view(&self) -> MergeEventView {
        match *self {
            MergeEvent::Record(r) => MergeEventView::Record(view_opt(r)),
            MergeEvent::Body(b) => MergeEventView::Body(view_body(b)),
            MergeEvent::Wrapped(b) => MergeEventView::Wrapped(view_body(b)),
        }
    }
}

/// What the caller is to do next.
#[derive(Debug, PartialEq, Eq)]
pub enum MergeAction {
    /// Ask the registry for the record of module `id`.
    LookUp { id: u32 },
    /// Load the body of module `id`, its own dependencies merged.
    Load { id: u32 },
    /// Wrap `body`, the hoisted body of module `id`.
    Wrap { id: u32, body: Vec<ModuleItem> },
    /// The merge is complete; this is the dependency's rewritten body.
    Finish(Vec<ModuleItem>),
    /// The merge is given up.
    Fail(MergeError),
}

pub enum MergeActionView {
    LookUp { id: u32 },
    Load { id: u32 },
    Wrap { id: u32, body: Seq<ModuleItemView> },
    Finish(Seq<ModuleItemView>),
    Fail(MergeError),
}

impl View for MergeAction {
    type V = MergeActionView;

    open spec fn view(&self) -> MergeActionView {
        match *self {
            MergeAction::LookUp { id } => MergeActionView::LookUp { id },
            MergeAction::Load { id } => MergeActionView::Load { id },
            MergeAction::Wrap { id, body } => MergeActionView::Wrap { id, body: views(body@) },
            MergeAction::Finish(body) => MergeActionView::Finish(views(body@)),
            MergeAction::Fail(e) => MergeActionView::Fail(e),
        }
    }
}

/// How a merge ends once the body is ready for the last passes.
pub open spec fn conclude(
    body: Seq<ModuleItemView>,
    record: ModuleRecordView,
    specifiers: Seq<SpecifierView>,
    action: MergeActionView,
) -> bool {
    if finishes(body, record, specifiers) {
        action == MergeActionView::Finish(finished(body, record, specifiers))
    } else {
        action matches MergeActionView::Fail(MergeError::UnexpectedDeclaration { index })
            && first_unexpected(rewritten(body, record, specifiers), index as int)
    }
}

/// The rule of a merge: from the state and the caller's answer to the next
/// state and action.
///
/// The record is asked for first and its absence ends the merge. The body
/// comes next; a failed load ends the merge. The body is hoisted. A wrapped
/// dependency is handed out for wrapping, and a failed wrap ends the merge.
/// Then the last passes run. An answer that the state did not ask for ends
/// the merge out of turn.
pub open spec fn step(
    dep_id: u32,
    specifiers: Seq<SpecifierView>,
    state: MergeStateView,
    event: MergeEventView,
    next: MergeStateView,
    action: MergeActionView,
) -> bool {
    match (state, event) {
        (MergeStateView::AwaitRecord, MergeEventView::Record(Some(record))) => {
            &&& next == MergeStateView::AwaitBody { record }
            &&& action == MergeActionView::Load { id: dep_id }
        },
        (MergeStateView::AwaitRecord, MergeEventView::Record(None)) => {
            &&& next == MergeStateView::Done
            &&& action == MergeActionView::Fail(MergeError::MissingModule { id: dep_id })
        },
        (MergeStateView::AwaitBody { record }, MergeEventView::Body(Some(body))) => {
            if record.wrapped is Some {
                &&& next == MergeStateView::AwaitWrapped { record }
                &&& action == MergeActionView::Wrap {
                    id: record.id,
                    body: hoist(body, record.export_ctxt),
                }
            } else {
                &&& next == MergeStateView::Done
                &&& conclude(hoist(body, record.export_ctxt), record, specifiers, action)
            }
        },
        (MergeStateView::AwaitBody { record }, MergeEventView::Body(None)) => {
            &&& next == MergeStateView::Done
            &&& action == MergeActionView::Fail(MergeError::LoadFailed { id: dep_id })
        },
        (MergeStateView::AwaitWrapped { record }, MergeEventView::Wrapped(Some(body))) => {
            &&& next == MergeStateView::Done
            &&& conclude(body, record, specifiers, action)
        },
        (MergeStateView::AwaitWrapped { record }, MergeEventView::Wrapped(None)) => {
            &&& next == MergeStateView::Done
            &&& action == MergeActionView::Fail(MergeError::WrapFailed { id: dep_id })
        },
        _ => {
            &&& next == MergeStateView::Done
            &&& action == MergeActionView::Fail(MergeError::OutOfTurn { id: dep_id })
        },
    }
}

/// Starts the merge of module `dep_id`: the registry is asked for its record.
pub fn merge_export(dep_id: u32) -> (r: (MergeState, MergeAction))
    ensures
        r.0@ == MergeStateView::AwaitRecord,
        r.1@ == (MergeActionView::LookUp { id: dep_id }),
{
    (MergeState::AwaitRecord, MergeAction::LookUp { id: dep_id })
}

/// Ends a merge with the outcome of the last passes.
fn conclude_merge(record: &ModuleRecord, body: Vec<ModuleItem>, specifiers: &Vec<Specifier>) -> (r:
    (MergeState, MergeAction))
    ensures
        r.0@ == MergeStateView::Done,
        conclude(views(body@), record@, views(specifiers@), r.1@),
{
    match finish_merge(record, body, specifiers) {
        Ok(out) => (MergeState::Done, MergeAction::Finish(out)),
        Err(e) => (MergeState::Done, MergeAction::Fail(e)),
    }
}

/// Takes one step of the merge of module `dep_id`.
pub fn merge_step(
    dep_id: u32,
    specifiers: &Vec<Specifier>,
    state: MergeState,
    event: MergeEvent,
) -> (r: (MergeState, MergeAction))
    ensures
        step(dep_id, views(specifiers@), state@, event@, r.0@, r.1@),
{
    match (state, event) {
        (MergeState::AwaitRecord, MergeEvent::Record(Some(record))) => (
            MergeState::AwaitBody { record },
            MergeAction::Load { id: dep_id },
        ),
        (MergeState::AwaitRecord, MergeEvent::Record(None)) => (
            MergeState::Done,
            MergeAction::Fail(MergeError::MissingModule { id: dep_id }),
        ),
        (MergeState::AwaitBody { record }, MergeEvent::Body(Some(body))) => {
            let hoisted = handle_reexport(&record, body);
            if record.wrapped.is_some() {
                let id = record.id;
                (MergeState::AwaitWrapped { record }, MergeAction::Wrap { id, body: hoisted })
            } else {
                conclude_merge(&record, hoisted, specifiers)
            }
        },
        (MergeState::AwaitBody { .. }, MergeEvent::Body(None)) => (
            MergeState::Done,
            MergeAction::Fail(MergeError::LoadFailed { id: dep_id }),
        ),
        (MergeState::AwaitWrapped { record }, MergeEvent::Wrapped(Some(body))) => conclude_merge(
            &record,
            body,
            specifiers,
        ),
        (MergeState::AwaitWrapped { record }, MergeEvent::Wrapped(None)) => (
            MergeState::Done,
            MergeAction::Fail(MergeError::WrapFailed { id: dep_id }),
        ),
        _ => (MergeState::Done, MergeAction::Fail(MergeError::OutOfTurn { id: dep_id })),
    }
}

} // verus!
