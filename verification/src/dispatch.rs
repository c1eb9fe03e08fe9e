//! Per-iteration dispatch: the UI-thread logic that acts on each drained
//! event by tag.
//!
//! A successful unit instantiation triggers exactly one view-controller
//! request for that unit. A failed one is surfaced as a typed error — never
//! silently dropped, never a process abort — and the caller decides whether
//! to retry another descriptor. A view-controller result attaches its
//! controller to the window only if none has been attached yet this session;
//! the `loaded_vc` flag gates every later attachment, so the window holds at
//! most one embedded controller.

use vstd::prelude::*;

use crate::event::{Event, UnitError, UnitHandle, ViewControllerHandle};

verus! {

/// The action the UI loop must perform in response to one drained event.
/// The loop performs it on the UI thread; the dispatch logic itself touches
/// no window state.
#[derive(Clone, Copy, Debug, PartialEq, Eq)]
pub enum Action {
    /// Start the asynchronous view-controller request for this unit. Its
    /// completion callback, on whatever thread the framework invokes it,
    /// wraps the result as `ViewControllerReady` and resends it through the
    /// same bridge.
    RequestViewController(UnitHandle),
    /// Transfer ownership of this controller into the window's content
    /// area: a single-assignment operation, performed at most once per
    /// session.
    AttachViewController(ViewControllerHandle),
    /// Unit instantiation failed: report the typed error and leave the
    /// window in its prior state.
    ReportUnitError(UnitError),
    /// Nothing to do for this event.
    Nothing,
}

/// UI-loop-local dispatch state: whether a view controller has already been
/// attached to the window this session. Owned exclusively by the event-loop
/// closure and mutated only on the consumer side; `loaded_vc` encodes the
/// terminal, attached state of the session.
#[derive(Clone, Copy, Debug, PartialEq, Eq, Structural)]
pub struct DispatchState {
    pub loaded_vc: bool,
}

/// What dispatching one event does: the flag afterwards, and the action the
/// UI loop must perform.
pub open spec fn spec_dispatch(loaded_vc: bool, event: Event) -> (bool, Action) {
    match event {
        Event::UnitReady(Ok(unit)) => (loaded_vc, Action::RequestViewController(unit)),
        Event::UnitReady(Err(e)) => (loaded_vc, Action::ReportUnitError(e)),
        Event::ViewControllerReady(Some(vc)) => if !loaded_vc {
            (true, Action::AttachViewController(vc))
        } else {
            (true, Action::Nothing)
        },
        Event::ViewControllerReady(None) => (loaded_vc, Action::Nothing),
    }
}

impl DispatchState {
    /// The state at the start of a session: nothing attached yet.
    pub fn new() -> (s: Self)
        ensures
            !s.loaded_vc,
    {
        DispatchState { loaded_vc: false }
    }

    /// Act on one drained event: update the attachment flag and return the
    /// one action the UI loop must perform, exactly as [`spec_dispatch`]
    /// says.
    pub fn dispatch(&mut self, event: Event) -> (action: Action)
        ensures
            (final(self).loaded_vc, action) == spec_dispatch(old(self).loaded_vc, event),
    {
        match event {
            Event::UnitReady(Ok(unit)) => Action::RequestViewController(unit),
            Event::UnitReady(Err(e)) => Action::ReportUnitError(e),
            Event::ViewControllerReady(Some(vc)) => {
                if !self.loaded_vc {
                    self.loaded_vc = true;
                    Action::AttachViewController(vc)
                } else {
                    Action::Nothing
                }
            },
            Event::ViewControllerReady(None) => Action::Nothing,
        }
    }
}

/// A successful unit instantiation always initiates exactly one
/// view-controller request — dispatch returns one action, and for this
/// event it is `RequestViewController` for that very handle — whatever the
/// current state; the attachment flag is untouched.
pub proof fn lemma_unit_success_requests_controller(loaded_vc: bool, unit: UnitHandle)
    ensures
        spec_dispatch(loaded_vc, Event::UnitReady(Ok(unit)))
            == (loaded_vc, Action::RequestViewController(unit)),
{
}

/// A failed unit instantiation is surfaced as a typed error to the dispatch
/// point and initiates no view-controller request; the attachment flag is
/// untouched.
pub proof fn lemma_unit_failure_reports(loaded_vc: bool, e: UnitError)
    ensures
        spec_dispatch(loaded_vc, Event::UnitReady(Err(e)))
            == (loaded_vc, Action::ReportUnitError(e)),
{
}

/// Attachment happens exactly once and is idempotent: the first controller
/// result seen while nothing is attached attaches exactly that controller
/// and sets the flag, and any controller result seen afterwards — the same
/// controller or another — is a no-op that leaves the flag set.
pub proof fn lemma_attach_once(vc: ViewControllerHandle, later: ViewControllerHandle)
    ensures
        spec_dispatch(false, Event::ViewControllerReady(Some(vc)))
            == (true, Action::AttachViewController(vc)),
        spec_dispatch(true, Event::ViewControllerReady(Some(later)))
            == (true, Action::Nothing),
{
}

/// An empty view-controller result attaches nothing, raises no error, and
/// leaves the flag exactly as it was.
pub proof fn lemma_empty_controller_is_noop(loaded_vc: bool)
    ensures
        spec_dispatch(loaded_vc, Event::ViewControllerReady(None))
            == (loaded_vc, Action::Nothing),
{
}

} // verus!
