//! One UI-loop iteration over the whole session: drain the bridge, dispatch
//! every drained event in order, and hand the resulting actions — in the
//! same order — to the loop to perform.
//!
//! The laws here are the session-wide consequences of per-event dispatch:
//! every event yields exactly one action; a session attaches at most one
//! view controller, however many results race in; and the view-controller
//! requests that come out are exactly the successfully instantiated units,
//! one each, in order.

use vstd::prelude::*;

use crate::bridge::Bridge;
use crate::dispatch::{spec_dispatch, Action, DispatchState};
use crate::event::{Event, UnitHandle};

verus! {

/// What dispatching a whole sequence of events does, oldest first: the
/// attachment flag afterwards, and the actions to perform, in order.
pub open spec fn spec_dispatch_all(loaded_vc: bool, events: Seq<Event>) -> (bool, Seq<Action>)
    decreases events.len(),
{
    if events.len() == 0 {
        (loaded_vc, Seq::<Action>::empty())
    } else {
        let head = spec_dispatch(loaded_vc, events.first());
        let tail = spec_dispatch_all(head.0, events.drop_first());
        (tail.0, seq![head.1] + tail.1)
    }
}

/// One iteration of the UI event loop's idle phase: drain every pending
/// event and dispatch each in order. Returns the actions the loop must
/// perform, in order; never blocks, and on an empty queue does nothing.
pub fn pump(bridge: &mut Bridge, state: &mut DispatchState) -> (actions: Vec<Action>)
    ensures
        final(bridge).is_open() == old(bridge).is_open(),
        final(bridge)@ == Seq::<Event>::empty(),
        final(state).loaded_vc == spec_dispatch_all(old(state).loaded_vc, old(bridge)@).0,
        actions@ == spec_dispatch_all(old(state).loaded_vc, old(bridge)@).1,
        old(bridge)@.len() == 0 ==> actions@.len() == 0
            && final(state).loaded_vc == old(state).loaded_vc,
{
    let ghost initial_loaded: bool = state.loaded_vc;
    let events = bridge.drain();
    let ghost all: Seq<Event> = events@;
    let mut actions: Vec<Action> = Vec::new();
    let mut i: usize = 0;
    proof {
        assert(all.skip(0) =~= all);
        assert(actions@ + spec_dispatch_all(state.loaded_vc, all).1
            =~= spec_dispatch_all(state.loaded_vc, all).1);
    }
    while i < events.len()
        invariant
            i <= all.len(),
            events@ == all,
            spec_dispatch_all(initial_loaded, all).0
                == spec_dispatch_all(state.loaded_vc, all.skip(i as int)).0,
            spec_dispatch_all(initial_loaded, all).1
                == actions@ + spec_dispatch_all(state.loaded_vc, all.skip(i as int)).1,
        decreases all.len() - i,
    {
        let ghost pending: Seq<Event> = all.skip(i as int);
        proof {
            assert(pending.drop_first() =~= all.skip(i as int + 1));
        }
        let event = events[i];
        let action = state.dispatch(event);
        actions.push(action);
        proof {
            let ghost rest = spec_dispatch_all(state.loaded_vc, all.skip(i as int + 1));
            assert(actions@ + rest.1 =~= (actions@.drop_last() + (seq![action] + rest.1)));
        }
        i = i + 1;
    }
    proof {
        assert(all.skip(all.len() as int) =~= Seq::<Event>::empty());
        assert(actions@ + Seq::<Action>::empty() =~= actions@);
    }
    actions
}

/// How many of the actions attach a view controller to the window.
pub open spec fn count_attachments(actions: Seq<Action>) -> nat
    decreases actions.len(),
{
    if actions.len() == 0 {
        0
    } else {
        (if actions.first() is AttachViewController {
            1nat
        } else {
            0nat
        }) + count_attachments(actions.drop_first())
    }
}

/// Every drained event is dispatched to exactly one action: no event is
/// dropped, none is acted on twice.
pub proof fn lemma_one_action_per_event(loaded_vc: bool, events: Seq<Event>)
    ensures
        spec_dispatch_all(loaded_vc, events).1.len() == events.len(),
    decreases events.len(),
{
    if events.len() > 0 {
        let head = spec_dispatch(loaded_vc, events.first());
        lemma_one_action_per_event(head.0, events.drop_first());
    }
}

/// The attachment flag never falls back: once a controller is attached,
/// every later event leaves the flag set.
pub proof fn lemma_loaded_vc_is_monotone(loaded_vc: bool, events: Seq<Event>)
    ensures
        loaded_vc ==> spec_dispatch_all(loaded_vc, events).0,
    decreases events.len(),
{
    if events.len() > 0 {
        let head = spec_dispatch(loaded_vc, events.first());
        lemma_loaded_vc_is_monotone(head.0, events.drop_first());
    }
}

/// A session attaches at most one view controller, however many
/// controller results arrive and in whatever order: the first one seen
/// while nothing is attached wins, and every later one is a no-op under
/// the `loaded_vc` guard. Once the flag is set, nothing is attached at all.
pub proof fn lemma_at_most_one_attachment(loaded_vc: bool, events: Seq<Event>)
    ensures
        count_attachments(spec_dispatch_all(loaded_vc, events).1) <= 1,
        loaded_vc ==> count_attachments(spec_dispatch_all(loaded_vc, events).1) == 0,
    decreases events.len(),
{
    if events.len() > 0 {
        let head = spec_dispatch(loaded_vc, events.first());
        let tail = spec_dispatch_all(head.0, events.drop_first());
        lemma_at_most_one_attachment(head.0, events.drop_first());
        lemma_count_attachments_cons(head.1, tail.1);
        if head.1 is AttachViewController {
            lemma_loaded_vc_is_monotone(head.0, events.drop_first());
            assert(head.0);
        }
    }
}

/// Prepending one action adds its own attachment count to the rest's.
proof fn lemma_count_attachments_cons(action: Action, rest: Seq<Action>)
    ensures
        count_attachments(seq![action] + rest) == (if action is AttachViewController {
            1nat
        } else {
            0nat
        }) + count_attachments(rest),
{
    assert((seq![action] + rest).first() == action);
    assert((seq![action] + rest).drop_first() =~= rest);
}

/// The units whose asynchronous instantiation succeeded, in event order.
pub open spec fn unit_successes(events: Seq<Event>) -> Seq<UnitHandle>
    decreases events.len(),
{
    if events.len() == 0 {
        Seq::<UnitHandle>::empty()
    } else {
        (match events.first() {
            Event::UnitReady(Ok(unit)) => seq![unit],
            _ => Seq::<UnitHandle>::empty(),
        }) + unit_successes(events.drop_first())
    }
}

/// The units for which the actions request a view controller, in order.
pub open spec fn requested_units(actions: Seq<Action>) -> Seq<UnitHandle>
    decreases actions.len(),
{
    if actions.len() == 0 {
        Seq::<UnitHandle>::empty()
    } else {
        (match actions.first() {
            Action::RequestViewController(unit) => seq![unit],
            _ => Seq::<UnitHandle>::empty(),
        }) + requested_units(actions.drop_first())
    }
}

/// Every successful unit instantiation initiates exactly one
/// view-controller request for its own handle — never zero, never more —
/// and the requests come out in the order the successes were dispatched,
/// whatever other events stand between them and whatever the flag's state.
pub proof fn lemma_one_request_per_success(loaded_vc: bool, events: Seq<Event>)
    ensures
        requested_units(spec_dispatch_all(loaded_vc, events).1) == unit_successes(events),
    decreases events.len(),
{
    if events.len() > 0 {
        let head = spec_dispatch(loaded_vc, events.first());
        let tail = spec_dispatch_all(head.0, events.drop_first());
        lemma_one_request_per_success(head.0, events.drop_first());
        lemma_requested_units_cons(head.1, tail.1);
        match events.first() {
            Event::UnitReady(Ok(unit)) => {
                assert(seq![unit] + unit_successes(events.drop_first())
                    =~= unit_successes(events));
            },
            _ => {
                assert(Seq::<UnitHandle>::empty() + unit_successes(events.drop_first())
                    =~= unit_successes(events));
            },
        }
    }
}

/// Prepending one action prepends the unit it requests, if any.
proof fn lemma_requested_units_cons(action: Action, rest: Seq<Action>)
    ensures
        requested_units(seq![action] + rest) == (match action {
            Action::RequestViewController(unit) => seq![unit],
            _ => Seq::<UnitHandle>::empty(),
        }) + requested_units(rest),
{
    assert((seq![action] + rest).first() == action);
    assert((seq![action] + rest).drop_first() =~= rest);
}

} // verus!
