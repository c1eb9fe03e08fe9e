use result_bridge::bridge::Bridge;
use result_bridge::delegate::{ActivationPolicy, AuxDelegateState};
use result_bridge::dispatch::{Action, DispatchState};
use result_bridge::event::{Event, UnitError, UnitHandle, ViewControllerHandle};
use result_bridge::session::pump;

fn unit(id: u64) -> UnitHandle {
    UnitHandle { id }
}

fn vc(id: u64) -> ViewControllerHandle {
    ViewControllerHandle { id }
}

#[test]
fn unit_success_requests_exactly_one_view_controller() {
    let mut state = DispatchState::new();
    let action = state.dispatch(Event::UnitReady(Ok(unit(5))));
    assert_eq!(action, Action::RequestViewController(unit(5)));
    assert!(!state.loaded_vc);
}

#[test]
fn unit_failure_reports_typed_error_and_requests_nothing() {
    let mut state = DispatchState::new();
    let action = state.dispatch(Event::UnitReady(Err(UnitError::InstantiationFailed)));
    assert_eq!(action, Action::ReportUnitError(UnitError::InstantiationFailed));
    assert!(!state.loaded_vc);
}

#[test]
fn first_controller_attaches_and_later_ones_are_noops() {
    let mut state = DispatchState::new();
    let first = state.dispatch(Event::ViewControllerReady(Some(vc(1))));
    assert_eq!(first, Action::AttachViewController(vc(1)));
    assert!(state.loaded_vc);
    let again = state.dispatch(Event::ViewControllerReady(Some(vc(2))));
    assert_eq!(again, Action::Nothing);
    assert!(state.loaded_vc);
}

#[test]
fn empty_controller_result_is_a_noop() {
    let mut state = DispatchState::new();
    let action = state.dispatch(Event::ViewControllerReady(None));
    assert_eq!(action, Action::Nothing);
    assert!(!state.loaded_vc);
}

#[test]
fn two_concurrent_units_both_request_and_first_controller_wins() {
    let mut bridge = Bridge::new();
    let mut state = DispatchState::new();
    assert_eq!(bridge.send(Event::UnitReady(Ok(unit(1)))), Ok(()));
    assert_eq!(bridge.send(Event::UnitReady(Ok(unit(2)))), Ok(()));
    let actions = pump(&mut bridge, &mut state);
    assert_eq!(
        actions,
        vec![
            Action::RequestViewController(unit(1)),
            Action::RequestViewController(unit(2)),
        ]
    );
    assert!(!state.loaded_vc);
    // The two controller results race in; the first to arrive wins the
    // attachment and the second is a no-op under the loaded_vc guard.
    assert_eq!(bridge.send(Event::ViewControllerReady(Some(vc(2)))), Ok(()));
    assert_eq!(bridge.send(Event::ViewControllerReady(Some(vc(1)))), Ok(()));
    let actions = pump(&mut bridge, &mut state);
    assert_eq!(
        actions,
        vec![Action::AttachViewController(vc(2)), Action::Nothing]
    );
    assert!(state.loaded_vc);
}

#[test]
fn full_session_attaches_once() {
    let mut bridge = Bridge::new();
    let mut state = DispatchState::new();

    // The instantiation callback completes with a unit.
    assert_eq!(bridge.send(Event::UnitReady(Ok(unit(7)))), Ok(()));
    let actions = pump(&mut bridge, &mut state);
    assert_eq!(actions, vec![Action::RequestViewController(unit(7))]);

    // The view-controller callback completes and resends through the bridge.
    assert_eq!(bridge.send(Event::ViewControllerReady(Some(vc(8)))), Ok(()));
    let actions = pump(&mut bridge, &mut state);
    assert_eq!(actions, vec![Action::AttachViewController(vc(8))]);
    assert!(state.loaded_vc);

    // An idle iteration does nothing.
    assert_eq!(pump(&mut bridge, &mut state), Vec::new());
    assert!(state.loaded_vc);
}

#[test]
fn failed_session_leaves_window_untouched() {
    let mut bridge = Bridge::new();
    let mut state = DispatchState::new();
    assert_eq!(
        bridge.send(Event::UnitReady(Err(UnitError::InstantiationFailed))),
        Ok(())
    );
    let actions = pump(&mut bridge, &mut state);
    assert_eq!(
        actions,
        vec![Action::ReportUnitError(UnitError::InstantiationFailed)]
    );
    assert!(!state.loaded_vc);
}

#[test]
fn aux_delegate_state_starts_with_regular_policy() {
    let state = AuxDelegateState::new();
    assert_eq!(state.activation_policy, ActivationPolicy::Regular);
}

#[test]
fn aux_delegate_state_keeps_a_deferred_policy() {
    let mut state = AuxDelegateState::new();
    state.activation_policy = ActivationPolicy::Accessory;
    assert_eq!(state.activation_policy, ActivationPolicy::Accessory);
}
