use cargo_leptos::cancel::CancellationState;

#[test]
fn cancellation_starts_idle() {
    let state = CancellationState::new();
    assert_eq!(state, CancellationState::Idle);
    assert!(!state.is_requested());
}

#[test]
fn scenario_interrupt_while_serving() {
    let mut state = CancellationState::new();
    let first = state.interrupt();
    assert!(first);
    assert_eq!(state, CancellationState::Requested);
    assert!(state.is_requested());
    let second = state.interrupt();
    assert!(!second);
    assert_eq!(state, CancellationState::Requested);
}

#[test]
fn any_number_of_interrupts_transitions_once() {
    let mut state = CancellationState::new();
    let mut transitions = 0;
    for _ in 0..10 {
        if state.interrupt() {
            transitions += 1;
        }
        assert!(state.is_requested());
    }
    assert_eq!(transitions, 1);
}
