use amduda::symbolic_fsm::{StateMachine, SymbolicState};

#[test]
fn transitions_and_state_manipulation() {
    let mut sm = StateMachine::new(SymbolicState::new("idle"));
    sm.add_state(SymbolicState::new("working"));
    sm.add_transition("idle", "start", "working");
    sm.add_transition("working", "stop", "idle");

    // initial state
    assert_eq!(sm.current_state().name(), "idle");

    // Start transition
    sm.step("start").expect("transition to working");
    assert_eq!(sm.current_state().name(), "working");

    // Manipulate symbolic data
    sm.current_state_mut().set("counter", "1");
    assert_eq!(sm.current_state().get("counter"), Some(&"1".to_string()));

    // Stop transition
    sm.step("stop").expect("transition back to idle");
    assert_eq!(sm.current_state().name(), "idle");
}

#[test]
fn invalid_transition_returns_none() {
    let mut sm = StateMachine::new(SymbolicState::new("a"));
    sm.add_state(SymbolicState::new("b"));
    sm.add_transition("a", "go", "b");

    assert!(sm.step("missing").is_none());
    assert_eq!(sm.current_state().name(), "a");
}

#[test]
fn state_data_is_kept_per_state() {
    let mut sm = StateMachine::new(SymbolicState::new("a"));
    sm.add_state(SymbolicState::new("b"));
    sm.add_transition("a", "go", "b");
    sm.add_transition("b", "back", "a");

    sm.current_state_mut().set("k", "from-a");
    sm.step("go").expect("transition to b");
    assert_eq!(sm.current_state().get("k"), None);
    sm.current_state_mut().set("k", "from-b");

    sm.step("back").expect("transition back to a");
    assert_eq!(sm.current_state().get("k"), Some(&"from-a".to_string()));
}

#[test]
fn set_replaces_existing_binding() {
    let mut st = SymbolicState::new("s");
    st.set("k", "1");
    st.set("k", "2");
    assert_eq!(st.get("k"), Some(&"2".to_string()));
    assert_eq!(st.get("missing"), None);
}

#[test]
fn add_state_replaces_state_of_same_name() {
    let mut sm = StateMachine::new(SymbolicState::new("a"));
    let mut replacement = SymbolicState::new("a");
    replacement.set("tag", "new");
    sm.add_state(replacement);
    assert_eq!(sm.current_state().get("tag"), Some(&"new".to_string()));
}

#[test]
fn self_loop_transition_steps_in_place() {
    let mut sm = StateMachine::new(SymbolicState::new("a"));
    sm.add_transition("a", "tick", "a");
    assert!(sm.step("tick").is_some());
    assert_eq!(sm.current_state().name(), "a");
}

#[test]
fn transition_to_unregistered_state_does_not_move() {
    let mut sm = StateMachine::new(SymbolicState::new("a"));
    sm.add_transition("a", "go", "ghost");
    assert!(sm.step("go").is_none());
    assert_eq!(sm.current_state().name(), "a");
}
