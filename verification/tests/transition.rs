use statestack::transition::{ResolveError, StateStack, StateTransition, Step};

#[test]
fn a_new_stack_holds_its_first_state() {
    let stack = StateStack::new("menu");
    assert_eq!(stack.depth(), 1);
    assert!(!stack.is_empty());
    assert_eq!(*stack.active(), "menu");
}

#[test]
fn the_constructors_name_their_kind() {
    assert!(matches!(StateTransition::set(5), StateTransition::Replace(5)));
    assert!(matches!(StateTransition::push(6), StateTransition::Push(6)));
}

#[test]
fn only_the_noop_is_none() {
    assert!(StateTransition::<u8>::Noop.is_none());
    assert!(!StateTransition::<u8>::Pop.is_none());
    assert!(!StateTransition::set(1u8).is_none());
    assert!(!StateTransition::push(1u8).is_none());
}

#[test]
fn a_noop_changes_nothing_and_settles() {
    let mut stack = StateStack::new(1);
    assert!(matches!(stack.apply(StateTransition::Noop), Ok(Step::Settled)));
    assert_eq!(stack.depth(), 1);
    assert_eq!(*stack.active(), 1);
}

#[test]
fn a_push_adds_a_state_that_is_to_be_entered() {
    let mut stack = StateStack::new(1);
    assert!(matches!(stack.apply(StateTransition::push(2)), Ok(Step::Enter)));
    assert_eq!(stack.depth(), 2);
    assert_eq!(*stack.active(), 2);
}

#[test]
fn a_replacement_keeps_the_depth() {
    let mut stack = StateStack::new(1);
    assert!(matches!(stack.apply(StateTransition::push(2)), Ok(Step::Enter)));
    assert!(matches!(stack.apply(StateTransition::set(3)), Ok(Step::Replaced(2))));
    assert_eq!(stack.depth(), 2);
    assert_eq!(*stack.active(), 3);
    assert!(matches!(stack.apply(StateTransition::Pop), Ok(Step::Exit(3))));
    assert_eq!(*stack.active(), 1);
}

#[test]
fn a_pop_hands_out_the_state_that_was_active() {
    let mut stack = StateStack::new(1);
    assert!(matches!(stack.apply(StateTransition::push(2)), Ok(Step::Enter)));
    assert!(matches!(stack.apply(StateTransition::Pop), Ok(Step::Exit(2))));
    assert_eq!(stack.depth(), 1);
    assert_eq!(*stack.active(), 1);
    assert!(matches!(stack.apply(StateTransition::Pop), Ok(Step::Exit(1))));
    assert_eq!(stack.depth(), 0);
    assert!(stack.is_empty());
}

#[test]
fn an_empty_stack_takes_nothing_but_a_push() {
    let mut stack = StateStack::new(1);
    assert!(matches!(stack.apply(StateTransition::Pop), Ok(Step::Exit(1))));
    assert!(matches!(stack.apply(StateTransition::Noop), Err(ResolveError::PoppedLastState)));
    assert!(matches!(stack.apply(StateTransition::set(2)), Err(ResolveError::PoppedLastState)));
    assert!(matches!(stack.apply(StateTransition::Pop), Err(ResolveError::PoppedLastState)));
    assert!(stack.is_empty());
    assert!(matches!(stack.apply(StateTransition::push(3)), Ok(Step::Enter)));
    assert_eq!(stack.depth(), 1);
    assert_eq!(*stack.active(), 3);
}

#[test]
fn the_active_state_can_be_changed_in_place() {
    let mut stack = StateStack::new(1);
    assert!(matches!(stack.apply(StateTransition::push(2)), Ok(Step::Enter)));
    *stack.active_mut() += 40;
    assert_eq!(*stack.active(), 42);
    assert!(matches!(stack.apply(StateTransition::Pop), Ok(Step::Exit(42))));
    assert_eq!(*stack.active(), 1);
}

#[test]
fn depth_follows_a_run_of_pushes_and_pops() {
    let mut stack = StateStack::new(0u32);
    let mut n = 1;
    while n <= 100 {
        assert!(matches!(stack.apply(StateTransition::push(n)), Ok(Step::Enter)));
        assert_eq!(stack.depth(), n as usize + 1);
        n += 1;
    }
    while n > 1 {
        n -= 1;
        match stack.apply(StateTransition::Pop) {
            Ok(Step::Exit(state)) => assert_eq!(state, n),
            _ => panic!("no state left the stack"),
        }
        assert_eq!(stack.depth(), n as usize);
    }
    assert_eq!(*stack.active(), 0);
}
