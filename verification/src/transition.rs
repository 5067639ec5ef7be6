//! What a state may ask for, and what asking does to the stack of states.

use vstd::prelude::*;

verus! {

/// What a state's hook asks of the stack it lives on.
#[derive(Debug)]
pub enum StateTransition<S> {
    /// Leave the stack as it is.
    Noop,
    /// Put this state in place of the active one.
    Replace(S),
    /// Put this state on top of the active one.
    Push(S),
    /// Take the active state off.
    Pop,
}

/// What is owed once a transition has been applied.
#[derive(Debug)]
pub enum Step<S> {
    /// Nothing: the stack has settled.
    Settled,
    /// The state now on top has to be told that it was entered.
    Enter,
    /// The state now on top has to be told that it was entered; this state
    /// has made room for it and is let go after that.
    Replaced(S),
    /// This state has left the stack and has to be told that it exited.
    Exit(S),
}

/// Why a chain of transitions was given up.
#[derive(Debug, Clone, Copy, PartialEq, Eq, Structural)]
pub enum ResolveError {
    /// The last state was taken off and nothing was pushed in its place.
    PoppedLastState,
    /// A hook asked for more after as many links as the chain was allowed.
    ChainTooLong,
}

impl ResolveError {
    pub open spec fn text(self) -> Seq<char> {
        match self {
            ResolveError::PoppedLastState => "Popped the last state!"@,
            ResolveError::ChainTooLong => "The states never settled!"@,
        }
    }

    /// A line that says what went wrong.
    pub fn message(&self) -> (r: &'static str)
        ensures
            r@ == self.text(),
    {
        match self {
            ResolveError::PoppedLastState => "Popped the last state!",
            ResolveError::ChainTooLong => "The states never settled!",
        }
    }
}

impl<S> StateTransition<S> {
    /// Whether this transition cannot be applied to `stack`: only a push can
    /// follow on an empty stack.
    pub open spec fn fatal_on(self, stack: Seq<S>) -> bool {
        stack.len() == 0 && !(self is Push)
    }

    /// The stack that applying this transition to `stack` leaves.
    pub open spec fn applied_to(self, stack: Seq<S>) -> Seq<S> {
        match self {
            StateTransition::Noop => stack,
            StateTransition::Replace(state) => stack.drop_last().push(state),
            StateTransition::Push(state) => stack.push(state),
            StateTransition::Pop => stack.drop_last(),
        }
    }

    /// What is owed after this transition was applied to `stack`.
    pub open spec fn owed_on(self, stack: Seq<S>) -> Step<S> {
        match self {
            StateTransition::Noop => Step::Settled,
            StateTransition::Replace(_) => Step::Replaced(stack.last()),
            StateTransition::Push(_) => Step::Enter,
            StateTransition::Pop => Step::Exit(stack.last()),
        }
    }

    pub fn is_none(&self) -> (r: bool)
        ensures
            r == (self is Noop),
    {
        matches!(self, StateTransition::Noop)
    }

    /// The transition that replaces the active state by `state`.
    #[inline]
    pub fn set(state: S) -> (r: StateTransition<S>)
        ensures
            r == StateTransition::Replace(state),
    {
        StateTransition::Replace(state)
    }

    /// The transition that pushes `state`.
    #[inline]
    pub fn push(state: S) -> (r: StateTransition<S>)
        ensures
            r == StateTransition::Push(state),
    {
        StateTransition::Push(state)
    }
}

/// The states of a running application, the first loaded at the bottom and
/// the active one on top.
pub struct StateStack<S> {
    states: Vec<S>,
}

impl<S> View for StateStack<S> {
    type V = Seq<S>;

    closed spec fn view(&self) -> Seq<S> {
        self.states@
    }
}

impl<S> StateStack<S> {
    /// A stack that holds `initial` alone.
    pub fn new(initial: S) -> (r: Self)
        ensures
            r@ == seq![initial],
    {
        let mut states = Vec::new();
        states.push(initial);
        StateStack { states }
    }

    pub fn depth(&self) -> (r: usize)
        ensures
            r == self@.len(),
    {
        self.states.len()
    }

    pub fn is_empty(&self) -> (r: bool)
        ensures
            r == (self@.len() == 0),
    {
        self.states.len() == 0
    }

    /// The active state.
    pub fn active(&self) -> (r: &S)
        requires
            self@.len() > 0,
        ensures
            *r == self@.last(),
    {
        &self.states[self.states.len() - 1]
    }

    /// The active state, to be changed in place; the states below it stay.
    pub fn active_mut(&mut self) -> (r: &mut S)
        requires
            old(self)@.len() > 0,
        ensures
            *r == old(self)@.last(),
            final(self)@ == old(self)@.drop_last().push(*final(r)),
    {
        let top = self.states.len() - 1;
        &mut self.states[top]
    }

    /// Applies one transition and says what is owed next. A transition that
    /// cannot be applied leaves the stack as it was.
    pub fn apply(&mut self, transition: StateTransition<S>) -> (r: Result<Step<S>, ResolveError>)
        ensures
            transition.fatal_on(old(self)@) ==> r == Err::<Step<S>, ResolveError>(
                ResolveError::PoppedLastState,
            ) && final(self)@ == old(self)@,
            !transition.fatal_on(old(self)@) ==> r == Ok::<Step<S>, ResolveError>(
                transition.owed_on(old(self)@),
            ) && final(self)@ == transition.applied_to(old(self)@),
    {
        match transition {
            StateTransition::Push(state) => {
                self.states.push(state);
                Ok(Step::Enter)
            },
            StateTransition::Noop => {
                if self.states.len() == 0 {
                    Err(ResolveError::PoppedLastState)
                } else {
                    Ok(Step::Settled)
                }
            },
            StateTransition::Replace(state) => {
                if self.states.len() == 0 {
                    Err(ResolveError::PoppedLastState)
                } else {
                    let top = self.states.len() - 1;
                    let mut replaced = state;
                    std::mem::swap(&mut self.states[top], &mut replaced);
                    assert(self.states@ =~= old(self)@.drop_last().push(state));
                    Ok(Step::Replaced(replaced))
                }
            },
            StateTransition::Pop => match self.states.pop() {
                Some(gone) => Ok(Step::Exit(gone)),
                None => Err(ResolveError::PoppedLastState),
            },
        }
    }
}

/// A transition that can be applied changes the depth of the stack by what
/// its kind says: a replacement and a no-op keep it, a push adds one, a pop
/// takes one away.
pub proof fn lemma_depth_change<S>(stack: Seq<S>, transition: StateTransition<S>)
    requires
        !transition.fatal_on(stack),
    ensures
        transition is Noop ==> transition.applied_to(stack).len() == stack.len(),
        transition is Replace ==> transition.applied_to(stack).len() == stack.len(),
        transition is Push ==> transition.applied_to(stack).len() == stack.len() + 1,
        transition is Pop ==> transition.applied_to(stack).len() == stack.len() - 1,
{
}

} // verus!
