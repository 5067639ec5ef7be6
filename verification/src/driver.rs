//! One frame: the events, then the update, then the transitions they ask for.

use vstd::prelude::*;

use crate::event::Event;
use crate::event::EventQueue;
use crate::state::Context;
use crate::state::Game;
use crate::state::GameState;
use crate::transition::ResolveError;
use crate::transition::StateStack;
use crate::transition::StateTransition;
use crate::transition::Step;

verus! {

/// What a dispatch does, told in the hooks of the state: whether, begun on
/// `state` with `context` and the events `queued`, it may end on
/// `state_after` with `context_after`, leave the events `left` and return
/// `asked`.
///
/// On an empty queue the state is updated, and the answer is returned. Else
/// the newest event is handed to the state; if the state asks for a
/// transition, that is returned and the other events stay, and if it asks
/// for none, the dispatch goes on with the other events.
pub open spec fn dispatched<'a, G: Game, S: GameState<G>>(
    state: S,
    context: Context<'a, G>,
    queued: Seq<Event<G::Point>>,
    state_after: S,
    context_after: Context<'a, G>,
    left: Seq<Event<G::Point>>,
    asked: StateTransition<S>,
) -> bool
    decreases queued.len(),
{
    if queued.len() == 0 {
        left == queued && S::updated(state, context, state_after, context_after, asked)
    } else {
        exists|mid: S, mid_context: Context<'a, G>, answer: StateTransition<S>|
            #[trigger] S::handled(state, context, queued.last(), mid, mid_context, answer)
                && if answer is Noop {
                dispatched(
                    mid,
                    mid_context,
                    queued.drop_last(),
                    state_after,
                    context_after,
                    left,
                    asked,
                )
            } else {
                mid == state_after && mid_context == context_after && left == queued.drop_last()
                    && asked == answer
            }
    }
}

/// However the state answers, a dispatch leaves the oldest events queued in
/// their order, and leaves none where it ends on a state that asks for
/// nothing: the update comes only after the last event.
pub proof fn lemma_dispatched_leaves_the_oldest<'a, G: Game, S: GameState<G>>(
    state: S,
    context: Context<'a, G>,
    queued: Seq<Event<G::Point>>,
    state_after: S,
    context_after: Context<'a, G>,
    left: Seq<Event<G::Point>>,
    asked: StateTransition<S>,
)
    requires
        dispatched(state, context, queued, state_after, context_after, left, asked),
    ensures
        left.len() <= queued.len(),
        left == queued.take(left.len() as int),
        asked is Noop ==> left.len() == 0,
    decreases queued.len(),
{
    if queued.len() == 0 {
        assert(left =~= queued.take(0));
    } else {
        let (mid, mid_context, answer) = choose|
            mid: S,
            mid_context: Context<'a, G>,
            answer: StateTransition<S>,
        |
            #[trigger] S::handled(state, context, queued.last(), mid, mid_context, answer)
                && if answer is Noop {
                dispatched(
                    mid,
                    mid_context,
                    queued.drop_last(),
                    state_after,
                    context_after,
                    left,
                    asked,
                )
            } else {
                mid == state_after && mid_context == context_after && left == queued.drop_last()
                    && asked == answer
            };
        if answer is Noop {
            lemma_dispatched_leaves_the_oldest(
                mid,
                mid_context,
                queued.drop_last(),
                state_after,
                context_after,
                left,
                asked,
            );
            assert(left =~= queued.take(left.len() as int));
        } else {
            assert(left =~= queued.take(left.len() as int));
        }
    }
}

/// Offers `state` the queued events, newest first, until one of them makes
/// it ask for a transition; if none does, the queue is empty and `state` is
/// updated. Returns what the last hook called has asked for.
///
/// Events that were not reached stay queued, in their order.
pub fn dispatch<'a, G: Game, S: GameState<G>>(
    state: &mut S,
    events: &mut EventQueue<Event<G::Point>>,
    context: &mut Context<'a, G>,
) -> (r: StateTransition<S>)
    ensures
        dispatched(
            *old(state),
            *old(context),
            old(events)@,
            *final(state),
            *final(context),
            final(events)@,
            r,
        ),
        final(events)@.len() <= old(events)@.len(),
        final(events)@ == old(events)@.take(final(events)@.len() as int),
        r is Noop ==> final(events)@.len() == 0,
{
    let ghost queued = events@;
    loop
        invariant
            queued == old(events)@,
            events@.len() <= queued.len(),
            events@ == queued.take(events@.len() as int),
            forall|state_after: S,
                context_after: Context<'a, G>,
                left: Seq<Event<G::Point>>,
                asked: StateTransition<S>,
            |
                #[trigger] dispatched(
                    *state,
                    *context,
                    events@,
                    state_after,
                    context_after,
                    left,
                    asked,
                ) ==> dispatched(
                    *old(state),
                    *old(context),
                    old(events)@,
                    state_after,
                    context_after,
                    left,
                    asked,
                ),
        decreases events@.len(),
    {
        let ghost before = *state;
        let ghost given = *context;
        let ghost waiting = events@;
        match events.pop_newest() {
            Some(event) => {
                proof {
                    assert(events@ =~= queued.take(events@.len() as int));
                }
                let asked = state.on_event(event, context);
                proof {
                    assert(S::handled(before, given, waiting.last(), *state, *context, asked));
                }
                if !asked.is_none() {
                    proof {
                        assert(dispatched(
                            before,
                            given,
                            waiting,
                            *state,
                            *context,
                            events@,
                            asked,
                        ));
                    }
                    return asked;
                }
                proof {
                    let mid = *state;
                    let mid_context = *context;
                    assert forall|state_after: S,
                        context_after: Context<'a, G>,
                        left: Seq<Event<G::Point>>,
                        answer: StateTransition<S>,
                    | #[trigger]
                        dispatched(
                            mid,
                            mid_context,
                            events@,
                            state_after,
                            context_after,
                            left,
                            answer,
                        ) implies dispatched(
                        *old(state),
                        *old(context),
                        old(events)@,
                        state_after,
                        context_after,
                        left,
                        answer,
                    ) by {
                        assert(S::handled(before, given, waiting.last(), mid, mid_context, asked));
                        assert(dispatched(
                            before,
                            given,
                            waiting,
                            state_after,
                            context_after,
                            left,
                            answer,
                        ));
                    }
                }
            },
            None => {
                let asked = state.on_update(context);
                proof {
                    assert(S::updated(before, given, *state, *context, asked));
                    assert(dispatched(before, given, waiting, *state, *context, events@, asked));
                }
                return asked;
            },
        }
    }
}

/// What one link of a chain does, told in the hooks of the states: whether,
/// begun on `stack` with `context` and the transition `pending`, it may end
/// on `stack_after` with `context_after` and return `r`.
///
/// A transition that cannot be applied changes nothing and is an error; a
/// no-op changes nothing and ends the chain. A replacement or a push puts
/// its state on top and calls `on_pushed` on it; a pop takes the top off and
/// calls `on_popped` on it. What the hook asks for is returned.
pub open spec fn advanced<'a, G: Game, S: GameState<G>>(
    stack: Seq<S>,
    context: Context<'a, G>,
    pending: StateTransition<S>,
    stack_after: Seq<S>,
    context_after: Context<'a, G>,
    r: Result<Option<StateTransition<S>>, ResolveError>,
) -> bool {
    if pending.fatal_on(stack) {
        stack_after == stack && context_after == context && r == Err::<
            Option<StateTransition<S>>,
            ResolveError,
        >(ResolveError::PoppedLastState)
    } else {
        match pending {
            StateTransition::Noop => stack_after == stack && context_after == context && r == Ok::<
                Option<StateTransition<S>>,
                ResolveError,
            >(None),
            StateTransition::Replace(state) => r matches Ok(Some(asked)) && stack_after.len()
                == stack.len() && stack_after.drop_last() == stack.drop_last() && S::entered(
                state,
                context,
                stack_after.last(),
                context_after,
                asked,
            ),
            StateTransition::Push(state) => r matches Ok(Some(asked)) && stack_after.len()
                == stack.len() + 1 && stack_after.drop_last() == stack && S::entered(
                state,
                context,
                stack_after.last(),
                context_after,
                asked,
            ),
            StateTransition::Pop => r matches Ok(Some(asked)) && stack_after == stack.drop_last()
                && S::exited(stack.last(), context, context_after, asked),
        }
    }
}

/// Lets go of a state that has left the stack without a hook being owed to
/// it.
fn release<S>(_state: S) {
}

/// Follows one link of a chain: applies `pending` and calls the hook that is
/// owed, on the state that was put on top or on the state that was taken
/// off. Returns what that hook asks for, or `None` where `pending` asked for
/// nothing and the chain has ended.
///
/// No hook is called on the states that stay below the top, and none at all
/// where `pending` cannot be applied. A state that is replaced is let go
/// once the state that replaces it has been entered.
pub fn advance<'a, G: Game, S: GameState<G>>(
    stack: &mut StateStack<S>,
    pending: StateTransition<S>,
    context: &mut Context<'a, G>,
) -> (r: Result<Option<StateTransition<S>>, ResolveError>)
    ensures
        advanced(old(stack)@, *old(context), pending, final(stack)@, *final(context), r),
{
    match stack.apply(pending) {
        Err(error) => Err(error),
        Ok(Step::Settled) => Ok(None),
        Ok(Step::Enter) => {
            let ghost applied = stack@;
            let asked = stack.active_mut().on_pushed(context);
            proof {
                assert(stack@.drop_last() =~= applied.drop_last());
                assert(applied.drop_last() =~= old(stack)@);
            }
            Ok(Some(asked))
        },
        Ok(Step::Replaced(replaced)) => {
            let ghost applied = stack@;
            let asked = stack.active_mut().on_pushed(context);
            proof {
                assert(stack@.drop_last() =~= applied.drop_last());
                assert(applied.drop_last() =~= old(stack)@.drop_last());
            }
            release(replaced);
            Ok(Some(asked))
        },
        Ok(Step::Exit(state)) => Ok(Some(state.on_popped(context))),
    }
}

/// What following a chain does, told in its links: whether, begun on
/// `stack` with `context` and the transition `pending`, and allowed `limit`
/// links, it may end on `stack_after` with `context_after` and return `r`.
///
/// A no-op ends the chain: well if a state is left, and as an error on an
/// empty stack. Any other transition is an error where no link is left or
/// where it cannot be applied; else its link is followed (see [`advanced`])
/// and the chain goes on with what the hook asked for and one link less.
pub open spec fn followed<'a, G: Game, S: GameState<G>>(
    stack: Seq<S>,
    context: Context<'a, G>,
    pending: StateTransition<S>,
    limit: nat,
    stack_after: Seq<S>,
    context_after: Context<'a, G>,
    r: Result<(), ResolveError>,
) -> bool
    decreases limit,
{
    if pending is Noop {
        stack_after == stack && context_after == context && r == if stack.len() > 0 {
            Ok::<(), ResolveError>(())
        } else {
            Err::<(), ResolveError>(ResolveError::PoppedLastState)
        }
    } else if limit == 0 {
        stack_after == stack && context_after == context && r == Err::<(), ResolveError>(
            ResolveError::ChainTooLong,
        )
    } else if pending.fatal_on(stack) {
        stack_after == stack && context_after == context && r == Err::<(), ResolveError>(
            ResolveError::PoppedLastState,
        )
    } else {
        exists|mid: Seq<S>, mid_context: Context<'a, G>, asked: StateTransition<S>|
            #[trigger] advanced(
                stack,
                context,
                pending,
                mid,
                mid_context,
                Ok::<Option<StateTransition<S>>, ResolveError>(Some(asked)),
            ) && followed(
                mid,
                mid_context,
                asked,
                (limit - 1) as nat,
                stack_after,
                context_after,
                r,
            )
    }
}

/// However the hooks answer, a chain that ends well leaves a state on the
/// stack, and a chain that ends on a missing state leaves none.
pub proof fn lemma_followed_leaves_a_state<'a, G: Game, S: GameState<G>>(
    stack: Seq<S>,
    context: Context<'a, G>,
    pending: StateTransition<S>,
    limit: nat,
    stack_after: Seq<S>,
    context_after: Context<'a, G>,
    r: Result<(), ResolveError>,
)
    requires
        followed(stack, context, pending, limit, stack_after, context_after, r),
    ensures
        r is Ok ==> stack_after.len() > 0,
        r == Err::<(), ResolveError>(ResolveError::PoppedLastState) ==> stack_after.len() == 0,
    decreases limit,
{
    if !(pending is Noop) && limit > 0 && !pending.fatal_on(stack) {
        let (mid, mid_context, asked) = choose|
            mid: Seq<S>,
            mid_context: Context<'a, G>,
            asked: StateTransition<S>,
        |
            #[trigger] advanced(
                stack,
                context,
                pending,
                mid,
                mid_context,
                Ok::<Option<StateTransition<S>>, ResolveError>(Some(asked)),
            ) && followed(
                mid,
                mid_context,
                asked,
                (limit - 1) as nat,
                stack_after,
                context_after,
                r,
            );
        lemma_followed_leaves_a_state(
            mid,
            mid_context,
            asked,
            (limit - 1) as nat,
            stack_after,
            context_after,
            r,
        );
    }
}

/// A no-op ends a chain at once: nothing is called and nothing changes, and
/// the chain ends well if and only if a state is on the stack.
pub proof fn lemma_noop_ends_chain<'a, G: Game, S: GameState<G>>(
    stack: Seq<S>,
    context: Context<'a, G>,
    limit: nat,
    stack_after: Seq<S>,
    context_after: Context<'a, G>,
    r: Result<(), ResolveError>,
)
    requires
        followed(
            stack,
            context,
            StateTransition::<S>::Noop,
            limit,
            stack_after,
            context_after,
            r,
        ),
    ensures
        stack_after == stack,
        context_after == context,
        r is Ok <==> stack.len() > 0,
        r is Err ==> r == Err::<(), ResolveError>(ResolveError::PoppedLastState),
{
}

/// Taking off the only state: its `on_popped` is called, and the chain is
/// given up for the missing state unless that hook answers with a push; if
/// it does, the chain goes on from the empty stack with that push.
pub proof fn lemma_pop_of_last<'a, G: Game, S: GameState<G>>(
    stack: Seq<S>,
    context: Context<'a, G>,
    limit: nat,
    stack_after: Seq<S>,
    context_after: Context<'a, G>,
    r: Result<(), ResolveError>,
)
    requires
        stack.len() == 1,
        limit >= 2,
        followed(stack, context, StateTransition::<S>::Pop, limit, stack_after, context_after, r),
    ensures
        exists|mid_context: Context<'a, G>, asked: StateTransition<S>| #[trigger]
            S::exited(stack[0], context, mid_context, asked) && followed(
                Seq::<S>::empty(),
                mid_context,
                asked,
                (limit - 1) as nat,
                stack_after,
                context_after,
                r,
            ) && (!(asked is Push) ==> stack_after.len() == 0 && context_after == mid_context
                && r == Err::<(), ResolveError>(ResolveError::PoppedLastState)),
{
    let pending = StateTransition::<S>::Pop;
    let (mid, mid_context, asked) = choose|
        mid: Seq<S>,
        mid_context: Context<'a, G>,
        asked: StateTransition<S>,
    |
        #[trigger] advanced(
            stack,
            context,
            pending,
            mid,
            mid_context,
            Ok::<Option<StateTransition<S>>, ResolveError>(Some(asked)),
        ) && followed(
            mid,
            mid_context,
            asked,
            (limit - 1) as nat,
            stack_after,
            context_after,
            r,
        );
    assert(mid =~= Seq::<S>::empty());
    assert(S::exited(stack[0], context, mid_context, asked));
}

/// Follows a chain of transitions for at most `limit` links: one link after
/// the other (see [`advance`]), starting with `first`, until a hook asks for
/// nothing.
///
/// The chain is given up where anything but a push would have to be applied
/// to an empty stack, and where a hook asks for more after `limit` links;
/// no hook is called on the way to either.
pub fn follow_chain<'a, G: Game, S: GameState<G>>(
    stack: &mut StateStack<S>,
    first: StateTransition<S>,
    context: &mut Context<'a, G>,
    limit: u64,
) -> (r: Result<(), ResolveError>)
    ensures
        followed(
            old(stack)@,
            *old(context),
            first,
            limit as nat,
            final(stack)@,
            *final(context),
            r,
        ),
        r is Ok ==> final(stack)@.len() > 0,
        r == Err::<(), ResolveError>(ResolveError::PoppedLastState) ==> final(stack)@.len() == 0,
{
    let mut pending = first;
    let mut links: u64 = 0;
    loop
        invariant
            links <= limit,
            forall|stack_after: Seq<S>, context_after: Context<'a, G>, r: Result<(), ResolveError>|
                #[trigger] followed(
                    stack@,
                    *context,
                    pending,
                    (limit - links) as nat,
                    stack_after,
                    context_after,
                    r,
                ) ==> followed(
                    old(stack)@,
                    *old(context),
                    first,
                    limit as nat,
                    stack_after,
                    context_after,
                    r,
                ),
        decreases limit - links,
    {
        let ghost before = stack@;
        let ghost given = *context;
        let ghost left = (limit - links) as nat;
        if !pending.is_none() && links == limit {
            proof {
                assert(followed(
                    before,
                    given,
                    pending,
                    left,
                    before,
                    given,
                    Err::<(), ResolveError>(ResolveError::ChainTooLong),
                ));
            }
            return Err(ResolveError::ChainTooLong);
        }
        match advance(stack, pending, context) {
            Err(error) => {
                proof {
                    assert(followed(
                        before,
                        given,
                        pending,
                        left,
                        before,
                        given,
                        Err::<(), ResolveError>(ResolveError::PoppedLastState),
                    ));
                }
                return Err(error);
            },
            Ok(None) => {
                proof {
                    assert(followed(
                        before,
                        given,
                        pending,
                        left,
                        before,
                        given,
                        Ok::<(), ResolveError>(()),
                    ));
                }
                return Ok(());
            },
            Ok(Some(asked)) => {
                proof {
                    let mid = stack@;
                    let mid_context = *context;
                    assert forall|
                        stack_after: Seq<S>,
                        context_after: Context<'a, G>,
                        r: Result<(), ResolveError>,
                    | #[trigger]
                        followed(
                            mid,
                            mid_context,
                            asked,
                            (limit - (links + 1)) as nat,
                            stack_after,
                            context_after,
                            r,
                        ) implies followed(
                        old(stack)@,
                        *old(context),
                        first,
                        limit as nat,
                        stack_after,
                        context_after,
                        r,
                    ) by {
                        assert(advanced(
                            before,
                            given,
                            pending,
                            mid,
                            mid_context,
                            Ok::<Option<StateTransition<S>>, ResolveError>(Some(asked)),
                        ));
                        assert((limit - (links + 1)) as nat == (left - 1) as nat);
                        assert(followed(
                            before,
                            given,
                            pending,
                            left,
                            stack_after,
                            context_after,
                            r,
                        ));
                    }
                }
                pending = asked;
                links = links + 1;
            },
        }
    }
}

/// Follows a chain of transitions to its end: one link after the other (see
/// [`advance`]), starting with `first`, until a hook asks for nothing.
///
/// The chain is given up where anything but a push would have to be applied
/// to an empty stack. Its length is not limited but by what can be counted:
/// see [`follow_chain`], of which this is the case with `u64::MAX` links.
pub fn handle_transition<'a, G: Game, S: GameState<G>>(
    stack: &mut StateStack<S>,
    first: StateTransition<S>,
    context: &mut Context<'a, G>,
) -> (r: Result<(), ResolveError>)
    ensures
        followed(
            old(stack)@,
            *old(context),
            first,
            u64::MAX as nat,
            final(stack)@,
            *final(context),
            r,
        ),
        r is Ok ==> final(stack)@.len() > 0,
        r == Err::<(), ResolveError>(ResolveError::PoppedLastState) ==> final(stack)@.len() == 0,
{
    follow_chain(stack, first, context, u64::MAX)
}

/// What starting does: whether, begun on `stack` with `context`, it may end
/// on `stack_after` with `context_after` and return `r`. The active state is
/// entered, and the chain that begins with what it asks for is followed.
pub open spec fn started<'a, G: Game, S: GameState<G>>(
    stack: Seq<S>,
    context: Context<'a, G>,
    stack_after: Seq<S>,
    context_after: Context<'a, G>,
    r: Result<(), ResolveError>,
) -> bool {
    exists|top: S, mid_context: Context<'a, G>, asked: StateTransition<S>|
        #[trigger] S::entered(stack.last(), context, top, mid_context, asked) && followed(
            stack.drop_last().push(top),
            mid_context,
            asked,
            u64::MAX as nat,
            stack_after,
            context_after,
            r,
        )
}

/// Tells the state that the stack was made with that it has been entered,
/// and follows whatever it asks for.
pub fn start<'a, G: Game, S: GameState<G>>(
    stack: &mut StateStack<S>,
    context: &mut Context<'a, G>,
) -> (r: Result<(), ResolveError>)
    requires
        old(stack)@.len() > 0,
    ensures
        started(old(stack)@, *old(context), final(stack)@, *final(context), r),
        r is Ok ==> final(stack)@.len() > 0,
        r == Err::<(), ResolveError>(ResolveError::PoppedLastState) ==> final(stack)@.len() == 0,
{
    let first = stack.active_mut().on_pushed(context);
    proof {
        assert(S::entered(old(stack)@.last(), *old(context), stack@.last(), *context, first));
        assert(stack@ =~= old(stack)@.drop_last().push(stack@.last()));
    }
    handle_transition(stack, first, context)
}

/// What a frame does: whether, begun on `stack` with `context` and the
/// events `queued`, it may end on `stack_after` with `context_after`, leave
/// the events `left` and return `r`. The events are dispatched to the active
/// state (see [`dispatched`]), and the chain that begins with what comes of
/// that is followed (see [`followed`]).
pub open spec fn ticked<'a, G: Game, S: GameState<G>>(
    stack: Seq<S>,
    context: Context<'a, G>,
    queued: Seq<Event<G::Point>>,
    stack_after: Seq<S>,
    context_after: Context<'a, G>,
    left: Seq<Event<G::Point>>,
    r: Result<(), ResolveError>,
) -> bool {
    exists|top: S, mid_context: Context<'a, G>, asked: StateTransition<S>|
        #[trigger] dispatched(stack.last(), context, queued, top, mid_context, left, asked)
            && followed(
            stack.drop_last().push(top),
            mid_context,
            asked,
            u64::MAX as nat,
            stack_after,
            context_after,
            r,
        )
}

/// Runs one frame on the active state: the queued events and the update
/// (see [`dispatch`]), then the chain of transitions that came of them (see
/// [`handle_transition`]).
pub fn tick<'a, G: Game, S: GameState<G>>(
    stack: &mut StateStack<S>,
    events: &mut EventQueue<Event<G::Point>>,
    context: &mut Context<'a, G>,
) -> (r: Result<(), ResolveError>)
    requires
        old(stack)@.len() > 0,
    ensures
        ticked(
            old(stack)@,
            *old(context),
            old(events)@,
            final(stack)@,
            *final(context),
            final(events)@,
            r,
        ),
        r is Ok ==> final(stack)@.len() > 0,
        r == Err::<(), ResolveError>(ResolveError::PoppedLastState) ==> final(stack)@.len() == 0,
        final(events)@.len() <= old(events)@.len(),
        final(events)@ == old(events)@.take(final(events)@.len() as int),
{
    let first = dispatch(stack.active_mut(), events, context);
    proof {
        assert(dispatched(
            old(stack)@.last(),
            *old(context),
            old(events)@,
            stack@.last(),
            *context,
            events@,
            first,
        ));
        assert(stack@ =~= old(stack)@.drop_last().push(stack@.last()));
    }
    handle_transition(stack, first, context)
}

} // verus!
