//! One turn of the control loop: an event is routed, the actions that wait are
//! applied in the order in which they came, and the caller is told what only
//! it can do.

use crate::action::{Action, Event, Key};
use crate::app::{effect_of, App, AppView, Effect, Mode, Routed};
use crate::queue::ActionQueue;
use crate::search::normalized;
use vstd::prelude::*;

verus! {

/// What is left for the caller once an event has been dispatched.
#[derive(Clone, Copy, Debug, PartialEq, Eq, Structural)]
pub enum Handoff {
    /// Nothing: the event was queued as an action, or dropped.
    Nothing,
    /// Give the key to the search box.
    Edit(Key),
    /// Read the first line of the search box and give it to `commit`.
    Commit,
}

/// What is left for the caller once an event has gone where `routed` says.
pub open spec fn handoff_of(routed: Routed) -> Handoff {
    match routed {
        Routed::Edit(key) => Handoff::Edit(key),
        Routed::Commit => Handoff::Commit,
        _ => Handoff::Nothing,
    }
}

/// The queue once an event has gone where `routed` says.
pub open spec fn queued(queue: Seq<Action>, routed: Routed) -> Seq<Action> {
    match routed {
        Routed::Enqueue(action) => queue.push(action),
        _ => queue,
    }
}

/// The state after `actions` have been applied, first to last.
pub open spec fn applied(app: AppView, actions: Seq<Action>) -> AppView
    decreases actions.len(),
{
    if actions.len() == 0 {
        app
    } else {
        applied(app, actions.drop_last()).step(actions.last())
    }
}

/// How many actions at the head of `queue` ask nothing of the caller.
pub open spec fn idle_run(queue: Seq<Action>) -> nat
    decreases queue.len(),
{
    if queue.len() == 0 || effect_of(queue[0]) != Effect::Idle {
        0
    } else {
        1 + idle_run(queue.skip(1))
    }
}

/// How many actions one call of `advance` takes from `queue`: those of the
/// idle run and, if the queue goes on, the one behind them.
pub open spec fn taken(queue: Seq<Action>) -> nat {
    if idle_run(queue) < queue.len() {
        idle_run(queue) + 1
    } else {
        queue.len()
    }
}

/// What one call of `advance` asks of the caller: what the first action
/// behind the idle run asks, or nothing when the run is the whole queue.
pub open spec fn asked(queue: Seq<Action>) -> Effect {
    if idle_run(queue) < queue.len() {
        effect_of(queue[idle_run(queue) as int])
    } else {
        Effect::Idle
    }
}

/// The idle run is a prefix of the queue, every action in it asks nothing of
/// the caller, and the action behind it, if there is one, asks something.
pub proof fn lemma_idle_run(queue: Seq<Action>)
    ensures
        idle_run(queue) <= queue.len(),
        forall|i: int| 0 <= i < idle_run(queue) ==> effect_of(#[trigger] queue[i]) == Effect::Idle,
        idle_run(queue) < queue.len() ==> effect_of(queue[idle_run(queue) as int]) != Effect::Idle,
    decreases queue.len(),
{
    if queue.len() > 0 && effect_of(queue[0]) == Effect::Idle {
        let rest = queue.skip(1);
        lemma_idle_run(rest);
        assert forall|i: int| 0 <= i < idle_run(queue) implies effect_of(#[trigger] queue[i])
            == Effect::Idle by {
            if i > 0 {
                assert(queue[i] == rest[i - 1]);
            }
        }
    }
}

/// Routes `event` and, where it stands for an action, puts that action at the
/// end of the queue.
pub fn dispatch(app: &App, queue: &mut ActionQueue, event: Event) -> (handoff: Handoff)
    ensures
        handoff == handoff_of(app@.route(event)),
        final(queue)@ == queued(old(queue)@, app@.route(event)),
{
    match app.route(event) {
        Routed::Enqueue(action) => {
            queue.push(action);
            Handoff::Nothing
        },
        Routed::Edit(key) => Handoff::Edit(key),
        Routed::Commit => Handoff::Commit,
        Routed::Dropped => Handoff::Nothing,
    }
}

/// Closes the search box on its first line: the mode is normal again, and the
/// search for the coin that the line names waits at the end of the queue.
pub fn commit(app: &mut App, queue: &mut ActionQueue, line: &str)
    ensures
        final(app)@ == (AppView { mode: Mode::Normal, ..old(app)@ }),
        final(app)@.wf(),
        final(queue)@.len() == old(queue)@.len() + 1,
        final(queue)@.drop_last() == old(queue)@,
        final(queue)@.last() matches Action::SearchCoin(coin) && coin@ == normalized(line@),
{
    let action = app.commit_search(line);
    queue.push(action);
}

/// Applies the actions that wait, oldest first, up to and with the first one
/// that asks something of the caller, and says what it asks. `Idle` means
/// that the queue has been drained.
pub fn advance(app: &mut App, queue: &mut ActionQueue) -> (effect: Effect)
    ensures
        effect == asked(old(queue)@),
        final(app)@ == applied(old(app)@, old(queue)@.take(taken(old(queue)@) as int)),
        final(queue)@ == old(queue)@.skip(taken(old(queue)@) as int),
        final(app)@.wf(),
        effect == Effect::Idle ==> final(queue)@.len() == 0,
{
    let ghost start = app@;
    let ghost waiting = queue@;
    let ghost mut done: nat = 0;
    proof {
        use_type_invariant(&*app);
        app.lemma_inv_is_wf();
        lemma_idle_run(waiting);
    }
    loop
        invariant
            start == old(app)@,
            waiting == old(queue)@,
            done <= idle_run(waiting) <= waiting.len(),
            forall|i: int| 0 <= i < idle_run(waiting) ==> effect_of(#[trigger] waiting[i])
                == Effect::Idle,
            idle_run(waiting) < waiting.len() ==> effect_of(waiting[idle_run(waiting) as int])
                != Effect::Idle,
            queue@ == waiting.skip(done as int),
            app@ == applied(start, waiting.take(done as int)),
            app@.wf(),
        decreases queue@.len(),
    {
        match queue.pop() {
            None => {
                return Effect::Idle;
            },
            Some(action) => {
                let effect = app.update(action);
                proof {
                    assert(waiting.take(done as int + 1).drop_last() =~= waiting.take(done as int));
                    done = done + 1;
                }
                if effect != Effect::Idle {
                    return effect;
                }
            },
        }
    }
}

} // verus!
