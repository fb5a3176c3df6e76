//! The queue of actions between the events that were seen and the state that
//! they change: a channel of `tokio`, read and filled by one owner.

use crate::action::Action;
use tokio::sync::mpsc::{unbounded_channel, UnboundedReceiver, UnboundedSender};
use vstd::prelude::*;

verus! {

/// `tokio::sync::mpsc::UnboundedSender`, the sending half of a channel. Nothing
/// inside it is read here.
#[verifier::external_type_specification]
#[verifier::external_body]
#[verifier::reject_recursive_types(T)]
pub struct ExUnboundedSender<T>(UnboundedSender<T>);

/// `tokio::sync::mpsc::UnboundedReceiver`, the receiving half of a channel.
/// Nothing inside it is read here.
#[verifier::external_type_specification]
#[verifier::external_body]
#[verifier::reject_recursive_types(T)]
pub struct ExUnboundedReceiver<T>(UnboundedReceiver<T>);

/// The actions that wait in the channel that `receiver` reads, oldest first.
pub uninterp spec fn waiting(receiver: UnboundedReceiver<Action>) -> Seq<Action>;

/// Whether `sender` and `receiver` are the two halves of one channel, neither
/// of them closed.
pub uninterp spec fn joined(
    sender: UnboundedSender<Action>,
    receiver: UnboundedReceiver<Action>,
) -> bool;

/// The actions that wait to be applied, in the order in which they came.
pub struct ActionQueue {
    sender: UnboundedSender<Action>,
    receiver: UnboundedReceiver<Action>,
}

impl View for ActionQueue {
    type V = Seq<Action>;

    closed spec fn view(&self) -> Seq<Action> {
        waiting(self.receiver)
    }
}

/// Calls `tokio::sync::mpsc::unbounded_channel`, which makes the two halves of
/// one new channel. Nothing waits in it yet.
#[verifier::external_body]
fn open_channel() -> (queue: ActionQueue)
    ensures
        joined(queue.sender, queue.receiver),
        waiting(queue.receiver) == Seq::<Action>::empty(),
{
    let (sender, receiver) = unbounded_channel();
    ActionQueue { sender, receiver }
}

/// Calls `UnboundedSender::send` on the sending half. A send fails only once
/// the receiving half is closed or gone; here it is held beside the sender and
/// open, so the action is taken and waits behind those that wait already.
#[verifier::external_body]
fn channel_send(queue: &mut ActionQueue, action: Action)
    requires
        joined(old(queue).sender, old(queue).receiver),
    ensures
        joined(final(queue).sender, final(queue).receiver),
        waiting(final(queue).receiver) == waiting(old(queue).receiver).push(action),
{
    let _ = queue.sender.send(action);
}

/// Calls `UnboundedReceiver::try_recv` on the receiving half, which hands out
/// the action that has waited longest and never reports a channel empty in
/// which an action waits. With no action waiting the call fails, which is
/// given back as `None`.
#[verifier::external_body]
fn channel_try_recv(queue: &mut ActionQueue) -> (action: Option<Action>)
    requires
        joined(old(queue).sender, old(queue).receiver),
    ensures
        joined(final(queue).sender, final(queue).receiver),
        match action {
            Some(first) => waiting(old(queue).receiver).len() > 0 && first == waiting(
                old(queue).receiver,
            )[0] && waiting(final(queue).receiver) == waiting(old(queue).receiver).skip(1),
            None => waiting(old(queue).receiver).len() == 0 && waiting(final(queue).receiver)
                == waiting(old(queue).receiver),
        },
{
    queue.receiver.try_recv().ok()
}

impl ActionQueue {
    #[verifier::type_invariant]
    closed spec fn inv(self) -> bool {
        joined(self.sender, self.receiver)
    }

    /// An empty queue.
    pub fn new() -> (queue: ActionQueue)
        ensures
            queue@ == Seq::<Action>::empty(),
    {
        open_channel()
    }

    /// Puts `action` behind the actions that wait.
    pub fn push(&mut self, action: Action)
        ensures
            final(self)@ == old(self)@.push(action),
    {
        proof {
            use_type_invariant(&*self);
        }
        channel_send(self, action);
    }

    /// Takes the action that has waited longest, if any waits.
    pub fn pop(&mut self) -> (action: Option<Action>)
        ensures
            old(self)@.len() == 0 ==> action is None && final(self)@ == old(self)@,
            old(self)@.len() > 0 ==> action == Some(old(self)@[0]) && final(self)@ == old(
                self,
            )@.skip(1),
    {
        proof {
            use_type_invariant(&*self);
        }
        channel_try_recv(self)
    }
}

} // verus!
