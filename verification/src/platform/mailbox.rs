//! Mailboxes: the two ends of an unbounded channel, one to post into and one
//! to take from.

use crate::channel::{clone_sender, poll_receiver, unbounded, unbounded_send, Async, InTask, Receiver, Sender};
use vstd::prelude::*;

verus! {

/// Opens a mailbox: an outbox to post into and the inbox that receives what it posts.
pub(crate) fn new<T>() -> (mailbox: (Outbox<T>, Inbox<T>))
    ensures
        mailbox.0.chan() == mailbox.1.chan(),
        mailbox.1.answers().len() == 0,
{
    let (tx, rx) = unbounded();
    (Outbox { tx }, Inbox { rx })
}

/// The posting end of a mailbox. Clones post into the same inbox.
#[verifier::reject_recursive_types(T)]
pub struct Outbox<T> {
    tx: Sender<T>,
}

impl<T> Clone for Outbox<T> {
    fn clone(&self) -> (copy: Self)
        ensures
            copy.chan() == self.chan(),
    {
        Outbox { tx: clone_sender(&self.tx) }
    }
}

impl<T> Outbox<T> {
    /// The mailbox this outbox posts into: an outbox and an inbox with the same
    /// `chan` are the two ends of one mailbox.
    pub closed spec fn chan(&self) -> int {
        self.tx.chan()
    }

    /// The channel half this outbox posts through.
    pub(crate) fn sender(&self) -> (tx: &Sender<T>)
        ensures
            tx.chan() == self.chan(),
    {
        &self.tx
    }

    /// Posts `msg`. A message posted after the inbox is gone is dropped silently.
    pub fn send(&self, msg: T) {
        let _ = unbounded_send(&self.tx, msg);
    }
}

/// The receiving end of a mailbox.
#[verifier::reject_recursive_types(T)]
pub struct Inbox<T> {
    rx: Receiver<T>,
}

impl<T> Inbox<T> {
    /// The mailbox this inbox receives from.
    pub closed spec fn chan(&self) -> int {
        self.rx.chan()
    }

    /// Every answer this receiving end's polls gave, oldest first.
    pub closed spec fn answers(&self) -> Seq<Result<Async<Option<T>>, ()>> {
        self.rx.answers()
    }

    /// Takes the next message: `Ready(Some(msg))`, `Ready(None)` once every
    /// outbox is gone and nothing is left, or `NotReady` while it is empty.
    /// It never fails. `task` shows it runs inside a task, which a
    /// `NotReady` answer registers to be woken by the next post.
    pub fn poll(&mut self, task: &InTask) -> (polled: Result<Async<Option<T>>, ()>)
        ensures
            polled is Ok,
            final(self).chan() == old(self).chan(),
            final(self).answers() == old(self).answers().push(polled),
    {
        poll_receiver(&mut self.rx, None, task)
    }

    /// Like `poll`, while `open_by`, an outbox of this mailbox, is held: the
    /// stream cannot have ended then.
    pub fn poll_open(&mut self, open_by: &Outbox<T>, task: &InTask) -> (polled: Result<Async<Option<T>>, ()>)
        requires
            open_by.chan() == old(self).chan(),
        ensures
            polled is Ok,
            !(polled matches Ok(Async::Ready(None))),
            final(self).chan() == old(self).chan(),
            final(self).answers() == old(self).answers().push(polled),
    {
        poll_receiver(&mut self.rx, Some(open_by.sender()), task)
    }
}

} // verus!
