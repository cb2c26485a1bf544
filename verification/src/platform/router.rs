//! Routers: handles that deliver messages into an asynchronous receiver.

use crate::channel::{clone_sender, poll_receiver, unbounded, unbounded_send, Async, InTask, Receiver, Sender};
use vstd::prelude::*;

verus! {

/// Something that delivers messages of type `T`.
pub trait Router<T> {
    fn send(&self, msg: T);
}

/// Opens an unbounded route: a router and the receiver it delivers into.
pub fn async_router<T>() -> (route: (AsyncRouter<T>, AsyncReceiver<T>))
    ensures
        route.0.chan() == route.1.chan(),
        route.1.answers().len() == 0,
{
    let (tx, rx) = unbounded();
    (AsyncRouter { tx }, AsyncReceiver { rx })
}

/// A router over an unbounded channel. Clones deliver into the same receiver.
#[verifier::reject_recursive_types(T)]
pub struct AsyncRouter<T> {
    tx: Sender<T>,
}

impl<T> AsyncRouter<T> {
    /// The route this router delivers into: a router and a receiver with the
    /// same `chan` are the two ends of one route.
    pub closed spec fn chan(&self) -> int {
        self.tx.chan()
    }
}

impl<T> Clone for AsyncRouter<T> {
    fn clone(&self) -> (copy: Self)
        ensures
            copy.chan() == self.chan(),
    {
        AsyncRouter { tx: clone_sender(&self.tx) }
    }
}

impl<T> Router<T> for AsyncRouter<T> {
    /// Delivers `msg`; a message sent after the receiver is gone is dropped silently.
    fn send(&self, msg: T) {
        let _ = unbounded_send(&self.tx, msg);
    }
}

/// The receiving end of an `AsyncRouter`.
#[verifier::reject_recursive_types(T)]
pub struct AsyncReceiver<T> {
    rx: Receiver<T>,
}

impl<T> AsyncReceiver<T> {
    /// The route this receiver takes from.
    pub closed spec fn chan(&self) -> int {
        self.rx.chan()
    }

    /// Every answer this receiving end's polls gave, oldest first.
    pub closed spec fn answers(&self) -> Seq<Result<Async<Option<T>>, ()>> {
        self.rx.answers()
    }

    /// Takes the next message: `Ready(Some(msg))`, `Ready(None)` once every
    /// router is gone and nothing is left, or `NotReady` while it is empty.
    /// It never fails. `task` shows it runs inside a task.
    pub fn poll(&mut self, task: &InTask) -> (polled: Result<Async<Option<T>>, ()>)
        ensures
            polled is Ok,
            final(self).chan() == old(self).chan(),
            final(self).answers() == old(self).answers().push(polled),
    {
        poll_receiver(&mut self.rx, None, task)
    }

    /// Like `poll`, while `open_by`, a router of this route, is held: the
    /// stream cannot have ended then.
    pub fn poll_open(&mut self, open_by: &AsyncRouter<T>, task: &InTask) -> (polled: Result<Async<Option<T>>, ()>)
        requires
            open_by.chan() == old(self).chan(),
        ensures
            polled is Ok,
            !(polled matches Ok(Async::Ready(None))),
            final(self).chan() == old(self).chan(),
            final(self).answers() == old(self).answers().push(polled),
    {
        poll_receiver(&mut self.rx, Some(&open_by.tx), task)
    }
}

} // verus!
