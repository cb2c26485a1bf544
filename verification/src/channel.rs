//! The unbounded channel of `futures` that carries messages and commands,
//! the library's own view of a stream's readiness, and the token that shows
//! a `futures` task is running.

use futures::sync::mpsc::{UnboundedReceiver, UnboundedSender};
use futures::Stream;
use std::marker::PhantomData;
use std::rc::Rc;
use vstd::prelude::*;

verus! {

/// The sending half of `futures`' unbounded channel.
#[verifier::external_type_specification]
#[verifier::external_body]
#[verifier::reject_recursive_types(T)]
pub struct ExUnboundedSender<T>(UnboundedSender<T>);

/// The receiving half of `futures`' unbounded channel.
#[verifier::external_type_specification]
#[verifier::external_body]
#[verifier::reject_recursive_types(T)]
pub struct ExUnboundedReceiver<T>(UnboundedReceiver<T>);

/// Whether a value is available now: the same two cases as `futures::Async`.
pub enum Async<T> {
    /// The value is there.
    Ready(T),
    /// The value is not there yet; the current task will be woken when it is.
    NotReady,
}

/// Shows that a `futures` task is running on this thread. It is handed out
/// only by reference, inside `InTask::with_current`, so it cannot outlive the
/// call that checked for the task; it is neither `Clone` nor `Copy`, and the
/// `Rc` marker keeps it (and references to it) on the thread that made it.
pub struct InTask {
    here: PhantomData<Rc<()>>,
}

/// Asks `futures::task::is_in_task` whether a task is running on this
/// thread. The answer depends on the thread's state, so nothing is claimed of it.
#[verifier::external_body]
fn is_in_task() -> bool {
    futures::task::is_in_task()
}

impl InTask {
    /// The token: all tokens are alike, and holding one is what counts.
    pub closed spec fn token() -> InTask {
        InTask { here: PhantomData }
    }

    /// Runs `f` with a token when a `futures` task is running on this thread,
    /// and gives back what `f` returned; `None`, without running `f`, otherwise.
    pub fn with_current<R, F: FnOnce(&InTask) -> R>(f: F) -> (r: Option<R>)
        requires
            f.requires((&InTask::token(),)),
        ensures
            r matches Some(v) ==> f.ensures((&InTask::token(),), v),
    {
        if is_in_task() {
            let task = InTask { here: PhantomData };
            let ret = f(&task);
            proof {
                assert(task == InTask::token());
            }
            Some(ret)
        } else {
            None
        }
    }
}

/// The sending half of a channel, with the channel's identity.
#[verifier::reject_recursive_types(T)]
pub struct Sender<T> {
    tx: UnboundedSender<T>,
    chan: Ghost<int>,
}

/// The receiving half of a channel, with the channel's identity and the log
/// of every answer its polls gave.
#[verifier::reject_recursive_types(T)]
pub struct Receiver<T> {
    rx: UnboundedReceiver<T>,
    chan: Ghost<int>,
    answers: Ghost<Seq<Result<Async<Option<T>>, ()>>>,
}

impl<T> Sender<T> {
    /// The identity of the channel this half belongs to: halves of one channel
    /// share it, and halves of different channels do not. It is ghost: it has
    /// no value at run time, and the placeholders the wrappers' bodies write
    /// into it are seen by no proof.
    pub closed spec fn chan(&self) -> int {
        self.chan@
    }
}

impl<T> Receiver<T> {
    /// The identity of the channel this half belongs to (see `Sender::chan`).
    pub closed spec fn chan(&self) -> int {
        self.chan@
    }

    /// Every answer that polls of this half gave, oldest first.
    pub closed spec fn answers(&self) -> Seq<Result<Async<Option<T>>, ()>> {
        self.answers@
    }
}

/// Opens a fresh channel with `futures::sync::mpsc::unbounded`.
/// Claimed: the two halves are ends of that one channel, and the receiving
/// half has not been polled yet.
#[verifier::external_body]
pub(crate) fn unbounded<T>() -> (halves: (Sender<T>, Receiver<T>))
    ensures
        halves.0.chan() == halves.1.chan(),
        halves.1.answers().len() == 0,
{
    let (tx, rx) = futures::sync::mpsc::unbounded();
    let ghost chan: int = arbitrary();
    (Sender { tx, chan: Ghost(chan) }, Receiver { rx, chan: Ghost(chan), answers: Ghost(Seq::empty()) })
}

/// Hands `msg` to `UnboundedSender::unbounded_send` and tells whether the
/// channel took it. The channel refuses a message only when its receiving half
/// is gone, which no argument here shows, so nothing is claimed of the answer.
/// (The channel also panics when more messages are pending than its state word
/// can count; that limit is not stated here.)
#[verifier::external_body]
pub(crate) fn unbounded_send<T>(tx: &Sender<T>, msg: T) -> bool {
    tx.tx.unbounded_send(msg).is_ok()
}

/// Another handle on the same channel, by `<UnboundedSender<T> as Clone>::clone`.
/// Claimed: the new handle belongs to the same channel. (The clone panics past
/// the channel's sender limit, which is not stated.)
#[verifier::external_body]
pub(crate) fn clone_sender<T>(tx: &Sender<T>) -> (copy: Sender<T>)
    ensures
        copy.chan() == tx.chan(),
{
    Sender { tx: tx.tx.clone(), chan: Ghost(tx.chan@) }
}

/// Polls the receiving half through `<UnboundedReceiver<T> as Stream>::poll`
/// and converts `futures::Async` into the library's `Async`.
///
/// Claimed: the poll never fails (`Receiver::poll` in futures returns `Ok` on
/// every path); the answer is appended to the receiver's log; the receiver
/// stays on its channel; and while `open_by` is a sender of the same channel,
/// the stream has not ended, since the channel closes only when its last
/// sender is dropped or its receiver is closed, and this library never closes
/// a receiver. Which item comes, and whether one comes at all, depends on what
/// other handles sent and is not claimed.
///
/// When the queue is empty the call registers the current task, which would
/// panic with no task running; `task` shows one is running on this thread.
#[verifier::external_body]
pub(crate) fn poll_receiver<T>(
    rx: &mut Receiver<T>,
    open_by: Option<&Sender<T>>,
    task: &InTask,
) -> (polled: Result<Async<Option<T>>, ()>)
    ensures
        polled is Ok,
        final(rx).chan() == old(rx).chan(),
        final(rx).answers() == old(rx).answers().push(polled),
        open_by matches Some(tx) && tx.chan() == old(rx).chan() ==> !(polled matches Ok(Async::Ready(None))),
{
    let _ = (open_by, task);
    match rx.rx.poll() {
        Ok(futures::Async::Ready(item)) => Ok(Async::Ready(item)),
        Ok(futures::Async::NotReady) => Ok(Async::NotReady),
        Err(e) => Err(e),
    }
}

} // verus!
