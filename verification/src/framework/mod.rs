//! The component framework: a component reacts to messages and posts
//! commands into a sink, and a command handler carries the commands out.

use crate::channel::{clone_sender, unbounded, unbounded_send, Receiver, Sender};
use vstd::prelude::*;

verus! {

/// Where a component's messages are posted.
pub type MsgQueue<Msg> = UnboundedSink<Msg>;

/// Where a component posts its commands.
pub type CmdSink<Cmd> = UnboundedSink<Cmd>;

/// The posting end of an unbounded queue. Clones post into the same queue.
#[verifier::reject_recursive_types(T)]
pub struct UnboundedSink<T>(Sender<T>);

impl<T> UnboundedSink<T> {
    /// The queue this sink posts into.
    pub closed spec fn chan(&self) -> int {
        self.0.chan()
    }

    /// Posts `msg`. A message posted after the queue's receiver is gone is
    /// dropped silently.
    pub fn send(&self, msg: T) {
        let _ = unbounded_send(&self.0, msg);
    }
}

impl<T> Clone for UnboundedSink<T> {
    fn clone(&self) -> (copy: Self)
        ensures
            copy.chan() == self.chan(),
    {
        UnboundedSink(clone_sender(&self.0))
    }
}

/// Carries out commands of type `C`.
pub trait CmdHandler<C> {
    fn handle(&mut self, cmd: C);
}

/// A part of an application: it reacts to its messages and posts commands.
pub trait Component {
    type Msg;
    type Cmd;

    fn update(&mut self, msg: Self::Msg, cmd_sink: &CmdSink<Self::Cmd>);
}

/// A component with its command handler and the two queues between them.
#[allow(dead_code)]
#[verifier::reject_recursive_types(C)]
#[verifier::reject_recursive_types(CH)]
struct App<C: Component, CH> {
    component: C,
    msg_sink: MsgQueue<C::Msg>,
    cmd_sink: CmdSink<C::Cmd>,
    msg_source: Receiver<C::Msg>,
    cmd_source: Receiver<C::Cmd>,
    cmd_handler: CH,
}

#[allow(dead_code)]
impl<C: Component, CH> App<C, CH> {
    /// Opens the message and command queues around `component` and `cmd_handler`.
    fn new(component: C, cmd_handler: CH) -> (app: Self)
        ensures
            app.component == component,
            app.cmd_handler == cmd_handler,
            app.msg_sink.chan() == app.msg_source.chan(),
            app.cmd_sink.chan() == app.cmd_source.chan(),
    {
        let (msg_tx, msg_rx) = unbounded();
        let (cmd_tx, cmd_rx) = unbounded();

        App {
            component,
            msg_source: msg_rx,
            cmd_source: cmd_rx,
            msg_sink: UnboundedSink(msg_tx),
            cmd_sink: UnboundedSink(cmd_tx),
            cmd_handler,
        }
    }

    /// Another handle on the app's message queue.
    fn queue(&self) -> (queue: MsgQueue<C::Msg>)
        ensures
            queue.chan() == self.msg_sink.chan(),
    {
        self.msg_sink.clone()
    }
}

} // verus!
