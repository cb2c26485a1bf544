//! The platform: a program and an effect manager wired together by a worker.
//!
//! The worker owns two mailboxes. Messages go to the program, which updates
//! its model and may post commands; commands go to the effect manager, which
//! performs them and may post messages back. Each poll of the worker first
//! hands every command that is waiting to the effect manager, then hands
//! messages to the program until the message inbox is empty or has ended.

mod mailbox;
pub mod router;

pub use self::mailbox::{Inbox, Outbox};
use crate::channel::{Async, InTask};
use vstd::prelude::*;

verus! {

/// An application: its model, the messages that change it, and the commands
/// it asks the outside world to carry out. An implementation states what its
/// `init` and `update` compute through `init_spec` and `update_spec`.
pub trait Program: Sized {
    type Flags;
    type Model;
    type Msg;
    type Cmd;

    /// The first model that `init` builds from `flags` and the two outboxes.
    spec fn init_spec(
        &self,
        flags: Self::Flags,
        messages: Outbox<Self::Msg>,
        commands: Outbox<Self::Cmd>,
    ) -> Self::Model;

    /// The program and the model after `update` applied `msg` to `model`
    /// with `cmd_outbox` to post commands into.
    spec fn update_spec(&self, model: Self::Model, msg: Self::Msg, cmd_outbox: Outbox<Self::Cmd>) -> (Self, Self::Model);

    /// Builds the first model from `flags`. The outboxes post into the
    /// worker's message and command inboxes.
    fn init(
        &self,
        flags: Self::Flags,
        messages: &Outbox<Self::Msg>,
        commands: &Outbox<Self::Cmd>,
    ) -> (model: Self::Model)
        ensures
            model == self.init_spec(flags, *messages, *commands),
    ;

    /// Applies `msg` to `model`, posting any commands it gives rise to.
    fn update(&mut self, model: &mut Self::Model, msg: Self::Msg, cmd_outbox: &Outbox<Self::Cmd>)
        ensures
            (*final(self), *final(model)) == old(self).update_spec(*old(model), msg, *cmd_outbox),
    ;
}

/// Carries out a program's commands, posting messages back to it. An
/// implementation states what `handle` does to it through `handle_spec`.
pub trait EffectManager: Sized {
    type Msg;
    type Cmd;

    /// The effect manager after `handle` carried out `cmd` with `msg_outbox`
    /// to post messages into.
    spec fn handle_spec(&self, cmd: Self::Cmd, msg_outbox: Outbox<Self::Msg>) -> Self;

    fn handle(&mut self, cmd: Self::Cmd, msg_outbox: &Outbox<Self::Msg>)
        ensures
            *final(self) == old(self).handle_spec(cmd, *msg_outbox),
    ;
}

/// The program and model after `update` was applied to each of `msgs` in turn.
pub open spec fn apply_updates<P: Program>(
    program: P,
    model: P::Model,
    msgs: Seq<P::Msg>,
    cmd_outbox: Outbox<P::Cmd>,
) -> (P, P::Model)
    decreases msgs.len(),
{
    if msgs.len() == 0 {
        (program, model)
    } else {
        let (p, m) = apply_updates(program, model, msgs.drop_last(), cmd_outbox);
        p.update_spec(m, msgs.last(), cmd_outbox)
    }
}

/// The effect manager after `handle` was applied to each of `cmds` in turn.
pub open spec fn apply_handles<E: EffectManager>(effects: E, cmds: Seq<E::Cmd>, msg_outbox: Outbox<E::Msg>) -> E
    decreases cmds.len(),
{
    if cmds.len() == 0 {
        effects
    } else {
        apply_handles(effects, cmds.drop_last(), msg_outbox).handle_spec(cmds.last(), msg_outbox)
    }
}

/// What the worker does after polling its command inbox.
pub enum CommandStep<C> {
    /// Hand this command to the effect manager and poll again.
    Handle(C),
    /// No command is waiting: go on to the messages.
    ToMessages,
    /// The inbox failed: stop the poll with an error.
    Fail,
}

/// What the worker does after polling its message inbox.
pub enum MessageStep<M> {
    /// Hand this message to the program and poll again.
    Update(M),
    /// End the poll with this result.
    Finish(Result<Async<()>, ()>),
}

/// The worker's rule for a polled command.
pub open spec fn command_step_of<C>(polled: Result<Async<Option<C>>, ()>) -> CommandStep<C> {
    match polled {
        Ok(Async::Ready(Some(cmd))) => CommandStep::Handle(cmd),
        Ok(_) => CommandStep::ToMessages,
        Err(_) => CommandStep::Fail,
    }
}

/// The worker's rule for a polled message: the poll ends `Ready` when the
/// stream has ended, `NotReady` when the inbox is empty, and with an error
/// when the inbox failed.
pub open spec fn message_step_of<M>(polled: Result<Async<Option<M>>, ()>) -> MessageStep<M> {
    match polled {
        Ok(Async::Ready(Some(msg))) => MessageStep::Update(msg),
        Ok(Async::Ready(None)) => MessageStep::Finish(Ok(Async::Ready(()))),
        Ok(Async::NotReady) => MessageStep::Finish(Ok(Async::NotReady)),
        Err(_) => MessageStep::Finish(Err(())),
    }
}

/// Decides what to do with what the command inbox answered.
pub fn command_step<C>(polled: Result<Async<Option<C>>, ()>) -> (step: CommandStep<C>)
    ensures
        step == command_step_of(polled),
        polled matches Ok(Async::Ready(Some(cmd))) ==> step == CommandStep::Handle(cmd),
        polled matches Ok(Async::Ready(None)) ==> step is ToMessages,
        polled matches Ok(Async::NotReady) ==> step is ToMessages,
        polled is Err ==> step is Fail,
{
    match polled {
        Ok(Async::Ready(Some(cmd))) => CommandStep::Handle(cmd),
        Ok(_) => CommandStep::ToMessages,
        Err(_) => CommandStep::Fail,
    }
}

/// Decides what to do with what the message inbox answered.
pub fn message_step<M>(polled: Result<Async<Option<M>>, ()>) -> (step: MessageStep<M>)
    ensures
        step == message_step_of(polled),
        polled matches Ok(Async::Ready(Some(msg))) ==> step == MessageStep::Update(msg),
        polled matches Ok(Async::Ready(None)) ==> step == MessageStep::<M>::Finish(Ok(Async::Ready(()))),
        polled matches Ok(Async::NotReady) ==> step == MessageStep::<M>::Finish(Ok(Async::NotReady)),
        polled is Err ==> step == MessageStep::<M>::Finish(Err(())),
{
    match polled {
        Ok(Async::Ready(Some(msg))) => MessageStep::Update(msg),
        Ok(Async::Ready(None)) => MessageStep::Finish(Ok(Async::Ready(()))),
        Ok(Async::NotReady) => MessageStep::Finish(Ok(Async::NotReady)),
        Err(_) => MessageStep::Finish(Err(())),
    }
}

/// One answer of one of the worker's inboxes, in the order the worker got them.
pub enum Observation<M, C> {
    Command(Result<Async<Option<C>>, ()>),
    Message(Result<Async<Option<M>>, ()>),
}

/// `obs` is one poll of the worker that split at index `k` and returned `res`:
/// commands `0..k` were handed on, the command inbox's answer at `k` ended the
/// command phase, and then either the poll failed there, or messages were
/// handed on until the last answer of the message inbox decided `res`.
pub open spec fn round_splits_at<M, C>(
    obs: Seq<Observation<M, C>>,
    k: int,
    res: Result<Async<()>, ()>,
) -> bool {
    &&& 0 <= k < obs.len()
    &&& forall|i: int|
        0 <= i < k ==> (#[trigger] obs[i] matches Observation::Command(p) && command_step_of(p) is Handle)
    &&& obs[k] matches Observation::Command(p) && !(command_step_of(p) is Handle)
    &&& if command_step_of(obs[k]->Command_0) is Fail {
        obs.len() == k + 1 && res == Err::<Async<()>, ()>(())
    } else {
        &&& k + 1 < obs.len()
        &&& forall|i: int|
            k < i < obs.len() - 1 ==> (#[trigger] obs[i] matches Observation::Message(p)
                && message_step_of(p) is Update)
        &&& obs.last() matches Observation::Message(p) && message_step_of(p) == MessageStep::<M>::Finish(res)
    }
}

/// `obs` is what the inboxes answered during one poll of the worker, and
/// `res` is what that poll returned.
pub open spec fn is_poll_round<M, C>(obs: Seq<Observation<M, C>>, res: Result<Async<()>, ()>) -> bool {
    exists|k: int| #[trigger] round_splits_at(obs, k, res)
}


/// What a poll of the worker returns is fixed by what its inboxes answered:
/// two results that both fit the same answers are the same result.
pub proof fn lemma_poll_result_is_determined<M, C>(
    obs: Seq<Observation<M, C>>,
    res1: Result<Async<()>, ()>,
    res2: Result<Async<()>, ()>,
)
    requires
        is_poll_round(obs, res1),
        is_poll_round(obs, res2),
    ensures
        res1 == res2,
{
    let k1 = choose|k: int| #[trigger] round_splits_at(obs, k, res1);
    let k2 = choose|k: int| #[trigger] round_splits_at(obs, k, res2);
    if k1 < k2 {
        assert(obs[k1] matches Observation::Command(p) && command_step_of(p) is Handle);
    } else if k2 < k1 {
        assert(obs[k2] matches Observation::Command(p) && command_step_of(p) is Handle);
    }
    assert(k1 == k2);
}

/// The worker's rules hand on whatever an inbox yields, for every type of
/// command and message: a polled command goes to the effect manager and the
/// command phase goes on; a polled message goes to the program and the poll
/// goes on. Only an answer without an item moves the worker on or ends the poll.
pub proof fn lemma_items_are_handed_on<M, C>(cmd: C, msg: M)
    ensures
        command_step_of(Ok::<Async<Option<C>>, ()>(Async::Ready(Some(cmd)))) == CommandStep::Handle(cmd),
        message_step_of(Ok::<Async<Option<M>>, ()>(Async::Ready(Some(msg)))) == MessageStep::Update(msg),
        command_step_of(Ok::<Async<Option<C>>, ()>(Async::NotReady)) is ToMessages,
        command_step_of(Ok::<Async<Option<C>>, ()>(Async::Ready(None))) is ToMessages,
        message_step_of(Ok::<Async<Option<M>>, ()>(Async::NotReady)) == MessageStep::<M>::Finish(Ok(Async::NotReady)),
        message_step_of(Ok::<Async<Option<M>>, ()>(Async::Ready(None))) == MessageStep::<M>::Finish(Ok(Async::Ready(()))),
{
}

/// Within one poll nothing an inbox yields is left behind: every message
/// answer but the last carried a message, the last answer carries none; the
/// command answers carry commands until the one that ends the command phase,
/// which carries none.
pub proof fn lemma_poll_stops_only_without_item<M, C>(obs: Seq<Observation<M, C>>, res: Result<Async<()>, ()>)
    requires
        is_poll_round(obs, res),
    ensures
        !(obs.last() matches Observation::Message(Ok(Async::Ready(Some(_))))),
        !(obs.last() matches Observation::Command(Ok(Async::Ready(Some(_))))),
        forall|i: int|
            0 <= i < obs.len() - 1 && (#[trigger] obs[i] is Message) ==> (obs[i] matches Observation::Message(
                Ok(Async::Ready(Some(_))),
            )),
        forall|i: int|
            0 <= i < obs.len() - 1 && (#[trigger] obs[i] is Command) && obs[i + 1] is Command ==> (obs[i] matches Observation::Command(
                Ok(Async::Ready(Some(_))),
            )),
        forall|i: int|
            0 <= i < obs.len() - 1 && (#[trigger] obs[i] is Command) && obs[i + 1] is Message ==> !(obs[i] matches Observation::Command(
                Ok(Async::Ready(Some(_))),
            )),
{
    let k = choose|k: int| #[trigger] round_splits_at(obs, k, res);
    assert forall|i: int|
        0 <= i < obs.len() - 1 && (#[trigger] obs[i] is Message) implies (obs[i] matches Observation::Message(
            Ok(Async::Ready(Some(_))),
        )) by {
        if i < k {
            assert(obs[i] matches Observation::Command(p) && command_step_of(p) is Handle);
        } else if i > k {
            assert(obs[i] matches Observation::Message(p) && message_step_of(p) is Update);
        }
    }
    assert forall|i: int|
        0 <= i < obs.len() - 1 && (#[trigger] obs[i] is Command) && obs[i + 1] is Command implies (obs[i] matches Observation::Command(
            Ok(Async::Ready(Some(_))),
        )) by {
        if i < k {
            assert(obs[i] matches Observation::Command(p) && command_step_of(p) is Handle);
        } else if i == k {
            assert(obs[i + 1] matches Observation::Message(p) && message_step_of(p) is Update || i + 1 == obs.len() - 1);
        } else {
            assert(obs[i] matches Observation::Message(p) && message_step_of(p) is Update);
        }
    }
    assert forall|i: int|
        0 <= i < obs.len() - 1 && (#[trigger] obs[i] is Command) && obs[i + 1] is Message implies !(obs[i] matches Observation::Command(
            Ok(Async::Ready(Some(_))),
        )) by {
        if i < k {
            if i + 1 < k {
                assert(obs[i + 1] matches Observation::Command(p) && command_step_of(p) is Handle);
            } else {
                assert(obs[k] is Command);
            }
        } else if i > k {
            assert(obs[i] matches Observation::Message(p) && message_step_of(p) is Update);
        }
    }
    if obs.len() - 1 > k {
        assert(obs.last() is Message);
    }
}

/// Within one poll of the worker every command comes before every message:
/// once the worker has taken a message it polls no more commands in that poll.
pub proof fn lemma_commands_before_messages<M, C>(
    obs: Seq<Observation<M, C>>,
    res: Result<Async<()>, ()>,
    i: int,
    j: int,
)
    requires
        is_poll_round(obs, res),
        0 <= i < j < obs.len(),
        obs[i] is Message,
    ensures
        obs[j] is Message,
{
    let k = choose|k: int| #[trigger] round_splits_at(obs, k, res);
    assert(obs[i] is Message);
    if command_step_of(obs[k]->Command_0) is Fail {
        if i < k {
            assert(obs[i] matches Observation::Command(p) && command_step_of(p) is Handle);
        }
    } else {
        if i < k {
            assert(obs[i] matches Observation::Command(p) && command_step_of(p) is Handle);
        }
        if j < obs.len() - 1 {
            assert(obs[j] matches Observation::Message(p) && message_step_of(p) is Update);
        }
    }
}

/// A poll of the worker always polls its command inbox first, and a poll
/// that did not fail has polled its message inbox at least once.
pub proof fn lemma_poll_touches_both_inboxes<M, C>(obs: Seq<Observation<M, C>>, res: Result<Async<()>, ()>)
    requires
        is_poll_round(obs, res),
    ensures
        obs.len() > 0,
        obs[0] is Command,
        res is Ok ==> obs.last() is Message,
{
    let k = choose|k: int| #[trigger] round_splits_at(obs, k, res);
    if k > 0 {
        assert(obs[0] matches Observation::Command(p) && command_step_of(p) is Handle);
    }
}

/// `obs` is the beginning of a poll that is still under way: while the
/// worker is on commands, every answer so far was a command that was handed
/// on; once it is on messages, the command phase ended at some `k` and every
/// answer after `k` was a message that was handed on.
pub open spec fn is_partial_round<M, C>(obs: Seq<Observation<M, C>>, on_messages: bool) -> bool {
    if on_messages {
        exists|k: int| #[trigger] messages_begun_at(obs, k)
    } else {
        forall|i: int|
            0 <= i < obs.len() ==> (#[trigger] obs[i] matches Observation::Command(p) && command_step_of(p) is Handle)
    }
}

/// The commands `0..k` of `obs` were handed on, the answer at `k` sent the
/// worker on to messages, and every answer after it was a message that was
/// handed on.
pub open spec fn messages_begun_at<M, C>(obs: Seq<Observation<M, C>>, k: int) -> bool {
    &&& 0 <= k < obs.len()
    &&& forall|i: int|
        0 <= i < k ==> (#[trigger] obs[i] matches Observation::Command(p) && command_step_of(p) is Handle)
    &&& obs[k] matches Observation::Command(p) && command_step_of(p) is ToMessages
    &&& forall|i: int|
        k < i < obs.len() ==> (#[trigger] obs[i] matches Observation::Message(p) && message_step_of(p) is Update)
}

/// The commands that the command inbox answered in `obs`, in order.
pub open spec fn commands_taken<M, C>(obs: Seq<Observation<M, C>>) -> Seq<C>
    decreases obs.len(),
{
    if obs.len() == 0 {
        Seq::empty()
    } else {
        match obs.last() {
            Observation::Command(Ok(Async::Ready(Some(cmd)))) => commands_taken(obs.drop_last()).push(cmd),
            _ => commands_taken(obs.drop_last()),
        }
    }
}

/// The messages that the message inbox answered in `obs`, in order.
pub open spec fn messages_taken<M, C>(obs: Seq<Observation<M, C>>) -> Seq<M>
    decreases obs.len(),
{
    if obs.len() == 0 {
        Seq::empty()
    } else {
        match obs.last() {
            Observation::Message(Ok(Async::Ready(Some(msg)))) => messages_taken(obs.drop_last()).push(msg),
            _ => messages_taken(obs.drop_last()),
        }
    }
}

/// What the command inbox answered in `obs`, in order.
pub open spec fn command_answers<M, C>(obs: Seq<Observation<M, C>>) -> Seq<Result<Async<Option<C>>, ()>>
    decreases obs.len(),
{
    if obs.len() == 0 {
        Seq::empty()
    } else {
        match obs.last() {
            Observation::Command(p) => command_answers(obs.drop_last()).push(p),
            _ => command_answers(obs.drop_last()),
        }
    }
}

/// What the message inbox answered in `obs`, in order.
pub open spec fn message_answers<M, C>(obs: Seq<Observation<M, C>>) -> Seq<Result<Async<Option<M>>, ()>>
    decreases obs.len(),
{
    if obs.len() == 0 {
        Seq::empty()
    } else {
        match obs.last() {
            Observation::Message(p) => message_answers(obs.drop_last()).push(p),
            _ => message_answers(obs.drop_last()),
        }
    }
}

/// Which inbox the worker polls next.
enum Phase {
    Commands,
    Messages,
}

/// Drives a program and its effect manager. Poll it from inside a task.
#[must_use]
pub struct Worker<P, E> where P: Program {
    program: P,
    effect_manager: E,
    model: P::Model,
    msg_inbox: Inbox<P::Msg>,
    cmd_inbox: Inbox<P::Cmd>,
    msg_outbox: Outbox<P::Msg>,
    cmd_outbox: Outbox<P::Cmd>,
    phase: Phase,
    observed: Ghost<Seq<Observation<P::Msg, P::Cmd>>>,
    round_start: Ghost<int>,
    origin: Ghost<(P, P::Model, E)>,
}

impl<P, E> Worker<P, E> where P: Program, E: EffectManager<Msg = P::Msg, Cmd = P::Cmd> {
    /// Every answer the worker's inboxes have given, oldest first.
    pub closed spec fn history(&self) -> Seq<Observation<P::Msg, P::Cmd>> {
        self.observed@
    }

    /// The answers given since the current poll began.
    pub closed spec fn current_round(&self) -> Seq<Observation<P::Msg, P::Cmd>> {
        self.observed@.skip(self.round_start@)
    }

    /// Whether the current poll has finished with the commands and is on messages.
    pub closed spec fn on_messages(&self) -> bool {
        self.phase is Messages
    }

    pub closed spec fn program(&self) -> P {
        self.program
    }

    pub closed spec fn effect_manager(&self) -> E {
        self.effect_manager
    }

    pub closed spec fn model(&self) -> P::Model {
        self.model
    }

    /// The outbox that posts into the worker's message inbox.
    pub closed spec fn msg_outbox(&self) -> Outbox<P::Msg> {
        self.msg_outbox
    }

    /// The outbox that posts into the worker's command inbox.
    pub closed spec fn cmd_outbox(&self) -> Outbox<P::Cmd> {
        self.cmd_outbox
    }

    pub closed spec fn msg_inbox(&self) -> Inbox<P::Msg> {
        self.msg_inbox
    }

    pub closed spec fn cmd_inbox(&self) -> Inbox<P::Cmd> {
        self.cmd_inbox
    }

    /// The program, model and effect manager as they were when the current poll began.
    pub closed spec fn round_origin(&self) -> (P, P::Model, E) {
        self.origin@
    }

    /// The worker's invariant: each outbox posts into the matching inbox, the
    /// history is exactly what the two inboxes answered, the
    /// current poll is a well-formed beginning of a poll, and the program,
    /// model and effect manager are what the messages and commands taken so
    /// far in this poll made of them.
    pub closed spec fn wf(&self) -> bool {
        &&& 0 <= self.round_start@ <= self.observed@.len()
        &&& is_partial_round(self.current_round(), self.on_messages())
        &&& self.msg_outbox.chan() == self.msg_inbox.chan()
        &&& self.cmd_outbox.chan() == self.cmd_inbox.chan()
        &&& command_answers(self.observed@) == self.cmd_inbox.answers()
        &&& message_answers(self.observed@) == self.msg_inbox.answers()
        &&& (self.program, self.model) == apply_updates(
            self.origin@.0,
            self.origin@.1,
            messages_taken(self.current_round()),
            self.cmd_outbox,
        )
        &&& self.effect_manager == apply_handles(self.origin@.2, commands_taken(self.current_round()), self.msg_outbox)
    }

    /// Opens the two mailboxes and builds the first model with `program.init`,
    /// which gets the outboxes that post into them. Nothing is handed to the
    /// program or the effect manager until the worker is polled.
    pub fn new(program: P, effect_manager: E, flags: P::Flags) -> (worker: Self)
        ensures
            worker.wf(),
            worker.history() == Seq::<Observation<P::Msg, P::Cmd>>::empty(),
            worker.current_round() == Seq::<Observation<P::Msg, P::Cmd>>::empty(),
            !worker.on_messages(),
            worker.msg_outbox().chan() == worker.msg_inbox().chan(),
            worker.cmd_outbox().chan() == worker.cmd_inbox().chan(),
            worker.msg_inbox().answers().len() == 0,
            worker.cmd_inbox().answers().len() == 0,
            worker.program() == program,
            worker.effect_manager() == effect_manager,
            worker.model() == program.init_spec(flags, worker.msg_outbox(), worker.cmd_outbox()),
            worker.round_origin() == (worker.program(), worker.model(), worker.effect_manager()),
    {
        let (msg_outbox, msg_inbox) = mailbox::new();
        let (cmd_outbox, cmd_inbox) = mailbox::new();
        let model = program.init(flags, &msg_outbox, &cmd_outbox);
        let ghost origin = (program, model, effect_manager);

        let worker = Worker {
            program,
            effect_manager,
            model,
            msg_outbox,
            cmd_outbox,
            msg_inbox,
            cmd_inbox,
            phase: Phase::Commands,
            observed: Ghost(Seq::empty()),
            round_start: Ghost(0),
            origin: Ghost(origin),
        };
        proof {
            assert(worker.current_round() =~= Seq::empty());
            assert(command_answers(worker.observed@) =~= worker.cmd_inbox.answers());
            assert(message_answers(worker.observed@) =~= worker.msg_inbox.answers());
        }
        worker
    }

    /// One step of a poll: polls the command inbox while the poll is on
    /// commands and the message inbox after, and hands what came to the
    /// effect manager (with the message outbox) or to the program (with the
    /// model and the command outbox). Returns `Some(result)` when the poll is
    /// over. Repeating it until it returns `Some` is one poll of the worker.
    /// The worker keeps its own message outbox, so its message stream never
    /// ends and every poll ends `NotReady`.
    pub fn poll_step(&mut self, task: &InTask) -> (out: Option<Result<Async<()>, ()>>)
        requires
            old(self).wf(),
        ensures
            final(self).wf(),
            final(self).history() == old(self).history().push(final(self).history().last()),
            (final(self).history().last() is Command) == !old(self).on_messages(),
            final(self).msg_outbox() == old(self).msg_outbox(),
            final(self).cmd_outbox() == old(self).cmd_outbox(),
            final(self).msg_inbox().chan() == old(self).msg_inbox().chan(),
            final(self).cmd_inbox().chan() == old(self).cmd_inbox().chan(),
            match final(self).history().last() {
                Observation::Command(p) => {
                    &&& final(self).cmd_inbox().answers() == old(self).cmd_inbox().answers().push(p)
                    &&& final(self).msg_inbox().answers() == old(self).msg_inbox().answers()
                },
                Observation::Message(p) => {
                    &&& final(self).msg_inbox().answers() == old(self).msg_inbox().answers().push(p)
                    &&& final(self).cmd_inbox().answers() == old(self).cmd_inbox().answers()
                },
            },
            match final(self).history().last() {
                Observation::Command(Ok(Async::Ready(Some(cmd)))) => {
                    &&& final(self).effect_manager() == old(self).effect_manager().handle_spec(cmd, old(self).msg_outbox())
                    &&& final(self).program() == old(self).program()
                    &&& final(self).model() == old(self).model()
                },
                Observation::Message(Ok(Async::Ready(Some(msg)))) => {
                    &&& (final(self).program(), final(self).model())
                        == old(self).program().update_spec(old(self).model(), msg, old(self).cmd_outbox())
                    &&& final(self).effect_manager() == old(self).effect_manager()
                },
                _ => {
                    &&& final(self).effect_manager() == old(self).effect_manager()
                    &&& final(self).program() == old(self).program()
                    &&& final(self).model() == old(self).model()
                },
            },
            final(self).history().last() matches Observation::Command(Ok(Async::Ready(Some(_)))) ==> out is None
                && final(self).on_messages() == old(self).on_messages(),
            final(self).history().last() matches Observation::Message(Ok(Async::Ready(Some(_)))) ==> out is None
                && final(self).on_messages(),
            out is Some <==> ((final(self).history().last() matches Observation::Command(p) && command_step_of(p) is Fail)
                || (final(self).history().last() matches Observation::Message(p) && message_step_of(p) is Finish)),
            match out {
                Some(res) => {
                    &&& is_poll_round(old(self).current_round().push(final(self).history().last()), res)
                    &&& res == Ok::<Async<()>, ()>(Async::NotReady)
                    &&& (final(self).program(), final(self).model()) == apply_updates(
                        old(self).round_origin().0,
                        old(self).round_origin().1,
                        messages_taken(old(self).current_round().push(final(self).history().last())),
                        old(self).cmd_outbox(),
                    )
                    &&& final(self).effect_manager() == apply_handles(
                        old(self).round_origin().2,
                        commands_taken(old(self).current_round().push(final(self).history().last())),
                        old(self).msg_outbox(),
                    )
                    &&& final(self).current_round() == Seq::<Observation<P::Msg, P::Cmd>>::empty()
                    &&& final(self).round_origin() == (final(self).program(), final(self).model(), final(self).effect_manager())
                    &&& !final(self).on_messages()
                },
                None => {
                    &&& final(self).current_round() == old(self).current_round().push(final(self).history().last())
                    &&& final(self).round_origin() == old(self).round_origin()
                    &&& final(self).on_messages() == (old(self).on_messages()
                        || (final(self).history().last() matches Observation::Command(p) && command_step_of(p) is ToMessages))
                },
            },
    {
        let ghost old_round = self.current_round();
        match self.phase {
            Phase::Commands => {
                let polled = self.cmd_inbox.poll(task);
                let ghost seen = polled;
                self.observed = Ghost(self.observed@.push(Observation::Command(seen)));
                proof {
                    assert(self.current_round() =~= old_round.push(Observation::Command(seen)));
                    assert(old_round.push(Observation::Command(seen)).drop_last() =~= old_round);
                    assert(self.observed@.drop_last() =~= old(self).observed@);
                }
                match command_step(polled) {
                    CommandStep::Handle(cmd) => {
                        proof {
                            assert(commands_taken(self.current_round()) == commands_taken(old_round).push(cmd));
                            assert(commands_taken(old_round).push(cmd).drop_last() =~= commands_taken(old_round));
                            assert(messages_taken(self.current_round()) == messages_taken(old_round));
                        }
                        self.effect_manager.handle(cmd, &self.msg_outbox);
                        None
                    },
                    CommandStep::ToMessages => {
                        proof {
                            assert(commands_taken(self.current_round()) == commands_taken(old_round));
                            assert(messages_taken(self.current_round()) == messages_taken(old_round));
                        }
                        self.phase = Phase::Messages;
                        proof {
                            assert(messages_begun_at(self.current_round(), old_round.len() as int));
                        }
                        None
                    },
                    CommandStep::Fail => {
                        proof {
                            assert(commands_taken(self.current_round()) == commands_taken(old_round));
                            assert(messages_taken(self.current_round()) == messages_taken(old_round));
                            assert(round_splits_at(self.current_round(), old_round.len() as int, Err(())));
                        }
                        self.round_start = Ghost(self.observed@.len() as int);
                        self.origin = Ghost((self.program, self.model, self.effect_manager));
                        proof {
                            assert(self.current_round() =~= Seq::empty());
                        }
                        Some(Err(()))
                    },
                }
            },
            Phase::Messages => {
                let polled = self.msg_inbox.poll_open(&self.msg_outbox, task);
                let ghost seen = polled;
                self.observed = Ghost(self.observed@.push(Observation::Message(seen)));
                proof {
                    assert(self.current_round() =~= old_round.push(Observation::Message(seen)));
                    assert(old_round.push(Observation::Message(seen)).drop_last() =~= old_round);
                    assert(self.observed@.drop_last() =~= old(self).observed@);
                }
                let ghost k = choose|k: int| messages_begun_at(old_round, k);
                match message_step(polled) {
                    MessageStep::Update(msg) => {
                        proof {
                            assert(messages_taken(self.current_round()) == messages_taken(old_round).push(msg));
                            assert(commands_taken(self.current_round()) == commands_taken(old_round));
                            assert(messages_taken(old_round).push(msg).drop_last() =~= messages_taken(old_round));
                        }
                        self.program.update(&mut self.model, msg, &self.cmd_outbox);
                        proof {
                            assert(messages_begun_at(self.current_round(), k));
                        }
                        None
                    },
                    MessageStep::Finish(res) => {
                        proof {
                            assert(commands_taken(self.current_round()) == commands_taken(old_round));
                            assert(messages_taken(self.current_round()) == messages_taken(old_round));
                            assert(round_splits_at(self.current_round(), k, res));
                        }
                        self.phase = Phase::Commands;
                        self.round_start = Ghost(self.observed@.len() as int);
                        self.origin = Ghost((self.program, self.model, self.effect_manager));
                        proof {
                            assert(self.current_round() =~= Seq::empty());
                        }
                        Some(res)
                    },
                }
            },
        }
    }
}

} // verus!
