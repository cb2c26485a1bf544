use elmlike::channel::{Async, InTask};
use elmlike::platform::{EffectManager, Outbox, Program, Worker};
use futures::future::lazy;
use futures::Future;
use std::cell::RefCell;
use std::rc::Rc;

fn in_task<R, F: FnOnce() -> R>(f: F) -> R {
    lazy(move || Ok::<R, ()>(f())).wait().unwrap()
}

#[derive(Clone, Debug, PartialEq)]
struct Model {
    count: i32,
}

#[derive(Clone, Copy, Debug, PartialEq)]
enum Msg {
    Increase,
    Decrease,
    Print,
}

enum Cmd {
    Print(i32),
    Echo,
}

#[derive(Clone, Debug, PartialEq)]
struct Counter {
    startup: Vec<Msg>,
}

/// The count after `msg`.
fn counted(count: i32, msg: Msg) -> i32 {
    match msg {
        Msg::Increase => count + 1,
        Msg::Decrease => count - 1,
        Msg::Print => count,
    }
}

impl Program for Counter {
    type Flags = i32;
    type Model = Model;
    type Msg = Msg;
    type Cmd = Cmd;

    fn init_spec(&self, flags: i32, _messages: Outbox<Msg>, _commands: Outbox<Cmd>) -> Model {
        Model { count: flags }
    }

    fn update_spec(&self, model: Model, msg: Msg, _cmd_outbox: Outbox<Cmd>) -> (Self, Model) {
        (self.clone(), Model { count: counted(model.count, msg) })
    }

    fn init(&self, flags: i32, messages: &Outbox<Msg>, commands: &Outbox<Cmd>) -> Model {
        commands.send(Cmd::Print(flags));
        let clone = messages.clone();
        for m in &self.startup {
            clone.send(*m);
        }
        Model { count: flags }
    }

    fn update(&mut self, model: &mut Model, msg: Msg, cmd_outbox: &Outbox<Cmd>) {
        if let Msg::Print = msg {
            cmd_outbox.send(Cmd::Print(model.count));
        }
        model.count = counted(model.count, msg);
    }
}

struct Effects {
    printed: Rc<RefCell<Vec<i32>>>,
}

impl EffectManager for Effects {
    type Msg = Msg;
    type Cmd = Cmd;

    fn handle_spec(&self, _cmd: Cmd, _msg_outbox: Outbox<Msg>) -> Self {
        Effects { printed: self.printed.clone() }
    }

    fn handle(&mut self, cmd: Cmd, msg_outbox: &Outbox<Msg>) {
        match cmd {
            Cmd::Print(value) => self.printed.borrow_mut().push(value),
            Cmd::Echo => msg_outbox.send(Msg::Print),
        }
    }
}

fn counter(startup: Vec<Msg>, initial: i32) -> (Worker<Counter, Effects>, Rc<RefCell<Vec<i32>>>) {
    let printed = Rc::new(RefCell::new(Vec::new()));
    let worker = Worker::new(Counter { startup }, Effects { printed: printed.clone() }, initial);
    (worker, printed)
}

/// One step of a poll, run inside the current task.
fn step<P, E>(worker: &mut Worker<P, E>) -> Option<Result<Async<()>, ()>>
where
    P: Program,
    E: EffectManager<Msg = P::Msg, Cmd = P::Cmd>,
{
    InTask::with_current(|task| worker.poll_step(task)).expect("not inside a task")
}

/// Runs one poll of the worker, returning its result and how many steps it took.
fn poll(worker: &mut Worker<Counter, Effects>) -> (Result<Async<()>, ()>, usize) {
    let mut steps = 0;
    loop {
        steps += 1;
        if let Some(res) = step(worker) {
            return (res, steps);
        }
    }
}

#[test]
fn first_poll_handles_init_command_before_messages() {
    let (mut worker, printed) = counter(vec![Msg::Increase, Msg::Increase, Msg::Print], 5);
    in_task(|| {
        let (res, steps) = poll(&mut worker);
        assert!(matches!(res, Ok(Async::NotReady)));
        // one command, the end of the commands, three messages, the empty message inbox
        assert_eq!(steps, 6);
        // the command posted by the Print message waits for the next poll
        assert_eq!(*printed.borrow(), vec![5]);
        let (res, steps) = poll(&mut worker);
        assert!(matches!(res, Ok(Async::NotReady)));
        assert_eq!(steps, 3);
        assert_eq!(*printed.borrow(), vec![5, 7]);
    });
}

#[test]
fn idle_worker_is_not_ready_in_two_steps() {
    let (mut worker, printed) = counter(vec![], 0);
    in_task(|| {
        let _ = poll(&mut worker);
        let (res, steps) = poll(&mut worker);
        assert!(matches!(res, Ok(Async::NotReady)));
        assert_eq!(steps, 2);
        assert_eq!(*printed.borrow(), vec![0]);
    });
}

#[test]
fn poll_step_sequence_of_one_poll() {
    let (mut worker, _printed) = counter(vec![Msg::Decrease], 1);
    in_task(|| {
        assert!(step(&mut worker).is_none()); // command Print(1)
        assert!(step(&mut worker).is_none()); // no more commands
        assert!(step(&mut worker).is_none()); // message Decrease
        assert!(matches!(step(&mut worker), Some(Ok(Async::NotReady)))); // no more messages
    });
}

#[test]
fn messages_posted_by_effects_are_taken_in_the_same_poll() {
    let printed = Rc::new(RefCell::new(Vec::new()));
    struct Echoing;
    impl Program for Echoing {
        type Flags = ();
        type Model = Model;
        type Msg = Msg;
        type Cmd = Cmd;
        fn init_spec(&self, _flags: (), _messages: Outbox<Msg>, _commands: Outbox<Cmd>) -> Model {
            Model { count: 3 }
        }
        fn update_spec(&self, model: Model, _msg: Msg, _cmd_outbox: Outbox<Cmd>) -> (Self, Model) {
            (Echoing, model)
        }
        fn init(&self, _flags: (), _messages: &Outbox<Msg>, commands: &Outbox<Cmd>) -> Model {
            commands.send(Cmd::Echo);
            Model { count: 3 }
        }
        fn update(&mut self, model: &mut Model, msg: Msg, cmd_outbox: &Outbox<Cmd>) {
            if let Msg::Print = msg {
                cmd_outbox.send(Cmd::Print(model.count));
            }
        }
    }
    let mut worker = Worker::new(Echoing, Effects { printed: printed.clone() }, ());
    in_task(|| {
        let mut steps = 0;
        loop {
            steps += 1;
            if let Some(res) = step(&mut worker) {
                assert!(matches!(res, Ok(Async::NotReady)));
                break;
            }
        }
        // Echo, end of commands, the echoed Print message, empty message inbox
        assert_eq!(steps, 4);
        assert!(printed.borrow().is_empty());
        loop {
            if step(&mut worker).is_some() {
                break;
            }
        }
        assert_eq!(*printed.borrow(), vec![3]);
    });
}

/// A program that keeps a handle on the command outbox that `init` gets.
struct Grab {
    slot: Rc<RefCell<Option<Outbox<Cmd>>>>,
}

impl Program for Grab {
    type Flags = ();
    type Model = ();
    type Msg = Msg;
    type Cmd = Cmd;

    fn init_spec(&self, _flags: (), _messages: Outbox<Msg>, _commands: Outbox<Cmd>) {}

    fn update_spec(&self, model: (), _msg: Msg, _cmd_outbox: Outbox<Cmd>) -> (Self, ()) {
        (Grab { slot: self.slot.clone() }, model)
    }

    fn init(&self, _flags: (), _messages: &Outbox<Msg>, commands: &Outbox<Cmd>) {
        *self.slot.borrow_mut() = Some(commands.clone());
    }

    fn update(&mut self, _model: &mut (), _msg: Msg, _cmd_outbox: &Outbox<Cmd>) {}
}

#[test]
fn counter_update_agrees_with_its_spec() {
    let slot = Rc::new(RefCell::new(None));
    let printed = Rc::new(RefCell::new(Vec::new()));
    let _worker = Worker::new(Grab { slot: slot.clone() }, Effects { printed }, ());
    let outbox = slot.borrow_mut().take().unwrap();
    let mut program = Counter { startup: vec![Msg::Increase] };
    for msg in [Msg::Increase, Msg::Decrease, Msg::Print, Msg::Increase] {
        let mut model = Model { count: 10 };
        let expected = program.update_spec(model.clone(), msg, outbox.clone());
        program.update(&mut model, msg, &outbox);
        assert_eq!((program.clone(), model), expected);
    }
}

#[test]
fn init_outbox_feeds_the_worker() {
    let slot = Rc::new(RefCell::new(None));
    let printed = Rc::new(RefCell::new(Vec::new()));
    let mut worker = Worker::new(Grab { slot: slot.clone() }, Effects { printed: printed.clone() }, ());
    let outbox = slot.borrow_mut().take().unwrap();
    outbox.send(Cmd::Print(42));
    in_task(|| {
        loop {
            if let Some(res) = step(&mut worker) {
                assert!(matches!(res, Ok(Async::NotReady)));
                break;
            }
        }
    });
    assert_eq!(*printed.borrow(), vec![42]);
}
