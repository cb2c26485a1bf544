use elmlike::channel::Async;
use elmlike::platform::{command_step, message_step, CommandStep, MessageStep};

#[test]
fn command_step_hands_on_a_command() {
    match command_step(Ok(Async::Ready(Some(7u32)))) {
        CommandStep::Handle(cmd) => assert_eq!(cmd, 7),
        _ => panic!("expected Handle"),
    }
}

#[test]
fn command_step_goes_to_messages_when_empty_or_ended() {
    assert!(matches!(command_step::<u32>(Ok(Async::NotReady)), CommandStep::ToMessages));
    assert!(matches!(command_step::<u32>(Ok(Async::Ready(None))), CommandStep::ToMessages));
}

#[test]
fn command_step_fails_on_error() {
    assert!(matches!(command_step::<u32>(Err(())), CommandStep::Fail));
}

#[test]
fn message_step_hands_on_a_message() {
    match message_step(Ok(Async::Ready(Some(String::from("hi"))))) {
        MessageStep::Update(msg) => assert_eq!(msg, "hi"),
        _ => panic!("expected Update"),
    }
}

#[test]
fn message_step_finishes_ready_when_stream_ended() {
    assert!(matches!(
        message_step::<u32>(Ok(Async::Ready(None))),
        MessageStep::Finish(Ok(Async::Ready(())))
    ));
}

#[test]
fn message_step_finishes_not_ready_when_empty() {
    assert!(matches!(message_step::<u32>(Ok(Async::NotReady)), MessageStep::Finish(Ok(Async::NotReady))));
}

#[test]
fn message_step_finishes_with_error_on_error() {
    assert!(matches!(message_step::<u32>(Err(())), MessageStep::Finish(Err(()))));
}
