use elmlike::channel::{Async, InTask};
use elmlike::platform::router::{async_router, AsyncReceiver, Router};
use futures::future::lazy;
use futures::Future;

fn in_task<R, F: FnOnce() -> R>(f: F) -> R {
    lazy(move || Ok::<R, ()>(f())).wait().unwrap()
}

fn take(rx: &mut AsyncReceiver<u32>) -> Option<Option<u32>> {
    match InTask::with_current(|task| rx.poll(task)).expect("polled outside a task") {
        Ok(Async::Ready(item)) => Some(item),
        Ok(Async::NotReady) => None,
        Err(()) => panic!("the receiver never fails"),
    }
}

#[test]
fn router_delivers_in_order() {
    let (router, mut rx) = async_router::<u32>();
    router.send(1);
    router.send(2);
    router.send(3);
    in_task(|| {
        assert_eq!(take(&mut rx), Some(Some(1)));
        assert_eq!(take(&mut rx), Some(Some(2)));
        assert_eq!(take(&mut rx), Some(Some(3)));
        assert_eq!(take(&mut rx), None);
    });
}

#[test]
fn empty_receiver_is_not_ready() {
    let (_router, mut rx) = async_router::<u32>();
    in_task(|| assert_eq!(take(&mut rx), None));
}

#[test]
fn clones_deliver_into_the_same_receiver() {
    let (router, mut rx) = async_router::<u32>();
    let other = router.clone();
    other.send(5);
    router.send(6);
    in_task(|| {
        assert_eq!(take(&mut rx), Some(Some(5)));
        assert_eq!(take(&mut rx), Some(Some(6)));
    });
}

#[test]
fn stream_ends_when_every_router_is_gone() {
    let (router, mut rx) = async_router::<u32>();
    let other = router.clone();
    router.send(9);
    drop(router);
    drop(other);
    in_task(|| {
        assert_eq!(take(&mut rx), Some(Some(9)));
        assert_eq!(take(&mut rx), Some(None));
        assert_eq!(take(&mut rx), Some(None));
    });
}

#[test]
fn send_after_receiver_is_gone_is_silent() {
    let (router, rx) = async_router::<u32>();
    drop(rx);
    router.send(1);
}

#[test]
fn no_task_token_outside_a_task() {
    assert!(InTask::with_current(|_task| ()).is_none());
    assert!(in_task(|| InTask::with_current(|_task| ()).is_some()));
}

#[test]
fn stream_stays_open_while_a_router_is_held() {
    let (router, mut rx) = async_router::<u32>();
    router.clone().send(4);
    in_task(|| {
        let first = InTask::with_current(|task| rx.poll_open(&router, task)).unwrap();
        assert!(matches!(first, Ok(Async::Ready(Some(4)))));
        let second = InTask::with_current(|task| rx.poll_open(&router, task)).unwrap();
        assert!(matches!(second, Ok(Async::NotReady)));
    });
}
