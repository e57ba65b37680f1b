use std::io::ErrorKind;
use std::time::Duration;

use interprocess::local_socket::tokio::Stream;
use interprocess::local_socket::traits::tokio::{Listener as ListenerTrait, Stream as StreamTrait};
use interprocess::local_socket::{GenericNamespaced, ListenerOptions, ToNsName};
use tokio::io::{AsyncReadExt, AsyncWriteExt};
use tokio::runtime::{Builder, Runtime};

use ipc_drop_panic::error::{classify_bind_failure, IoFailure, ScenarioError};
use ipc_drop_panic::listener::{listener_start, listener_step, ListenerAction, ListenerEvent, ListenerPhase};
use ipc_drop_panic::scenario::{main_is_finished, main_start, main_step, standard_schedule, MainAction, MainEvent, MainPhase};
use ipc_drop_panic::sender::{greeting, sender_start, sender_step, SenderAction, SenderEvent, SenderPhase};

fn runtime() -> Runtime {
    Builder::new_current_thread().enable_io().enable_time().build().unwrap()
}

fn failure_of(kind: ErrorKind) -> IoFailure {
    match kind {
        ErrorKind::AddrInUse => IoFailure::AddrInUse,
        ErrorKind::ConnectionRefused => IoFailure::ConnectionRefused,
        ErrorKind::NotFound => IoFailure::NotFound,
        ErrorKind::BrokenPipe => IoFailure::BrokenPipe,
        _ => IoFailure::Other,
    }
}

#[test]
fn second_bind_of_a_live_name_conflicts() {
    runtime().block_on(async {
        let opts = || ListenerOptions::new().name("ipc-drop-panic-bind-twice".to_ns_name::<GenericNamespaced>().unwrap());
        let first = opts().create_tokio().unwrap();
        let err = opts().create_tokio().err().expect("a second bind of a live name must fail");
        assert_eq!(err.kind(), ErrorKind::AddrInUse);
        assert_eq!(classify_bind_failure(failure_of(err.kind())), ScenarioError::BindConflict);
        let (p, _) = listener_start();
        let (p, a) = listener_step(p, ListenerEvent::BindError(failure_of(err.kind())));
        assert_eq!(p, ListenerPhase::Failed(ScenarioError::BindConflict));
        assert_eq!(a, ListenerAction::Abort(ScenarioError::BindConflict));
        drop(first);
    });
}

#[test]
fn reader_receives_exactly_the_greeting() {
    runtime().block_on(async {
        let name = "ipc-drop-panic-delivery";
        let listener = ListenerOptions::new()
            .name(name.to_ns_name::<GenericNamespaced>().unwrap())
            .create_tokio()
            .unwrap();
        let server = tokio::spawn(async move {
            let conn = listener.accept().await.unwrap();
            let (_recv, mut send) = conn.split();
            let (p, a) = sender_start();
            assert_eq!(a, SenderAction::Write);
            send.write_all(&greeting()).await.unwrap();
            let (p, a) = sender_step(p, SenderEvent::Written);
            assert_eq!((p, a), (SenderPhase::Idling, SenderAction::Sleep(1000)));
        });
        let mut client = Stream::connect(name.to_ns_name::<GenericNamespaced>().unwrap()).await.unwrap();
        server.await.unwrap();
        let mut got = Vec::new();
        client.read_to_end(&mut got).await.unwrap();
        assert_eq!(got, b"Hello, world!".to_vec());
    });
}

#[test]
fn dropping_halves_after_the_peer_is_gone() {
    runtime().block_on(async {
        let name = "ipc-drop-panic-teardown";
        let listener = ListenerOptions::new()
            .name(name.to_ns_name::<GenericNamespaced>().unwrap())
            .create_tokio()
            .unwrap();
        let client = Stream::connect(name.to_ns_name::<GenericNamespaced>().unwrap()).await.unwrap();
        let conn = listener.accept().await.unwrap();
        let (recv, send) = conn.split();
        drop(client);
        drop(recv);
        drop(send);
        let (crecv, csend) = Stream::connect(name.to_ns_name::<GenericNamespaced>().unwrap()).await.unwrap().split();
        drop(listener);
        drop(csend);
        drop(crecv);
    });
}

/// The whole scenario on a single-threaded runtime: the main task returns
/// while the sender idles, and dropping the runtime cancels the sender.
#[test]
fn runtime_shutdown_with_idle_sender() {
    let rt = runtime();
    let name = "ipc-drop-panic-shutdown";
    let outcome = rt.block_on(async move {
        let (mut p, mut a) = main_start(standard_schedule());
        let mut client: Option<Stream> = None;
        while !main_is_finished(p) {
            let e = match a {
                MainAction::SpawnListener => {
                    tokio::spawn(async move {
                        let (lp, _) = listener_start();
                        let listener = match ListenerOptions::new()
                            .name(name.to_ns_name::<GenericNamespaced>().unwrap())
                            .create_tokio()
                        {
                            Ok(l) => l,
                            Err(e) => return listener_step(lp, ListenerEvent::BindError(failure_of(e.kind()))).0,
                        };
                        let (lp, _) = listener_step(lp, ListenerEvent::Bound);
                        let conn = listener.accept().await.unwrap();
                        let (lp, la) = listener_step(lp, ListenerEvent::Accepted);
                        assert_eq!(la, ListenerAction::HandOff);
                        let (_recv, mut send) = conn.split();
                        tokio::spawn(async move {
                            let (sp, _) = sender_start();
                            send.write_all(&greeting()).await.unwrap();
                            if let (_, SenderAction::Sleep(secs)) = sender_step(sp, SenderEvent::Written) {
                                tokio::time::sleep(Duration::from_secs(secs)).await;
                            }
                        });
                        lp
                    });
                    MainEvent::Proceed
                }
                MainAction::Yield => {
                    tokio::task::yield_now().await;
                    MainEvent::Proceed
                }
                MainAction::Connect => match Stream::connect(name.to_ns_name::<GenericNamespaced>().unwrap()).await {
                    Ok(c) => {
                        client = Some(c);
                        MainEvent::Connected
                    }
                    Err(e) => MainEvent::ConnectError(failure_of(e.kind())),
                },
                _ => MainEvent::Proceed,
            };
            let (q, b) = main_step(p, e);
            p = q;
            a = b;
        }
        drop(client);
        p
    });
    drop(rt);
    assert_eq!(outcome, MainPhase::Returned);
}
