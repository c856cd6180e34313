use std::time::Duration;

use bytes::Bytes;
use nitai::message::{CloseFrame, Message};
use nitai::websocket::{
    close_frame, recv_reply, send_all_command, settle_reply, Action, Actor, Command,
};
use nitai::Error;

fn text(s: &str) -> Message {
    Message::from_text(s.to_string())
}

#[test]
fn send_then_recv_ping() {
    let mut actor = Actor::new();
    match actor.handle(Command::Send(text("ping"))) {
        Ok(Action::Write(m)) => assert_eq!(m, text("ping")),
        _ => panic!("expected a write"),
    }
    match actor.handle(Command::Recv(None)) {
        Ok(Action::Read(None)) => {}
        _ => panic!("expected a read without deadline"),
    }
    let echoed = recv_reply(Some(Ok(Some(text("ping")))));
    assert_eq!(echoed, Ok(Some(text("ping"))));
    assert!(!actor.is_closed());
}

#[test]
fn sends_are_served_in_order() {
    let mut actor = Actor::new();
    let sent: Vec<Message> = (0..4).map(|i| text(&format!("m{i}"))).collect();
    let mut written = Vec::new();
    for m in &sent {
        match actor.handle(Command::Send(m.clone())) {
            Ok(Action::Write(w)) => written.push(w),
            _ => panic!("expected a write"),
        }
    }
    for _ in 0..sent.len() {
        assert!(matches!(actor.handle(Command::Recv(None)), Ok(Action::Read(None))));
    }
    assert_eq!(written, sent);
}

#[test]
fn recv_timeout_is_reported_and_keeps_the_connection() {
    let mut actor = Actor::new();
    let deadline = Duration::from_millis(10);
    match actor.handle(Command::Recv(Some(deadline))) {
        Ok(Action::Read(Some(d))) => assert_eq!(d, deadline),
        _ => panic!("expected a read with deadline"),
    }
    assert_eq!(recv_reply(None), Err(Error::Timeout));
    assert!(!actor.is_closed());
    assert!(matches!(actor.handle(Command::Recv(None)), Ok(Action::Read(None))));
    assert_eq!(recv_reply(Some(Ok(Some(text("late"))))), Ok(Some(text("late"))));
}

#[test]
fn close_with_code_and_reason_then_send_is_disconnected() {
    let mut actor = Actor::new();
    match actor.handle(Command::Close(Some(1000), Some("bye".to_string()))) {
        Ok(Action::Shutdown(m)) => assert_eq!(
            m,
            Message::Close(Some(CloseFrame { code: 1000, reason: "bye".to_string() }))
        ),
        _ => panic!("expected a shutdown"),
    }
    assert!(actor.is_closed());
    assert!(matches!(
        actor.handle(Command::Send(text("x"))),
        Err(Error::WebSocketDisconnected)
    ));
    assert!(matches!(actor.handle(Command::Recv(None)), Err(Error::WebSocketDisconnected)));
    assert!(matches!(
        actor.handle(Command::Close(None, None)),
        Err(Error::WebSocketDisconnected)
    ));
}

#[test]
fn close_frame_defaults() {
    assert_eq!(close_frame(None, None), None);
    assert_eq!(close_frame(Some(4000), None), None);
    assert_eq!(
        close_frame(None, Some("done".to_string())),
        Some(CloseFrame { code: 1000, reason: "done".to_string() })
    );
    assert_eq!(
        close_frame(Some(1001), Some("away".to_string())),
        Some(CloseFrame { code: 1001, reason: "away".to_string() })
    );
}

#[test]
fn empty_batch_needs_no_command() {
    assert!(send_all_command(Vec::new()).is_none());
    match send_all_command(vec![text("a"), text("b")]) {
        Some(Command::SendMany(ms)) => assert_eq!(ms, vec![text("a"), text("b")]),
        _ => panic!("expected a batch command"),
    }
}

#[test]
fn batch_is_one_write() {
    let mut actor = Actor::new();
    let batch = vec![text("a"), text("b"), text("c")];
    match actor.handle(send_all_command(batch.clone()).unwrap()) {
        Ok(Action::WriteAll(ms)) => assert_eq!(ms, batch),
        _ => panic!("expected one batch write"),
    }
}

#[test]
fn dropped_reply_is_disconnected() {
    assert_eq!(settle_reply::<()>(None), Err(Error::WebSocketDisconnected));
    assert_eq!(settle_reply(Some(Ok(5u8))), Ok(5u8));
    assert_eq!(settle_reply::<u8>(Some(Err(Error::Timeout))), Err(Error::Timeout));
}

#[test]
fn message_accessors() {
    let t = text("hé");
    assert_eq!(t.text(), Some("hé"));
    assert_eq!(t.data().unwrap(), Bytes::from("hé"));
    assert_eq!(t.binary(), None);
    let b = Message::from_binary(Bytes::from_static(b"\x00\x01"));
    assert_eq!(b.binary(), Some(&Bytes::from_static(b"\x00\x01")));
    assert_eq!(b.data(), Some(Bytes::from_static(b"\x00\x01")));
    assert_eq!(b.text(), None);
    let p = Message::from_ping(Bytes::from_static(b"p"));
    assert_eq!(p.ping(), Some(&Bytes::from_static(b"p")));
    assert_eq!(p.pong(), None);
    let q = Message::from_pong(Bytes::from_static(b"q"));
    assert_eq!(q.pong(), Some(&Bytes::from_static(b"q")));
    assert_eq!(q.data(), Some(Bytes::from_static(b"q")));
}

#[test]
fn close_message_reason() {
    let c = Message::from_close(1001, Some("away".to_string()));
    assert_eq!(c.close(), Some((1001, Some("away"))));
    assert_eq!(c.data(), None);
    let d = Message::from_close(1000, None);
    assert_eq!(d.close(), Some((1000, Some("Goodbye"))));
    assert_eq!(Message::Close(None).close(), None);
    assert_eq!(text("x").close(), None);
}
