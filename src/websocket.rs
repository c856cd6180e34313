//! The command protocol of a WebSocket connection.
//!
//! One actor owns the socket and serves the commands of every handle, one at
//! a time, in the order in which they arrive. Commands from different handles
//! are not kept apart: a receive issued by one handle may be served by the
//! frame that arrives before the one served to a receive issued later by
//! another handle. The actor turns each command into one action on the socket;
//! the runtime that owns the socket performs it and replies.
use vstd::prelude::*;

use std::time::Duration;

use crate::error::Error;
use crate::message::{CloseFrame, Message, NORMAL_CLOSE};

verus! {

/// A request from a handle to the actor.
pub enum Command {
    /// Write one message.
    Send(Message),
    /// Write all these messages with no other command in between.
    SendMany(Vec<Message>),
    /// Read the next inbound message, waiting at most this long when given.
    Recv(Option<Duration>),
    /// Send a close frame, close the writer and stop serving.
    Close(Option<u16>, Option<String>),
}

/// What the runtime does on the socket for one command.
pub enum Action {
    /// Write one message.
    Write(Message),
    /// Write the messages in order, as one unit.
    WriteAll(Vec<Message>),
    /// Read the next inbound message, waiting at most this long when given.
    Read(Option<Duration>),
    /// Send this close message, close the writer whatever the send gave, reply
    /// with the outcome of the send, and stop.
    Shutdown(Message),
}

/// The state of the actor.
#[derive(Clone, Copy, Debug, PartialEq, Eq, Structural)]
pub enum ActorState {
    Running,
    Closed,
}

/// The close frame for a close request: the given reason with the given code,
/// or the normal code when none is given. Without a reason no frame is sent.
pub open spec fn close_frame_of(code: Option<u16>, reason: Option<String>) -> Option<CloseFrame> {
    match reason {
        Some(text) => Some(
            CloseFrame {
                code: match code {
                    Some(c) => c,
                    None => NORMAL_CLOSE,
                },
                reason: text,
            },
        ),
        None => None,
    }
}

/// The action for a command.
pub open spec fn action_of(cmd: Command) -> Action {
    match cmd {
        Command::Send(m) => Action::Write(m),
        Command::SendMany(ms) => Action::WriteAll(ms),
        Command::Recv(t) => Action::Read(t),
        Command::Close(code, reason) => Action::Shutdown(Message::Close(close_frame_of(code, reason))),
    }
}

/// The state after serving a command.
pub open spec fn next_state(s: ActorState, cmd: Command) -> ActorState {
    match cmd {
        Command::Close(_, _) => ActorState::Closed,
        _ => s,
    }
}

/// The answer of the actor to a command: its action while running, and
/// [`Error::WebSocketDisconnected`] once closed.
pub open spec fn answer_of(s: ActorState, cmd: Command) -> Result<Action, Error> {
    match s {
        ActorState::Running => Ok(action_of(cmd)),
        ActorState::Closed => Err(Error::WebSocketDisconnected),
    }
}

/// The state after a sequence of commands.
pub open spec fn state_after(s: ActorState, cmds: Seq<Command>) -> ActorState
    decreases cmds.len(),
{
    if cmds.len() == 0 {
        s
    } else {
        state_after(next_state(s, cmds[0]), cmds.drop_first())
    }
}

/// The answers to a sequence of commands, in the order they were served.
pub open spec fn answers(s: ActorState, cmds: Seq<Command>) -> Seq<Result<Action, Error>>
    decreases cmds.len(),
{
    if cmds.len() == 0 {
        Seq::empty()
    } else {
        seq![answer_of(s, cmds[0])] + answers(next_state(s, cmds[0]), cmds.drop_first())
    }
}

/// The actor of one connection.
pub struct Actor {
    state: ActorState,
}

impl Actor {
    pub closed spec fn state(&self) -> ActorState {
        self.state
    }

    /// An actor ready to serve.
    pub fn new() -> (r: Actor)
        ensures
            r.state() == ActorState::Running,
    {
        Actor { state: ActorState::Running }
    }

    pub fn is_closed(&self) -> (r: bool)
        ensures
            r == (self.state() == ActorState::Closed),
    {
        self.state == ActorState::Closed
    }

    /// Serves one command: while running, the action for it; a close command
    /// closes the actor. A closed actor answers every command with
    /// [`Error::WebSocketDisconnected`].
    pub fn handle(&mut self, cmd: Command) -> (r: Result<Action, Error>)
        ensures
            r == answer_of(old(self).state(), cmd),
            final(self).state() == next_state(old(self).state(), cmd),
    {
        if self.state == ActorState::Closed {
            return Err(Error::WebSocketDisconnected);
        }
        match cmd {
            Command::Send(m) => Ok(Action::Write(m)),
            Command::SendMany(ms) => Ok(Action::WriteAll(ms)),
            Command::Recv(t) => Ok(Action::Read(t)),
            Command::Close(code, reason) => {
                self.state = ActorState::Closed;
                Ok(Action::Shutdown(Message::Close(close_frame(code, reason))))
            },
        }
    }
}

/// The frame of a close request: see [`close_frame_of`].
pub fn close_frame(code: Option<u16>, reason: Option<String>) -> (r: Option<CloseFrame>)
    ensures
        r == close_frame_of(code, reason),
{
    match reason {
        Some(text) => {
            let code = match code {
                Some(c) => c,
                None => NORMAL_CLOSE,
            };
            Some(CloseFrame { code, reason: text })
        },
        None => None,
    }
}

/// The command for a batch send, or `None` when there is nothing to send: an
/// empty batch succeeds without reaching the actor.
pub fn send_all_command(messages: Vec<Message>) -> (r: Option<Command>)
    ensures
        messages@.len() == 0 ==> r is None,
        messages@.len() > 0 ==> r == Some(Command::SendMany(messages)),
{
    if messages.len() == 0 {
        None
    } else {
        Some(Command::SendMany(messages))
    }
}

/// The reply to a receive: what the read gave, or [`Error::Timeout`] when the
/// deadline passed first (`None`). A timeout leaves the connection open.
pub fn recv_reply(read: Option<Result<Option<Message>, Error>>) -> (r: Result<
    Option<Message>,
    Error,
>)
    ensures
        match read {
            Some(got) => r == got,
            None => r == Err::<Option<Message>, Error>(Error::Timeout),
        },
{
    match read {
        Some(got) => got,
        None => Err(Error::Timeout),
    }
}

/// What a handle returns for a command: the reply of the actor, or
/// [`Error::WebSocketDisconnected`] when the actor dropped the command
/// without replying (`None`).
pub fn settle_reply<T>(reply: Option<Result<T, Error>>) -> (r: Result<T, Error>)
    ensures
        match reply {
            Some(got) => r == got,
            None => r == Err::<T, Error>(Error::WebSocketDisconnected),
        },
{
    match reply {
        Some(got) => got,
        None => Err(Error::WebSocketDisconnected),
    }
}

proof fn lemma_answers_len(s: ActorState, cmds: Seq<Command>)
    ensures
        answers(s, cmds).len() == cmds.len(),
    decreases cmds.len(),
{
    if cmds.len() > 0 {
        lemma_answers_len(next_state(s, cmds[0]), cmds.drop_first());
    }
}

/// While no close command comes, the actor stays running and answers each
/// command, in arrival order, with the action for it.
pub proof fn law_commands_served_in_order(cmds: Seq<Command>)
    requires
        forall|i: int| 0 <= i < cmds.len() ==> !(#[trigger] cmds[i] is Close),
    ensures
        state_after(ActorState::Running, cmds) == ActorState::Running,
        answers(ActorState::Running, cmds).len() == cmds.len(),
        forall|i: int|
            0 <= i < cmds.len() ==> #[trigger] answers(ActorState::Running, cmds)[i] == Ok::<
                Action,
                Error,
            >(action_of(cmds[i])),
    decreases cmds.len(),
{
    lemma_answers_len(ActorState::Running, cmds);
    if cmds.len() > 0 {
        let rest = cmds.drop_first();
        assert forall|i: int| 0 <= i < rest.len() implies !(#[trigger] rest[i] is Close) by {
            assert(rest[i] == cmds[i + 1]);
        }
        law_commands_served_in_order(rest);
        assert forall|i: int| 0 <= i < cmds.len() implies #[trigger] answers(
            ActorState::Running,
            cmds,
        )[i] == Ok::<Action, Error>(action_of(cmds[i])) by {
            if i > 0 {
                assert(rest[i - 1] == cmds[i]);
            }
        }
    }
}

/// Messages sent one by one and then as many receives are served in that
/// order: each message is written in the order it was sent, and then one read
/// is issued per receive, with the connection still open.
pub proof fn law_sends_then_receives(msgs: Seq<Message>, timeout: Option<Duration>)
    ensures
        ({
            let cmds = msgs.map_values(|m: Message| Command::Send(m)) + Seq::new(
                msgs.len(),
                |i: int| Command::Recv(timeout),
            );
            let out = answers(ActorState::Running, cmds);
            &&& out.len() == 2 * msgs.len()
            &&& forall|i: int|
                0 <= i < msgs.len() ==> #[trigger] out[i] == Ok::<Action, Error>(
                    Action::Write(msgs[i]),
                )
            &&& forall|i: int|
                msgs.len() <= i < 2 * msgs.len() ==> #[trigger] out[i] == Ok::<Action, Error>(
                    Action::Read(timeout),
                )
            &&& state_after(ActorState::Running, cmds) == ActorState::Running
        }),
{
    let cmds = msgs.map_values(|m: Message| Command::Send(m)) + Seq::new(
        msgs.len(),
        |i: int| Command::Recv(timeout),
    );
    assert forall|i: int| 0 <= i < cmds.len() implies !(#[trigger] cmds[i] is Close) by {
        if i < msgs.len() {
            assert(cmds[i] == Command::Send(msgs[i]));
        } else {
            assert(cmds[i] == Command::Recv(timeout));
        }
    }
    law_commands_served_in_order(cmds);
    let out = answers(ActorState::Running, cmds);
    assert forall|i: int| 0 <= i < msgs.len() implies #[trigger] out[i] == Ok::<Action, Error>(
        Action::Write(msgs[i]),
    ) by {
        assert(cmds[i] == Command::Send(msgs[i]));
    }
    assert forall|i: int| msgs.len() <= i < 2 * msgs.len() implies #[trigger] out[i] == Ok::<
        Action,
        Error,
    >(Action::Read(timeout)) by {
        assert(cmds[i] == Command::Recv(timeout));
    }
}

/// A receive whose deadline passed fails with [`Error::Timeout`] and leaves
/// the actor running, so the next receive is served by a read as usual.
pub proof fn law_timeout_keeps_connection(deadline: Duration, next: Option<Duration>)
    ensures
        answer_of(ActorState::Running, Command::Recv(Some(deadline))) == Ok::<Action, Error>(
            Action::Read(Some(deadline)),
        ),
        next_state(ActorState::Running, Command::Recv(Some(deadline))) == ActorState::Running,
        answer_of(ActorState::Running, Command::Recv(next)) == Ok::<Action, Error>(
            Action::Read(next),
        ),
{
}

proof fn lemma_closed_refuses_all(cmds: Seq<Command>)
    ensures
        state_after(ActorState::Closed, cmds) == ActorState::Closed,
        answers(ActorState::Closed, cmds) =~= Seq::new(
            cmds.len(),
            |i: int| Err::<Action, Error>(Error::WebSocketDisconnected),
        ),
    decreases cmds.len(),
{
    if cmds.len() > 0 {
        lemma_closed_refuses_all(cmds.drop_first());
    }
}

/// After a close command, whatever follows is answered with
/// [`Error::WebSocketDisconnected`], whichever handle sent it, and the actor
/// stays closed.
pub proof fn law_close_is_final(code: Option<u16>, reason: Option<String>, later: Seq<Command>)
    ensures
        ({
            let cmds = seq![Command::Close(code, reason)] + later;
            let out = answers(ActorState::Running, cmds);
            &&& out.len() == later.len() + 1
            &&& out[0] == Ok::<Action, Error>(
                Action::Shutdown(Message::Close(close_frame_of(code, reason))),
            )
            &&& forall|i: int|
                1 <= i < out.len() ==> #[trigger] out[i] == Err::<Action, Error>(
                    Error::WebSocketDisconnected,
                )
            &&& state_after(ActorState::Running, cmds) == ActorState::Closed
        }),
{
    let cmds = seq![Command::Close(code, reason)] + later;
    assert(cmds.drop_first() =~= later);
    lemma_closed_refuses_all(later);
}

} // verus!
