//! Startup handshake with the keyboard, as a pure state machine.
//!
//! The writer thread performs the blocking HID reads and writes; this module
//! only decides. The machine starts by asking the caller to send
//! `Handshake { status: 0x7F }`. Each decoded response (or parse error) is fed
//! to [`HandshakeMachine::on_response`]: the acknowledgement status `0x80`
//! completes the exchange with a final `Handshake { status: 0x81 }` to send;
//! anything else — a wrong status, an RMS frame, or a parse error — asks for
//! the `0x7F` request again, up to a fixed retry budget, after which the
//! machine gives up instead of looping forever.

use vstd::prelude::*;
use crate::protocol::{Command, CommandParseError};

verus! {

/// Status byte that opens the handshake.
pub const HANDSHAKE_REQUEST: u8 = 0x7F;

/// Status byte the keyboard answers with when it is ready.
pub const HANDSHAKE_ACK: u8 = 0x80;

/// Status byte that confirms the handshake and completes it.
pub const HANDSHAKE_CONFIRM: u8 = 0x81;

/// Where the exchange stands.
#[derive(Clone, Copy, Debug, PartialEq, Eq, Structural)]
pub enum HandshakeState {
    /// The request was sent; `retries` responses have been rejected so far.
    AwaitingAck { retries: u32 },
    /// The acknowledgement arrived and the confirmation was handed out.
    Confirmed,
    /// The retry budget ran out before an acknowledgement arrived.
    TimedOut,
}

/// The handshake state machine: the retry budget and the current state.
#[derive(Clone, Copy, Debug, PartialEq, Eq, Structural)]
pub struct HandshakeMachine {
    pub max_retries: u32,
    pub state: HandshakeState,
}

/// A response acknowledges the handshake exactly when it decodes to
/// `Handshake { status: 0x80 }`.
pub open spec fn spec_is_ack(response: Result<Command, CommandParseError>) -> bool {
    response == Ok::<Command, CommandParseError>(Command::Handshake { status: HANDSHAKE_ACK })
}

/// The transition taken by `on_response`: the next machine and the command to
/// send, if any.
pub open spec fn spec_on_response(
    m: HandshakeMachine,
    response: Result<Command, CommandParseError>,
) -> (HandshakeMachine, Option<Command>) {
    if spec_is_ack(response) {
        (
            HandshakeMachine { state: HandshakeState::Confirmed, ..m },
            Some(Command::Handshake { status: HANDSHAKE_CONFIRM }),
        )
    } else {
        let retries = m.state->AwaitingAck_retries;
        if retries < m.max_retries {
            (
                HandshakeMachine {
                    state: HandshakeState::AwaitingAck { retries: (retries + 1) as u32 },
                    ..m
                },
                Some(Command::Handshake { status: HANDSHAKE_REQUEST }),
            )
        } else {
            (HandshakeMachine { state: HandshakeState::TimedOut, ..m }, None)
        }
    }
}

impl HandshakeMachine {
    /// A fresh machine with the given retry budget, awaiting the first
    /// response; the caller sends [`Self::request`] first.
    pub fn new(max_retries: u32) -> (r: HandshakeMachine)
        ensures
            r == (HandshakeMachine {
                max_retries,
                state: HandshakeState::AwaitingAck { retries: 0 },
            }),
    {
        HandshakeMachine { max_retries, state: HandshakeState::AwaitingAck { retries: 0 } }
    }

    /// The command that opens the handshake (and that every retry repeats).
    pub fn request(&self) -> (c: Command)
        ensures
            c == (Command::Handshake { status: HANDSHAKE_REQUEST }),
    {
        Command::Handshake { status: HANDSHAKE_REQUEST }
    }

    /// Feed one decoded response (or the parse error it produced) to the
    /// machine. Returns the command to send next, if any: the confirmation on
    /// the acknowledgement status, the request again on anything else while
    /// the retry budget lasts, and nothing once it is spent.
    pub fn on_response(&mut self, response: Result<Command, CommandParseError>) -> (send: Option<
        Command,
    >)
        requires
            old(self).state is AwaitingAck,
        ensures
            *final(self) == spec_on_response(*old(self), response).0,
            send == spec_on_response(*old(self), response).1,
            (final(self).state is Confirmed) == spec_is_ack(response),
    {
        let is_ack = match response {
            Ok(Command::Handshake { status }) => status == HANDSHAKE_ACK,
            _ => false,
        };
        if is_ack {
            self.state = HandshakeState::Confirmed;
            Some(Command::Handshake { status: HANDSHAKE_CONFIRM })
        } else {
            let retries = match self.state {
                HandshakeState::AwaitingAck { retries } => retries,
                _ => 0,  // unreachable: the precondition pins the state
            };
            if retries < self.max_retries {
                self.state = HandshakeState::AwaitingAck { retries: retries + 1 };
                Some(Command::Handshake { status: HANDSHAKE_REQUEST })
            } else {
                self.state = HandshakeState::TimedOut;
                None
            }
        }
    }
}

} // verus!
