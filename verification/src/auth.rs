//! Results of password verification, handed over from the thread that
//! talks to PAM.

use std::sync::mpsc::{Receiver, TryRecvError};
use vstd::prelude::*;

verus! {

/// `std::sync::mpsc::Receiver`, the receiving end of a channel, opaque here.
#[verifier::external_type_specification]
#[verifier::external_body]
#[verifier::reject_recursive_types(T)]
pub struct ExReceiver<T>(Receiver<T>);

/// Result of an authentication attempt.
#[derive(Debug)]
pub enum AuthResult {
    /// Authentication succeeded
    Success,
    /// Authentication failed
    Failure(String),
}

/// What a non-blocking read of the result channel found.
#[derive(Debug)]
pub enum ChannelPoll {
    /// The result has arrived.
    Ready(AuthResult),
    /// No result yet.
    Empty,
    /// The sending side is gone without a result.
    Disconnected,
}

/// `Receiver::try_recv`, one arm per outcome. What it finds depends on the
/// authenticating thread; nothing is stated of it.
#[verifier::external_body]
fn poll_channel(receiver: &Receiver<AuthResult>) -> ChannelPoll {
    match receiver.try_recv() {
        Ok(result) => ChannelPoll::Ready(result),
        Err(TryRecvError::Empty) => ChannelPoll::Empty,
        Err(TryRecvError::Disconnected) => ChannelPoll::Disconnected,
    }
}

/// The message reported when the authenticating thread died.
pub open spec fn thread_died_message() -> Seq<char> {
    "Authentication thread died"@
}

/// What a poll of the channel means for the pending authentication: a
/// result, nothing yet, or a failure when the thread died without sending.
pub fn resolve_poll(poll: ChannelPoll) -> (r: Option<AuthResult>)
    ensures
        match poll {
            ChannelPoll::Ready(res) => r == Some(res),
            ChannelPoll::Empty => r is None,
            ChannelPoll::Disconnected => r matches Some(AuthResult::Failure(m)) && m@
                == thread_died_message(),
        },
{
    match poll {
        ChannelPoll::Ready(result) => Some(result),
        ChannelPoll::Empty => None,
        ChannelPoll::Disconnected => Some(
            AuthResult::Failure(String::from_str("Authentication thread died")),
        ),
    }
}

/// Handle for a pending authentication operation.
pub struct PendingAuth {
    receiver: Receiver<AuthResult>,
}

impl PendingAuth {
    /// The channel end the handle waits on.
    pub closed spec fn receiver(&self) -> Receiver<AuthResult> {
        self.receiver
    }

    /// A handle that waits on `receiver` for the result.
    pub fn new(receiver: Receiver<AuthResult>) -> (p: Self)
        ensures
            p.receiver() == receiver,
    {
        PendingAuth { receiver }
    }

    /// Checks, without blocking, whether the authentication has completed:
    /// `Some(result)` when it has, `None` while it is pending.
    pub fn try_recv(&self) -> (r: Option<AuthResult>) {
        resolve_poll(poll_channel(&self.receiver))
    }
}

} // verus!
