//! Messages between the locker daemon and its clients, and the daemon's
//! answer to each command.
//!
//! On the wire each message is one line of JSON: commands are tagged by
//! `command`, responses by `status`, events by `event`, all in kebab-case.

use vstd::prelude::*;

verus! {

/// Commands sent from clients to the daemon.
#[derive(Debug, Clone, Copy, PartialEq, Eq, Structural)]
pub enum Command {
    /// Lock the screen immediately
    Lock,
    /// Query current lock state
    QueryState,
    /// Gracefully shutdown the daemon
    Shutdown,
}

/// Response from the daemon to clients.
#[allow(inconsistent_fields)]
#[derive(Debug, Clone)]
pub enum Response {
    /// Command executed successfully
    Success {
        /// Optional message
        message: Option<String>,
    },
    /// Current state information
    State {
        /// Whether screen is currently locked
        locked: bool,
        /// Number of failed authentication attempts (if locked)
        failed_attempts: Option<u32>,
        /// Whether in cooldown period
        in_cooldown: Option<bool>,
    },
    /// Error occurred
    Error {
        /// Error message
        message: String,
    },
}

/// Events broadcast from the daemon to subscribers.
#[derive(Debug, Clone, Copy, PartialEq, Eq, Structural)]
pub enum Event {
    /// Screen was locked
    Locked,
    /// Screen was unlocked (successful auth)
    Unlocked,
    /// Authentication attempt failed
    AuthFailed {
        /// Current attempt number
        attempt: u32,
    },
    /// Cooldown started after too many failures
    CooldownStarted {
        /// Cooldown duration in seconds
        seconds: u64,
    },
    /// Daemon is shutting down
    Shutdown,
}

impl Response {
    /// A success response without a message.
    pub fn ok() -> (r: Self)
        ensures
            r == (Response::Success { message: None }),
    {
        Response::Success { message: None }
    }

    /// A success response carrying `msg`.
    pub fn ok_with_message(msg: &str) -> (r: Self)
        ensures
            r matches Response::Success { message: Some(m) } && m@ == msg@,
    {
        Response::Success { message: Some(String::from_str(msg)) }
    }

    /// An error response carrying `msg`.
    pub fn error(msg: &str) -> (r: Self)
        ensures
            r matches Response::Error { message } && message@ == msg@,
    {
        Response::Error { message: String::from_str(msg) }
    }

    /// A state response.
    pub fn state(locked: bool, failed_attempts: Option<u32>, in_cooldown: Option<bool>) -> (r:
        Self)
        ensures
            r == (Response::State { locked, failed_attempts, in_cooldown }),
    {
        Response::State { locked, failed_attempts, in_cooldown }
    }
}

/// What the daemon does with a command.
pub struct DaemonReply {
    /// The response sent to the client.
    pub response: Response,
    /// Lock the screen after responding.
    pub start_lock: bool,
    /// Stop the daemon after responding.
    pub stop: bool,
}

/// The daemon's reply to `cmd` when the screen is `locked` or not: a lock
/// request is refused while locked and otherwise acknowledged before the
/// screen is locked; a query reports the lock state; a shutdown request is
/// acknowledged and stops the daemon.
pub fn daemon_reply(cmd: Command, locked: bool) -> (r: DaemonReply)
    ensures
        match cmd {
            Command::Lock => if locked {
                &&& r.response matches Response::Error { message } && message@
                    == "Screen is already locked"@
                &&& !r.start_lock
                &&& !r.stop
            } else {
                &&& r.response matches Response::Success { message: Some(m) } && m@
                    == "Locking screen"@
                &&& r.start_lock
                &&& !r.stop
            },
            Command::QueryState => {
                &&& r.response == (Response::State {
                    locked,
                    failed_attempts: None,
                    in_cooldown: None,
                })
                &&& !r.start_lock
                &&& !r.stop
            },
            Command::Shutdown => {
                &&& r.response matches Response::Success { message: Some(m) } && m@
                    == "Shutting down"@
                &&& !r.start_lock
                &&& r.stop
            },
        },
{
    match cmd {
        Command::Lock => if locked {
            DaemonReply {
                response: Response::error("Screen is already locked"),
                start_lock: false,
                stop: false,
            }
        } else {
            DaemonReply {
                response: Response::ok_with_message("Locking screen"),
                start_lock: true,
                stop: false,
            }
        },
        Command::QueryState => DaemonReply {
            response: Response::state(locked, None, None),
            start_lock: false,
            stop: false,
        },
        Command::Shutdown => DaemonReply {
            response: Response::ok_with_message("Shutting down"),
            start_lock: false,
            stop: true,
        },
    }
}

} // verus!
