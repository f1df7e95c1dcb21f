//! The ways an invocation can fail, and how it ends.

use vstd::prelude::*;

verus! {

/// Why an invocation failed.
#[derive(Debug, PartialEq, Eq)]
pub enum Error {
    /// The control socket of a freshly started idle player never accepted a
    /// connection within the retry budget.
    SocketConnectionFailed,
    /// A write to the control socket failed before any write had succeeded:
    /// the player accepted no item.
    SocketWriteFailed,
    /// The player could not be started; holds the system's message.
    PlayerSpawnFailed(String),
    /// Waiting for the player failed; holds the system's message.
    PlayerWaitFailed(String),
    /// The player ended with a status other than success; holds its exit code.
    PlayerExited(i32),
}

/// `Error` over sequences of characters.
pub enum ErrorView {
    SocketConnectionFailed,
    SocketWriteFailed,
    PlayerSpawnFailed(Seq<char>),
    PlayerWaitFailed(Seq<char>),
    PlayerExited(i32),
}

impl View for Error {
    type V = ErrorView;

    open spec fn view(&self) -> ErrorView {
        match self {
            Error::SocketConnectionFailed => ErrorView::SocketConnectionFailed,
            Error::SocketWriteFailed => ErrorView::SocketWriteFailed,
            Error::PlayerSpawnFailed(m) => ErrorView::PlayerSpawnFailed(m@),
            Error::PlayerWaitFailed(m) => ErrorView::PlayerWaitFailed(m@),
            Error::PlayerExited(c) => ErrorView::PlayerExited(*c),
        }
    }
}

impl Clone for Error {
    fn clone(&self) -> (r: Self)
        ensures
            r@ == self@,
    {
        match self {
            Error::SocketConnectionFailed => Error::SocketConnectionFailed,
            Error::SocketWriteFailed => Error::SocketWriteFailed,
            Error::PlayerSpawnFailed(m) => Error::PlayerSpawnFailed(m.clone()),
            Error::PlayerWaitFailed(m) => Error::PlayerWaitFailed(m.clone()),
            Error::PlayerExited(c) => Error::PlayerExited(*c),
        }
    }
}

/// How an invocation ended.
#[derive(Debug, PartialEq, Eq)]
pub enum Outcome {
    Success,
    Failure(Error),
}

/// `Outcome` over sequences of characters.
pub enum OutcomeView {
    Success,
    Failure(ErrorView),
}

impl View for Outcome {
    type V = OutcomeView;

    open spec fn view(&self) -> OutcomeView {
        match self {
            Outcome::Success => OutcomeView::Success,
            Outcome::Failure(e) => OutcomeView::Failure(e@),
        }
    }
}

impl Clone for Outcome {
    fn clone(&self) -> (r: Self)
        ensures
            r@ == self@,
    {
        match self {
            Outcome::Success => Outcome::Success,
            Outcome::Failure(e) => Outcome::Failure(e.clone()),
        }
    }
}

/// The exit code that stands for a status without one.
pub const EXIT_CODE_UNAVAILABLE: i32 = 1;

/// What a player's exit status means: success for a success status, else a
/// failure with the status code, or with 1 where the status has none.
pub open spec fn exit_outcome(success: bool, code: Option<i32>) -> OutcomeView {
    if success {
        OutcomeView::Success
    } else {
        OutcomeView::Failure(
            ErrorView::PlayerExited(
                match code {
                    Some(c) => c,
                    None => EXIT_CODE_UNAVAILABLE,
                },
            ),
        )
    }
}

/// Maps a player's exit status to the invocation's outcome.
pub fn map_exit(success: bool, code: Option<i32>) -> (r: Outcome)
    ensures
        r@ == exit_outcome(success, code),
{
    if success {
        Outcome::Success
    } else {
        match code {
            Some(c) => Outcome::Failure(Error::PlayerExited(c)),
            None => Outcome::Failure(Error::PlayerExited(EXIT_CODE_UNAVAILABLE)),
        }
    }
}

} // verus!
