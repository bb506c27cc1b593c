use vstd::prelude::*;

verus! {

/// Why the ledger refused a command or a query.
#[derive(Clone, Copy, Debug, PartialEq, Eq, Structural)]
pub enum LedgerError {
    /// The poll or participant referred to does not exist.
    NotFound,
    /// The caller is not the owner of the poll.
    Unauthorized,
    /// The poll is closed and accepts no participants or votes.
    PollClosed,
    /// The poll was closed before.
    AlreadyClosed,
    /// Results are only shown once the poll is closed.
    PollStillOpen,
    /// The owner of a poll may not vote in it.
    SelfVoteForbidden,
    /// The caller has voted in this poll before.
    AlreadyVoted,
    /// The participant belongs to another poll.
    ParticipantMismatch,
    /// The time given cannot be written as a timestamp.
    ClockError,
}

impl LedgerError {
    /// The text of [`LedgerError::message`] for each kind.
    pub open spec fn message_text(self) -> Seq<char> {
        match self {
            LedgerError::NotFound => "Not found"@,
            LedgerError::Unauthorized => "Unauthorized"@,
            LedgerError::PollClosed => "Poll is closed"@,
            LedgerError::AlreadyClosed => "Poll is already closed"@,
            LedgerError::PollStillOpen => "Poll is still open"@,
            LedgerError::SelfVoteForbidden => "Owner cannot vote in this poll"@,
            LedgerError::AlreadyVoted => "Voter has already voted in this poll"@,
            LedgerError::ParticipantMismatch => "Participant does not belong to this poll"@,
            LedgerError::ClockError => "Time cannot be represented"@,
        }
    }

    /// A sentence for the caller, one per kind.
    pub fn message(&self) -> (text: &'static str)
        ensures
            text@ == self.message_text(),
    {
        match self {
            LedgerError::NotFound => "Not found",
            LedgerError::Unauthorized => "Unauthorized",
            LedgerError::PollClosed => "Poll is closed",
            LedgerError::AlreadyClosed => "Poll is already closed",
            LedgerError::PollStillOpen => "Poll is still open",
            LedgerError::SelfVoteForbidden => "Owner cannot vote in this poll",
            LedgerError::AlreadyVoted => "Voter has already voted in this poll",
            LedgerError::ParticipantMismatch => "Participant does not belong to this poll",
            LedgerError::ClockError => "Time cannot be represented",
        }
    }
}

} // verus!
