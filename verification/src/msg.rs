use vstd::prelude::*;

verus! {

/// Sets the ledger up. It carries nothing.
#[derive(Debug, PartialEq)]
pub struct InstantiateMsg {}

impl Clone for InstantiateMsg {
    fn clone(&self) -> (copy: InstantiateMsg)
        ensures
            copy == *self,
    {
        InstantiateMsg {  }
    }
}

/// A command: it changes the ledger, or is refused.
#[derive(Debug, PartialEq)]
pub enum ExecuteMsg {
    /// Creates a poll, which ends `duration` seconds after now if one is given.
    CreatePoll { name: String, description: String, duration: Option<u64> },
    /// Adds a candidate to a poll.
    AddParticipant { poll_id: u64, name: String },
    /// Casts the sender's vote for a candidate of a poll.
    Vote { poll_id: u64, participant_id: u64 },
    /// Closes a poll.
    ClosePoll { poll_id: u64 },
}

/// The mathematical value of an [`ExecuteMsg`].
pub enum ExecuteMsgView {
    CreatePoll { name: Seq<char>, description: Seq<char>, duration: Option<u64> },
    AddParticipant { poll_id: nat, name: Seq<char> },
    Vote { poll_id: nat, participant_id: nat },
    ClosePoll { poll_id: nat },
}

impl View for ExecuteMsg {
    type V = ExecuteMsgView;

    open spec fn view(&self) -> ExecuteMsgView {
        match *self {
            ExecuteMsg::CreatePoll { name, description, duration } => ExecuteMsgView::CreatePoll {
                name: name@,
                description: description@,
                duration,
            },
            ExecuteMsg::AddParticipant { poll_id, name } => ExecuteMsgView::AddParticipant {
                poll_id: poll_id as nat,
                name: name@,
            },
            ExecuteMsg::Vote { poll_id, participant_id } => ExecuteMsgView::Vote {
                poll_id: poll_id as nat,
                participant_id: participant_id as nat,
            },
            ExecuteMsg::ClosePoll { poll_id } => ExecuteMsgView::ClosePoll {
                poll_id: poll_id as nat,
            },
        }
    }
}

impl Clone for ExecuteMsg {
    fn clone(&self) -> (copy: ExecuteMsg)
        ensures
            copy == *self,
    {
        match self {
            ExecuteMsg::CreatePoll { name, description, duration } => ExecuteMsg::CreatePoll {
                name: name.clone(),
                description: description.clone(),
                duration: *duration,
            },
            ExecuteMsg::AddParticipant { poll_id, name } => ExecuteMsg::AddParticipant {
                poll_id: *poll_id,
                name: name.clone(),
            },
            ExecuteMsg::Vote { poll_id, participant_id } => ExecuteMsg::Vote {
                poll_id: *poll_id,
                participant_id: *participant_id,
            },
            ExecuteMsg::ClosePoll { poll_id } => ExecuteMsg::ClosePoll { poll_id: *poll_id },
        }
    }
}

/// A query: it reads the ledger and changes nothing.
#[derive(Clone, Copy, Debug, PartialEq)]
pub enum QueryMsg {
    /// A poll with the current records of its participants.
    GetPoll { poll_id: u64 },
    /// The same, for a closed poll only.
    GetPollResults { poll_id: u64 },
}

/// The mathematical value of a [`QueryMsg`].
pub enum QueryMsgView {
    GetPoll { poll_id: nat },
    GetPollResults { poll_id: nat },
}

impl View for QueryMsg {
    type V = QueryMsgView;

    open spec fn view(&self) -> QueryMsgView {
        match *self {
            QueryMsg::GetPoll { poll_id } => QueryMsgView::GetPoll { poll_id: poll_id as nat },
            QueryMsg::GetPollResults { poll_id } => QueryMsgView::GetPollResults {
                poll_id: poll_id as nat,
            },
        }
    }
}

/// What an accepted command did.
#[derive(Debug, PartialEq)]
pub enum Outcome {
    /// A poll was created under this id.
    Created { poll_id: u64 },
    /// A participant was added under this id.
    Added { participant_id: u64 },
    /// The vote of this identity was counted.
    Voted { voter: String },
    /// The poll was closed.
    Closed,
}

/// The mathematical value of an [`Outcome`].
pub enum OutcomeView {
    Created { poll_id: nat },
    Added { participant_id: nat },
    Voted { voter: Seq<char> },
    Closed,
}

impl View for Outcome {
    type V = OutcomeView;

    open spec fn view(&self) -> OutcomeView {
        match *self {
            Outcome::Created { poll_id } => OutcomeView::Created { poll_id: poll_id as nat },
            Outcome::Added { participant_id } => OutcomeView::Added {
                participant_id: participant_id as nat,
            },
            Outcome::Voted { voter } => OutcomeView::Voted { voter: voter@ },
            Outcome::Closed => OutcomeView::Closed,
        }
    }
}

impl Outcome {
    /// The text of [`Outcome::method`] for each kind.
    pub open spec fn method_text(self) -> Seq<char> {
        match self {
            Outcome::Created { .. } => "create_poll"@,
            Outcome::Added { .. } => "add_participant"@,
            Outcome::Voted { .. } => "vote"@,
            Outcome::Closed => "close_poll"@,
        }
    }

    /// The name of the command that was carried out, as a label for logs.
    pub fn method(&self) -> (label: &'static str)
        ensures
            label@ == self.method_text(),
    {
        match self {
            Outcome::Created { .. } => "create_poll",
            Outcome::Added { .. } => "add_participant",
            Outcome::Voted { .. } => "vote",
            Outcome::Closed => "close_poll",
        }
    }
}

} // verus!
