use std::collections::HashMap;
use vstd::prelude::*;

verus! {

/// A candidate of one poll, with the votes it has received.
#[derive(Debug, PartialEq)]
pub struct Participant {
    /// Unique among the participants of all polls.
    pub id: u64,
    /// The poll that the participant was added to.
    pub poll_id: u64,
    pub name: String,
    /// One for each accepted vote.
    pub votes: u32,
}

/// The mathematical value of a [`Participant`].
pub struct ParticipantView {
    pub id: nat,
    pub poll_id: nat,
    pub name: Seq<char>,
    pub votes: nat,
}

impl View for Participant {
    type V = ParticipantView;

    open spec fn view(&self) -> ParticipantView {
        ParticipantView {
            id: self.id as nat,
            poll_id: self.poll_id as nat,
            name: self.name@,
            votes: self.votes as nat,
        }
    }
}

impl Clone for Participant {
    fn clone(&self) -> (copy: Participant)
        ensures
            copy == *self,
    {
        Participant {
            id: self.id,
            poll_id: self.poll_id,
            name: self.name.clone(),
            votes: self.votes,
        }
    }
}

/// A named vote with an owner, its candidates, and an open or closed state.
#[derive(Debug, PartialEq)]
pub struct Poll {
    /// Unique among all polls.
    pub id: u64,
    pub name: String,
    pub description: String,
    /// The identity that created the poll.
    pub owner: String,
    /// The candidates in the order in which they were added. In a stored poll each
    /// entry is the participant as it was when added; a poll handed out by a query
    /// carries the current records.
    pub participants: Vec<Participant>,
    /// True from creation until the owner closes the poll.
    pub is_open: bool,
    /// When the poll was created.
    pub start_time: String,
    /// Creation time plus the duration asked for, if one was given. Closing the
    /// poll does not change it.
    pub end_time: Option<String>,
}

/// The mathematical value of a [`Poll`].
pub struct PollView {
    pub id: nat,
    pub name: Seq<char>,
    pub description: Seq<char>,
    pub owner: Seq<char>,
    pub participants: Seq<ParticipantView>,
    pub is_open: bool,
    pub start_time: Seq<char>,
    pub end_time: Option<Seq<char>>,
}

/// The characters of an optional text.
pub open spec fn text_view(text: Option<String>) -> Option<Seq<char>> {
    match text {
        Some(t) => Some(t@),
        None => None,
    }
}

/// The values of a list of participants, in the same order.
pub open spec fn participants_view(list: Seq<Participant>) -> Seq<ParticipantView> {
    Seq::new(list.len(), |i: int| list[i]@)
}

impl View for Poll {
    type V = PollView;

    open spec fn view(&self) -> PollView {
        PollView {
            id: self.id as nat,
            name: self.name@,
            description: self.description@,
            owner: self.owner@,
            participants: participants_view(self.participants@),
            is_open: self.is_open,
            start_time: self.start_time@,
            end_time: text_view(self.end_time),
        }
    }
}

/// A copy of a list of participants.
pub fn clone_participants(list: &Vec<Participant>) -> (copy: Vec<Participant>)
    ensures
        copy@ == list@,
{
    let mut copy: Vec<Participant> = Vec::new();
    let mut i: usize = 0;
    while i < list.len()
        invariant
            i <= list.len(),
            copy@ == list@.take(i as int),
        decreases list.len() - i,
    {
        copy.push(list[i].clone());
        i += 1;
    }
    copy
}

impl Clone for Poll {
    fn clone(&self) -> (copy: Poll)
        ensures
            copy@ == self@,
    {
        Poll {
            id: self.id,
            name: self.name.clone(),
            description: self.description.clone(),
            owner: self.owner.clone(),
            participants: clone_participants(&self.participants),
            is_open: self.is_open,
            start_time: self.start_time.clone(),
            end_time: match &self.end_time {
                Some(t) => Some(t.clone()),
                None => None,
            },
        }
    }
}

/// The whole state of the poll ledger: three tables and two counters.
///
/// Every value of this type is a state that the commands accept; what holds of the
/// states that the commands themselves produce is [`LedgerView::consistent`].
#[derive(Debug, PartialEq)]
pub struct Ledger {
    /// The polls by id.
    pub polls: HashMap<u64, Poll>,
    /// The participants of all polls by id. This table holds the vote counts.
    pub participants: HashMap<u64, Participant>,
    /// For each poll id, the identities that have voted in that poll.
    pub voters: HashMap<u64, Vec<String>>,
    /// The id given to the poll created last, 0 before the first.
    pub poll_counter: u64,
    /// The id given to the participant added last, 0 before the first.
    pub participant_counter: u64,
}

/// The mathematical value of a [`Ledger`].
pub struct LedgerView {
    pub polls: Map<nat, PollView>,
    pub participants: Map<nat, ParticipantView>,
    /// The pairs of a poll id and an identity that has voted in that poll.
    pub voters: Set<(nat, Seq<char>)>,
    pub poll_counter: nat,
    pub participant_counter: nat,
}

/// The poll table as a map from ids to poll values.
pub open spec fn polls_view(table: Map<u64, Poll>) -> Map<nat, PollView> {
    Map::new(
        |id: nat| id <= u64::MAX && table.contains_key(id as u64),
        |id: nat| table[id as u64]@,
    )
}

/// The participant table as a map from ids to participant values.
pub open spec fn records_view(table: Map<u64, Participant>) -> Map<nat, ParticipantView> {
    Map::new(
        |id: nat| id <= u64::MAX && table.contains_key(id as u64),
        |id: nat| table[id as u64]@,
    )
}

/// Whether `who` is one of `names`.
pub open spec fn listed(names: Seq<String>, who: Seq<char>) -> bool {
    exists|i: int| 0 <= i < names.len() && #[trigger] names[i]@ == who
}

/// The voter table as a set of pairs of poll id and identity.
pub open spec fn voters_view(table: Map<u64, Vec<String>>) -> Set<(nat, Seq<char>)> {
    Set::new(
        |key: (nat, Seq<char>)|
            key.0 <= u64::MAX && table.contains_key(key.0 as u64) && listed(
                table[key.0 as u64]@,
                key.1,
            ),
    )
}

impl View for Ledger {
    type V = LedgerView;

    open spec fn view(&self) -> LedgerView {
        LedgerView {
            polls: polls_view(self.polls@),
            participants: records_view(self.participants@),
            voters: voters_view(self.voters@),
            poll_counter: self.poll_counter as nat,
            participant_counter: self.participant_counter as nat,
        }
    }
}

} // verus!
