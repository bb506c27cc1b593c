use crate::clock::poll_times;
use crate::error::LedgerError;
use crate::msg::{ExecuteMsgView, OutcomeView, QueryMsgView};
use crate::state::{LedgerView, ParticipantView, PollView};
use vstd::prelude::*;

verus! {

/// A command as it reaches the ledger: who gave it, when, and what it asks.
pub struct Call {
    pub sender: Seq<char>,
    /// Seconds after the Unix epoch.
    pub now: u64,
    pub command: ExecuteMsgView,
}

impl PollView {
    /// Whether the poll's list has an entry with this participant id.
    pub open spec fn lists(self, participant_id: nat) -> bool {
        exists|i: int|
            0 <= i < self.participants.len() && (#[trigger] self.participants[i]).id
                == participant_id
    }
}

impl LedgerView {
    /// The ledger after setup: no polls, no participants, no votes, both counters 0.
    pub open spec fn empty() -> LedgerView {
        LedgerView {
            polls: Map::empty(),
            participants: Map::empty(),
            voters: Set::empty(),
            poll_counter: 0,
            participant_counter: 0,
        }
    }

    /// The poll that `open_poll` stores: the next id, open, without participants.
    pub open spec fn new_poll(
        self,
        owner: Seq<char>,
        name: Seq<char>,
        description: Seq<char>,
        start_time: Seq<char>,
        end_time: Option<Seq<char>>,
    ) -> PollView {
        PollView {
            id: self.poll_counter + 1,
            name,
            description,
            owner,
            participants: Seq::empty(),
            is_open: true,
            start_time,
            end_time,
        }
    }

    /// The ledger after a poll was created. Anyone may create one.
    pub open spec fn open_poll(
        self,
        owner: Seq<char>,
        name: Seq<char>,
        description: Seq<char>,
        start_time: Seq<char>,
        end_time: Option<Seq<char>>,
    ) -> LedgerView {
        LedgerView {
            polls: self.polls.insert(
                self.poll_counter + 1,
                self.new_poll(owner, name, description, start_time, end_time),
            ),
            poll_counter: self.poll_counter + 1,
            ..self
        }
    }

    /// Why `sender` may not add a participant to poll `poll_id`, if so. The poll
    /// must exist, then `sender` must own it, then it must be open.
    pub open spec fn add_participant_refusal(self, sender: Seq<char>, poll_id: nat) -> Option<
        LedgerError,
    > {
        if !self.polls.contains_key(poll_id) {
            Some(LedgerError::NotFound)
        } else if self.polls[poll_id].owner != sender {
            Some(LedgerError::Unauthorized)
        } else if !self.polls[poll_id].is_open {
            Some(LedgerError::PollClosed)
        } else {
            None
        }
    }

    /// The participant that `add_participant` records: the next id, no votes.
    pub open spec fn new_participant(self, poll_id: nat, name: Seq<char>) -> ParticipantView {
        ParticipantView { id: self.participant_counter + 1, poll_id, name, votes: 0 }
    }

    /// The ledger after a participant was added to poll `poll_id`: recorded in the
    /// participant table and appended to the poll's list.
    pub open spec fn add_participant(self, poll_id: nat, name: Seq<char>) -> LedgerView {
        let added = self.new_participant(poll_id, name);
        let poll = self.polls[poll_id];
        LedgerView {
            polls: self.polls.insert(
                poll_id,
                PollView { participants: poll.participants.push(added), ..poll },
            ),
            participants: self.participants.insert(added.id, added),
            participant_counter: added.id,
            ..self
        }
    }

    /// Why `sender` may not vote for `participant_id` in poll `poll_id`, if so. The
    /// tests are made in this order: the poll exists, it is open, `sender` does not
    /// own it, `sender` has not voted in it, the participant exists, the
    /// participant belongs to the poll.
    pub open spec fn vote_refusal(
        self,
        sender: Seq<char>,
        poll_id: nat,
        participant_id: nat,
    ) -> Option<LedgerError> {
        if !self.polls.contains_key(poll_id) {
            Some(LedgerError::NotFound)
        } else if !self.polls[poll_id].is_open {
            Some(LedgerError::PollClosed)
        } else if self.polls[poll_id].owner == sender {
            Some(LedgerError::SelfVoteForbidden)
        } else if self.voters.contains((poll_id, sender)) {
            Some(LedgerError::AlreadyVoted)
        } else if !self.participants.contains_key(participant_id) {
            Some(LedgerError::NotFound)
        } else if self.participants[participant_id].poll_id != poll_id {
            Some(LedgerError::ParticipantMismatch)
        } else {
            None
        }
    }

    /// The ledger after `sender` voted for `participant_id` in poll `poll_id`: one
    /// more vote for the participant, and `sender` marked as having voted.
    pub open spec fn vote(self, sender: Seq<char>, poll_id: nat, participant_id: nat) -> LedgerView {
        let chosen = self.participants[participant_id];
        LedgerView {
            participants: self.participants.insert(
                participant_id,
                ParticipantView { votes: chosen.votes + 1, ..chosen },
            ),
            voters: self.voters.insert((poll_id, sender)),
            ..self
        }
    }

    /// Why `sender` may not close poll `poll_id`, if so. The poll must exist, then
    /// `sender` must own it, then it must be open.
    pub open spec fn close_poll_refusal(self, sender: Seq<char>, poll_id: nat) -> Option<
        LedgerError,
    > {
        if !self.polls.contains_key(poll_id) {
            Some(LedgerError::NotFound)
        } else if self.polls[poll_id].owner != sender {
            Some(LedgerError::Unauthorized)
        } else if !self.polls[poll_id].is_open {
            Some(LedgerError::AlreadyClosed)
        } else {
            None
        }
    }

    /// The ledger after poll `poll_id` was closed. Nothing but `is_open` changes.
    pub open spec fn close_poll(self, poll_id: nat) -> LedgerView {
        LedgerView {
            polls: self.polls.insert(poll_id, PollView { is_open: false, ..self.polls[poll_id] }),
            ..self
        }
    }

    /// Whether each entry of `list` has a record in the participant table.
    pub open spec fn all_recorded(self, list: Seq<ParticipantView>) -> bool {
        forall|i: int| 0 <= i < list.len() ==> self.participants.contains_key(#[trigger] list[i].id)
    }

    /// For each entry of `list`, in order, the record that the participant table
    /// holds under the entry's id.
    pub open spec fn current_records(self, list: Seq<ParticipantView>) -> Seq<ParticipantView> {
        Seq::new(list.len(), |i: int| self.participants[list[i].id])
    }

    /// Poll `poll_id` with the current records of its participants, whether the
    /// poll is open or closed.
    pub open spec fn poll_report(self, poll_id: nat) -> Result<PollView, LedgerError> {
        if !self.polls.contains_key(poll_id) {
            Err(LedgerError::NotFound)
        } else if !self.all_recorded(self.polls[poll_id].participants) {
            Err(LedgerError::NotFound)
        } else {
            let poll = self.polls[poll_id];
            Ok(PollView { participants: self.current_records(poll.participants), ..poll })
        }
    }

    /// The report of poll `poll_id`, once the poll is closed.
    pub open spec fn poll_results(self, poll_id: nat) -> Result<PollView, LedgerError> {
        if !self.polls.contains_key(poll_id) {
            Err(LedgerError::NotFound)
        } else if self.polls[poll_id].is_open {
            Err(LedgerError::PollStillOpen)
        } else {
            self.poll_report(poll_id)
        }
    }

    /// What a query is answered with.
    pub open spec fn answer(self, query: QueryMsgView) -> Result<PollView, LedgerError> {
        match query {
            QueryMsgView::GetPoll { poll_id } => self.poll_report(poll_id),
            QueryMsgView::GetPollResults { poll_id } => self.poll_results(poll_id),
        }
    }

    /// Whether the ledger has room for what `command`, given by `sender`, would
    /// add: for a new poll a counter below the largest id; for a participant or a
    /// vote that would be accepted, a counter below the largest id and a vote count
    /// below the largest count.
    pub open spec fn has_room(self, sender: Seq<char>, command: ExecuteMsgView) -> bool {
        match command {
            ExecuteMsgView::CreatePoll { .. } => self.poll_counter < u64::MAX,
            ExecuteMsgView::AddParticipant { poll_id, .. } => self.add_participant_refusal(
                sender,
                poll_id,
            ) is None ==> self.participant_counter < u64::MAX,
            ExecuteMsgView::Vote { poll_id, participant_id } => self.vote_refusal(
                sender,
                poll_id,
                participant_id,
            ) is None ==> self.participants[participant_id].votes < u32::MAX,
            ExecuteMsgView::ClosePoll { .. } => true,
        }
    }

    /// The ledger after `sender` gave `command` at the time `now`, and what the
    /// command is answered with. A refused command leaves the ledger as it is.
    pub open spec fn step(self, sender: Seq<char>, now: u64, command: ExecuteMsgView) -> (
        LedgerView,
        Result<OutcomeView, LedgerError>,
    ) {
        match command {
            ExecuteMsgView::CreatePoll { name, description, duration } => match poll_times(
                now,
                duration,
            ) {
                None => (self, Err(LedgerError::ClockError)),
                Some((start_time, end_time)) => (
                    self.open_poll(sender, name, description, start_time, end_time),
                    Ok(OutcomeView::Created { poll_id: self.poll_counter + 1 }),
                ),
            },
            ExecuteMsgView::AddParticipant { poll_id, name } => match self.add_participant_refusal(
                sender,
                poll_id,
            ) {
                Some(refusal) => (self, Err(refusal)),
                None => (
                    self.add_participant(poll_id, name),
                    Ok(OutcomeView::Added { participant_id: self.participant_counter + 1 }),
                ),
            },
            ExecuteMsgView::Vote { poll_id, participant_id } => match self.vote_refusal(
                sender,
                poll_id,
                participant_id,
            ) {
                Some(refusal) => (self, Err(refusal)),
                None => (
                    self.vote(sender, poll_id, participant_id),
                    Ok(OutcomeView::Voted { voter: sender }),
                ),
            },
            ExecuteMsgView::ClosePoll { poll_id } => match self.close_poll_refusal(
                sender,
                poll_id,
            ) {
                Some(refusal) => (self, Err(refusal)),
                None => (self.close_poll(poll_id), Ok(OutcomeView::Closed)),
            },
        }
    }

    /// The ledger after the commands of `calls`, from the first to the last.
    pub open spec fn after(self, calls: Seq<Call>) -> LedgerView
        decreases calls.len(),
    {
        if calls.len() == 0 {
            self
        } else {
            let last = calls.last();
            self.after(calls.drop_last()).step(last.sender, last.now, last.command).0
        }
    }

    /// What command `i` of `calls` is answered with, the commands before it having
    /// been carried out from this ledger on.
    pub open spec fn answer_at(self, calls: Seq<Call>, i: int) -> Result<OutcomeView, LedgerError> {
        self.after(calls.take(i)).step(calls[i].sender, calls[i].now, calls[i].command).1
    }

    /// Every poll is stored under its own id, and that id is one that the poll
    /// counter has given out.
    pub open spec fn polls_keyed(self) -> bool {
        forall|id: nat| #[trigger]
            self.polls.contains_key(id) ==> 1 <= id <= self.poll_counter && self.polls[id].id
                == id
    }

    /// Every participant is recorded under its own id, and that id is one that the
    /// participant counter has given out.
    pub open spec fn participants_keyed(self) -> bool {
        forall|id: nat| #[trigger]
            self.participants.contains_key(id) ==> 1 <= id <= self.participant_counter
                && self.participants[id].id == id
    }

    /// Every participant belongs to a poll that exists and has it on its list.
    pub open spec fn participants_listed(self) -> bool {
        forall|id: nat| #[trigger]
            self.participants.contains_key(id) ==> self.polls.contains_key(
                self.participants[id].poll_id,
            ) && self.polls[self.participants[id].poll_id].lists(id)
    }

    /// Every entry on the list of a poll is a participant of that poll as it was
    /// recorded when added: the record of today, but for its votes.
    pub open spec fn lists_recorded(self) -> bool {
        forall|poll_id: nat, i: int|
            #![trigger self.polls[poll_id].participants[i]]
            self.polls.contains_key(poll_id) && 0 <= i < self.polls[poll_id].participants.len()
                ==> {
                let entry = self.polls[poll_id].participants[i];
                &&& entry.poll_id == poll_id
                &&& self.participants.contains_key(entry.id)
                &&& entry == ParticipantView { votes: 0, ..self.participants[entry.id] }
            }
    }

    /// Whoever has voted in a poll, the poll exists and belongs to someone else.
    pub open spec fn owners_abstain(self) -> bool {
        forall|poll_id: nat, voter: Seq<char>| #[trigger]
            self.voters.contains((poll_id, voter)) ==> self.polls.contains_key(poll_id)
                && self.polls[poll_id].owner != voter
    }

    /// The identities that have voted in poll `poll_id`.
    pub open spec fn voters_of(self, poll_id: nat) -> Set<Seq<char>> {
        Set::new(|voter: Seq<char>| self.voters.contains((poll_id, voter)))
    }

    /// The votes that the participants of poll `poll_id` with ids up to `upto`
    /// have between them.
    pub open spec fn votes_counted(self, poll_id: nat, upto: nat) -> nat
        decreases upto,
    {
        if upto == 0 {
            0
        } else {
            let rest = self.votes_counted(poll_id, (upto - 1) as nat);
            if self.participants.contains_key(upto) && self.participants[upto].poll_id == poll_id {
                rest + self.participants[upto].votes
            } else {
                rest
            }
        }
    }

    /// The votes that all participants of poll `poll_id` have between them.
    pub open spec fn votes_in(self, poll_id: nat) -> nat {
        self.votes_counted(poll_id, self.participant_counter)
    }

    /// In every poll there are as many votes as identities that have voted: each
    /// of them has given one vote to one participant of that poll.
    pub open spec fn tallies_match(self) -> bool {
        forall|poll_id: nat|
            #![trigger self.voters_of(poll_id)]
            self.voters_of(poll_id).finite() && self.votes_in(poll_id) == self.voters_of(
                poll_id,
            ).len()
    }

    /// What holds of the ledger after setup and after every command.
    pub open spec fn consistent(self) -> bool {
        &&& self.polls_keyed()
        &&& self.participants_keyed()
        &&& self.participants_listed()
        &&& self.lists_recorded()
        &&& self.owners_abstain()
        &&& self.tallies_match()
    }
}

} // verus!
