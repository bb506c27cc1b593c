use crate::error::LedgerError;
use crate::model::Call;
use crate::msg::{ExecuteMsgView, OutcomeView};
use crate::state::{LedgerView, ParticipantView, PollView};
use vstd::prelude::*;

verus! {

impl PollView {
    /// Whether `later` is this poll at a later time: the same poll, closed if this
    /// one is, with a list that starts with the list of this one.
    pub open spec fn grown_into(self, later: PollView) -> bool {
        &&& later.id == self.id
        &&& later.name == self.name
        &&& later.description == self.description
        &&& later.owner == self.owner
        &&& later.start_time == self.start_time
        &&& later.end_time == self.end_time
        &&& !self.is_open ==> !later.is_open
        &&& self.participants.len() <= later.participants.len()
        &&& forall|i: int|
            0 <= i < self.participants.len() ==> #[trigger] later.participants[i]
                == self.participants[i]
    }
}

impl ParticipantView {
    /// Whether `later` is this participant at a later time: the same participant
    /// of the same poll, with no fewer votes.
    pub open spec fn grown_into(self, later: ParticipantView) -> bool {
        &&& later.id == self.id
        &&& later.poll_id == self.poll_id
        &&& later.name == self.name
        &&& self.votes <= later.votes
    }
}

impl LedgerView {
    /// Whether `later` holds all that this ledger holds: no counter has fallen, and
    /// every poll, participant and voter mark is still there, grown at most.
    pub open spec fn grown_into(self, later: LedgerView) -> bool {
        &&& self.poll_counter <= later.poll_counter
        &&& self.participant_counter <= later.participant_counter
        &&& forall|id: nat| #[trigger]
            self.polls.contains_key(id) ==> later.polls.contains_key(id)
                && self.polls[id].grown_into(later.polls[id])
        &&& forall|id: nat| #[trigger]
            self.participants.contains_key(id) ==> later.participants.contains_key(id)
                && self.participants[id].grown_into(later.participants[id])
        &&& forall|poll_id: nat, voter: Seq<char>| #[trigger]
            self.voters.contains((poll_id, voter)) ==> later.voters.contains((poll_id, voter))
    }
}

/// A ledger just set up is consistent.
pub proof fn law_setup_is_consistent()
    ensures
        LedgerView::empty().consistent(),
{
    let s = LedgerView::empty();
    assert forall|poll_id: nat|
        #![trigger s.voters_of(poll_id)]
        s.voters_of(poll_id).finite() && s.votes_in(poll_id) == s.voters_of(poll_id).len() by {
        assert(s.voters_of(poll_id) =~= Set::empty());
    }
}

/// The count of votes looks at the participant table only.
proof fn lemma_votes_counted_alike(s: LedgerView, t: LedgerView, poll_id: nat, upto: nat)
    requires
        forall|id: nat|
            1 <= id <= upto ==> (#[trigger] s.participants.contains_key(id))
                == t.participants.contains_key(id),
        forall|id: nat|
            1 <= id <= upto && #[trigger] s.participants.contains_key(id) ==> s.participants[id]
                == t.participants[id],
    ensures
        s.votes_counted(poll_id, upto) == t.votes_counted(poll_id, upto),
    decreases upto,
{
    if upto > 0 {
        lemma_votes_counted_alike(s, t, poll_id, (upto - 1) as nat);
    }
}

/// One more vote for `chosen` is one more vote in its poll, and in no other.
proof fn lemma_votes_counted_one_more(
    s: LedgerView,
    t: LedgerView,
    poll_id: nat,
    chosen: nat,
    upto: nat,
)
    requires
        s.participants.contains_key(chosen),
        t.participants == s.participants.insert(
            chosen,
            ParticipantView { votes: s.participants[chosen].votes + 1, ..s.participants[chosen] },
        ),
    ensures
        t.votes_counted(poll_id, upto) == s.votes_counted(poll_id, upto) + if 1 <= chosen <= upto
            && s.participants[chosen].poll_id == poll_id {
            1nat
        } else {
            0nat
        },
    decreases upto,
{
    if upto > 0 {
        lemma_votes_counted_one_more(s, t, poll_id, chosen, (upto - 1) as nat);
    }
}

proof fn lemma_open_poll(
    s: LedgerView,
    owner: Seq<char>,
    name: Seq<char>,
    description: Seq<char>,
    start_time: Seq<char>,
    end_time: Option<Seq<char>>,
)
    requires
        s.consistent(),
    ensures
        s.open_poll(owner, name, description, start_time, end_time).consistent(),
        s.grown_into(s.open_poll(owner, name, description, start_time, end_time)),
{
    let t = s.open_poll(owner, name, description, start_time, end_time);
    assert forall|poll_id: nat|
        #![trigger t.voters_of(poll_id)]
        t.voters_of(poll_id).finite() && t.votes_in(poll_id) == t.voters_of(poll_id).len() by {
        assert(t.voters_of(poll_id) =~= s.voters_of(poll_id));
        lemma_votes_counted_alike(s, t, poll_id, s.participant_counter);
    }
}

proof fn lemma_add_participant(s: LedgerView, sender: Seq<char>, poll_id: nat, name: Seq<char>)
    requires
        s.consistent(),
        s.add_participant_refusal(sender, poll_id) is None,
    ensures
        s.add_participant(poll_id, name).consistent(),
        s.grown_into(s.add_participant(poll_id, name)),
{
    let t = s.add_participant(poll_id, name);
    let added = s.new_participant(poll_id, name);
    let before = s.polls[poll_id];
    let poll = t.polls[poll_id];
    assert(poll.participants[before.participants.len() as int] == added);
    assert forall|id: nat| #[trigger] t.participants.contains_key(id) implies t.polls.contains_key(
        t.participants[id].poll_id,
    ) && t.polls[t.participants[id].poll_id].lists(id) by {
        if id != added.id {
            let home = s.participants[id].poll_id;
            let i = choose|i: int|
                0 <= i < s.polls[home].participants.len() && (
                #[trigger] s.polls[home].participants[i]).id == id;
            assert(t.polls[home].participants[i].id == id);
        }
    }
    assert forall|at: nat, i: int|
        #![trigger t.polls[at].participants[i]]
        t.polls.contains_key(at) && 0 <= i < t.polls[at].participants.len() implies {
        let entry = t.polls[at].participants[i];
        &&& entry.poll_id == at
        &&& t.participants.contains_key(entry.id)
        &&& entry == ParticipantView { votes: 0, ..t.participants[entry.id] }
    } by {
        if at != poll_id || i != before.participants.len() {
            assert(t.polls[at].participants[i] == s.polls[at].participants[i]);
        }
    }
    assert forall|id: nat| #[trigger] s.polls.contains_key(id) implies t.polls.contains_key(id)
        && s.polls[id].grown_into(t.polls[id]) by {
        if id == poll_id {
            assert forall|i: int| 0 <= i < before.participants.len() implies #[trigger]
                poll.participants[i] == before.participants[i] by {}
        }
    }
    assert forall|at: nat|
        #![trigger t.voters_of(at)]
        t.voters_of(at).finite() && t.votes_in(at) == t.voters_of(at).len() by {
        assert(t.voters_of(at) =~= s.voters_of(at));
        lemma_votes_counted_alike(s, t, at, s.participant_counter);
        assert(t.votes_in(at) == t.votes_counted(at, s.participant_counter));
    }
}

proof fn lemma_vote(s: LedgerView, sender: Seq<char>, poll_id: nat, participant_id: nat)
    requires
        s.consistent(),
        s.vote_refusal(sender, poll_id, participant_id) is None,
    ensures
        s.vote(sender, poll_id, participant_id).consistent(),
        s.grown_into(s.vote(sender, poll_id, participant_id)),
{
    let t = s.vote(sender, poll_id, participant_id);
    assert forall|at: nat, i: int|
        #![trigger t.polls[at].participants[i]]
        t.polls.contains_key(at) && 0 <= i < t.polls[at].participants.len() implies {
        let entry = t.polls[at].participants[i];
        &&& entry.poll_id == at
        &&& t.participants.contains_key(entry.id)
        &&& entry == ParticipantView { votes: 0, ..t.participants[entry.id] }
    } by {
        assert(t.polls[at].participants[i] == s.polls[at].participants[i]);
    }
    assert forall|at: nat|
        #![trigger t.voters_of(at)]
        t.voters_of(at).finite() && t.votes_in(at) == t.voters_of(at).len() by {
        lemma_votes_counted_one_more(s, t, at, participant_id, s.participant_counter);
        if at == poll_id {
            assert(t.voters_of(at) =~= s.voters_of(at).insert(sender));
        } else {
            assert(t.voters_of(at) =~= s.voters_of(at));
        }
    }
}

proof fn lemma_close_poll(s: LedgerView, sender: Seq<char>, poll_id: nat)
    requires
        s.consistent(),
        s.close_poll_refusal(sender, poll_id) is None,
    ensures
        s.close_poll(poll_id).consistent(),
        s.grown_into(s.close_poll(poll_id)),
{
    let t = s.close_poll(poll_id);
    assert forall|id: nat| #[trigger] t.participants.contains_key(id) implies t.polls.contains_key(
        t.participants[id].poll_id,
    ) && t.polls[t.participants[id].poll_id].lists(id) by {
        let home = s.participants[id].poll_id;
        let i = choose|i: int|
            0 <= i < s.polls[home].participants.len() && (#[trigger] s.polls[home].participants[i]).id
                == id;
        assert(t.polls[home].participants[i].id == id);
    }
    assert forall|at: nat, i: int|
        #![trigger t.polls[at].participants[i]]
        t.polls.contains_key(at) && 0 <= i < t.polls[at].participants.len() implies {
        let entry = t.polls[at].participants[i];
        &&& entry.poll_id == at
        &&& t.participants.contains_key(entry.id)
        &&& entry == ParticipantView { votes: 0, ..t.participants[entry.id] }
    } by {
        assert(t.polls[at].participants[i] == s.polls[at].participants[i]);
    }
    assert forall|at: nat|
        #![trigger t.voters_of(at)]
        t.voters_of(at).finite() && t.votes_in(at) == t.voters_of(at).len() by {
        assert(t.voters_of(at) =~= s.voters_of(at));
        lemma_votes_counted_alike(s, t, at, s.participant_counter);
    }
}

/// A command leaves a consistent ledger consistent, and takes nothing from it:
/// polls and participants are never deleted, a poll keeps its owner and its
/// timestamps, a closed poll stays closed, vote counts and counters never fall,
/// and who has voted stays marked.
pub proof fn law_step_keeps_history(s: LedgerView, call: Call)
    requires
        s.consistent(),
    ensures
        s.step(call.sender, call.now, call.command).0.consistent(),
        s.grown_into(s.step(call.sender, call.now, call.command).0),
{
    match call.command {
        ExecuteMsgView::CreatePoll { name, description, duration } => {
            match crate::clock::poll_times(call.now, duration) {
                Some((start_time, end_time)) => {
                    lemma_open_poll(s, call.sender, name, description, start_time, end_time);
                },
                None => {},
            }
        },
        ExecuteMsgView::AddParticipant { poll_id, name } => {
            if s.add_participant_refusal(call.sender, poll_id) is None {
                lemma_add_participant(s, call.sender, poll_id, name);
            }
        },
        ExecuteMsgView::Vote { poll_id, participant_id } => {
            if s.vote_refusal(call.sender, poll_id, participant_id) is None {
                lemma_vote(s, call.sender, poll_id, participant_id);
            }
        },
        ExecuteMsgView::ClosePoll { poll_id } => {
            if s.close_poll_refusal(call.sender, poll_id) is None {
                lemma_close_poll(s, call.sender, poll_id);
            }
        },
    }
}

proof fn lemma_grown_chain(a: LedgerView, b: LedgerView, c: LedgerView)
    requires
        a.grown_into(b),
        b.grown_into(c),
    ensures
        a.grown_into(c),
{
    assert forall|id: nat| #[trigger] a.polls.contains_key(id) implies c.polls.contains_key(id)
        && a.polls[id].grown_into(c.polls[id]) by {
        assert forall|i: int| 0 <= i < a.polls[id].participants.len() implies #[trigger]
            c.polls[id].participants[i] == a.polls[id].participants[i] by {
            assert(b.polls[id].participants[i] == a.polls[id].participants[i]);
        }
    }
}

proof fn lemma_after_one_more(start: LedgerView, calls: Seq<Call>, i: int)
    requires
        0 <= i < calls.len(),
    ensures
        start.after(calls.take(i + 1)) == start.after(calls.take(i)).step(
            calls[i].sender,
            calls[i].now,
            calls[i].command,
        ).0,
{
    assert(calls.take(i + 1).drop_last() =~= calls.take(i));
}

proof fn lemma_counters_between(start: LedgerView, calls: Seq<Call>, i: int, j: int)
    requires
        0 <= i <= j <= calls.len(),
    ensures
        start.after(calls.take(i)).poll_counter <= start.after(calls.take(j)).poll_counter,
        start.after(calls.take(i)).participant_counter <= start.after(
            calls.take(j),
        ).participant_counter,
    decreases j - i,
{
    if i < j {
        lemma_counters_between(start, calls, i, j - 1);
        lemma_after_one_more(start, calls, j - 1);
    }
}

proof fn lemma_history_between(start: LedgerView, calls: Seq<Call>, i: int, j: int)
    requires
        start.consistent(),
        0 <= i <= j <= calls.len(),
    ensures
        start.after(calls.take(i)).consistent(),
        start.after(calls.take(j)).consistent(),
        start.after(calls.take(i)).grown_into(start.after(calls.take(j))),
    decreases j,
{
    if j > 0 {
        lemma_history_between(start, calls, if i == j { i - 1 } else { i }, j - 1);
        lemma_after_one_more(start, calls, j - 1);
        law_step_keeps_history(start.after(calls.take(j - 1)), calls[j - 1]);
        if i < j {
            lemma_grown_chain(
                start.after(calls.take(i)),
                start.after(calls.take(j - 1)),
                start.after(calls.take(j)),
            );
        }
    }
}

/// Whatever commands a consistent ledger is given, it stays consistent and loses
/// nothing of what it held.
pub proof fn law_history_is_kept(start: LedgerView, calls: Seq<Call>)
    requires
        start.consistent(),
    ensures
        start.after(calls).consistent(),
        start.grown_into(start.after(calls)),
{
    lemma_history_between(start, calls, 0, calls.len() as int);
    assert(calls.take(calls.len() as int) =~= calls);
}

/// Ids are given out in strictly rising order. Of two commands of one sequence
/// that each created a poll, the later one got the larger poll id; likewise for
/// two commands that each added a participant, to whichever polls. So no id is
/// given twice.
pub proof fn law_ids_rise(start: LedgerView, calls: Seq<Call>, i: int, j: int)
    requires
        0 <= i < j < calls.len(),
    ensures
        start.answer_at(calls, i) matches Ok(OutcomeView::Created { poll_id: first }) ==> (
        start.answer_at(calls, j) matches Ok(OutcomeView::Created { poll_id: second }) ==> first
            < second),
        start.answer_at(calls, i) matches Ok(OutcomeView::Added { participant_id: first }) ==> (
        start.answer_at(calls, j) matches Ok(OutcomeView::Added { participant_id: second })
            ==> first < second),
{
    lemma_after_one_more(start, calls, i);
    lemma_counters_between(start, calls, i + 1, j);
}

/// The id that a command gives out is one more than the counter, and new: in a
/// consistent ledger no poll (no participant) is stored under it before, and the
/// poll created (the participant added) is stored under it after.
pub proof fn law_new_ids_are_unused(s: LedgerView, call: Call)
    requires
        s.consistent(),
    ensures
        s.step(call.sender, call.now, call.command).1 matches Ok(
            OutcomeView::Created { poll_id },
        ) ==> {
            let after = s.step(call.sender, call.now, call.command).0;
            &&& poll_id == s.poll_counter + 1
            &&& poll_id == after.poll_counter
            &&& !s.polls.contains_key(poll_id)
            &&& after.polls.contains_key(poll_id)
            &&& after.polls[poll_id].id == poll_id
        },
        s.step(call.sender, call.now, call.command).1 matches Ok(
            OutcomeView::Added { participant_id },
        ) ==> {
            let after = s.step(call.sender, call.now, call.command).0;
            &&& participant_id == s.participant_counter + 1
            &&& participant_id == after.participant_counter
            &&& !s.participants.contains_key(participant_id)
            &&& after.participants.contains_key(participant_id)
            &&& after.participants[participant_id].id == participant_id
        },
{
}

/// What an accepted vote changes: the voter, unmarked before, is marked for the
/// poll; the chosen participant, which belongs to the poll, has one vote more;
/// every other participant, every poll and both counters are as before.
pub proof fn law_vote_counts_once(
    s: LedgerView,
    sender: Seq<char>,
    poll_id: nat,
    participant_id: nat,
)
    requires
        s.vote_refusal(sender, poll_id, participant_id) is None,
    ensures
        ({
            let after = s.vote(sender, poll_id, participant_id);
            &&& !s.voters.contains((poll_id, sender))
            &&& after.voters == s.voters.insert((poll_id, sender))
            &&& s.participants[participant_id].poll_id == poll_id
            &&& after.participants[participant_id].votes == s.participants[participant_id].votes
                + 1
            &&& after.participants.dom() == s.participants.dom()
            &&& forall|other: nat|
                other != participant_id && s.participants.contains_key(other)
                    ==> #[trigger] after.participants[other] == s.participants[other]
            &&& after.polls == s.polls
            &&& after.poll_counter == s.poll_counter
            &&& after.participant_counter == s.participant_counter
        }),
{
}

/// Nobody votes twice in one poll. Of two votes that the same sender gives in the
/// same poll, for whichever participants, in a sequence of commands on a
/// consistent ledger: if the earlier one was accepted, the later one is refused,
/// with `AlreadyVoted` while the poll is open and with `PollClosed` once it is
/// closed.
pub proof fn law_second_vote_is_refused(start: LedgerView, calls: Seq<Call>, i: int, j: int)
    requires
        start.consistent(),
        0 <= i < j < calls.len(),
        calls[i].command is Vote,
        calls[j].command is Vote,
        calls[i].command->Vote_poll_id == calls[j].command->Vote_poll_id,
        calls[i].sender == calls[j].sender,
        start.answer_at(calls, i) is Ok,
    ensures
        ({
            let poll_id = calls[j].command->Vote_poll_id;
            let then = start.after(calls.take(j));
            &&& then.polls.contains_key(poll_id)
            &&& start.answer_at(calls, j) == Err::<OutcomeView, LedgerError>(
                if then.polls[poll_id].is_open {
                    LedgerError::AlreadyVoted
                } else {
                    LedgerError::PollClosed
                },
            )
        }),
{
    lemma_after_one_more(start, calls, i);
    lemma_history_between(start, calls, i + 1, j);
    let voted = start.after(calls.take(i + 1));
    assert(voted.voters.contains((calls[j].command->Vote_poll_id, calls[i].sender)));
}

/// The owner of a poll never has a vote in it: after whatever commands on a
/// consistent ledger, no poll has its owner among those marked as having voted in
/// it.
pub proof fn law_owner_has_no_vote(start: LedgerView, calls: Seq<Call>, poll_id: nat)
    requires
        start.consistent(),
        start.after(calls).polls.contains_key(poll_id),
    ensures
        !start.after(calls).voters.contains((poll_id, start.after(calls).polls[poll_id].owner)),
{
    law_history_is_kept(start, calls);
}

/// Votes and voters agree: after whatever commands on a consistent ledger, the
/// participants of a poll have between them as many votes as there are identities
/// marked as having voted in that poll.
pub proof fn law_votes_match_voters(start: LedgerView, calls: Seq<Call>, poll_id: nat)
    requires
        start.consistent(),
    ensures
        start.after(calls).voters_of(poll_id).finite(),
        start.after(calls).votes_in(poll_id) == start.after(calls).voters_of(poll_id).len(),
{
    law_history_is_kept(start, calls);
}

/// A closed poll stays closed. Once a command has closed poll `poll_id`, on a
/// consistent ledger, every later command of the sequence on that poll is
/// refused: a vote with `PollClosed`, whoever gives it; a new participant with
/// `PollClosed` and another closing with `AlreadyClosed` where the owner asks, and
/// both with `Unauthorized` where someone else does.
pub proof fn law_closed_poll_refuses(start: LedgerView, calls: Seq<Call>, i: int, j: int)
    requires
        start.consistent(),
        0 <= i < j < calls.len(),
        calls[i].command is ClosePoll,
        start.answer_at(calls, i) is Ok,
    ensures
        ({
            let poll_id = calls[i].command->ClosePoll_poll_id;
            let owner = calls[i].sender;
            let answer = start.answer_at(calls, j);
            match calls[j].command {
                ExecuteMsgView::Vote { poll_id: at, .. } => at == poll_id ==> answer == Err::<
                    OutcomeView,
                    LedgerError,
                >(LedgerError::PollClosed),
                ExecuteMsgView::AddParticipant { poll_id: at, .. } => at == poll_id ==> answer
                    == Err::<OutcomeView, LedgerError>(
                    if calls[j].sender == owner {
                        LedgerError::PollClosed
                    } else {
                        LedgerError::Unauthorized
                    },
                ),
                ExecuteMsgView::ClosePoll { poll_id: at } => at == poll_id ==> answer == Err::<
                    OutcomeView,
                    LedgerError,
                >(
                    if calls[j].sender == owner {
                        LedgerError::AlreadyClosed
                    } else {
                        LedgerError::Unauthorized
                    },
                ),
                ExecuteMsgView::CreatePoll { .. } => true,
            }
        }),
{
    lemma_history_between(start, calls, i, i + 1);
    lemma_history_between(start, calls, i + 1, j);
}

/// Results are shown for closed polls only. While a poll is open, asking for its
/// results fails with `PollStillOpen`. Once it is closed, in a consistent ledger,
/// the results are the poll with, for each entry of its list in order, the record
/// that the participant table holds of that participant, votes included.
pub proof fn law_results_once_closed(s: LedgerView, poll_id: nat)
    requires
        s.polls.contains_key(poll_id),
    ensures
        s.polls[poll_id].is_open ==> s.poll_results(poll_id) == Err::<PollView, LedgerError>(
            LedgerError::PollStillOpen,
        ),
        !s.polls[poll_id].is_open && s.consistent() ==> {
            let list = s.polls[poll_id].participants;
            &&& s.poll_results(poll_id) is Ok
            &&& s.poll_results(poll_id)->Ok_0 == PollView {
                participants: s.poll_results(poll_id)->Ok_0.participants,
                ..s.polls[poll_id]
            }
            &&& s.poll_results(poll_id)->Ok_0.participants.len() == list.len()
            &&& forall|i: int|
                0 <= i < list.len() ==> {
                    let shown = #[trigger] s.poll_results(poll_id)->Ok_0.participants[i];
                    &&& s.participants.contains_key(list[i].id)
                    &&& shown == s.participants[list[i].id]
                    &&& shown.id == list[i].id
                    &&& shown.poll_id == poll_id
                    &&& shown.name == list[i].name
                }
        },
{
    if !s.polls[poll_id].is_open && s.consistent() {
        let list = s.polls[poll_id].participants;
        assert forall|i: int| 0 <= i < list.len() implies s.participants.contains_key(
            #[trigger] list[i].id,
        ) by {}
        assert forall|i: int| 0 <= i < list.len() implies {
            let shown = #[trigger] s.poll_results(poll_id)->Ok_0.participants[i];
            &&& shown == s.participants[list[i].id]
            &&& shown.id == list[i].id
            &&& shown.poll_id == poll_id
            &&& shown.name == list[i].name
        } by {}
    }
}

} // verus!
