use crate::clock::{poll_times, timestamps};
use crate::error::LedgerError;
use crate::msg::{ExecuteMsg, InstantiateMsg, Outcome, OutcomeView, QueryMsg};
use crate::state::{
    listed, participants_view, text_view, Ledger, LedgerView, Participant, Poll, PollView,
};
use std::collections::HashMap;
use vstd::prelude::*;

verus! {

/// Sets up a ledger without polls, participants or votes, and with both counters
/// at 0.
pub fn instantiate(_msg: InstantiateMsg) -> (ledger: Ledger)
    ensures
        ledger@ == LedgerView::empty(),
{
    let ledger = Ledger {
        polls: HashMap::new(),
        participants: HashMap::new(),
        voters: HashMap::new(),
        poll_counter: 0,
        participant_counter: 0,
    };
    proof {
        assert(ledger@.polls =~= Map::empty());
        assert(ledger@.participants =~= Map::empty());
        assert(ledger@.voters =~= Set::empty());
    }
    ledger
}

/// The value of what a command is answered with.
pub open spec fn outcome_view(done: Result<Outcome, LedgerError>) -> Result<
    OutcomeView,
    LedgerError,
> {
    match done {
        Ok(outcome) => Ok(outcome@),
        Err(refusal) => Err(refusal),
    }
}

/// Whether the ledger has room for what `msg`, given by `sender`, would add.
pub fn has_room(ledger: &Ledger, sender: &str, msg: &ExecuteMsg) -> (room: bool)
    ensures
        room == ledger@.has_room(sender@, msg@),
{
    match msg {
        ExecuteMsg::CreatePoll { .. } => ledger.poll_counter < u64::MAX,
        ExecuteMsg::AddParticipant { poll_id, .. } => {
            add_participant_refusal(ledger, sender, *poll_id).is_some()
                || ledger.participant_counter < u64::MAX
        },
        ExecuteMsg::Vote { poll_id, participant_id } => {
            match vote_refusal(ledger, sender, *poll_id, *participant_id) {
                Some(_) => true,
                None => match ledger.participants.get(participant_id) {
                    Some(chosen) => chosen.votes < u32::MAX,
                    None => true,
                },
            }
        },
        ExecuteMsg::ClosePoll { .. } => true,
    }
}

/// Carries out the command `msg` given by `sender` at the time `now` (seconds
/// after the Unix epoch), or refuses it and changes nothing.
pub fn execute(ledger: &mut Ledger, sender: &str, now: u64, msg: ExecuteMsg) -> (done: Result<
    Outcome,
    LedgerError,
>)
    requires
        old(ledger)@.has_room(sender@, msg@),
    ensures
        (final(ledger)@, outcome_view(done)) == old(ledger)@.step(sender@, now, msg@),
{
    match msg {
        ExecuteMsg::CreatePoll { name, description, duration } => {
            match create_poll(ledger, sender, now, name, description, duration) {
                Ok(poll_id) => Ok(Outcome::Created { poll_id }),
                Err(refusal) => Err(refusal),
            }
        },
        ExecuteMsg::AddParticipant { poll_id, name } => {
            match add_participant(ledger, sender, poll_id, name) {
                Ok(participant_id) => Ok(Outcome::Added { participant_id }),
                Err(refusal) => Err(refusal),
            }
        },
        ExecuteMsg::Vote { poll_id, participant_id } => {
            match vote(ledger, sender, poll_id, participant_id) {
                Ok(()) => Ok(Outcome::Voted { voter: sender.to_owned() }),
                Err(refusal) => Err(refusal),
            }
        },
        ExecuteMsg::ClosePoll { poll_id } => {
            match close_poll(ledger, sender, poll_id) {
                Ok(()) => Ok(Outcome::Closed),
                Err(refusal) => Err(refusal),
            }
        },
    }
}

/// Answers the query `msg`.
pub fn query(ledger: &Ledger, msg: QueryMsg) -> (report: Result<Poll, LedgerError>)
    ensures
        report_view(report) == ledger@.answer(msg@),
{
    match msg {
        QueryMsg::GetPoll { poll_id } => query_poll(ledger, poll_id),
        QueryMsg::GetPollResults { poll_id } => query_poll_results(ledger, poll_id),
    }
}

/// Stores a new poll owned by `sender`, with the timestamps given, and returns its
/// id: one more than the id of the poll created before it.
pub fn open_poll(
    ledger: &mut Ledger,
    sender: &str,
    name: String,
    description: String,
    start_time: String,
    end_time: Option<String>,
) -> (poll_id: u64)
    requires
        old(ledger).poll_counter < u64::MAX,
    ensures
        poll_id == old(ledger).poll_counter + 1,
        final(ledger)@ == old(ledger)@.open_poll(
            sender@,
            name@,
            description@,
            start_time@,
            text_view(end_time),
        ),
{
    let poll_id: u64 = ledger.poll_counter + 1;
    let poll = Poll {
        id: poll_id,
        name,
        description,
        owner: sender.to_owned(),
        participants: Vec::new(),
        is_open: true,
        start_time,
        end_time,
    };
    proof {
        assert(poll@.participants =~= Seq::empty());
    }
    let ghost stored = poll@;
    ledger.polls.insert(poll_id, poll);
    ledger.poll_counter = poll_id;
    proof {
        assert(ledger@.polls =~= old(ledger)@.polls.insert(poll_id as nat, stored));
    }
    poll_id
}

/// Creates a poll that starts at `now` (seconds after the Unix epoch) and, if a
/// duration is given, ends `duration` seconds later. Anyone may create a poll.
/// Fails with `ClockError`, and changes nothing, where one of the two moments has
/// no timestamp.
pub fn create_poll(
    ledger: &mut Ledger,
    sender: &str,
    now: u64,
    name: String,
    description: String,
    duration: Option<u64>,
) -> (created: Result<u64, LedgerError>)
    requires
        old(ledger).poll_counter < u64::MAX,
    ensures
        match poll_times(now, duration) {
            Some((start_time, end_time)) => {
                &&& created == Ok::<u64, LedgerError>((old(ledger).poll_counter + 1) as u64)
                &&& final(ledger)@ == old(ledger)@.open_poll(
                    sender@,
                    name@,
                    description@,
                    start_time,
                    end_time,
                )
            },
            None => created == Err::<u64, LedgerError>(LedgerError::ClockError) && *final(ledger)
                == *old(ledger),
        },
{
    match timestamps(now, duration) {
        Some((start_time, end_time)) => Ok(
            open_poll(ledger, sender, name, description, start_time, end_time),
        ),
        None => Err(LedgerError::ClockError),
    }
}

/// Why `sender` may not add a participant to poll `poll_id`, if so.
pub fn add_participant_refusal(ledger: &Ledger, sender: &str, poll_id: u64) -> (refusal: Option<
    LedgerError,
>)
    ensures
        refusal == ledger@.add_participant_refusal(sender@, poll_id as nat),
{
    let who = sender.to_owned();
    match ledger.polls.get(&poll_id) {
        None => Some(LedgerError::NotFound),
        Some(poll) => if !(who == poll.owner) {
            Some(LedgerError::Unauthorized)
        } else if !poll.is_open {
            Some(LedgerError::PollClosed)
        } else {
            None
        },
    }
}

/// Adds a participant called `name` to poll `poll_id` and returns its id: one more
/// than the id of the participant added before it, in whichever poll. Only the
/// owner of an open poll may do so; a refusal changes nothing.
pub fn add_participant(ledger: &mut Ledger, sender: &str, poll_id: u64, name: String) -> (added:
    Result<u64, LedgerError>)
    requires
        old(ledger)@.add_participant_refusal(sender@, poll_id as nat) is None ==> old(
            ledger,
        ).participant_counter < u64::MAX,
    ensures
        match old(ledger)@.add_participant_refusal(sender@, poll_id as nat) {
            Some(refusal) => added == Err::<u64, LedgerError>(refusal) && *final(ledger) == *old(
                ledger,
            ),
            None => {
                &&& added == Ok::<u64, LedgerError>(
                    (old(ledger).participant_counter + 1) as u64,
                )
                &&& final(ledger)@ == old(ledger)@.add_participant(poll_id as nat, name@)
            },
        },
{
    if let Some(refusal) = add_participant_refusal(ledger, sender, poll_id) {
        return Err(refusal);
    }
    let id: u64 = ledger.participant_counter + 1;
    let record = Participant { id, poll_id, name, votes: 0 };
    let entry = record.clone();
    match ledger.polls.remove(&poll_id) {
        None => {},
        Some(poll) => {
            let mut poll = poll;
            let ghost before = poll@;
            poll.participants.push(entry);
            proof {
                assert(poll@.participants =~= before.participants.push(record@));
            }
            ledger.polls.insert(poll_id, poll);
        },
    }
    ledger.participants.insert(id, record);
    ledger.participant_counter = id;
    proof {
        let after = old(ledger)@.add_participant(poll_id as nat, name@);
        assert(ledger@.polls =~= after.polls);
        assert(ledger@.participants =~= after.participants);
    }
    Ok(id)
}

/// Whether `voter` has voted in poll `poll_id`.
pub fn has_voted(ledger: &Ledger, poll_id: u64, voter: &str) -> (voted: bool)
    ensures
        voted == ledger@.voters.contains((poll_id as nat, voter@)),
{
    let who = voter.to_owned();
    match ledger.voters.get(&poll_id) {
        None => false,
        Some(names) => {
            let mut i: usize = 0;
            while i < names.len()
                invariant
                    i <= names.len(),
                    who@ == voter@,
                    ledger.voters@.contains_key(poll_id),
                    ledger.voters@[poll_id]@ == names@,
                    forall|j: int| 0 <= j < i ==> #[trigger] names@[j]@ != voter@,
                decreases names.len() - i,
            {
                if names[i] == who {
                    return true;
                }
                i += 1;
            }
            false
        },
    }
}

/// Why `sender` may not vote for participant `participant_id` in poll `poll_id`,
/// if so.
pub fn vote_refusal(ledger: &Ledger, sender: &str, poll_id: u64, participant_id: u64) -> (refusal:
    Option<LedgerError>)
    ensures
        refusal == ledger@.vote_refusal(sender@, poll_id as nat, participant_id as nat),
{
    let who = sender.to_owned();
    match ledger.polls.get(&poll_id) {
        None => {
            return Some(LedgerError::NotFound);
        },
        Some(poll) => {
            if !poll.is_open {
                return Some(LedgerError::PollClosed);
            }
            if who == poll.owner {
                return Some(LedgerError::SelfVoteForbidden);
            }
        },
    }
    if has_voted(ledger, poll_id, sender) {
        return Some(LedgerError::AlreadyVoted);
    }
    match ledger.participants.get(&participant_id) {
        None => Some(LedgerError::NotFound),
        Some(chosen) => if chosen.poll_id != poll_id {
            Some(LedgerError::ParticipantMismatch)
        } else {
            None
        },
    }
}

/// Casts the vote of `sender` for participant `participant_id` in poll `poll_id`.
/// The poll must be open, `sender` must not own it nor have voted in it before, and
/// the participant must belong to it; a refusal changes nothing.
pub fn vote(ledger: &mut Ledger, sender: &str, poll_id: u64, participant_id: u64) -> (cast: Result<
    (),
    LedgerError,
>)
    requires
        old(ledger)@.vote_refusal(sender@, poll_id as nat, participant_id as nat) is None ==> old(
            ledger,
        ).participants@[participant_id].votes < u32::MAX,
    ensures
        match old(ledger)@.vote_refusal(sender@, poll_id as nat, participant_id as nat) {
            Some(refusal) => cast == Err::<(), LedgerError>(refusal) && *final(ledger) == *old(
                ledger,
            ),
            None => cast == Ok::<(), LedgerError>(()) && final(ledger)@ == old(ledger)@.vote(
                sender@,
                poll_id as nat,
                participant_id as nat,
            ),
        },
{
    if let Some(refusal) = vote_refusal(ledger, sender, poll_id, participant_id) {
        return Err(refusal);
    }
    match ledger.participants.remove(&participant_id) {
        None => {},
        Some(chosen) => {
            let mut chosen = chosen;
            chosen.votes = chosen.votes + 1;
            ledger.participants.insert(participant_id, chosen);
        },
    }
    let mut names = match ledger.voters.remove(&poll_id) {
        Some(names) => names,
        None => Vec::new(),
    };
    let ghost before = names@;
    names.push(sender.to_owned());
    ledger.voters.insert(poll_id, names);
    proof {
        let after = old(ledger)@.vote(sender@, poll_id as nat, participant_id as nat);
        assert(ledger@.participants =~= after.participants);
        assert forall|key: (nat, Seq<char>)| ledger@.voters.contains(key) == after.voters.contains(
            key,
        ) by {
            if key.0 == poll_id as nat {
                if key.1 == sender@ {
                    assert(names@[before.len() as int]@ == key.1);
                } else if listed(names@, key.1) {
                    let i = choose|i: int| 0 <= i < names@.len() && #[trigger] names@[i]@ == key.1;
                    assert(before[i]@ == key.1);
                } else if listed(before, key.1) {
                    let i = choose|i: int| 0 <= i < before.len() && #[trigger] before[i]@ == key.1;
                    assert(names@[i]@ == key.1);
                }
            }
        }
        assert(ledger@.voters =~= after.voters);
    }
    Ok(())
}

/// Why `sender` may not close poll `poll_id`, if so.
pub fn close_poll_refusal(ledger: &Ledger, sender: &str, poll_id: u64) -> (refusal: Option<
    LedgerError,
>)
    ensures
        refusal == ledger@.close_poll_refusal(sender@, poll_id as nat),
{
    let who = sender.to_owned();
    match ledger.polls.get(&poll_id) {
        None => Some(LedgerError::NotFound),
        Some(poll) => if !(who == poll.owner) {
            Some(LedgerError::Unauthorized)
        } else if !poll.is_open {
            Some(LedgerError::AlreadyClosed)
        } else {
            None
        },
    }
}

/// Closes poll `poll_id` for good. Only the owner of an open poll may do so; a
/// refusal changes nothing. The poll's `end_time` stays as it was set at creation.
pub fn close_poll(ledger: &mut Ledger, sender: &str, poll_id: u64) -> (closed: Result<
    (),
    LedgerError,
>)
    ensures
        match old(ledger)@.close_poll_refusal(sender@, poll_id as nat) {
            Some(refusal) => closed == Err::<(), LedgerError>(refusal) && *final(ledger) == *old(
                ledger,
            ),
            None => closed == Ok::<(), LedgerError>(()) && final(ledger)@ == old(
                ledger,
            )@.close_poll(poll_id as nat),
        },
{
    if let Some(refusal) = close_poll_refusal(ledger, sender, poll_id) {
        return Err(refusal);
    }
    match ledger.polls.remove(&poll_id) {
        None => {},
        Some(poll) => {
            let mut poll = poll;
            poll.is_open = false;
            ledger.polls.insert(poll_id, poll);
        },
    }
    proof {
        assert(ledger@.polls =~= old(ledger)@.close_poll(poll_id as nat).polls);
    }
    Ok(())
}

/// The value of what a query returns.
pub open spec fn report_view(report: Result<Poll, LedgerError>) -> Result<PollView, LedgerError> {
    match report {
        Ok(poll) => Ok(poll@),
        Err(refusal) => Err(refusal),
    }
}

/// Reads, for each entry of `list` in order, the record that the participant table
/// holds under the entry's id; `None` if one of them has no record.
fn current_records(ledger: &Ledger, list: &Vec<Participant>) -> (records: Option<Vec<Participant>>)
    ensures
        records is Some == ledger@.all_recorded(participants_view(list@)),
        records matches Some(found) ==> participants_view(found@) == ledger@.current_records(
            participants_view(list@),
        ),
{
    let mut found: Vec<Participant> = Vec::new();
    let mut i: usize = 0;
    while i < list.len()
        invariant
            i <= list.len(),
            found@.len() == i,
            forall|j: int|
                0 <= j < i ==> ledger@.participants.contains_key(
                    #[trigger] participants_view(list@)[j].id,
                ),
            forall|j: int|
                0 <= j < i ==> #[trigger] found@[j]@ == ledger@.participants[participants_view(
                    list@,
                )[j].id],
        decreases list.len() - i,
    {
        match ledger.participants.get(&list[i].id) {
            None => {
                proof {
                    assert(!ledger@.participants.contains_key(
                        participants_view(list@)[i as int].id,
                    ));
                }
                return None;
            },
            Some(record) => {
                found.push(record.clone());
            },
        }
        i += 1;
    }
    Some(found)
}

/// Poll `poll_id` with the current record of each of its participants, whether the
/// poll is open or closed. Fails with `NotFound` where the poll, or the record of a
/// participant on its list, does not exist.
pub fn query_poll(ledger: &Ledger, poll_id: u64) -> (report: Result<Poll, LedgerError>)
    ensures
        report_view(report) == ledger@.poll_report(poll_id as nat),
{
    let poll = match ledger.polls.get(&poll_id) {
        None => {
            return Err(LedgerError::NotFound);
        },
        Some(poll) => poll,
    };
    let records = match current_records(ledger, &poll.participants) {
        None => {
            return Err(LedgerError::NotFound);
        },
        Some(records) => records,
    };
    Ok(
        Poll {
            id: poll.id,
            name: poll.name.clone(),
            description: poll.description.clone(),
            owner: poll.owner.clone(),
            participants: records,
            is_open: poll.is_open,
            start_time: poll.start_time.clone(),
            end_time: match &poll.end_time {
                Some(text) => Some(text.clone()),
                None => None,
            },
        },
    )
}

/// The report of poll `poll_id` as [`query_poll`] gives it, once the poll is
/// closed. Fails with `PollStillOpen` as long as it is open.
pub fn query_poll_results(ledger: &Ledger, poll_id: u64) -> (report: Result<Poll, LedgerError>)
    ensures
        report_view(report) == ledger@.poll_results(poll_id as nat),
{
    match ledger.polls.get(&poll_id) {
        None => Err(LedgerError::NotFound),
        Some(poll) => if poll.is_open {
            Err(LedgerError::PollStillOpen)
        } else {
            query_poll(ledger, poll_id)
        },
    }
}

} // verus!
