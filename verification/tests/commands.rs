use poll_ledger::contract::{
    add_participant, add_participant_refusal, close_poll, close_poll_refusal, create_poll, execute,
    has_room, has_voted, instantiate, open_poll, query, query_poll, query_poll_results, vote,
    vote_refusal,
};
use poll_ledger::error::LedgerError;
use poll_ledger::msg::{ExecuteMsg, InstantiateMsg, Outcome, QueryMsg};
use poll_ledger::state::{Ledger, Participant, Poll};

fn fresh() -> Ledger {
    instantiate(InstantiateMsg {})
}

/// A ledger with poll 1 of "owner", created at time 1000, and participants 1 (A) and 2 (B).
fn with_two_candidates() -> Ledger {
    let mut ledger = fresh();
    assert_eq!(
        create_poll(&mut ledger, "owner", 1000, "Lunch".to_string(), "Where to eat".to_string(), None),
        Ok(1)
    );
    assert_eq!(add_participant(&mut ledger, "owner", 1, "A".to_string()), Ok(1));
    assert_eq!(add_participant(&mut ledger, "owner", 1, "B".to_string()), Ok(2));
    ledger
}

#[test]
fn setup_gives_an_empty_ledger() {
    let ledger = fresh();
    assert!(ledger.polls.is_empty());
    assert!(ledger.participants.is_empty());
    assert!(ledger.voters.is_empty());
    assert_eq!(ledger.poll_counter, 0);
    assert_eq!(ledger.participant_counter, 0);
}

#[test]
fn create_poll_without_duration_has_no_end_time() {
    let mut ledger = fresh();
    let id = create_poll(&mut ledger, "owner", 1000, "Lunch".to_string(), "Where".to_string(), None);
    assert_eq!(id, Ok(1));
    let poll = &ledger.polls[&1];
    assert_eq!(poll.id, 1);
    assert_eq!(poll.name, "Lunch");
    assert_eq!(poll.description, "Where");
    assert_eq!(poll.owner, "owner");
    assert!(poll.participants.is_empty());
    assert!(poll.is_open);
    assert_eq!(poll.start_time, "1970-01-01T00:16:40Z");
    assert_eq!(poll.end_time, None);
    assert_eq!(ledger.poll_counter, 1);
}

#[test]
fn create_poll_with_duration_ends_that_much_later() {
    let mut ledger = fresh();
    let id = create_poll(&mut ledger, "owner", 1000, "Lunch".to_string(), "Where".to_string(), Some(3600));
    assert_eq!(id, Ok(1));
    let poll = &ledger.polls[&1];
    assert_eq!(poll.start_time, "1970-01-01T00:16:40Z");
    assert_eq!(poll.end_time, Some("1970-01-01T01:16:40Z".to_string()));
}

#[test]
fn create_poll_with_zero_duration_ends_when_it_starts() {
    let mut ledger = fresh();
    create_poll(&mut ledger, "owner", 86_400, "n".to_string(), "d".to_string(), Some(0)).unwrap();
    let poll = &ledger.polls[&1];
    assert_eq!(poll.start_time, "1970-01-02T00:00:00Z");
    assert_eq!(poll.end_time, Some("1970-01-02T00:00:00Z".to_string()));
}

#[test]
fn create_poll_refuses_a_time_beyond_the_calendar() {
    let mut ledger = fresh();
    let refused = create_poll(&mut ledger, "owner", u64::MAX, "n".to_string(), "d".to_string(), None);
    assert_eq!(refused, Err(LedgerError::ClockError));
    assert_eq!(ledger, fresh());
    let refused = create_poll(&mut ledger, "owner", 253_402_300_800, "n".to_string(), "d".to_string(), None);
    assert_eq!(refused, Err(LedgerError::ClockError));
    assert_eq!(ledger, fresh());
}

#[test]
fn create_poll_refuses_an_end_beyond_the_calendar() {
    let mut ledger = fresh();
    let refused = create_poll(&mut ledger, "owner", 1000, "n".to_string(), "d".to_string(), Some(u64::MAX));
    assert_eq!(refused, Err(LedgerError::ClockError));
    let refused = create_poll(
        &mut ledger,
        "owner",
        253_402_300_799,
        "n".to_string(),
        "d".to_string(),
        Some(1),
    );
    assert_eq!(refused, Err(LedgerError::ClockError));
    let refused = create_poll(
        &mut ledger,
        "owner",
        1000,
        "n".to_string(),
        "d".to_string(),
        Some(i64::MAX as u64),
    );
    assert_eq!(refused, Err(LedgerError::ClockError));
    assert_eq!(ledger, fresh());
}

#[test]
fn create_poll_accepts_the_last_second_of_the_calendar() {
    let mut ledger = fresh();
    let id = create_poll(&mut ledger, "owner", 253_402_300_798, "n".to_string(), "d".to_string(), Some(1));
    assert_eq!(id, Ok(1));
    assert_eq!(ledger.polls[&1].start_time, "9999-12-31T23:59:58Z");
    assert_eq!(ledger.polls[&1].end_time, Some("9999-12-31T23:59:59Z".to_string()));
}

#[test]
fn anyone_may_create_a_poll() {
    let mut ledger = fresh();
    assert_eq!(create_poll(&mut ledger, "ann", 0, "a".to_string(), "".to_string(), None), Ok(1));
    assert_eq!(create_poll(&mut ledger, "bob", 0, "b".to_string(), "".to_string(), None), Ok(2));
    assert_eq!(ledger.polls[&1].owner, "ann");
    assert_eq!(ledger.polls[&2].owner, "bob");
}

#[test]
fn open_poll_stores_the_timestamps_it_is_given() {
    let mut ledger = fresh();
    let id = open_poll(
        &mut ledger,
        "owner",
        "Lunch".to_string(),
        "Where".to_string(),
        "start".to_string(),
        Some("end".to_string()),
    );
    assert_eq!(id, 1);
    assert_eq!(
        ledger.polls[&1],
        Poll {
            id: 1,
            name: "Lunch".to_string(),
            description: "Where".to_string(),
            owner: "owner".to_string(),
            participants: vec![],
            is_open: true,
            start_time: "start".to_string(),
            end_time: Some("end".to_string()),
        }
    );
    assert_eq!(ledger.poll_counter, 1);
    assert!(ledger.participants.is_empty());
    assert!(ledger.voters.is_empty());
}

#[test]
fn poll_ids_rise_by_one() {
    let mut ledger = fresh();
    for expected in 1..=5u64 {
        let id = create_poll(&mut ledger, "owner", 0, "n".to_string(), "d".to_string(), None);
        assert_eq!(id, Ok(expected));
    }
    assert_eq!(ledger.poll_counter, 5);
    assert_eq!(ledger.polls.len(), 5);
}

#[test]
fn a_refused_create_uses_no_id() {
    let mut ledger = fresh();
    assert_eq!(create_poll(&mut ledger, "owner", 0, "n".to_string(), "d".to_string(), None), Ok(1));
    assert_eq!(
        create_poll(&mut ledger, "owner", u64::MAX, "n".to_string(), "d".to_string(), None),
        Err(LedgerError::ClockError)
    );
    assert_eq!(create_poll(&mut ledger, "owner", 0, "n".to_string(), "d".to_string(), None), Ok(2));
}

#[test]
fn participant_ids_come_from_one_counter_for_all_polls() {
    let mut ledger = fresh();
    create_poll(&mut ledger, "ann", 0, "a".to_string(), "".to_string(), None).unwrap();
    create_poll(&mut ledger, "bob", 0, "b".to_string(), "".to_string(), None).unwrap();
    assert_eq!(add_participant(&mut ledger, "ann", 1, "x".to_string()), Ok(1));
    assert_eq!(add_participant(&mut ledger, "bob", 2, "y".to_string()), Ok(2));
    assert_eq!(add_participant(&mut ledger, "ann", 1, "z".to_string()), Ok(3));
    assert_eq!(ledger.participant_counter, 3);
    assert_eq!(ledger.participants[&2].poll_id, 2);
    let ids: Vec<u64> = ledger.polls[&1].participants.iter().map(|p| p.id).collect();
    assert_eq!(ids, vec![1, 3]);
    let ids: Vec<u64> = ledger.polls[&2].participants.iter().map(|p| p.id).collect();
    assert_eq!(ids, vec![2]);
}

#[test]
fn add_participant_records_it_and_lists_it() {
    let ledger = with_two_candidates();
    let a = Participant { id: 1, poll_id: 1, name: "A".to_string(), votes: 0 };
    let b = Participant { id: 2, poll_id: 1, name: "B".to_string(), votes: 0 };
    assert_eq!(ledger.participants[&1], a);
    assert_eq!(ledger.participants[&2], b);
    assert_eq!(ledger.polls[&1].participants, vec![a, b]);
    assert_eq!(ledger.participant_counter, 2);
    assert_eq!(ledger.poll_counter, 1);
}

#[test]
fn add_participant_to_a_missing_poll_is_not_found() {
    let mut ledger = with_two_candidates();
    assert_eq!(add_participant(&mut ledger, "owner", 7, "C".to_string()), Err(LedgerError::NotFound));
    assert_eq!(ledger, with_two_candidates());
}

#[test]
fn add_participant_by_another_is_unauthorized() {
    let mut ledger = with_two_candidates();
    assert_eq!(
        add_participant(&mut ledger, "voter", 1, "C".to_string()),
        Err(LedgerError::Unauthorized)
    );
    assert_eq!(ledger, with_two_candidates());
}

#[test]
fn add_participant_to_a_closed_poll_is_refused() {
    let mut ledger = with_two_candidates();
    assert_eq!(close_poll(&mut ledger, "owner", 1), Ok(()));
    assert_eq!(add_participant(&mut ledger, "owner", 1, "C".to_string()), Err(LedgerError::PollClosed));
    assert_eq!(ledger.participant_counter, 2);
    assert_eq!(ledger.polls[&1].participants.len(), 2);
}

#[test]
fn add_participant_by_another_to_a_closed_poll_is_unauthorized() {
    let mut ledger = with_two_candidates();
    close_poll(&mut ledger, "owner", 1).unwrap();
    assert_eq!(
        add_participant(&mut ledger, "voter", 1, "C".to_string()),
        Err(LedgerError::Unauthorized)
    );
}

#[test]
fn a_vote_counts_for_the_chosen_participant_only() {
    let mut ledger = with_two_candidates();
    assert_eq!(vote(&mut ledger, "voter", 1, 1), Ok(()));
    assert_eq!(ledger.participants[&1].votes, 1);
    assert_eq!(ledger.participants[&2].votes, 0);
    assert!(has_voted(&ledger, 1, "voter"));
    assert!(!has_voted(&ledger, 1, "other"));
    assert!(!has_voted(&ledger, 2, "voter"));
}

#[test]
fn a_second_vote_is_refused_whoever_it_is_for() {
    let mut ledger = with_two_candidates();
    assert_eq!(vote(&mut ledger, "voter", 1, 1), Ok(()));
    assert_eq!(vote(&mut ledger, "voter", 1, 2), Err(LedgerError::AlreadyVoted));
    assert_eq!(vote(&mut ledger, "voter", 1, 1), Err(LedgerError::AlreadyVoted));
    assert_eq!(vote(&mut ledger, "voter", 1, 99), Err(LedgerError::AlreadyVoted));
    assert_eq!(ledger.participants[&1].votes, 1);
    assert_eq!(ledger.participants[&2].votes, 0);
}

#[test]
fn the_owner_may_not_vote() {
    let mut ledger = with_two_candidates();
    assert_eq!(vote(&mut ledger, "voter", 1, 1), Ok(()));
    assert_eq!(vote(&mut ledger, "owner", 1, 1), Err(LedgerError::SelfVoteForbidden));
    assert_eq!(ledger.participants[&1].votes, 1);
    assert!(!has_voted(&ledger, 1, "owner"));
}

#[test]
fn several_voters_each_count_once() {
    let mut ledger = with_two_candidates();
    assert_eq!(vote(&mut ledger, "v1", 1, 1), Ok(()));
    assert_eq!(vote(&mut ledger, "v2", 1, 2), Ok(()));
    assert_eq!(vote(&mut ledger, "v3", 1, 1), Ok(()));
    assert_eq!(vote(&mut ledger, "v2", 1, 1), Err(LedgerError::AlreadyVoted));
    assert_eq!(ledger.participants[&1].votes, 2);
    assert_eq!(ledger.participants[&2].votes, 1);
    assert_eq!(ledger.voters[&1], vec!["v1".to_string(), "v2".to_string(), "v3".to_string()]);
}

#[test]
fn one_identity_may_vote_in_two_polls() {
    let mut ledger = with_two_candidates();
    create_poll(&mut ledger, "other", 0, "n".to_string(), "d".to_string(), None).unwrap();
    assert_eq!(add_participant(&mut ledger, "other", 2, "C".to_string()), Ok(3));
    assert_eq!(vote(&mut ledger, "voter", 1, 1), Ok(()));
    assert_eq!(vote(&mut ledger, "voter", 2, 3), Ok(()));
    assert_eq!(vote(&mut ledger, "owner", 2, 3), Ok(()));
    assert_eq!(ledger.participants[&3].votes, 2);
}

#[test]
fn vote_in_a_missing_poll_is_not_found() {
    let mut ledger = with_two_candidates();
    assert_eq!(vote(&mut ledger, "voter", 5, 1), Err(LedgerError::NotFound));
}

#[test]
fn vote_for_a_missing_participant_is_not_found() {
    let mut ledger = with_two_candidates();
    assert_eq!(vote(&mut ledger, "voter", 1, 3), Err(LedgerError::NotFound));
    assert!(!has_voted(&ledger, 1, "voter"));
}

#[test]
fn vote_for_a_participant_of_another_poll_is_a_mismatch() {
    let mut ledger = with_two_candidates();
    create_poll(&mut ledger, "other", 0, "n".to_string(), "d".to_string(), None).unwrap();
    assert_eq!(add_participant(&mut ledger, "other", 2, "C".to_string()), Ok(3));
    assert_eq!(vote(&mut ledger, "voter", 1, 3), Err(LedgerError::ParticipantMismatch));
    assert_eq!(vote(&mut ledger, "voter", 2, 1), Err(LedgerError::ParticipantMismatch));
    assert_eq!(ledger.participants[&3].votes, 0);
    assert_eq!(ledger.participants[&1].votes, 0);
    assert!(!has_voted(&ledger, 1, "voter"));
}

#[test]
fn vote_in_a_closed_poll_is_refused_before_anything_else() {
    let mut ledger = with_two_candidates();
    vote(&mut ledger, "voter", 1, 1).unwrap();
    close_poll(&mut ledger, "owner", 1).unwrap();
    assert_eq!(vote(&mut ledger, "fresh", 1, 1), Err(LedgerError::PollClosed));
    assert_eq!(vote(&mut ledger, "owner", 1, 1), Err(LedgerError::PollClosed));
    assert_eq!(vote(&mut ledger, "voter", 1, 2), Err(LedgerError::PollClosed));
    assert_eq!(vote(&mut ledger, "fresh", 1, 99), Err(LedgerError::PollClosed));
    assert_eq!(ledger.participants[&1].votes, 1);
}

#[test]
fn the_owner_is_refused_before_the_participant_is_looked_up() {
    let mut ledger = with_two_candidates();
    assert_eq!(vote(&mut ledger, "owner", 1, 99), Err(LedgerError::SelfVoteForbidden));
}

#[test]
fn close_poll_flips_is_open_and_nothing_else() {
    let mut ledger = fresh();
    create_poll(&mut ledger, "owner", 1000, "n".to_string(), "d".to_string(), Some(3600)).unwrap();
    let before = ledger.polls[&1].clone();
    assert_eq!(close_poll(&mut ledger, "owner", 1), Ok(()));
    let after = &ledger.polls[&1];
    assert!(!after.is_open);
    assert_eq!(after.end_time, before.end_time);
    assert_eq!(after.start_time, before.start_time);
    assert_eq!(after.owner, before.owner);
    assert_eq!(after.name, before.name);
    assert_eq!(after.id, before.id);
}

#[test]
fn close_poll_twice_is_already_closed() {
    let mut ledger = with_two_candidates();
    assert_eq!(close_poll(&mut ledger, "owner", 1), Ok(()));
    assert_eq!(close_poll(&mut ledger, "owner", 1), Err(LedgerError::AlreadyClosed));
    assert!(!ledger.polls[&1].is_open);
}

#[test]
fn close_poll_by_another_is_unauthorized() {
    let mut ledger = with_two_candidates();
    assert_eq!(close_poll(&mut ledger, "voter", 1), Err(LedgerError::Unauthorized));
    assert!(ledger.polls[&1].is_open);
    close_poll(&mut ledger, "owner", 1).unwrap();
    assert_eq!(close_poll(&mut ledger, "voter", 1), Err(LedgerError::Unauthorized));
}

#[test]
fn close_a_missing_poll_is_not_found() {
    let mut ledger = with_two_candidates();
    assert_eq!(close_poll(&mut ledger, "owner", 2), Err(LedgerError::NotFound));
}

#[test]
fn query_poll_shows_current_votes_of_an_open_poll() {
    let mut ledger = with_two_candidates();
    vote(&mut ledger, "voter", 1, 1).unwrap();
    let poll = query_poll(&ledger, 1).unwrap();
    assert_eq!(
        poll,
        Poll {
            id: 1,
            name: "Lunch".to_string(),
            description: "Where to eat".to_string(),
            owner: "owner".to_string(),
            participants: vec![
                Participant { id: 1, poll_id: 1, name: "A".to_string(), votes: 1 },
                Participant { id: 2, poll_id: 1, name: "B".to_string(), votes: 0 },
            ],
            is_open: true,
            start_time: "1970-01-01T00:16:40Z".to_string(),
            end_time: None,
        }
    );
    assert_eq!(ledger.polls[&1].participants[0].votes, 0);
}

#[test]
fn query_a_missing_poll_is_not_found() {
    let ledger = with_two_candidates();
    assert_eq!(query_poll(&ledger, 2), Err(LedgerError::NotFound));
    assert_eq!(query_poll_results(&ledger, 2), Err(LedgerError::NotFound));
}

#[test]
fn query_with_a_lost_participant_record_is_not_found() {
    let mut ledger = with_two_candidates();
    ledger.participants.remove(&2);
    assert_eq!(query_poll(&ledger, 1), Err(LedgerError::NotFound));
    close_poll(&mut ledger, "owner", 1).unwrap();
    assert_eq!(query_poll_results(&ledger, 1), Err(LedgerError::NotFound));
}

#[test]
fn results_are_refused_while_the_poll_is_open() {
    let mut ledger = with_two_candidates();
    assert_eq!(query_poll_results(&ledger, 1), Err(LedgerError::PollStillOpen));
    vote(&mut ledger, "voter", 1, 1).unwrap();
    assert_eq!(query_poll_results(&ledger, 1), Err(LedgerError::PollStillOpen));
}

#[test]
fn results_of_a_closed_poll_show_the_tallies() {
    let mut ledger = with_two_candidates();
    vote(&mut ledger, "voter", 1, 1).unwrap();
    assert_eq!(vote(&mut ledger, "voter", 1, 2), Err(LedgerError::AlreadyVoted));
    assert_eq!(vote(&mut ledger, "owner", 1, 1), Err(LedgerError::SelfVoteForbidden));
    close_poll(&mut ledger, "owner", 1).unwrap();
    assert_eq!(add_participant(&mut ledger, "owner", 1, "C".to_string()), Err(LedgerError::PollClosed));
    let results = query_poll_results(&ledger, 1).unwrap();
    assert!(!results.is_open);
    assert_eq!(results.participants.len(), 2);
    assert_eq!(results.participants[0].name, "A");
    assert_eq!(results.participants[0].votes, 1);
    assert_eq!(results.participants[1].name, "B");
    assert_eq!(results.participants[1].votes, 0);
    assert_eq!(query_poll(&ledger, 1), Ok(results));
}

#[test]
fn results_of_a_closed_poll_without_participants_are_empty() {
    let mut ledger = fresh();
    create_poll(&mut ledger, "owner", 0, "n".to_string(), "d".to_string(), None).unwrap();
    close_poll(&mut ledger, "owner", 1).unwrap();
    let results = query_poll_results(&ledger, 1).unwrap();
    assert!(results.participants.is_empty());
    assert_eq!(results.start_time, "1970-01-01T00:00:00Z");
}

#[test]
fn execute_carries_out_each_command() {
    let mut ledger = fresh();
    let created = execute(
        &mut ledger,
        "owner",
        1000,
        ExecuteMsg::CreatePoll { name: "n".to_string(), description: "d".to_string(), duration: Some(3600) },
    );
    assert_eq!(created, Ok(Outcome::Created { poll_id: 1 }));
    assert_eq!(ledger.polls[&1].end_time, Some("1970-01-01T01:16:40Z".to_string()));
    let added = execute(&mut ledger, "owner", 1001, ExecuteMsg::AddParticipant { poll_id: 1, name: "A".to_string() });
    assert_eq!(added, Ok(Outcome::Added { participant_id: 1 }));
    let voted = execute(&mut ledger, "voter", 1002, ExecuteMsg::Vote { poll_id: 1, participant_id: 1 });
    assert_eq!(voted, Ok(Outcome::Voted { voter: "voter".to_string() }));
    assert_eq!(ledger.participants[&1].votes, 1);
    let closed = execute(&mut ledger, "owner", 1003, ExecuteMsg::ClosePoll { poll_id: 1 });
    assert_eq!(closed, Ok(Outcome::Closed));
    assert!(!ledger.polls[&1].is_open);
}

#[test]
fn execute_hands_on_each_refusal() {
    let mut ledger = with_two_candidates();
    let before = with_two_candidates();
    assert_eq!(
        execute(
            &mut ledger,
            "x",
            u64::MAX,
            ExecuteMsg::CreatePoll { name: "n".to_string(), description: "d".to_string(), duration: None },
        ),
        Err(LedgerError::ClockError)
    );
    assert_eq!(
        execute(&mut ledger, "x", 0, ExecuteMsg::AddParticipant { poll_id: 1, name: "C".to_string() }),
        Err(LedgerError::Unauthorized)
    );
    assert_eq!(
        execute(&mut ledger, "owner", 0, ExecuteMsg::Vote { poll_id: 1, participant_id: 1 }),
        Err(LedgerError::SelfVoteForbidden)
    );
    assert_eq!(
        execute(&mut ledger, "x", 0, ExecuteMsg::ClosePoll { poll_id: 9 }),
        Err(LedgerError::NotFound)
    );
    assert_eq!(ledger, before);
}

#[test]
fn query_answers_both_questions() {
    let mut ledger = with_two_candidates();
    assert_eq!(query(&ledger, QueryMsg::GetPoll { poll_id: 1 }), query_poll(&ledger, 1));
    assert!(query(&ledger, QueryMsg::GetPoll { poll_id: 1 }).is_ok());
    assert_eq!(
        query(&ledger, QueryMsg::GetPollResults { poll_id: 1 }),
        Err(LedgerError::PollStillOpen)
    );
    close_poll(&mut ledger, "owner", 1).unwrap();
    let results = query(&ledger, QueryMsg::GetPollResults { poll_id: 1 }).unwrap();
    assert_eq!(results.participants.len(), 2);
    assert_eq!(query(&ledger, QueryMsg::GetPoll { poll_id: 3 }), Err(LedgerError::NotFound));
}

#[test]
fn has_room_tells_when_a_counter_is_at_its_end() {
    let mut ledger = with_two_candidates();
    let create = ExecuteMsg::CreatePoll { name: "n".to_string(), description: "d".to_string(), duration: None };
    let add = ExecuteMsg::AddParticipant { poll_id: 1, name: "C".to_string() };
    let cast = ExecuteMsg::Vote { poll_id: 1, participant_id: 1 };
    let close = ExecuteMsg::ClosePoll { poll_id: 1 };
    assert!(has_room(&ledger, "owner", &create));
    assert!(has_room(&ledger, "owner", &add));
    assert!(has_room(&ledger, "voter", &cast));
    assert!(has_room(&ledger, "owner", &close));
    ledger.poll_counter = u64::MAX;
    assert!(!has_room(&ledger, "owner", &create));
    assert!(!has_room(&ledger, "anyone", &create));
    assert!(has_room(&ledger, "owner", &add));
    ledger.participant_counter = u64::MAX;
    assert!(!has_room(&ledger, "owner", &add));
    ledger.participants.get_mut(&1).unwrap().votes = u32::MAX;
    assert!(!has_room(&ledger, "voter", &cast));
    assert!(has_room(&ledger, "voter", &ExecuteMsg::Vote { poll_id: 1, participant_id: 2 }));
    assert!(has_room(&ledger, "owner", &close));
}

#[test]
fn a_command_that_would_be_refused_needs_no_room() {
    let mut ledger = with_two_candidates();
    ledger.participant_counter = u64::MAX;
    ledger.participants.get_mut(&1).unwrap().votes = u32::MAX;
    let add = ExecuteMsg::AddParticipant { poll_id: 1, name: "C".to_string() };
    let cast = ExecuteMsg::Vote { poll_id: 1, participant_id: 1 };
    assert!(has_room(&ledger, "voter", &add));
    assert!(has_room(&ledger, "owner", &cast));
    assert!(has_room(&ledger, "voter", &ExecuteMsg::Vote { poll_id: 1, participant_id: 77 }));
    assert!(has_room(&ledger, "voter", &ExecuteMsg::Vote { poll_id: 2, participant_id: 1 }));
    assert_eq!(add_participant(&mut ledger, "voter", 1, "C".to_string()), Err(LedgerError::Unauthorized));
    assert_eq!(vote(&mut ledger, "owner", 1, 1), Err(LedgerError::SelfVoteForbidden));
    assert_eq!(execute(&mut ledger, "owner", 0, cast), Err(LedgerError::SelfVoteForbidden));
    assert_eq!(execute(&mut ledger, "voter", 0, add), Err(LedgerError::Unauthorized));
    close_poll(&mut ledger, "owner", 1).unwrap();
    assert!(has_room(&ledger, "owner", &ExecuteMsg::AddParticipant { poll_id: 1, name: "C".to_string() }));
    assert!(has_room(&ledger, "voter", &ExecuteMsg::Vote { poll_id: 1, participant_id: 1 }));
    assert_eq!(vote(&mut ledger, "voter", 1, 1), Err(LedgerError::PollClosed));
    assert_eq!(ledger.participants[&1].votes, u32::MAX);
    assert_eq!(ledger.participant_counter, u64::MAX);
}

#[test]
fn refusals_are_told_without_a_change() {
    let mut ledger = with_two_candidates();
    let before = with_two_candidates();
    assert_eq!(add_participant_refusal(&ledger, "owner", 1), None);
    assert_eq!(add_participant_refusal(&ledger, "voter", 1), Some(LedgerError::Unauthorized));
    assert_eq!(add_participant_refusal(&ledger, "owner", 2), Some(LedgerError::NotFound));
    assert_eq!(vote_refusal(&ledger, "voter", 1, 1), None);
    assert_eq!(vote_refusal(&ledger, "voter", 1, 2), None);
    assert_eq!(vote_refusal(&ledger, "voter", 2, 1), Some(LedgerError::NotFound));
    assert_eq!(vote_refusal(&ledger, "owner", 1, 1), Some(LedgerError::SelfVoteForbidden));
    assert_eq!(vote_refusal(&ledger, "voter", 1, 3), Some(LedgerError::NotFound));
    assert_eq!(close_poll_refusal(&ledger, "owner", 1), None);
    assert_eq!(close_poll_refusal(&ledger, "voter", 1), Some(LedgerError::Unauthorized));
    assert_eq!(close_poll_refusal(&ledger, "owner", 2), Some(LedgerError::NotFound));
    assert_eq!(ledger, before);
    vote(&mut ledger, "voter", 1, 1).unwrap();
    assert_eq!(vote_refusal(&ledger, "voter", 1, 2), Some(LedgerError::AlreadyVoted));
    create_poll(&mut ledger, "other", 0, "n".to_string(), "d".to_string(), None).unwrap();
    assert_eq!(vote_refusal(&ledger, "voter", 2, 1), Some(LedgerError::ParticipantMismatch));
    close_poll(&mut ledger, "owner", 1).unwrap();
    assert_eq!(add_participant_refusal(&ledger, "owner", 1), Some(LedgerError::PollClosed));
    assert_eq!(vote_refusal(&ledger, "fresh", 1, 1), Some(LedgerError::PollClosed));
    assert_eq!(close_poll_refusal(&ledger, "owner", 1), Some(LedgerError::AlreadyClosed));
}

#[test]
fn the_last_id_and_the_last_vote_can_still_be_given() {
    let mut ledger = with_two_candidates();
    ledger.poll_counter = u64::MAX - 1;
    assert_eq!(
        create_poll(&mut ledger, "owner", 0, "n".to_string(), "d".to_string(), None),
        Ok(u64::MAX)
    );
    ledger.participants.get_mut(&1).unwrap().votes = u32::MAX - 1;
    assert_eq!(vote(&mut ledger, "voter", 1, 1), Ok(()));
    assert_eq!(ledger.participants[&1].votes, u32::MAX);
}

#[test]
fn votes_and_voters_agree_in_every_poll() {
    let mut ledger = with_two_candidates();
    create_poll(&mut ledger, "other", 0, "n".to_string(), "d".to_string(), None).unwrap();
    assert_eq!(add_participant(&mut ledger, "other", 2, "C".to_string()), Ok(3));
    for (voter, poll_id, participant_id) in
        [("v1", 1, 1), ("v2", 1, 2), ("v3", 1, 1), ("v1", 2, 3), ("owner", 2, 3), ("v1", 1, 2)]
    {
        let _ = vote(&mut ledger, voter, poll_id, participant_id);
    }
    for poll_id in [1u64, 2] {
        let votes: u32 =
            ledger.participants.values().filter(|p| p.poll_id == poll_id).map(|p| p.votes).sum();
        let voters = ledger.voters.get(&poll_id).map(|names| names.len()).unwrap_or(0);
        assert_eq!(votes as usize, voters);
    }
    assert_eq!(ledger.voters[&1].len(), 3);
    assert_eq!(ledger.voters[&2].len(), 2);
}

#[test]
fn later_commands_take_nothing_away() {
    let mut ledger = with_two_candidates();
    vote(&mut ledger, "voter", 1, 1).unwrap();
    close_poll(&mut ledger, "owner", 1).unwrap();
    let poll = ledger.polls[&1].clone();
    let first = ledger.participants[&1].clone();
    create_poll(&mut ledger, "voter", 5000, "n".to_string(), "d".to_string(), Some(10)).unwrap();
    add_participant(&mut ledger, "voter", 2, "C".to_string()).unwrap();
    vote(&mut ledger, "owner", 2, 3).unwrap();
    close_poll(&mut ledger, "voter", 2).unwrap();
    assert_eq!(ledger.polls[&1], poll);
    assert_eq!(ledger.participants[&1], first);
    assert!(has_voted(&ledger, 1, "voter"));
    assert!(!ledger.polls[&1].is_open);
    assert_eq!(ledger.poll_counter, 2);
    assert_eq!(ledger.participant_counter, 3);
}
