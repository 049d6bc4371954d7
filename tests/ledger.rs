use anchor_lang::solana_program::pubkey::Pubkey;
use voting::{Address, Ledger, VotingError};

fn program() -> Address {
    Address { bytes: [7u8; 32] }
}

fn voter(b: u8) -> Address {
    Address { bytes: [b; 32] }
}

fn payer() -> Address {
    voter(200)
}

fn tally(ledger: &Ledger, poll_id: u64, name: &str) -> u64 {
    ledger.candidate(poll_id, &name.to_string()).unwrap().data.candidate_votes
}

#[test]
fn vote_twice_in_one_poll_is_refused() {
    let mut ledger = Ledger::new(program());
    assert_eq!(ledger.create_poll(payer(), 1, "P".to_string(), 0, 100), Ok(()));
    assert_eq!(ledger.create_candidate(payer(), "Alice".to_string(), 1), Ok(()));
    assert_eq!(tally(&ledger, 1, "Alice"), 0);

    let v = voter(1);
    assert_eq!(ledger.cast_vote(v, "Alice".to_string(), 1), Ok(()));
    assert_eq!(tally(&ledger, 1, "Alice"), 1);
    assert!(ledger.voter_record(&v, 1).unwrap().data.voted);

    assert_eq!(ledger.cast_vote(v, "Alice".to_string(), 1), Err(VotingError::AlreadyVoted));
    assert_eq!(tally(&ledger, 1, "Alice"), 1);
}

#[test]
fn vote_in_second_poll_is_independent() {
    let mut ledger = Ledger::new(program());
    let v = voter(1);
    assert_eq!(ledger.create_poll(payer(), 1, "P".to_string(), 0, 100), Ok(()));
    assert_eq!(ledger.create_candidate(payer(), "Alice".to_string(), 1), Ok(()));
    assert_eq!(ledger.cast_vote(v, "Alice".to_string(), 1), Ok(()));

    assert_eq!(ledger.create_poll(payer(), 2, "Q".to_string(), 0, 100), Ok(()));
    assert_eq!(ledger.create_candidate(payer(), "Bob".to_string(), 2), Ok(()));
    assert_eq!(ledger.cast_vote(v, "Bob".to_string(), 2), Ok(()));
    assert_eq!(tally(&ledger, 2, "Bob"), 1);
    assert_eq!(tally(&ledger, 1, "Alice"), 1);
    assert!(ledger.voter_record(&v, 2).unwrap().data.voted);
}

#[test]
fn same_name_twice_in_one_poll_is_refused() {
    let mut ledger = Ledger::new(program());
    assert_eq!(ledger.create_poll(payer(), 1, "P".to_string(), 0, 100), Ok(()));
    assert_eq!(ledger.create_candidate(payer(), "Alice".to_string(), 1), Ok(()));
    assert_eq!(
        ledger.create_candidate(payer(), "Alice".to_string(), 1),
        Err(VotingError::AccountInUse)
    );
}

#[test]
fn same_name_in_two_polls_is_accepted() {
    let mut ledger = Ledger::new(program());
    assert_eq!(ledger.create_poll(payer(), 1, "P".to_string(), 0, 100), Ok(()));
    assert_eq!(ledger.create_poll(payer(), 2, "Q".to_string(), 0, 100), Ok(()));
    assert_eq!(ledger.create_candidate(payer(), "Alice".to_string(), 1), Ok(()));
    assert_eq!(ledger.create_candidate(payer(), "Alice".to_string(), 2), Ok(()));
    let a1 = ledger.candidate(1, &"Alice".to_string()).unwrap().address.bytes;
    let a2 = ledger.candidate(2, &"Alice".to_string()).unwrap().address.bytes;
    assert_ne!(a1, a2);
}

#[test]
fn candidate_without_poll_is_refused() {
    let mut ledger = Ledger::new(program());
    assert_eq!(
        ledger.create_candidate(payer(), "Alice".to_string(), 9),
        Err(VotingError::AccountNotFound)
    );
    assert!(ledger.candidate(9, &"Alice".to_string()).is_none());
}

#[test]
fn poll_created_twice_is_refused() {
    let mut ledger = Ledger::new(program());
    assert_eq!(ledger.create_poll(payer(), 4, "P".to_string(), 0, 100), Ok(()));
    assert_eq!(
        ledger.create_poll(payer(), 4, "other".to_string(), 5, 6),
        Err(VotingError::AccountInUse)
    );
    assert_eq!(ledger.poll(4).unwrap().data.description, "P");
}

#[test]
fn poll_fields_are_stored() {
    let mut ledger = Ledger::new(program());
    assert_eq!(ledger.create_poll(payer(), 3, "Best fruit".to_string(), 10, 20), Ok(()));
    let poll = &ledger.poll(3).unwrap().data;
    assert_eq!(poll.poll_id, 3);
    assert_eq!(poll.description, "Best fruit");
    assert_eq!(poll.poll_start, 10);
    assert_eq!(poll.poll_end, 20);
    assert_eq!(poll.candidate_amount, 0);
    assert!(ledger.poll(4).is_none());
}

#[test]
fn long_description_is_refused() {
    let mut ledger = Ledger::new(program());
    let ok = "d".repeat(200);
    let long = "d".repeat(201);
    assert_eq!(ledger.create_poll(payer(), 1, long, 0, 1), Err(VotingError::DescriptionTooLong));
    assert!(ledger.poll(1).is_none());
    assert_eq!(ledger.create_poll(payer(), 1, ok, 0, 1), Ok(()));
}

#[test]
fn long_candidate_name_has_no_address() {
    let mut ledger = Ledger::new(program());
    assert_eq!(ledger.create_poll(payer(), 1, "P".to_string(), 0, 1), Ok(()));
    assert_eq!(
        ledger.create_candidate(payer(), "n".repeat(33), 1),
        Err(VotingError::NoProgramAddress)
    );
    assert_eq!(ledger.create_candidate(payer(), "n".repeat(32), 1), Ok(()));
}

#[test]
fn vote_needs_poll_and_candidate() {
    let mut ledger = Ledger::new(program());
    let v = voter(1);
    assert_eq!(ledger.cast_vote(v, "Alice".to_string(), 1), Err(VotingError::AccountNotFound));
    assert_eq!(ledger.create_poll(payer(), 1, "P".to_string(), 0, 1), Ok(()));
    assert_eq!(ledger.cast_vote(v, "Alice".to_string(), 1), Err(VotingError::AccountNotFound));
    assert!(ledger.voter_record(&v, 1).is_none());
}

#[test]
fn tallies_count_each_voter_once() {
    let mut ledger = Ledger::new(program());
    assert_eq!(ledger.create_poll(payer(), 1, "P".to_string(), 0, 1), Ok(()));
    assert_eq!(ledger.create_candidate(payer(), "Alice".to_string(), 1), Ok(()));
    assert_eq!(ledger.create_candidate(payer(), "Bob".to_string(), 1), Ok(()));
    assert_eq!(ledger.cast_vote(voter(1), "Alice".to_string(), 1), Ok(()));
    assert_eq!(ledger.cast_vote(voter(2), "Alice".to_string(), 1), Ok(()));
    assert_eq!(ledger.cast_vote(voter(3), "Bob".to_string(), 1), Ok(()));
    assert_eq!(ledger.cast_vote(voter(1), "Bob".to_string(), 1), Err(VotingError::AlreadyVoted));
    assert_eq!(tally(&ledger, 1, "Alice"), 2);
    assert_eq!(tally(&ledger, 1, "Bob"), 1);
}

#[test]
fn addresses_are_program_derived() {
    let mut ledger = Ledger::new(program());
    let v = voter(1);
    assert_eq!(ledger.create_poll(payer(), 1, "P".to_string(), 0, 1), Ok(()));
    assert_eq!(ledger.create_candidate(payer(), "Alice".to_string(), 1), Ok(()));
    assert_eq!(ledger.cast_vote(v, "Alice".to_string(), 1), Ok(()));

    let program_key = Pubkey::new_from_array(program().bytes);
    let id = 1u64.to_le_bytes();
    let (poll_key, poll_bump) = Pubkey::find_program_address(&[&id], &program_key);
    let poll = ledger.poll(1).unwrap();
    assert_eq!(poll.address.bytes, poll_key.to_bytes());
    assert_eq!(poll.bump, poll_bump);
    assert_ne!(poll.address.bytes, program().bytes);

    let (cand_key, _) = Pubkey::find_program_address(&[&id, b"Alice"], &program_key);
    assert_eq!(ledger.candidate(1, &"Alice".to_string()).unwrap().address.bytes, cand_key.to_bytes());

    let (voter_key, _) = Pubkey::find_program_address(&[&v.bytes, &id], &program_key);
    let record = ledger.voter_record(&v, 1).unwrap();
    assert_eq!(record.address.bytes, voter_key.to_bytes());
    assert_eq!(record.data.poll.bytes, poll_key.to_bytes());
}

#[test]
fn program_id_is_kept() {
    let ledger = Ledger::new(program());
    assert_eq!(ledger.program_id().bytes, [7u8; 32]);
}
