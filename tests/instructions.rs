use voting::{
    initialize_candidate, initialize_poll, vote, Address, Candidate, InitializeCandidate,
    InitializePoll, Poll, Vote, VoterRecord, VotingError,
};

fn key(b: u8) -> Address {
    Address { bytes: [b; 32] }
}

fn fresh_vote(votes: u64, voted: bool) -> Vote {
    Vote {
        signer: key(1),
        poll: Poll::zeroed(),
        poll_address: key(9),
        candidate: Candidate { candidate_name: "Alice".to_string(), candidate_votes: votes },
        voter_record: VoterRecord { voted, poll: Address::zero() },
    }
}

#[test]
fn initialize_poll_fills_fields() {
    let mut ctx = InitializePoll { signer: key(1), poll: Poll::zeroed() };
    assert_eq!(initialize_poll(&mut ctx, 5, "Lunch".to_string(), 7, 8), Ok(()));
    assert_eq!(ctx.poll.poll_id, 5);
    assert_eq!(ctx.poll.description, "Lunch");
    assert_eq!(ctx.poll.poll_start, 7);
    assert_eq!(ctx.poll.poll_end, 8);
    assert_eq!(ctx.poll.candidate_amount, 0);
}

#[test]
fn initialize_poll_refuses_long_description() {
    let mut ctx = InitializePoll { signer: key(1), poll: Poll::zeroed() };
    assert_eq!(
        initialize_poll(&mut ctx, 5, "é".repeat(101), 7, 8),
        Err(VotingError::DescriptionTooLong)
    );
    assert_eq!(ctx.poll.poll_id, 0);
}

#[test]
fn initialize_candidate_starts_at_zero() {
    let mut ctx =
        InitializeCandidate { signer: key(1), poll: Poll::zeroed(), candidate: Candidate::zeroed() };
    ctx.candidate.candidate_votes = 3;
    assert_eq!(initialize_candidate(&mut ctx, "Bob".to_string(), 1), Ok(()));
    assert_eq!(ctx.candidate.candidate_name, "Bob");
    assert_eq!(ctx.candidate.candidate_votes, 0);
}

#[test]
fn initialize_candidate_refuses_long_name() {
    let mut ctx =
        InitializeCandidate { signer: key(1), poll: Poll::zeroed(), candidate: Candidate::zeroed() };
    assert_eq!(
        initialize_candidate(&mut ctx, "x".repeat(33), 1),
        Err(VotingError::NameTooLong)
    );
    assert_eq!(ctx.candidate.candidate_name, "");
}

#[test]
fn vote_counts_and_marks() {
    let mut ctx = fresh_vote(4, false);
    assert_eq!(vote(&mut ctx, "Alice".to_string(), 1), Ok(()));
    assert_eq!(ctx.candidate.candidate_votes, 5);
    assert!(ctx.voter_record.voted);
    assert_eq!(ctx.voter_record.poll.bytes, [9u8; 32]);
}

#[test]
fn vote_refuses_second_vote() {
    let mut ctx = fresh_vote(4, true);
    assert_eq!(vote(&mut ctx, "Alice".to_string(), 1), Err(VotingError::AlreadyVoted));
    assert_eq!(ctx.candidate.candidate_votes, 4);
}

#[test]
fn vote_refuses_full_tally() {
    let mut ctx = fresh_vote(u64::MAX, false);
    assert_eq!(vote(&mut ctx, "Alice".to_string(), 1), Err(VotingError::TallyOverflow));
    assert_eq!(ctx.candidate.candidate_votes, u64::MAX);
    assert!(!ctx.voter_record.voted);
}
