use vstd::prelude::*;

use crate::accounts::VotingError;
use crate::ledger::{
    candidate_key, create_candidate_step, create_poll_step, le_bytes, poll_key, vote_step,
    voter_key, LedgerModel,
};

verus! {

/// Distinct poll ids have distinct little-endian bytes.
pub proof fn lemma_le_bytes_injective(a: u64, b: u64)
    ensures
        le_bytes(a) == le_bytes(b) ==> a == b,
        le_bytes(a).len() == 8,
{
    vstd::bytes::lemma_auto_spec_u64_to_from_le_bytes();
}

/// Candidates of different polls never share a key.
pub proof fn lemma_candidate_keys_differ(p1: u64, n1: Seq<char>, p2: u64, n2: Seq<char>)
    requires
        p1 != p2,
    ensures
        candidate_key(p1, n1) != candidate_key(p2, n2),
{
    lemma_le_bytes_injective(p1, p2);
    lemma_le_bytes_injective(p1, p1);
    lemma_le_bytes_injective(p2, p2);
    if candidate_key(p1, n1) == candidate_key(p2, n2) {
        assert(candidate_key(p1, n1).subrange(0, 8) =~= le_bytes(p1));
        assert(candidate_key(p2, n2).subrange(0, 8) =~= le_bytes(p2));
    }
}

/// Records of one voter in different polls never share a key.
pub proof fn lemma_voter_keys_differ(voter: Seq<u8>, p1: u64, p2: u64)
    requires
        p1 != p2,
    ensures
        voter_key(voter, p1) != voter_key(voter, p2),
{
    lemma_le_bytes_injective(p1, p2);
    lemma_le_bytes_injective(p1, p1);
    lemma_le_bytes_injective(p2, p2);
    let n = voter.len() as int;
    if voter_key(voter, p1) == voter_key(voter, p2) {
        assert(voter_key(voter, p1).subrange(n, n + 8) =~= le_bytes(p1));
        assert(voter_key(voter, p2).subrange(n, n + 8) =~= le_bytes(p2));
    }
}

/// A voter votes at most once per poll: after a successful vote, every
/// further vote of the same voter in the same poll changes nothing, and one
/// for any existing candidate is refused as already voted; the first vote
/// counted exactly one for its candidate.
pub proof fn lemma_vote_once_per_poll(
    m: LedgerModel,
    voter: Seq<u8>,
    name: Seq<char>,
    other_name: Seq<char>,
    poll_id: u64,
)
    requires
        vote_step(m, voter, name, poll_id).1 is Ok,
    ensures
        ({
            let m1 = vote_step(m, voter, name, poll_id).0;
            &&& m1.voter_records[voter_key(voter, poll_id)].data.voted
            &&& m1.candidates[candidate_key(poll_id, name)].data.candidate_votes
                == m.candidates[candidate_key(poll_id, name)].data.candidate_votes + 1
            &&& vote_step(m1, voter, other_name, poll_id).0 == m1
            &&& m1.candidates.contains_key(candidate_key(poll_id, other_name))
                ==> vote_step(m1, voter, other_name, poll_id).1 == Err::<(), VotingError>(
                VotingError::AlreadyVoted,
            )
        }),
{
}

/// Once a voter record says voted, it stays so through every operation.
pub proof fn lemma_voted_stays(
    m: LedgerModel,
    key: Seq<u8>,
    voter: Seq<u8>,
    name: Seq<char>,
    description: Seq<char>,
    poll_id: u64,
    poll_start: u64,
    poll_end: u64,
)
    requires
        m.voter_records.contains_key(key),
        m.voter_records[key].data.voted,
    ensures
        vote_step(m, voter, name, poll_id).0.voter_records.contains_key(key),
        vote_step(m, voter, name, poll_id).0.voter_records[key].data.voted,
        create_candidate_step(m, name, poll_id).0.voter_records == m.voter_records,
        create_poll_step(m, poll_id, description, poll_start, poll_end).0.voter_records
            == m.voter_records,
{
}

/// A vote never lowers a tally: it raises the chosen candidate's by exactly
/// one when it succeeds, and leaves every other tally as it was.
pub proof fn lemma_vote_tallies(m: LedgerModel, voter: Seq<u8>, name: Seq<char>, poll_id: u64, key: Seq<u8>)
    requires
        m.candidates.contains_key(key),
    ensures
        ({
            let (m1, r) = vote_step(m, voter, name, poll_id);
            &&& m1.candidates.contains_key(key)
            &&& m1.candidates[key].data.candidate_votes == m.candidates[key].data.candidate_votes + (
            if r is Ok && key == candidate_key(poll_id, name) {
                1int
            } else {
                0int
            })
            &&& m1.candidates[key].data.candidate_name == m.candidates[key].data.candidate_name
        }),
{
}

/// Creating polls and candidates leaves every existing tally as it was.
pub proof fn lemma_creation_keeps_tallies(
    m: LedgerModel,
    name: Seq<char>,
    description: Seq<char>,
    poll_id: u64,
    poll_start: u64,
    poll_end: u64,
    key: Seq<u8>,
)
    requires
        m.candidates.contains_key(key),
    ensures
        create_poll_step(m, poll_id, description, poll_start, poll_end).0.candidates == m.candidates,
        create_candidate_step(m, name, poll_id).0.candidates.contains_key(key),
        create_candidate_step(m, name, poll_id).0.candidates[key] == m.candidates[key],
{
}

/// A candidate name is taken at most once per poll: after a candidate is
/// created, creating it again under the same poll is refused and changes
/// nothing.
pub proof fn lemma_candidate_unique_per_poll(m: LedgerModel, name: Seq<char>, poll_id: u64)
    requires
        create_candidate_step(m, name, poll_id).1 is Ok,
    ensures
        ({
            let m1 = create_candidate_step(m, name, poll_id).0;
            create_candidate_step(m1, name, poll_id) == (m1, Err::<(), VotingError>(
                VotingError::AccountInUse,
            ))
        }),
{
}

/// Candidates of the same name under different polls are independent:
/// creating one under one poll does not change what creating it under
/// another poll does.
pub proof fn lemma_candidate_names_per_poll(m: LedgerModel, name: Seq<char>, p1: u64, p2: u64)
    requires
        p1 != p2,
        create_candidate_step(m, name, p1).1 is Ok,
    ensures
        ({
            let m1 = create_candidate_step(m, name, p1).0;
            &&& create_candidate_step(m1, name, p2).1 == create_candidate_step(m, name, p2).1
            &&& m1.candidates.contains_key(candidate_key(p1, name))
        }),
{
    lemma_candidate_keys_differ(p1, name, p2, name);
}

/// A candidate cannot be created under a poll that does not exist.
pub proof fn lemma_candidate_needs_poll(m: LedgerModel, name: Seq<char>, poll_id: u64)
    requires
        !m.polls.contains_key(poll_key(poll_id)),
    ensures
        create_candidate_step(m, name, poll_id) == (m, Err::<(), VotingError>(
            VotingError::AccountNotFound,
        )),
{
}

/// A voter's votes in different polls are independent: a vote in one poll
/// does not change what a vote of the same voter in another poll does.
pub proof fn lemma_votes_per_poll(
    m: LedgerModel,
    voter: Seq<u8>,
    n1: Seq<char>,
    p1: u64,
    n2: Seq<char>,
    p2: u64,
)
    requires
        p1 != p2,
    ensures
        vote_step(vote_step(m, voter, n1, p1).0, voter, n2, p2).1 == vote_step(m, voter, n2, p2).1,
{
    lemma_candidate_keys_differ(p1, n1, p2, n2);
    lemma_voter_keys_differ(voter, p1, p2);
}

} // verus!
