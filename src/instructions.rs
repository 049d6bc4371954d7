use vstd::prelude::*;

use crate::accounts::{
    utf8_len, Candidate, Poll, VoterRecord, VotingError, MAX_DESCRIPTION_LEN, MAX_NAME_LEN,
};
use crate::address::Address;

verus! {

/// The records that `initialize_poll` works on: the payer and the poll's
/// freshly allocated storage.
pub struct InitializePoll {
    pub signer: Address,
    pub poll: Poll,
}

/// The records that `initialize_candidate` works on: the payer, the poll,
/// and the candidate's freshly allocated storage.
pub struct InitializeCandidate {
    pub signer: Address,
    pub poll: Poll,
    pub candidate: Candidate,
}

/// The records that `vote` works on: the voter, the poll and its address,
/// the candidate, and the voter's record for this poll (fresh or not).
pub struct Vote {
    pub signer: Address,
    pub poll: Poll,
    pub poll_address: Address,
    pub candidate: Candidate,
    pub voter_record: VoterRecord,
}

/// Fills a new poll. Its candidate count starts at zero.
pub fn initialize_poll(
    ctx: &mut InitializePoll,
    poll_id: u64,
    description: String,
    poll_start: u64,
    poll_end: u64,
) -> (r: Result<(), VotingError>)
    ensures
        utf8_len(description@) > MAX_DESCRIPTION_LEN ==> r == Err::<(), VotingError>(
            VotingError::DescriptionTooLong,
        ) && *final(ctx) == *old(ctx),
        utf8_len(description@) <= MAX_DESCRIPTION_LEN ==> r is Ok,
        r is Ok ==> final(ctx).signer == old(ctx).signer && final(ctx).poll@ == (
        crate::accounts::PollView {
            poll_id,
            description: description@,
            poll_start,
            poll_end,
            candidate_amount: 0,
        }),
{
    if description.as_str().as_bytes().len() > MAX_DESCRIPTION_LEN {
        return Err(VotingError::DescriptionTooLong);
    }
    ctx.poll.poll_id = poll_id;
    ctx.poll.description = description;
    ctx.poll.poll_start = poll_start;
    ctx.poll.poll_end = poll_end;
    ctx.poll.candidate_amount = 0;
    Ok(())
}

/// Fills a new candidate of a poll. Its tally starts at zero; the poll is
/// left as it is.
pub fn initialize_candidate(ctx: &mut InitializeCandidate, candidate_name: String, _poll_id: u64) -> (r:
    Result<(), VotingError>)
    ensures
        utf8_len(candidate_name@) > MAX_NAME_LEN ==> r == Err::<(), VotingError>(
            VotingError::NameTooLong,
        ) && *final(ctx) == *old(ctx),
        utf8_len(candidate_name@) <= MAX_NAME_LEN ==> r is Ok,
        r is Ok ==> final(ctx).signer == old(ctx).signer && final(ctx).poll == old(ctx).poll
            && final(ctx).candidate@ == (crate::accounts::CandidateView {
            candidate_name: candidate_name@,
            candidate_votes: 0,
        }),
{
    if candidate_name.as_str().as_bytes().len() > MAX_NAME_LEN {
        return Err(VotingError::NameTooLong);
    }
    ctx.candidate.candidate_name = candidate_name;
    ctx.candidate.candidate_votes = 0;
    Ok(())
}

/// Counts the signer's vote for the candidate, once per poll: the tally
/// grows by one, and the voter record is marked as voted, pointing at the
/// poll. A voter who has voted already is refused, and nothing changes.
pub fn vote(ctx: &mut Vote, _candidate_name: String, _poll_id: u64) -> (r: Result<(), VotingError>)
    ensures
        old(ctx).voter_record.voted ==> r == Err::<(), VotingError>(VotingError::AlreadyVoted),
        !old(ctx).voter_record.voted && old(ctx).candidate.candidate_votes == u64::MAX ==> r == Err::<
            (),
            VotingError,
        >(VotingError::TallyOverflow),
        !old(ctx).voter_record.voted && old(ctx).candidate.candidate_votes < u64::MAX ==> r is Ok,
        r is Err ==> *final(ctx) == *old(ctx),
        r is Ok ==> {
            &&& final(ctx).signer == old(ctx).signer
            &&& final(ctx).poll == old(ctx).poll
            &&& final(ctx).poll_address == old(ctx).poll_address
            &&& final(ctx).candidate.candidate_name == old(ctx).candidate.candidate_name
            &&& final(ctx).candidate.candidate_votes == old(ctx).candidate.candidate_votes + 1
            &&& final(ctx).voter_record.voted
            &&& final(ctx).voter_record.poll@ == old(ctx).poll_address@
        },
{
    if ctx.voter_record.voted {
        return Err(VotingError::AlreadyVoted);
    }
    if ctx.candidate.candidate_votes == u64::MAX {
        return Err(VotingError::TallyOverflow);
    }
    ctx.candidate.candidate_votes = ctx.candidate.candidate_votes + 1;
    ctx.voter_record.voted = true;
    ctx.voter_record.poll = ctx.poll_address;
    Ok(())
}

} // verus!
