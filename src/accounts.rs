use vstd::prelude::*;

use crate::address::Address;

verus! {

/// The longest poll description, in bytes.
pub const MAX_DESCRIPTION_LEN: usize = 200;

/// The longest candidate name, in bytes (also the longest seed).
pub const MAX_NAME_LEN: usize = 32;

/// The number of bytes that a string takes in UTF-8.
pub open spec fn utf8_len(s: Seq<char>) -> nat {
    vstd::utf8::encode_utf8(s).len()
}

/// One election.
pub struct Poll {
    pub poll_id: u64,
    pub description: String,
    pub poll_start: u64,
    pub poll_end: u64,
    pub candidate_amount: u64,
}

pub struct PollView {
    pub poll_id: u64,
    pub description: Seq<char>,
    pub poll_start: u64,
    pub poll_end: u64,
    pub candidate_amount: u64,
}

impl View for Poll {
    type V = PollView;

    open spec fn view(&self) -> PollView {
        PollView {
            poll_id: self.poll_id,
            description: self.description@,
            poll_start: self.poll_start,
            poll_end: self.poll_end,
            candidate_amount: self.candidate_amount,
        }
    }
}

impl Poll {
    /// A poll as freshly allocated storage holds it: every field zero.
    pub fn zeroed() -> (r: Poll)
        ensures
            r@ == (PollView {
                poll_id: 0,
                description: Seq::empty(),
                poll_start: 0,
                poll_end: 0,
                candidate_amount: 0,
            }),
    {
        Poll { poll_id: 0, description: String::new(), poll_start: 0, poll_end: 0, candidate_amount: 0 }
    }

    /// A copy of the poll.
    pub fn duplicate(&self) -> (r: Poll)
        ensures
            r@ == self@,
    {
        Poll {
            poll_id: self.poll_id,
            description: self.description.clone(),
            poll_start: self.poll_start,
            poll_end: self.poll_end,
            candidate_amount: self.candidate_amount,
        }
    }
}

/// One candidate of one poll, with its tally.
pub struct Candidate {
    pub candidate_name: String,
    pub candidate_votes: u64,
}

pub struct CandidateView {
    pub candidate_name: Seq<char>,
    pub candidate_votes: u64,
}

impl View for Candidate {
    type V = CandidateView;

    open spec fn view(&self) -> CandidateView {
        CandidateView { candidate_name: self.candidate_name@, candidate_votes: self.candidate_votes }
    }
}

impl Candidate {
    /// A candidate as freshly allocated storage holds it: every field zero.
    pub fn zeroed() -> (r: Candidate)
        ensures
            r@ == (CandidateView { candidate_name: Seq::empty(), candidate_votes: 0 }),
    {
        Candidate { candidate_name: String::new(), candidate_votes: 0 }
    }

    /// A copy of the candidate.
    pub fn duplicate(&self) -> (r: Candidate)
        ensures
            r@ == self@,
    {
        Candidate { candidate_name: self.candidate_name.clone(), candidate_votes: self.candidate_votes }
    }
}

/// Whether one voter has voted in one poll, and in which poll.
#[derive(Clone, Copy)]
pub struct VoterRecord {
    pub voted: bool,
    pub poll: Address,
}

pub struct VoterRecordView {
    pub voted: bool,
    pub poll: Seq<u8>,
}

impl View for VoterRecord {
    type V = VoterRecordView;

    open spec fn view(&self) -> VoterRecordView {
        VoterRecordView { voted: self.voted, poll: self.poll@ }
    }
}

impl VoterRecord {
    /// A voter record as freshly allocated storage holds it: not voted, and
    /// the all-zero address.
    pub fn zeroed() -> (r: VoterRecord)
        ensures
            r@ == (VoterRecordView { voted: false, poll: Seq::new(32, |i: int| 0u8) }),
    {
        VoterRecord { voted: false, poll: Address::zero() }
    }
}

/// Why an operation failed. A failed operation changes nothing.
#[derive(Clone, Copy, Debug, PartialEq, Eq, Structural)]
pub enum VotingError {
    /// The voter has already voted in this poll.
    AlreadyVoted,
    /// A record that the operation creates already exists.
    AccountInUse,
    /// A record that the operation reads does not exist.
    AccountNotFound,
    /// The record's seeds give no program address (a seed is too long, or
    /// no bump is found).
    NoProgramAddress,
    /// The poll description is longer than its bound.
    DescriptionTooLong,
    /// The candidate name is longer than its bound.
    NameTooLong,
    /// The candidate's tally is at the largest `u64`.
    TallyOverflow,
}

} // verus!
