use vstd::prelude::*;

use crate::accounts::{
    utf8_len, Candidate, CandidateView, Poll, PollView, VoterRecord, VoterRecordView, VotingError,
    MAX_DESCRIPTION_LEN, MAX_NAME_LEN,
};
use crate::address::{find_program_address, program_address, seeds_view, Address};
use crate::instructions::{
    initialize_candidate, initialize_poll, vote, InitializeCandidate, InitializePoll, Vote,
};
use crate::store::{Account, AccountStore, AccountView};

verus! {

/// The eight little-endian bytes of an integer.
pub open spec fn le_bytes(x: u64) -> Seq<u8> {
    vstd::bytes::spec_u64_to_le_bytes(x)
}

/// The bytes of a string, in UTF-8.
pub open spec fn name_bytes(name: Seq<char>) -> Seq<u8> {
    vstd::utf8::encode_utf8(name)
}

/// The seeds of a poll's address.
pub open spec fn poll_seeds(poll_id: u64) -> Seq<Seq<u8>> {
    seq![le_bytes(poll_id)]
}

/// The seeds of a candidate's address.
pub open spec fn candidate_seeds(poll_id: u64, name: Seq<char>) -> Seq<Seq<u8>> {
    seq![le_bytes(poll_id), name_bytes(name)]
}

/// The seeds of a voter record's address.
pub open spec fn voter_seeds(voter: Seq<u8>, poll_id: u64) -> Seq<Seq<u8>> {
    seq![voter, le_bytes(poll_id)]
}

/// The key of a poll: its seed bytes.
pub open spec fn poll_key(poll_id: u64) -> Seq<u8> {
    le_bytes(poll_id)
}

/// The key of a candidate: its seed bytes, one after the other.
pub open spec fn candidate_key(poll_id: u64, name: Seq<char>) -> Seq<u8> {
    le_bytes(poll_id) + name_bytes(name)
}

/// The key of a voter record: its seed bytes, one after the other.
pub open spec fn voter_key(voter: Seq<u8>, poll_id: u64) -> Seq<u8> {
    voter + le_bytes(poll_id)
}

/// What the ledger holds: the program id, and the records of each kind by
/// key.
pub struct LedgerModel {
    pub program_id: Seq<u8>,
    pub polls: Map<Seq<u8>, AccountView<PollView>>,
    pub candidates: Map<Seq<u8>, AccountView<CandidateView>>,
    pub voter_records: Map<Seq<u8>, AccountView<VoterRecordView>>,
}

/// Creating a poll: refused if the poll exists, if its seeds give no
/// address, or if the description is too long; else the poll is added with
/// its address and no candidates counted.
pub open spec fn create_poll_step(
    m: LedgerModel,
    poll_id: u64,
    description: Seq<char>,
    poll_start: u64,
    poll_end: u64,
) -> (LedgerModel, Result<(), VotingError>) {
    if m.polls.contains_key(poll_key(poll_id)) {
        (m, Err(VotingError::AccountInUse))
    } else {
        match program_address(poll_seeds(poll_id), m.program_id) {
            None => (m, Err(VotingError::NoProgramAddress)),
            Some((address, bump)) => if utf8_len(description) > MAX_DESCRIPTION_LEN {
                (m, Err(VotingError::DescriptionTooLong))
            } else {
                let poll = PollView { poll_id, description, poll_start, poll_end, candidate_amount: 0 };
                (
                    LedgerModel {
                        polls: m.polls.insert(
                            poll_key(poll_id),
                            AccountView { address, bump, data: poll },
                        ),
                        ..m
                    },
                    Ok(()),
                )
            },
        }
    }
}

/// Creating a candidate: refused if the poll does not exist, if the
/// candidate exists, if its seeds give no address, or if the name is too
/// long; else the candidate is added with its address and no votes.
pub open spec fn create_candidate_step(m: LedgerModel, name: Seq<char>, poll_id: u64) -> (
    LedgerModel,
    Result<(), VotingError>,
) {
    if !m.polls.contains_key(poll_key(poll_id)) {
        (m, Err(VotingError::AccountNotFound))
    } else if m.candidates.contains_key(candidate_key(poll_id, name)) {
        (m, Err(VotingError::AccountInUse))
    } else {
        match program_address(candidate_seeds(poll_id, name), m.program_id) {
            None => (m, Err(VotingError::NoProgramAddress)),
            Some((address, bump)) => if utf8_len(name) > MAX_NAME_LEN {
                (m, Err(VotingError::NameTooLong))
            } else {
                let candidate = CandidateView { candidate_name: name, candidate_votes: 0 };
                (
                    LedgerModel {
                        candidates: m.candidates.insert(
                            candidate_key(poll_id, name),
                            AccountView { address, bump, data: candidate },
                        ),
                        ..m
                    },
                    Ok(()),
                )
            },
        }
    }
}

/// Counting a vote whose records all resolved: refused if the tally is at
/// its largest; else the tally grows by one and the voter record, at the
/// given address, is marked as voted in the poll.
pub open spec fn count_vote(
    m: LedgerModel,
    voter: Seq<u8>,
    name: Seq<char>,
    poll_id: u64,
    address: Seq<u8>,
    bump: u8,
) -> (LedgerModel, Result<(), VotingError>) {
    let c = m.candidates[candidate_key(poll_id, name)];
    if c.data.candidate_votes == u64::MAX {
        (m, Err(VotingError::TallyOverflow))
    } else {
        let counted = CandidateView {
            candidate_name: c.data.candidate_name,
            candidate_votes: (c.data.candidate_votes + 1) as u64,
        };
        let record = VoterRecordView { voted: true, poll: m.polls[poll_key(poll_id)].address };
        (
            LedgerModel {
                candidates: m.candidates.insert(
                    candidate_key(poll_id, name),
                    AccountView { address: c.address, bump: c.bump, data: counted },
                ),
                voter_records: m.voter_records.insert(
                    voter_key(voter, poll_id),
                    AccountView { address, bump, data: record },
                ),
                ..m
            },
            Ok(()),
        )
    }
}

/// Voting: refused if the poll or the candidate does not exist, or if the
/// voter has voted in this poll; a voter record that does not exist yet is
/// created at its address (refused if its seeds give none); then the vote is
/// counted.
pub open spec fn vote_step(m: LedgerModel, voter: Seq<u8>, name: Seq<char>, poll_id: u64) -> (
    LedgerModel,
    Result<(), VotingError>,
) {
    if !m.polls.contains_key(poll_key(poll_id)) {
        (m, Err(VotingError::AccountNotFound))
    } else if !m.candidates.contains_key(candidate_key(poll_id, name)) {
        (m, Err(VotingError::AccountNotFound))
    } else if m.voter_records.contains_key(voter_key(voter, poll_id)) {
        let r = m.voter_records[voter_key(voter, poll_id)];
        if r.data.voted {
            (m, Err(VotingError::AlreadyVoted))
        } else {
            count_vote(m, voter, name, poll_id, r.address, r.bump)
        }
    } else {
        match program_address(voter_seeds(voter, poll_id), m.program_id) {
            None => (m, Err(VotingError::NoProgramAddress)),
            Some((address, bump)) => count_vote(m, voter, name, poll_id, address, bump),
        }
    }
}

/// The little-endian bytes of an integer.
fn le_bytes_of(x: u64) -> (r: Vec<u8>)
    ensures
        r@ == le_bytes(x),
{
    vstd::bytes::u64_to_le_bytes(x)
}

/// The UTF-8 bytes of a string.
fn name_bytes_of(name: &String) -> (r: Vec<u8>)
    ensures
        r@ == name_bytes(name@),
{
    vstd::slice::slice_to_vec(name.as_str().as_bytes())
}

fn poll_key_of(poll_id: u64) -> (r: Vec<u8>)
    ensures
        r@ == poll_key(poll_id),
{
    le_bytes_of(poll_id)
}

fn candidate_key_of(poll_id: u64, name: &String) -> (r: Vec<u8>)
    ensures
        r@ == candidate_key(poll_id, name@),
{
    let mut k = le_bytes_of(poll_id);
    let mut n = name_bytes_of(name);
    k.append(&mut n);
    k
}

fn voter_key_of(voter: &Address, poll_id: u64) -> (r: Vec<u8>)
    ensures
        r@ == voter_key(voter@, poll_id),
{
    let mut k = voter.to_vec();
    let mut p = le_bytes_of(poll_id);
    k.append(&mut p);
    k
}

fn poll_seeds_of(poll_id: u64) -> (r: Vec<Vec<u8>>)
    ensures
        seeds_view(r@) == poll_seeds(poll_id),
{
    let mut r: Vec<Vec<u8>> = Vec::new();
    r.push(le_bytes_of(poll_id));
    assert(seeds_view(r@) =~= poll_seeds(poll_id));
    r
}

fn candidate_seeds_of(poll_id: u64, name: &String) -> (r: Vec<Vec<u8>>)
    ensures
        seeds_view(r@) == candidate_seeds(poll_id, name@),
{
    let mut r: Vec<Vec<u8>> = Vec::new();
    r.push(le_bytes_of(poll_id));
    r.push(name_bytes_of(name));
    assert(seeds_view(r@) =~= candidate_seeds(poll_id, name@));
    r
}

fn voter_seeds_of(voter: &Address, poll_id: u64) -> (r: Vec<Vec<u8>>)
    ensures
        seeds_view(r@) == voter_seeds(voter@, poll_id),
{
    let mut r: Vec<Vec<u8>> = Vec::new();
    r.push(voter.to_vec());
    r.push(le_bytes_of(poll_id));
    assert(seeds_view(r@) =~= voter_seeds(voter@, poll_id));
    r
}

/// The records of one voting program: polls, candidates and voter records,
/// each at most once per key. Each operation either succeeds whole or
/// changes nothing.
pub struct Ledger {
    program_id: Address,
    polls: AccountStore<Poll>,
    candidates: AccountStore<Candidate>,
    voter_records: AccountStore<VoterRecord>,
}

impl View for Ledger {
    type V = LedgerModel;

    closed spec fn view(&self) -> LedgerModel {
        LedgerModel {
            program_id: self.program_id@,
            polls: self.polls@,
            candidates: self.candidates@,
            voter_records: self.voter_records@,
        }
    }
}

impl Ledger {
    /// The ledger's internal invariant.
    pub closed spec fn wf(&self) -> bool {
        &&& self.polls.wf()
        &&& self.candidates.wf()
        &&& self.voter_records.wf()
    }

    /// An empty ledger for the program with the given id.
    pub fn new(program_id: Address) -> (r: Ledger)
        ensures
            r.wf(),
            r@ == (LedgerModel {
                program_id: program_id@,
                polls: Map::empty(),
                candidates: Map::empty(),
                voter_records: Map::empty(),
            }),
    {
        Ledger {
            program_id,
            polls: AccountStore::new(),
            candidates: AccountStore::new(),
            voter_records: AccountStore::new(),
        }
    }

    /// Creates a poll, paid for by `signer`.
    pub fn create_poll(
        &mut self,
        signer: Address,
        poll_id: u64,
        description: String,
        poll_start: u64,
        poll_end: u64,
    ) -> (r: Result<(), VotingError>)
        requires
            old(self).wf(),
        ensures
            final(self).wf(),
            (final(self)@, r) == create_poll_step(old(self)@, poll_id, description@, poll_start, poll_end),
    {
        let key = poll_key_of(poll_id);
        if let Some(_) = self.polls.get(&key) {
            return Err(VotingError::AccountInUse);
        }
        let seeds = poll_seeds_of(poll_id);
        let (address, bump) = match find_program_address(&seeds, &self.program_id) {
            Some(found) => found,
            None => return Err(VotingError::NoProgramAddress),
        };
        let mut ctx = InitializePoll { signer, poll: Poll::zeroed() };
        let ghost d = description@;
        match initialize_poll(&mut ctx, poll_id, description, poll_start, poll_end) {
            Ok(()) => {},
            Err(e) => return Err(e),
        }
        self.polls.insert(key, Account { address, bump, data: ctx.poll });
        assert(self@ =~= create_poll_step(old(self)@, poll_id, d, poll_start, poll_end).0);
        Ok(())
    }

    /// Registers a candidate under an existing poll, paid for by `signer`.
    pub fn create_candidate(&mut self, signer: Address, candidate_name: String, poll_id: u64) -> (r:
        Result<(), VotingError>)
        requires
            old(self).wf(),
        ensures
            final(self).wf(),
            (final(self)@, r) == create_candidate_step(old(self)@, candidate_name@, poll_id),
    {
        let poll_key = poll_key_of(poll_id);
        let poll = match self.polls.get(&poll_key) {
            Some(account) => account.data.duplicate(),
            None => return Err(VotingError::AccountNotFound),
        };
        let key = candidate_key_of(poll_id, &candidate_name);
        if let Some(_) = self.candidates.get(&key) {
            return Err(VotingError::AccountInUse);
        }
        let seeds = candidate_seeds_of(poll_id, &candidate_name);
        let (address, bump) = match find_program_address(&seeds, &self.program_id) {
            Some(found) => found,
            None => return Err(VotingError::NoProgramAddress),
        };
        let mut ctx = InitializeCandidate { signer, poll, candidate: Candidate::zeroed() };
        let ghost n = candidate_name@;
        match initialize_candidate(&mut ctx, candidate_name, poll_id) {
            Ok(()) => {},
            Err(e) => return Err(e),
        }
        self.candidates.insert(key, Account { address, bump, data: ctx.candidate });
        assert(self@ =~= create_candidate_step(old(self)@, n, poll_id).0);
        Ok(())
    }

    /// Casts `signer`'s vote for a candidate of a poll, creating the voter's
    /// record for the poll on the first attempt.
    pub fn cast_vote(&mut self, signer: Address, candidate_name: String, poll_id: u64) -> (r: Result<
        (),
        VotingError,
    >)
        requires
            old(self).wf(),
        ensures
            final(self).wf(),
            (final(self)@, r) == vote_step(old(self)@, signer@, candidate_name@, poll_id),
    {
        let poll_key = poll_key_of(poll_id);
        let (poll, poll_address) = match self.polls.get(&poll_key) {
            Some(account) => (account.data.duplicate(), account.address),
            None => return Err(VotingError::AccountNotFound),
        };
        let candidate_key = candidate_key_of(poll_id, &candidate_name);
        let candidate = match self.candidates.get(&candidate_key) {
            Some(account) => account.data.duplicate(),
            None => return Err(VotingError::AccountNotFound),
        };
        let voter_key = voter_key_of(&signer, poll_id);
        let (record, address, bump, existed) = match self.voter_records.get(&voter_key) {
            Some(account) => (account.data, account.address, account.bump, true),
            None => {
                let seeds = voter_seeds_of(&signer, poll_id);
                match find_program_address(&seeds, &self.program_id) {
                    Some((address, bump)) => (VoterRecord::zeroed(), address, bump, false),
                    None => return Err(VotingError::NoProgramAddress),
                }
            },
        };
        let mut ctx = Vote { signer, poll, poll_address, candidate, voter_record: record };
        let ghost n = candidate_name@;
        match vote(&mut ctx, candidate_name, poll_id) {
            Ok(()) => {},
            Err(e) => return Err(e),
        }
        self.candidates.set_data(&candidate_key, ctx.candidate);
        if existed {
            self.voter_records.set_data(&voter_key, ctx.voter_record);
        } else {
            self.voter_records.insert(voter_key, Account { address, bump, data: ctx.voter_record });
        }
        assert(self@ =~= vote_step(old(self)@, signer@, n, poll_id).0);
        Ok(())
    }

    /// The id of the program whose records these are.
    pub fn program_id(&self) -> (r: Address)
        ensures
            r@ == self@.program_id,
    {
        self.program_id
    }

    /// The poll with the given id, if it exists.
    pub fn poll(&self, poll_id: u64) -> (r: Option<&Account<Poll>>)
        requires
            self.wf(),
        ensures
            match r {
                Some(a) => self@.polls.contains_key(poll_key(poll_id)) && self@.polls[poll_key(poll_id)] == a@,
                None => !self@.polls.contains_key(poll_key(poll_id)),
            },
    {
        self.polls.get(&poll_key_of(poll_id))
    }

    /// The candidate with the given name under the given poll, if it exists.
    pub fn candidate(&self, poll_id: u64, candidate_name: &String) -> (r: Option<&Account<Candidate>>)
        requires
            self.wf(),
        ensures
            match r {
                Some(a) => self@.candidates.contains_key(candidate_key(poll_id, candidate_name@))
                    && self@.candidates[candidate_key(poll_id, candidate_name@)] == a@,
                None => !self@.candidates.contains_key(candidate_key(poll_id, candidate_name@)),
            },
    {
        self.candidates.get(&candidate_key_of(poll_id, candidate_name))
    }

    /// The record of the given voter for the given poll, if it exists.
    pub fn voter_record(&self, voter: &Address, poll_id: u64) -> (r: Option<&Account<VoterRecord>>)
        requires
            self.wf(),
        ensures
            match r {
                Some(a) => self@.voter_records.contains_key(voter_key(voter@, poll_id))
                    && self@.voter_records[voter_key(voter@, poll_id)] == a@,
                None => !self@.voter_records.contains_key(voter_key(voter@, poll_id)),
            },
    {
        self.voter_records.get(&voter_key_of(voter, poll_id))
    }
}

} // verus!
