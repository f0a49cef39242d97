//! An election: its owner opens it under a name, candidates are added under
//! their names, each payer votes once for a candidate, and a winner is
//! recorded.
//!
//! Counts are kept in single bytes; a count that would pass 255 stops the
//! instruction, so the instructions here require that it cannot.
use vstd::prelude::*;
use vstd::string::StringSliceAdditionalSpecFns;
use vstd::utf8::encode_utf8;
use crate::key::{
    Pubkey, text_seed, seeds2, seeds3, seeds_view, AccountSet, accounts_after_init,
    lemma_accounts_after_init,
};

verus! {

/// An election.
#[derive(Clone, Debug)]
pub struct ElectionAccount {
    pub name: String,
    pub total_candidates: u8,
    pub start_time: i64,
    pub end_time: i64,
    pub winner: Option<Pubkey>,
    pub bump: u8,
    pub owner: Pubkey,
}

/// A candidate of an election.
#[derive(Clone, Debug)]
pub struct CandidateAccount {
    pub name: String,
    pub total_votes: u8,
    pub election_account: Pubkey,
}

/// The record that a payer has voted in an election.
#[derive(Clone, Copy, Debug, PartialEq, Eq, Structural)]
pub struct VoteAccount {
    pub bump: u8,
}

/// Accounts of `InitializeElection`.
pub struct InitializeElection {
    pub payer: Pubkey,
    pub election_account: ElectionAccount,
    pub election_account_bump: u8,
}

/// Accounts of `addCandidate`.
pub struct AddCandidate {
    pub payer: Pubkey,
    pub election_account: ElectionAccount,
    pub election_account_key: Pubkey,
    pub candidate_account: CandidateAccount,
}

/// Accounts of `vote`.
pub struct Vote {
    pub payer: Pubkey,
    pub election_account: ElectionAccount,
    pub election_account_key: Pubkey,
    pub vote_account: VoteAccount,
    pub candidate_account: CandidateAccount,
}

/// Accounts of `ChooseWinner`.
pub struct ChooseWinner {
    pub signer: Pubkey,
    pub election_account: ElectionAccount,
}

// ---------------------------------------------------------------------------
// Addresses

/// Seeds of an election's address: its name and its owner.
pub open spec fn election_seeds(name: Seq<char>, owner: Pubkey) -> Seq<Seq<u8>> {
    seq![encode_utf8(name), owner.bytes@]
}

/// Seeds of a candidate's address: its name and its election.
pub open spec fn candidate_seeds(name: Seq<char>, election: Pubkey) -> Seq<Seq<u8>> {
    seq![encode_utf8(name), election.bytes@]
}

/// Seeds of the record that `payer` voted in `election`.
pub open spec fn vote_seeds(election: Pubkey, payer: Pubkey) -> Seq<Seq<u8>> {
    seq!["vote".spec_bytes(), election.bytes@, payer.bytes@]
}

/// Seeds of an election's address, from its name and owner.
pub fn election_address_seeds(name: &str, owner: &Pubkey) -> (r: Vec<Vec<u8>>)
    ensures
        seeds_view(r@) == election_seeds(name@, *owner),
{
    seeds2(text_seed(name), owner.as_seed())
}

/// Seeds of a candidate's address, from its name and election.
pub fn candidate_address_seeds(name: &str, election: &Pubkey) -> (r: Vec<Vec<u8>>)
    ensures
        seeds_view(r@) == candidate_seeds(name@, *election),
{
    seeds2(text_seed(name), election.as_seed())
}

/// Seeds of a vote record's address, from the election and the payer.
pub fn vote_address_seeds(election: &Pubkey, payer: &Pubkey) -> (r: Vec<Vec<u8>>)
    ensures
        seeds_view(r@) == vote_seeds(*election, *payer),
{
    seeds3(text_seed("vote"), election.as_seed(), payer.as_seed())
}

impl ElectionAccount {
    /// Seeds of the election's address, from its stored name and owner.
    pub fn address_seeds(&self) -> (r: Vec<Vec<u8>>)
        ensures
            seeds_view(r@) == election_seeds(self.name@, self.owner),
    {
        election_address_seeds(self.name.as_str(), &self.owner)
    }
}

impl CandidateAccount {
    /// Seeds of the candidate's address, from its stored name and the given
    /// election.
    pub fn address_seeds(&self, election: &Pubkey) -> (r: Vec<Vec<u8>>)
        ensures
            seeds_view(r@) == candidate_seeds(self.name@, *election),
    {
        candidate_address_seeds(self.name.as_str(), election)
    }
}

// ---------------------------------------------------------------------------
// Instructions

/// The election that `InitializeElection` writes.
pub open spec fn new_election(
    name: String,
    start_time: i64,
    end_time: i64,
    bump: u8,
    owner: Pubkey,
) -> ElectionAccount {
    ElectionAccount { name, total_candidates: 0, start_time, end_time, winner: None, bump, owner }
}

/// Opens an election owned by the payer, with no candidates and no winner.
#[allow(non_snake_case)]
pub fn InitializeElection(ctx: &mut InitializeElection, name: String, start_time: i64, end_time: i64)
    ensures
        final(ctx).payer == old(ctx).payer,
        final(ctx).election_account_bump == old(ctx).election_account_bump,
        final(ctx).election_account == new_election(
            name,
            start_time,
            end_time,
            old(ctx).election_account_bump,
            old(ctx).payer,
        ),
{
    ctx.election_account = ElectionAccount {
        name,
        start_time,
        end_time,
        winner: None,
        total_candidates: 0,
        bump: ctx.election_account_bump,
        owner: ctx.payer,
    };
}

/// Adds a candidate with no votes to the election, which counts one more
/// candidate.
#[allow(non_snake_case)]
pub fn addCandidate(ctx: &mut AddCandidate, name: String)
    requires
        old(ctx).election_account.total_candidates < 255,
    ensures
        final(ctx).payer == old(ctx).payer,
        final(ctx).election_account_key == old(ctx).election_account_key,
        final(ctx).candidate_account == (CandidateAccount {
            name,
            total_votes: 0,
            election_account: old(ctx).election_account_key,
        }),
        final(ctx).election_account == (ElectionAccount {
            total_candidates: (old(ctx).election_account.total_candidates + 1) as u8,
            ..old(ctx).election_account
        }),
{
    ctx.candidate_account = CandidateAccount {
        name,
        total_votes: 0,
        election_account: ctx.election_account_key,
    };
    ctx.election_account.total_candidates = ctx.election_account.total_candidates + 1;
}

/// Counts one more vote for the candidate; nothing else changes.
pub fn vote(ctx: &mut Vote)
    requires
        old(ctx).candidate_account.total_votes < 255,
    ensures
        final(ctx).payer == old(ctx).payer,
        final(ctx).election_account == old(ctx).election_account,
        final(ctx).election_account_key == old(ctx).election_account_key,
        final(ctx).vote_account == old(ctx).vote_account,
        final(ctx).candidate_account == (CandidateAccount {
            total_votes: (old(ctx).candidate_account.total_votes + 1) as u8,
            ..old(ctx).candidate_account
        }),
{
    ctx.candidate_account.total_votes = ctx.candidate_account.total_votes + 1;
}

/// Records `winner` as the election's winner, replacing any earlier one.
/// The signer is not checked against the owner.
#[allow(non_snake_case)]
pub fn ChooseWinner(ctx: &mut ChooseWinner, winner: Pubkey)
    ensures
        final(ctx).signer == old(ctx).signer,
        final(ctx).election_account == (ElectionAccount {
            winner: Some(winner),
            ..old(ctx).election_account
        }),
{
    ctx.election_account.winner = Some(winner);
}

// ---------------------------------------------------------------------------
// Laws

/// The election `InitializeElection` opens holds exactly what it was
/// given: its name, its time window, its bump, the payer as owner, no
/// candidates and no winner.
pub proof fn lemma_new_election_fields(
    name: String,
    start_time: i64,
    end_time: i64,
    bump: u8,
    owner: Pubkey,
)
    ensures
        ({
            let e = new_election(name, start_time, end_time, bump, owner);
            &&& e.name == name
            &&& e.start_time == start_time
            &&& e.end_time == end_time
            &&& e.bump == bump
            &&& e.owner == owner
            &&& e.total_candidates == 0
            &&& e.winner is None
        }),
{
}

/// Elections with different names or owners, and candidates with
/// different names or elections, have different addresses.
pub proof fn lemma_election_and_candidate_seeds_distinct(
    n1: Seq<char>,
    k1: Pubkey,
    n2: Seq<char>,
    k2: Pubkey,
)
    ensures
        election_seeds(n1, k1) == election_seeds(n2, k2) <==> (n1 == n2 && k1.bytes@
            == k2.bytes@),
        candidate_seeds(n1, k1) == candidate_seeds(n2, k2) <==> (n1 == n2 && k1.bytes@
            == k2.bytes@),
{
    if election_seeds(n1, k1) == election_seeds(n2, k2) || candidate_seeds(n1, k1)
        == candidate_seeds(n2, k2) {
        assert(election_seeds(n1, k1)[0] == election_seeds(n2, k2)[0] || candidate_seeds(n1, k1)[0]
            == candidate_seeds(n2, k2)[0]);
        assert(election_seeds(n1, k1)[1] == election_seeds(n2, k2)[1] || candidate_seeds(n1, k1)[1]
            == candidate_seeds(n2, k2)[1]);
        vstd::utf8::encode_utf8_decode_utf8(n1);
        vstd::utf8::encode_utf8_decode_utf8(n2);
    }
}

/// A payer's vote record in an election has one address, so a second vote
/// by the same payer in the same election would create the same account
/// again; different payers, or different elections, give different records.
pub proof fn lemma_one_vote_record_per_payer(e1: Pubkey, p1: Pubkey, e2: Pubkey, p2: Pubkey)
    ensures
        vote_seeds(e1, p1) == vote_seeds(e2, p2) <==> (e1.bytes@ == e2.bytes@ && p1.bytes@
            == p2.bytes@),
{
    if vote_seeds(e1, p1) == vote_seeds(e2, p2) {
        assert(vote_seeds(e1, p1)[1] == vote_seeds(e2, p2)[1]);
        assert(vote_seeds(e1, p1)[2] == vote_seeds(e2, p2)[2]);
    }
}

// ---------------------------------------------------------------------------
// The election's accounts over a run of instructions

/// An instruction of the election program, as far as the accounts it
/// creates and needs go.
pub enum ElectionInstruction {
    InitializeElection { payer: Pubkey, name: String },
    AddCandidate { election: Pubkey, name: String },
    Vote { election: Pubkey, payer: Pubkey, candidate_name: String },
    ChooseWinner,
}

/// The election program's accounts after an instruction, or `None` when it
/// is refused (and so changes nothing). `InitializeElection` creates the
/// election, `addCandidate` a candidate, and `vote` the payer's vote record
/// in the election, needing the candidate to exist; nothing is closed. An
/// instruction let through here may still be refused by its handler.
pub open spec fn election_accounts_after(existing: AccountSet, ix: ElectionInstruction) -> Option<
    AccountSet,
> {
    match ix {
        ElectionInstruction::InitializeElection { payer, name } => accounts_after_init(
            existing,
            seq![election_seeds(name@, payer)],
        ),
        ElectionInstruction::AddCandidate { election, name } => accounts_after_init(
            existing,
            seq![candidate_seeds(name@, election)],
        ),
        ElectionInstruction::Vote { election, payer, candidate_name } => {
            if existing.contains(candidate_seeds(candidate_name@, election)) {
                accounts_after_init(existing, seq![vote_seeds(election, payer)])
            } else {
                None
            }
        },
        ElectionInstruction::ChooseWinner => Some(existing),
    }
}

/// How many votes `payer` gets counted in `election` over a run of
/// instructions, each refused instruction leaving everything as it was.
pub open spec fn votes_counted(
    existing: AccountSet,
    ixs: Seq<ElectionInstruction>,
    election: Pubkey,
    payer: Pubkey,
) -> nat
    decreases ixs.len(),
{
    if ixs.len() == 0 {
        0
    } else {
        match election_accounts_after(existing, ixs[0]) {
            None => votes_counted(existing, ixs.drop_first(), election, payer),
            Some(next) => (if ixs[0] matches ElectionInstruction::Vote { election: e, payer: p, .. }
                && e.bytes@ == election.bytes@ && p.bytes@ == payer.bytes@ {
                1nat
            } else {
                0nat
            }) + votes_counted(next, ixs.drop_first(), election, payer),
        }
    }
}

/// One vote per payer per election: over any run of instructions at most
/// one vote of a payer in an election is counted, whatever candidates it
/// names, and none once the payer's vote record in that election exists.
pub proof fn lemma_one_vote_per_payer(
    existing: AccountSet,
    ixs: Seq<ElectionInstruction>,
    election: Pubkey,
    payer: Pubkey,
)
    ensures
        votes_counted(existing, ixs, election, payer) <= 1,
        existing.contains(vote_seeds(election, payer)) ==> votes_counted(
            existing,
            ixs,
            election,
            payer,
        ) == 0,
    decreases ixs.len(),
{
    if ixs.len() > 0 {
        let rest = ixs.drop_first();
        let record = vote_seeds(election, payer);
        match election_accounts_after(existing, ixs[0]) {
            None => {
                lemma_one_vote_per_payer(existing, rest, election, payer);
            },
            Some(next) => {
                lemma_one_vote_per_payer(next, rest, election, payer);
                match ixs[0] {
                    ElectionInstruction::InitializeElection { payer: p, name } => {
                        lemma_accounts_after_init(existing, seq![election_seeds(name@, p)]);
                    },
                    ElectionInstruction::AddCandidate { election: e, name } => {
                        lemma_accounts_after_init(existing, seq![candidate_seeds(name@, e)]);
                    },
                    ElectionInstruction::Vote { election: e, payer: p, candidate_name } => {
                        let created = seq![vote_seeds(e, p)];
                        lemma_accounts_after_init(existing, created);
                        if e.bytes@ == election.bytes@ && p.bytes@ == payer.bytes@ {
                            assert(created[0] == record);
                        }
                    },
                    ElectionInstruction::ChooseWinner => {},
                }
            },
        }
    }
}

} // verus!
