//! A poll: a poll is opened under a number, candidates are added to it under
//! their names, and votes are counted per candidate.
//!
//! Counts are 64-bit; a count that would pass `u64::MAX` stops the
//! instruction, so the instructions here require that it cannot.
use vstd::prelude::*;
use vstd::utf8::encode_utf8;
use crate::key::{text_seed, seeds_view};

verus! {

/// A poll.
#[derive(Clone, Debug)]
pub struct PollAccount {
    pub poll_id: u64,
    pub description: String,
    pub poll_start: u64,
    pub poll_end: u64,
    pub candidate_amount: u64,
}

/// A candidate of a poll.
#[derive(Clone, Debug)]
pub struct CandidateAccount {
    pub candidate_name: String,
    pub candidaite_votes: u64,
}

/// Accounts of `initialize_poll`.
pub struct InitializePoll {
    pub signer: crate::key::Pubkey,
    pub poll_account: PollAccount,
}

/// Accounts of `initialize_candidate`.
pub struct InitializeCandidate {
    pub signer: crate::key::Pubkey,
    pub poll_account: PollAccount,
    pub candidate_account: CandidateAccount,
}

/// Accounts of `vote`.
pub struct Vote {
    pub signer: crate::key::Pubkey,
    pub poll_account: PollAccount,
    pub candidate_account: CandidateAccount,
}

// ---------------------------------------------------------------------------
// Addresses

/// The eight bytes of `n`, most significant first.
pub open spec fn be_bytes(n: u64) -> Seq<u8> {
    seq![
        (n >> 56u64) as u8,
        (n >> 48u64) as u8,
        (n >> 40u64) as u8,
        (n >> 32u64) as u8,
        (n >> 24u64) as u8,
        (n >> 16u64) as u8,
        (n >> 8u64) as u8,
        n as u8,
    ]
}

/// The number whose big-endian bytes these are.
pub open spec fn from_be_bytes(b: Seq<u8>) -> u64 {
    ((b[0] as u64) << 56u64) | ((b[1] as u64) << 48u64) | ((b[2] as u64) << 40u64) | ((
    b[3] as u64) << 32u64) | ((b[4] as u64) << 24u64) | ((b[5] as u64) << 16u64) | ((
    b[6] as u64) << 8u64) | (b[7] as u64)
}

/// The big-endian bytes of `n`, as `n.to_be_bytes()` gives them.
pub fn u64_to_be_bytes(n: u64) -> (r: Vec<u8>)
    ensures
        r@ == be_bytes(n),
{
    let mut r: Vec<u8> = Vec::new();
    r.push((n >> 56u64) as u8);
    r.push((n >> 48u64) as u8);
    r.push((n >> 40u64) as u8);
    r.push((n >> 32u64) as u8);
    r.push((n >> 24u64) as u8);
    r.push((n >> 16u64) as u8);
    r.push((n >> 8u64) as u8);
    r.push(n as u8);
    proof {
        assert(r@ =~= be_bytes(n));
    }
    r
}

/// Reading the big-endian bytes of a number gives the number back.
pub proof fn lemma_be_bytes_round_trip(n: u64)
    ensures
        from_be_bytes(be_bytes(n)) == n,
{
    let b = be_bytes(n);
    let (b0, b1, b2, b3, b4, b5, b6, b7) = (b[0], b[1], b[2], b[3], b[4], b[5], b[6], b[7]);
    assert(b0 == (n >> 56u64) as u8 && b1 == (n >> 48u64) as u8 && b2 == (n >> 40u64) as u8
        && b3 == (n >> 32u64) as u8 && b4 == (n >> 24u64) as u8 && b5 == (n >> 16u64) as u8
        && b6 == (n >> 8u64) as u8 && b7 == n as u8);
    assert(((b0 as u64) << 56u64) | ((b1 as u64) << 48u64) | ((b2 as u64) << 40u64) | ((
    b3 as u64) << 32u64) | ((b4 as u64) << 24u64) | ((b5 as u64) << 16u64) | ((b6 as u64)
        << 8u64) | (b7 as u64) == n) by (bit_vector)
        requires
            b0 == (n >> 56u64) as u8,
            b1 == (n >> 48u64) as u8,
            b2 == (n >> 40u64) as u8,
            b3 == (n >> 32u64) as u8,
            b4 == (n >> 24u64) as u8,
            b5 == (n >> 16u64) as u8,
            b6 == (n >> 8u64) as u8,
            b7 == n as u8,
    ;
}

/// The big-endian bytes of a number are its base-256 digits, most
/// significant first.
pub proof fn lemma_be_bytes_digits(n: u64)
    ensures
        be_bytes(n).len() == 8,
        be_bytes(n)[0] == n / 0x100_0000_0000_0000,
        be_bytes(n)[1] == (n / 0x1_0000_0000_0000) % 0x100,
        be_bytes(n)[2] == (n / 0x100_0000_0000) % 0x100,
        be_bytes(n)[3] == (n / 0x1_0000_0000) % 0x100,
        be_bytes(n)[4] == (n / 0x100_0000) % 0x100,
        be_bytes(n)[5] == (n / 0x1_0000) % 0x100,
        be_bytes(n)[6] == (n / 0x100) % 0x100,
        be_bytes(n)[7] == n % 0x100,
{
    assert((n >> 56u64) as u8 == n / 0x100_0000_0000_0000u64) by (bit_vector);
    assert((n >> 48u64) as u8 == (n / 0x1_0000_0000_0000u64) % 0x100) by (bit_vector);
    assert((n >> 40u64) as u8 == (n / 0x100_0000_0000u64) % 0x100) by (bit_vector);
    assert((n >> 32u64) as u8 == (n / 0x1_0000_0000u64) % 0x100) by (bit_vector);
    assert((n >> 24u64) as u8 == (n / 0x100_0000u64) % 0x100) by (bit_vector);
    assert((n >> 16u64) as u8 == (n / 0x1_0000u64) % 0x100) by (bit_vector);
    assert((n >> 8u64) as u8 == (n / 0x100u64) % 0x100) by (bit_vector);
    assert(n as u8 == n % 0x100) by (bit_vector);
}

/// Seeds of a poll's address: its number in big-endian bytes.
pub open spec fn poll_seeds(poll_id: u64) -> Seq<Seq<u8>> {
    seq![be_bytes(poll_id)]
}

/// Seeds of a candidate's address: its poll's number and its name.
pub open spec fn candidate_seeds(poll_id: u64, candidate_name: Seq<char>) -> Seq<Seq<u8>> {
    seq![be_bytes(poll_id), encode_utf8(candidate_name)]
}

/// Seeds of a poll's address.
pub fn poll_address_seeds(poll_id: u64) -> (r: Vec<Vec<u8>>)
    ensures
        seeds_view(r@) == poll_seeds(poll_id),
{
    let ghost v = seq![be_bytes(poll_id)];
    let mut r: Vec<Vec<u8>> = Vec::new();
    r.push(u64_to_be_bytes(poll_id));
    proof {
        assert(seeds_view(r@) =~= v);
    }
    r
}

/// Seeds of a candidate's address.
pub fn candidate_address_seeds(poll_id: u64, candidate_name: &str) -> (r: Vec<Vec<u8>>)
    ensures
        seeds_view(r@) == candidate_seeds(poll_id, candidate_name@),
{
    crate::key::seeds2(u64_to_be_bytes(poll_id), text_seed(candidate_name))
}

// ---------------------------------------------------------------------------
// Instructions

/// Opens poll `poll_id` with its description and time window, and no
/// candidates.
pub fn initialize_poll(
    ctx: &mut InitializePoll,
    poll_id: u64,
    description: String,
    poll_start: u64,
    poll_ends: u64,
)
    ensures
        final(ctx).signer == old(ctx).signer,
        final(ctx).poll_account == (PollAccount {
            poll_id,
            description,
            poll_start,
            poll_end: poll_ends,
            candidate_amount: 0,
        }),
{
    ctx.poll_account.poll_id = poll_id;
    ctx.poll_account.description = description;
    ctx.poll_account.poll_start = poll_start;
    ctx.poll_account.poll_end = poll_ends;
    ctx.poll_account.candidate_amount = 0;
}

/// Adds a candidate with no votes; the poll counts one more candidate.
pub fn initialize_candidate(ctx: &mut InitializeCandidate, candidate_name: String, _poll_id: u64)
    requires
        old(ctx).poll_account.candidate_amount < u64::MAX,
    ensures
        final(ctx).signer == old(ctx).signer,
        final(ctx).poll_account == (PollAccount {
            candidate_amount: (old(ctx).poll_account.candidate_amount + 1) as u64,
            ..old(ctx).poll_account
        }),
        final(ctx).candidate_account == (CandidateAccount { candidate_name, candidaite_votes: 0 }),
{
    ctx.poll_account.candidate_amount = ctx.poll_account.candidate_amount + 1;
    ctx.candidate_account.candidate_name = candidate_name;
    ctx.candidate_account.candidaite_votes = 0;
}

/// Counts one more vote for the candidate. The poll's time window is not
/// consulted, and nothing records who voted.
pub fn vote(ctx: &mut Vote, _candidate_name: String, _poll_id: u64)
    requires
        old(ctx).candidate_account.candidaite_votes < u64::MAX,
    ensures
        final(ctx).signer == old(ctx).signer,
        final(ctx).poll_account == old(ctx).poll_account,
        final(ctx).candidate_account == (CandidateAccount {
            candidaite_votes: (old(ctx).candidate_account.candidaite_votes + 1) as u64,
            ..old(ctx).candidate_account
        }),
{
    ctx.candidate_account.candidaite_votes = ctx.candidate_account.candidaite_votes + 1;
}

// ---------------------------------------------------------------------------
// Laws

/// Different polls have different addresses: the seeds give back the poll's
/// number.
pub proof fn lemma_poll_seeds_distinct(a: u64, b: u64)
    ensures
        poll_seeds(a) == poll_seeds(b) <==> a == b,
{
    if poll_seeds(a) == poll_seeds(b) {
        assert(poll_seeds(a)[0] == poll_seeds(b)[0]);
        lemma_be_bytes_round_trip(a);
        lemma_be_bytes_round_trip(b);
    }
}

/// Two candidates have the same address only when they belong to the same
/// poll and bear the same name.
pub proof fn lemma_candidate_seeds_distinct(a: u64, na: Seq<char>, b: u64, nb: Seq<char>)
    ensures
        candidate_seeds(a, na) == candidate_seeds(b, nb) <==> (a == b && na == nb),
{
    if candidate_seeds(a, na) == candidate_seeds(b, nb) {
        assert(candidate_seeds(a, na)[0] == candidate_seeds(b, nb)[0]);
        assert(candidate_seeds(a, na)[1] == candidate_seeds(b, nb)[1]);
        lemma_be_bytes_round_trip(a);
        lemma_be_bytes_round_trip(b);
        vstd::utf8::encode_utf8_decode_utf8(na);
        vstd::utf8::encode_utf8_decode_utf8(nb);
    }
}

} // verus!
