use anchor_programs::key::Pubkey;
use anchor_programs::voting::{
    candidate_address_seeds, initialize_candidate, initialize_poll, poll_address_seeds,
    u64_to_be_bytes, vote, CandidateAccount, InitializeCandidate, InitializePoll, PollAccount,
    Vote,
};

fn key(b: u8) -> Pubkey {
    Pubkey::new_from_array([b; 32])
}

fn blank_poll() -> PollAccount {
    PollAccount {
        poll_id: 0,
        description: String::new(),
        poll_start: 0,
        poll_end: 0,
        candidate_amount: 0,
    }
}

#[test]
fn initialize_poll_writes_fields() {
    let mut ctx = InitializePoll { signer: key(1), poll_account: blank_poll() };
    initialize_poll(&mut ctx, 7, "lunch".to_string(), 100, 200);
    let p = &ctx.poll_account;
    assert_eq!(p.poll_id, 7);
    assert_eq!(p.description, "lunch");
    assert_eq!((p.poll_start, p.poll_end), (100, 200));
    assert_eq!(p.candidate_amount, 0);
}

#[test]
fn initialize_candidate_counts() {
    let mut ctx = InitializeCandidate {
        signer: key(1),
        poll_account: PollAccount { candidate_amount: 2, ..blank_poll() },
        candidate_account: CandidateAccount { candidate_name: String::new(), candidaite_votes: 9 },
    };
    initialize_candidate(&mut ctx, "pizza".to_string(), 7);
    assert_eq!(ctx.poll_account.candidate_amount, 3);
    assert_eq!(ctx.candidate_account.candidate_name, "pizza");
    assert_eq!(ctx.candidate_account.candidaite_votes, 0);
}

#[test]
fn vote_adds_one_whatever_the_time() {
    let mut ctx = Vote {
        signer: key(1),
        poll_account: PollAccount { poll_start: 100, poll_end: 200, ..blank_poll() },
        candidate_account: CandidateAccount {
            candidate_name: "pizza".to_string(),
            candidaite_votes: u64::MAX - 1,
        },
    };
    vote(&mut ctx, "pizza".to_string(), 7);
    assert_eq!(ctx.candidate_account.candidaite_votes, u64::MAX);
    assert_eq!(ctx.poll_account.poll_start, 100);
}

#[test]
fn be_bytes_match_std() {
    for n in [0u64, 1, 255, 256, 0x0102030405060708, u64::MAX] {
        assert_eq!(u64_to_be_bytes(n), n.to_be_bytes().to_vec());
    }
}

#[test]
fn poll_and_candidate_addresses() {
    assert_eq!(poll_address_seeds(0x0102), vec![vec![0, 0, 0, 0, 0, 0, 1, 2]]);
    assert_ne!(poll_address_seeds(1), poll_address_seeds(256));
    let c = candidate_address_seeds(0x0102, "pizza");
    assert_eq!(c, vec![vec![0, 0, 0, 0, 0, 0, 1, 2], b"pizza".to_vec()]);
    assert_eq!(c[0], poll_address_seeds(0x0102)[0]);
}

#[test]
fn candidate_addresses_differ() {
    assert_ne!(candidate_address_seeds(1, "a"), candidate_address_seeds(2, "a"));
    assert_ne!(candidate_address_seeds(1, "a"), candidate_address_seeds(1, "b"));
}
