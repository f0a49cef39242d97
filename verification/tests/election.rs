use anchor_programs::election::{
    addCandidate, candidate_address_seeds, election_address_seeds, vote, vote_address_seeds,
    AddCandidate, CandidateAccount, ChooseWinner, ElectionAccount, InitializeElection, Vote,
    VoteAccount,
};
use anchor_programs::key::Pubkey;

fn key(b: u8) -> Pubkey {
    Pubkey::new_from_array([b; 32])
}

fn blank_election() -> ElectionAccount {
    ElectionAccount {
        name: String::new(),
        total_candidates: 0,
        start_time: 0,
        end_time: 0,
        winner: None,
        bump: 0,
        owner: key(0),
    }
}

fn blank_candidate() -> CandidateAccount {
    CandidateAccount { name: String::new(), total_votes: 0, election_account: key(0) }
}

fn election(total_candidates: u8) -> ElectionAccount {
    ElectionAccount {
        name: "board".to_string(),
        total_candidates,
        start_time: 10,
        end_time: 20,
        winner: None,
        bump: 250,
        owner: key(1),
    }
}

#[test]
fn initialize_election_writes_owner_and_bump() {
    let mut ctx = InitializeElection {
        payer: key(1),
        election_account: blank_election(),
        election_account_bump: 250,
    };
    anchor_programs::election::InitializeElection(&mut ctx, "board".to_string(), 10, 20);
    let e = &ctx.election_account;
    assert_eq!(e.name, "board");
    assert_eq!((e.start_time, e.end_time), (10, 20));
    assert_eq!(e.total_candidates, 0);
    assert_eq!(e.winner, None);
    assert_eq!(e.bump, 250);
    assert_eq!(e.owner, key(1));
    assert_eq!(e.address_seeds(), election_address_seeds("board", &key(1)));
    assert_eq!(e.address_seeds(), vec![b"board".to_vec(), vec![1; 32]]);
}

#[test]
fn add_candidate_counts_candidates() {
    let mut ctx = AddCandidate {
        payer: key(3),
        election_account: election(4),
        election_account_key: key(7),
        candidate_account: blank_candidate(),
    };
    addCandidate(&mut ctx, "alice".to_string());
    assert_eq!(ctx.election_account.total_candidates, 5);
    assert_eq!(ctx.candidate_account.name, "alice");
    assert_eq!(ctx.candidate_account.total_votes, 0);
    assert_eq!(ctx.candidate_account.election_account, key(7));
    assert_eq!(
        ctx.candidate_account.address_seeds(&key(7)),
        candidate_address_seeds("alice", &key(7))
    );
}

#[test]
fn add_candidate_up_to_255() {
    let mut ctx = AddCandidate {
        payer: key(3),
        election_account: election(254),
        election_account_key: key(7),
        candidate_account: blank_candidate(),
    };
    addCandidate(&mut ctx, "z".to_string());
    assert_eq!(ctx.election_account.total_candidates, 255);
}

#[test]
fn vote_adds_one() {
    let mut ctx = Vote {
        payer: key(3),
        election_account: election(1),
        election_account_key: key(7),
        vote_account: VoteAccount { bump: 0 },
        candidate_account: CandidateAccount {
            name: "alice".to_string(),
            total_votes: 41,
            election_account: key(7),
        },
    };
    vote(&mut ctx);
    assert_eq!(ctx.candidate_account.total_votes, 42);
    assert_eq!(ctx.vote_account, VoteAccount { bump: 0 });
    assert_eq!(ctx.election_account.total_candidates, 1);
}

#[test]
fn choose_winner_by_anyone() {
    let mut ctx = ChooseWinner { signer: key(9), election_account: election(2) };
    anchor_programs::election::ChooseWinner(&mut ctx, key(4));
    assert_eq!(ctx.election_account.winner, Some(key(4)));
    anchor_programs::election::ChooseWinner(&mut ctx, key(5));
    assert_eq!(ctx.election_account.winner, Some(key(5)));
}

#[test]
fn vote_record_addresses() {
    assert_eq!(
        vote_address_seeds(&key(7), &key(3)),
        vec![b"vote".to_vec(), vec![7; 32], vec![3; 32]]
    );
    assert_ne!(vote_address_seeds(&key(7), &key(3)), vote_address_seeds(&key(7), &key(4)));
}

#[test]
fn second_vote_targets_same_record() {
    let first = vote_address_seeds(&key(7), &key(3));
    let mut v = Vote {
        payer: key(3),
        election_account: election(2),
        election_account_key: key(7),
        vote_account: VoteAccount { bump: 0 },
        candidate_account: CandidateAccount {
            name: "bob".to_string(),
            total_votes: 0,
            election_account: key(7),
        },
    };
    vote(&mut v);
    assert_eq!(vote_address_seeds(&v.election_account_key, &v.payer), first);
}
