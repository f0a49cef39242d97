use anchor_programs::key::Pubkey;
use anchor_programs::vault::{
    check_vault_empty, deposit, initialize, withdraw, Initialize, Transfer, VaultAction, VaultError,
};

fn key(b: u8) -> Pubkey {
    Pubkey::new_from_array([b; 32])
}

fn ctx(vault_lamports: u64) -> VaultAction {
    VaultAction { signer: key(1), vault: key(2), vault_lamports, vault_bump: 251 }
}

#[test]
fn initialize_succeeds() {
    assert!(initialize(&Initialize {}).is_ok());
}

#[test]
fn deposit_into_empty_vault() {
    let t = deposit(&ctx(0), 1_000_000, 890_880).unwrap();
    assert_eq!(t, Transfer { from: key(1), to: key(2), lamports: 1_000_000 });
}

#[test]
fn deposit_refuses_filled_vault() {
    assert_eq!(deposit(&ctx(5), 1_000_000, 890_880), Err(VaultError::VaultAlreadyExists));
    // the filled vault is reported even when the amount is also too small
    assert_eq!(deposit(&ctx(5), 1, 890_880), Err(VaultError::VaultAlreadyExists));
}

#[test]
fn deposit_must_exceed_rent_minimum() {
    assert_eq!(deposit(&ctx(0), 890_880, 890_880), Err(VaultError::InvalidAmount));
    assert_eq!(deposit(&ctx(0), 0, 0), Err(VaultError::InvalidAmount));
    assert!(deposit(&ctx(0), 890_881, 890_880).is_ok());
}

#[test]
fn withdraw_returns_whole_vault_signed_by_vault() {
    let w = withdraw(&ctx(1_000_000));
    assert_eq!(w.transfer, Transfer { from: key(2), to: key(1), lamports: 1_000_000 });
    assert_eq!(w.signer_seeds, vec![b"vault".to_vec(), vec![1; 32], vec![251]]);
    let mut seeds = ctx(0).vault_address_seeds();
    seeds.push(vec![251]);
    assert_eq!(w.signer_seeds, seeds);
}

#[test]
fn deposit_then_withdraw_gives_amount_back() {
    let c = ctx(0);
    let t = deposit(&c, 2_000_000, 890_880).unwrap();
    let filled = VaultAction { vault_lamports: c.vault_lamports + t.lamports, ..c };
    let w = withdraw(&filled);
    assert_eq!(w.transfer.lamports, 2_000_000);
    assert_eq!(w.transfer.to, key(1));
    assert_eq!(deposit(&filled, 2_000_000, 890_880), Err(VaultError::VaultAlreadyExists));
}

#[test]
fn vault_empty_check() {
    assert_eq!(check_vault_empty(&ctx(0)), Ok(()));
    assert_eq!(check_vault_empty(&ctx(1)), Err(VaultError::VaultAlreadyExists));
}
