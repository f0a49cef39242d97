//! A lamport vault: each signer owns one vault at an address derived from
//! its key; a single deposit fills an empty vault, and a withdrawal sends the
//! whole vault back, signed by the vault's address.
//!
//! The instructions return the transfer they ask the system program to make.
use vstd::prelude::*;
use vstd::string::StringSliceAdditionalSpecFns;
use crate::key::{Pubkey, text_seed, byte_seed, seeds2, seeds3, seeds_view};

verus! {

/// Errors of the vault.
#[derive(Clone, Copy, Debug, PartialEq, Eq, Structural)]
pub enum VaultError {
    VaultAlreadyExists,
    InvalidAmount,
}

/// Accounts of `initialize`: none.
pub struct Initialize {}

/// Accounts of `deposit` and `withdraw`: the signer, its vault and the
/// vault's balance and bump.
pub struct VaultAction {
    pub signer: Pubkey,
    pub vault: Pubkey,
    pub vault_lamports: u64,
    pub vault_bump: u8,
}

/// A transfer of lamports by the system program.
#[derive(Clone, Copy, Debug, PartialEq, Eq)]
pub struct Transfer {
    pub from: Pubkey,
    pub to: Pubkey,
    pub lamports: u64,
}

/// A transfer signed by a program-derived address with `signer_seeds`.
#[derive(Clone, Debug)]
pub struct SignedTransfer {
    pub transfer: Transfer,
    pub signer_seeds: Vec<Vec<u8>>,
}

/// Seeds of the vault of a signer.
pub open spec fn vault_seeds(signer: Pubkey) -> Seq<Seq<u8>> {
    seq!["vault".spec_bytes(), signer.bytes@]
}

impl VaultAction {
    /// Seeds of the vault's address.
    pub fn vault_address_seeds(&self) -> (r: Vec<Vec<u8>>)
        ensures
            seeds_view(r@) == vault_seeds(self.signer),
    {
        seeds2(text_seed("vault"), self.signer.as_seed())
    }
}

/// Does nothing but succeed.
pub fn initialize(ctx: &Initialize) -> (r: Result<(), VaultError>)
    ensures
        r is Ok,
{
    Ok(())
}

/// What a deposit of `amount` decides, given the least balance that keeps an
/// empty account alive (`rent_exempt_minimum`): a vault that holds lamports
/// already is refused, so is an amount that does not exceed that minimum;
/// otherwise the amount moves from the signer to the vault.
pub open spec fn deposit_outcome(ctx: VaultAction, amount: u64, rent_exempt_minimum: u64) -> Result<
    Transfer,
    VaultError,
> {
    if ctx.vault_lamports != 0 {
        Err(VaultError::VaultAlreadyExists)
    } else if amount <= rent_exempt_minimum {
        Err(VaultError::InvalidAmount)
    } else {
        Ok(Transfer { from: ctx.signer, to: ctx.vault, lamports: amount })
    }
}

/// Refuses a vault that holds lamports already: the first check of a
/// deposit, made before the rent sysvar is read.
pub fn check_vault_empty(ctx: &VaultAction) -> (r: Result<(), VaultError>)
    ensures
        r == (if ctx.vault_lamports == 0 {
            Ok::<(), VaultError>(())
        } else {
            Err(VaultError::VaultAlreadyExists)
        }),
{
    if ctx.vault_lamports != 0 {
        return Err(VaultError::VaultAlreadyExists);
    }
    Ok(())
}

/// Deposits `amount` lamports into the signer's empty vault.
pub fn deposit(ctx: &VaultAction, amount: u64, rent_exempt_minimum: u64) -> (r: Result<
    Transfer,
    VaultError,
>)
    ensures
        r == deposit_outcome(*ctx, amount, rent_exempt_minimum),
{
    check_vault_empty(ctx)?;
    if !(amount > rent_exempt_minimum) {
        return Err(VaultError::InvalidAmount);
    }
    Ok(Transfer { from: ctx.signer, to: ctx.vault, lamports: amount })
}

/// The transfer a withdrawal asks for: the whole vault, back to the signer.
pub open spec fn withdrawal(ctx: VaultAction) -> Transfer {
    Transfer { from: ctx.vault, to: ctx.signer, lamports: ctx.vault_lamports }
}

/// Withdraws the whole vault to the signer. The vault signs with its own
/// address seeds followed by its bump.
pub fn withdraw(ctx: &VaultAction) -> (r: SignedTransfer)
    ensures
        r.transfer == withdrawal(*ctx),
        seeds_view(r.signer_seeds@) == vault_seeds(ctx.signer).push(seq![ctx.vault_bump]),
{
    let signer_seeds = seeds3(text_seed("vault"), ctx.signer.as_seed(), byte_seed(ctx.vault_bump));
    proof {
        assert(seq!["vault".spec_bytes(), ctx.signer.bytes@, seq![ctx.vault_bump]] =~= vault_seeds(
            ctx.signer,
        ).push(seq![ctx.vault_bump]));
    }
    SignedTransfer {
        transfer: Transfer { from: ctx.vault, to: ctx.signer, lamports: ctx.vault_lamports },
        signer_seeds,
    }
}

/// A deposit that went through, once its transfer has been made, is given
/// back whole by the next withdrawal, to the same signer.
pub proof fn lemma_withdraw_returns_deposit(ctx: VaultAction, amount: u64, rent_exempt_minimum: u64)
    requires
        deposit_outcome(ctx, amount, rent_exempt_minimum) is Ok,
    ensures
        ({
            let filled = VaultAction { vault_lamports: amount, ..ctx };
            let back = withdrawal(filled);
            &&& back.from == ctx.vault
            &&& back.to == ctx.signer
            &&& back.lamports == amount
            &&& back.lamports == ctx.vault_lamports + amount
        }),
{
}

/// A deposit into a vault that holds lamports is refused, whatever the
/// amount: a vault is filled once.
pub proof fn lemma_single_deposit(ctx: VaultAction, amount: u64, rent_exempt_minimum: u64)
    requires
        ctx.vault_lamports > 0,
    ensures
        deposit_outcome(ctx, amount, rent_exempt_minimum) == Err::<Transfer, VaultError>(
            VaultError::VaultAlreadyExists,
        ),
{
}

/// A deposit is accepted exactly into an empty vault and for an amount
/// above the rent minimum, and then moves exactly that amount from the
/// signer to the vault. A vault holding lamports is refused with
/// `VaultAlreadyExists`, otherwise a too small amount with `InvalidAmount`.
pub proof fn lemma_deposit_exactly(ctx: VaultAction, amount: u64, rent_exempt_minimum: u64)
    ensures
        deposit_outcome(ctx, amount, rent_exempt_minimum) is Ok <==> (ctx.vault_lamports == 0
            && amount > rent_exempt_minimum),
        deposit_outcome(ctx, amount, rent_exempt_minimum) matches Ok(t) ==> t.from == ctx.signer
            && t.to == ctx.vault && t.lamports == amount,
        ctx.vault_lamports != 0 ==> deposit_outcome(ctx, amount, rent_exempt_minimum) == Err::<
            Transfer,
            VaultError,
        >(VaultError::VaultAlreadyExists),
        ctx.vault_lamports == 0 && amount <= rent_exempt_minimum ==> deposit_outcome(
            ctx,
            amount,
            rent_exempt_minimum,
        ) == Err::<Transfer, VaultError>(VaultError::InvalidAmount),
{
}

/// A withdrawal moves every lamport of the vault to the signer.
pub proof fn lemma_withdrawal_exactly(ctx: VaultAction)
    ensures
        withdrawal(ctx).from == ctx.vault,
        withdrawal(ctx).to == ctx.signer,
        withdrawal(ctx).lamports == ctx.vault_lamports,
{
}

/// Each signer has its own vault: different signers give different vault
/// addresses.
pub proof fn lemma_vault_seeds_distinct(a: Pubkey, b: Pubkey)
    ensures
        vault_seeds(a) == vault_seeds(b) <==> a.bytes@ == b.bytes@,
{
    if vault_seeds(a) == vault_seeds(b) {
        assert(vault_seeds(a)[1] == vault_seeds(b)[1]);
    }
}

} // verus!
