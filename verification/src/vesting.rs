//! A token-vesting registry: a company registers a vesting account under
//! its name, with a treasury token account, and its owner adds employees
//! with their vesting schedule.
use vstd::prelude::*;
use vstd::string::StringSliceAdditionalSpecFns;
use vstd::utf8::encode_utf8;
use crate::key::{
    Pubkey, text_seed, seeds3, seeds_view, AccountSet, accounts_after_init,
    lemma_accounts_after_init,
};

verus! {

/// The bytes that precede an account's data.
pub const ANCHOR_DISCRIMINATOR_SIZE: usize = 8;

/// A company's vesting account.
#[derive(Clone, Debug)]
pub struct VestingAccount {
    pub owner: Pubkey,
    pub mint: Pubkey,
    pub treasury_token_account: Pubkey,
    pub company_name: String,
    pub treasury_bump: u8,
    pub bump: u8,
}

/// An employee's vesting schedule.
#[derive(Clone, Copy, Debug)]
pub struct EmployeeAccount {
    pub beneficery: Pubkey,
    pub start_time: i64,
    pub end_time: i64,
    pub cliff_time: i64,
    pub vesting_account: Pubkey,
    pub total_amount: u64,
    pub total_withdraw: u64,
    pub bump: u8,
}

/// Accounts of `create_vesting_account`.
pub struct CreateVestingAccount {
    pub signer: Pubkey,
    pub vesting_account: VestingAccount,
    pub vesting_account_bump: u8,
    pub mint: Pubkey,
    pub treasury_token_account: Pubkey,
    pub treasury_token_account_bump: u8,
}

/// Accounts of `create_employee_account`.
pub struct CreateEmployeeAccount {
    pub owner: Pubkey,
    pub beneficery: Pubkey,
    pub vesting_account: VestingAccount,
    pub vesting_account_key: Pubkey,
    pub employee_account: EmployeeAccount,
    pub employee_account_bump: u8,
}

// ---------------------------------------------------------------------------
// Addresses

/// Seeds of a company's vesting account: the company's name.
pub open spec fn vesting_seeds(company_name: Seq<char>) -> Seq<Seq<u8>> {
    seq![encode_utf8(company_name)]
}

/// Seeds of a company's treasury token account.
pub open spec fn treasury_seeds(company_name: Seq<char>) -> Seq<Seq<u8>> {
    seq!["vesting_treasury".spec_bytes(), encode_utf8(company_name)]
}

/// Seeds of an employee's account under a vesting account.
pub open spec fn employee_seeds(beneficery: Pubkey, vesting_account: Pubkey) -> Seq<Seq<u8>> {
    seq!["employee_vesting".spec_bytes(), beneficery.bytes@, vesting_account.bytes@]
}

/// Seeds of a company's vesting account.
pub fn vesting_address_seeds(company_name: &str) -> (r: Vec<Vec<u8>>)
    ensures
        seeds_view(r@) == vesting_seeds(company_name@),
{
    let ghost v = seq![encode_utf8(company_name@)];
    let mut r: Vec<Vec<u8>> = Vec::new();
    r.push(text_seed(company_name));
    proof {
        assert(seeds_view(r@) =~= v);
    }
    r
}

/// Seeds of a company's treasury token account.
pub fn treasury_address_seeds(company_name: &str) -> (r: Vec<Vec<u8>>)
    ensures
        seeds_view(r@) == treasury_seeds(company_name@),
{
    crate::key::seeds2(text_seed("vesting_treasury"), text_seed(company_name))
}

/// Seeds of an employee's account.
pub fn employee_address_seeds(beneficery: &Pubkey, vesting_account: &Pubkey) -> (r: Vec<Vec<u8>>)
    ensures
        seeds_view(r@) == employee_seeds(*beneficery, *vesting_account),
{
    seeds3(text_seed("employee_vesting"), beneficery.as_seed(), vesting_account.as_seed())
}

impl CreateEmployeeAccount {
    /// Whether the signer owns the vesting account.
    pub fn has_one_owner(&self) -> (r: bool)
        ensures
            r == (self.vesting_account.owner.bytes@ == self.owner.bytes@),
    {
        self.vesting_account.owner == self.owner
    }
}

// ---------------------------------------------------------------------------
// Instructions

/// Registers the company's vesting account, owned by the signer, with the
/// mint and treasury it was created with.
pub fn create_vesting_account(ctx: &mut CreateVestingAccount, company_name: String)
    ensures
        final(ctx).signer == old(ctx).signer,
        final(ctx).mint == old(ctx).mint,
        final(ctx).treasury_token_account == old(ctx).treasury_token_account,
        final(ctx).vesting_account_bump == old(ctx).vesting_account_bump,
        final(ctx).treasury_token_account_bump == old(ctx).treasury_token_account_bump,
        final(ctx).vesting_account == (VestingAccount {
            owner: old(ctx).signer,
            mint: old(ctx).mint,
            treasury_token_account: old(ctx).treasury_token_account,
            company_name,
            treasury_bump: old(ctx).treasury_token_account_bump,
            bump: old(ctx).vesting_account_bump,
        }),
{
    ctx.vesting_account = VestingAccount {
        owner: ctx.signer,
        mint: ctx.mint,
        treasury_token_account: ctx.treasury_token_account,
        company_name,
        treasury_bump: ctx.treasury_token_account_bump,
        bump: ctx.vesting_account_bump,
    };
}

/// Adds an employee's schedule under the vesting account, with nothing
/// withdrawn yet. The times are not checked against one another.
pub fn create_employee_account(
    ctx: &mut CreateEmployeeAccount,
    start_time: i64,
    end_time: i64,
    total_amount: u64,
    cliff_time: i64,
)
    ensures
        final(ctx).owner == old(ctx).owner,
        final(ctx).beneficery == old(ctx).beneficery,
        final(ctx).vesting_account == old(ctx).vesting_account,
        final(ctx).vesting_account_key == old(ctx).vesting_account_key,
        final(ctx).employee_account_bump == old(ctx).employee_account_bump,
        final(ctx).employee_account == (EmployeeAccount {
            beneficery: old(ctx).beneficery,
            start_time,
            end_time,
            cliff_time,
            vesting_account: old(ctx).vesting_account_key,
            total_amount,
            total_withdraw: 0,
            bump: old(ctx).employee_account_bump,
        }),
{
    ctx.employee_account = EmployeeAccount {
        beneficery: ctx.beneficery,
        start_time,
        end_time,
        cliff_time,
        vesting_account: ctx.vesting_account_key,
        total_amount,
        total_withdraw: 0,
        bump: ctx.employee_account_bump,
    };
}

// ---------------------------------------------------------------------------
// Laws

/// One company name gives one vesting account and one treasury: different
/// names give different addresses.
pub proof fn lemma_company_seeds_distinct(a: Seq<char>, b: Seq<char>)
    ensures
        vesting_seeds(a) == vesting_seeds(b) <==> a == b,
        treasury_seeds(a) == treasury_seeds(b) <==> a == b,
{
    if vesting_seeds(a) == vesting_seeds(b) || treasury_seeds(a) == treasury_seeds(b) {
        assert(vesting_seeds(a)[0] == vesting_seeds(b)[0] || treasury_seeds(a)[1]
            == treasury_seeds(b)[1]);
        vstd::utf8::encode_utf8_decode_utf8(a);
        vstd::utf8::encode_utf8_decode_utf8(b);
    }
}

/// An employee has one schedule per vesting account: different employees,
/// or different vesting accounts, give different addresses.
pub proof fn lemma_employee_seeds_distinct(b1: Pubkey, v1: Pubkey, b2: Pubkey, v2: Pubkey)
    ensures
        employee_seeds(b1, v1) == employee_seeds(b2, v2) <==> (b1.bytes@ == b2.bytes@
            && v1.bytes@ == v2.bytes@),
{
    if employee_seeds(b1, v1) == employee_seeds(b2, v2) {
        assert(employee_seeds(b1, v1)[1] == employee_seeds(b2, v2)[1]);
        assert(employee_seeds(b1, v1)[2] == employee_seeds(b2, v2)[2]);
    }
}

// ---------------------------------------------------------------------------
// The registry's accounts over a run of instructions

/// An instruction of the vesting registry, as far as the accounts it
/// creates go.
pub enum VestingInstruction {
    CreateVestingAccount { company_name: String },
    CreateEmployeeAccount { beneficery: Pubkey, vesting_account: Pubkey },
}

/// The registry's accounts after an instruction, or `None` when it is
/// refused (and so changes nothing): `create_vesting_account` creates the
/// company's vesting account and treasury, `create_employee_account` the
/// employee's schedule; nothing is closed. An instruction let through here
/// may still be refused by its handler or its owner check.
pub open spec fn vesting_accounts_after(existing: AccountSet, ix: VestingInstruction) -> Option<
    AccountSet,
> {
    match ix {
        VestingInstruction::CreateVestingAccount { company_name } => accounts_after_init(
            existing,
            seq![vesting_seeds(company_name@), treasury_seeds(company_name@)],
        ),
        VestingInstruction::CreateEmployeeAccount { beneficery, vesting_account } =>
            accounts_after_init(existing, seq![employee_seeds(beneficery, vesting_account)]),
    }
}

/// How many vesting accounts for `company_name` are created over a run of
/// instructions, each refused instruction leaving the accounts as they were.
pub open spec fn vesting_accounts_created(
    existing: AccountSet,
    ixs: Seq<VestingInstruction>,
    company_name: Seq<char>,
) -> nat
    decreases ixs.len(),
{
    if ixs.len() == 0 {
        0
    } else {
        match vesting_accounts_after(existing, ixs[0]) {
            None => vesting_accounts_created(existing, ixs.drop_first(), company_name),
            Some(next) => (if ixs[0] matches VestingInstruction::CreateVestingAccount {
                company_name: c,
            } && c@ == company_name {
                1nat
            } else {
                0nat
            }) + vesting_accounts_created(next, ixs.drop_first(), company_name),
        }
    }
}

/// One vesting account per company name, whoever signs: over any run of
/// instructions at most one is created for a name, and none once that
/// name's vesting account exists.
pub proof fn lemma_one_vesting_account_per_company(
    existing: AccountSet,
    ixs: Seq<VestingInstruction>,
    company_name: Seq<char>,
)
    ensures
        vesting_accounts_created(existing, ixs, company_name) <= 1,
        existing.contains(vesting_seeds(company_name)) ==> vesting_accounts_created(
            existing,
            ixs,
            company_name,
        ) == 0,
    decreases ixs.len(),
{
    if ixs.len() > 0 {
        let rest = ixs.drop_first();
        match vesting_accounts_after(existing, ixs[0]) {
            None => {
                lemma_one_vesting_account_per_company(existing, rest, company_name);
            },
            Some(next) => {
                lemma_one_vesting_account_per_company(next, rest, company_name);
                match ixs[0] {
                    VestingInstruction::CreateVestingAccount { company_name: c } => {
                        let created = seq![vesting_seeds(c@), treasury_seeds(c@)];
                        lemma_accounts_after_init(existing, created);
                        if c@ == company_name {
                            assert(created[0] == vesting_seeds(company_name));
                        }
                    },
                    VestingInstruction::CreateEmployeeAccount { beneficery, vesting_account } => {
                        lemma_accounts_after_init(
                            existing,
                            seq![employee_seeds(beneficery, vesting_account)],
                        );
                    },
                }
            },
        }
    }
}

} // verus!
