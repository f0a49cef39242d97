use anchor_programs::key::Pubkey;
use anchor_programs::vesting::{
    create_employee_account, create_vesting_account, employee_address_seeds,
    treasury_address_seeds, vesting_address_seeds, CreateEmployeeAccount, CreateVestingAccount,
    EmployeeAccount, VestingAccount, ANCHOR_DISCRIMINATOR_SIZE,
};

fn key(b: u8) -> Pubkey {
    Pubkey::new_from_array([b; 32])
}

fn blank_vesting() -> VestingAccount {
    VestingAccount {
        owner: key(0),
        mint: key(0),
        treasury_token_account: key(0),
        company_name: String::new(),
        treasury_bump: 0,
        bump: 0,
    }
}

fn blank_employee() -> EmployeeAccount {
    EmployeeAccount {
        beneficery: key(0),
        start_time: 0,
        end_time: 0,
        cliff_time: 0,
        vesting_account: key(0),
        total_amount: 0,
        total_withdraw: 0,
        bump: 0,
    }
}

#[test]
fn create_vesting_account_writes_all() {
    assert_eq!(ANCHOR_DISCRIMINATOR_SIZE, 8);
    let mut ctx = CreateVestingAccount {
        signer: key(1),
        vesting_account: blank_vesting(),
        vesting_account_bump: 254,
        mint: key(2),
        treasury_token_account: key(3),
        treasury_token_account_bump: 253,
    };
    create_vesting_account(&mut ctx, "acme".to_string());
    let v = &ctx.vesting_account;
    assert_eq!(v.owner, key(1));
    assert_eq!(v.mint, key(2));
    assert_eq!(v.treasury_token_account, key(3));
    assert_eq!(v.company_name, "acme");
    assert_eq!((v.treasury_bump, v.bump), (253, 254));
}

#[test]
fn create_employee_account_writes_schedule() {
    let mut ctx = CreateEmployeeAccount {
        owner: key(1),
        beneficery: key(4),
        vesting_account: VestingAccount { owner: key(1), ..blank_vesting() },
        vesting_account_key: key(6),
        employee_account: blank_employee(),
        employee_account_bump: 252,
    };
    assert!(ctx.has_one_owner());
    create_employee_account(&mut ctx, 100, 1000, 5000, 200);
    let e = ctx.employee_account;
    assert_eq!(e.beneficery, key(4));
    assert_eq!((e.start_time, e.end_time, e.cliff_time), (100, 1000, 200));
    assert_eq!(e.vesting_account, key(6));
    assert_eq!(e.total_amount, 5000);
    assert_eq!(e.total_withdraw, 0);
    assert_eq!(e.bump, 252);
}

#[test]
fn employee_owner_check() {
    let ctx = CreateEmployeeAccount {
        owner: key(2),
        beneficery: key(4),
        vesting_account: VestingAccount { owner: key(1), ..blank_vesting() },
        vesting_account_key: key(6),
        employee_account: blank_employee(),
        employee_account_bump: 0,
    };
    assert!(!ctx.has_one_owner());
}

#[test]
fn vesting_addresses() {
    assert_eq!(vesting_address_seeds("acme"), vec![b"acme".to_vec()]);
    assert_eq!(
        treasury_address_seeds("acme"),
        vec![b"vesting_treasury".to_vec(), b"acme".to_vec()]
    );
    assert_eq!(
        employee_address_seeds(&key(4), &key(6)),
        vec![b"employee_vesting".to_vec(), vec![4; 32], vec![6; 32]]
    );
    assert_ne!(vesting_address_seeds("acme"), vesting_address_seeds("acne"));
}
