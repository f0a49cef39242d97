use anchor_programs::key::Pubkey;
use anchor_programs::todo::{
    add_todo, initialize_user, mark_todo, AddTodo, InitializeUser, MarkTodo, TodoAccount,
    TodoError, UserProfile,
};

fn key(b: u8) -> Pubkey {
    Pubkey::new_from_array([b; 32])
}

#[test]
fn defaults_are_zero() {
    let p = UserProfile::default();
    assert_eq!(p.authority, key(0));
    assert_eq!((p.last_todo, p.todo_count), (0, 0));
    let t = TodoAccount::default();
    assert_eq!(t.authority, key(0));
    assert_eq!(t.idx, 0);
    assert_eq!(t.content, "");
    assert!(!t.marked);
}

#[test]
fn initialize_user_starts_empty() {
    let mut ctx = InitializeUser {
        authority: key(1),
        user_profile: UserProfile { authority: key(9), last_todo: 4, todo_count: 3 },
    };
    assert!(initialize_user(&mut ctx).is_ok());
    assert_eq!(ctx.user_profile.authority, key(1));
    assert_eq!((ctx.user_profile.last_todo, ctx.user_profile.todo_count), (0, 0));
}

#[test]
fn add_todo_numbers_consecutively() {
    let mut profile = UserProfile { authority: key(1), last_todo: 0, todo_count: 0 };
    for expected in 0u8..3 {
        let mut ctx =
            AddTodo { user_profile: profile, authority: key(1), todo_account: TodoAccount::default() };
        assert!(ctx.has_one_authority());
        assert!(add_todo(&mut ctx, format!("task {expected}")).is_ok());
        assert_eq!(ctx.todo_account.idx, expected);
        assert_eq!(ctx.todo_account.content, format!("task {expected}"));
        assert_eq!(ctx.todo_account.authority, key(1));
        assert!(!ctx.todo_account.marked);
        profile = ctx.user_profile;
        assert_eq!(profile.last_todo, expected + 1);
        assert_eq!(profile.todo_count, expected + 1);
    }
}

#[test]
fn add_todo_checks_owner() {
    let ctx = AddTodo {
        user_profile: UserProfile { authority: key(1), last_todo: 0, todo_count: 0 },
        authority: key(2),
        todo_account: TodoAccount::default(),
    };
    assert!(!ctx.has_one_authority());
}

fn mark_ctx(marked: bool) -> MarkTodo {
    MarkTodo {
        user_profile: UserProfile { authority: key(1), last_todo: 3, todo_count: 3 },
        todo_account: TodoAccount {
            authority: key(1),
            idx: 2,
            content: "x".to_string(),
            marked,
        },
        authority: key(1),
    }
}

#[test]
fn mark_todo_once() {
    let mut ctx = mark_ctx(false);
    assert!(ctx.has_one_authority());
    assert_eq!(mark_todo(&mut ctx, 2), Ok(()));
    assert!(ctx.todo_account.marked);
    assert_eq!(ctx.todo_account.idx, 2);
    assert_eq!(mark_todo(&mut ctx, 2), Err(TodoError::AlreadyMarked));
    assert!(ctx.todo_account.marked);
}

#[test]
fn mark_todo_checks_both_owners() {
    let mut ctx = mark_ctx(false);
    ctx.todo_account.authority = key(2);
    assert!(!ctx.has_one_authority());
}
