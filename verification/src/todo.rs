//! A todo list: a user profile numbers its todos from 0, each todo is stored
//! under its number, and a todo can be marked done once.
//!
//! The numbers are single bytes; a number that would pass 255 stops the
//! instruction, so `add_todo` requires that it cannot.
use vstd::prelude::*;
use crate::key::Pubkey;

verus! {

/// Errors of the todo list.
#[derive(Clone, Copy, Debug, PartialEq, Eq, Structural)]
pub enum TodoError {
    AlreadyMarked,
}

/// A user's profile: the number the next todo gets, and how many todos the
/// user has added.
#[derive(Clone, Copy, Debug)]
pub struct UserProfile {
    pub authority: Pubkey,
    pub last_todo: u8,
    pub todo_count: u8,
}

/// A todo.
#[derive(Clone, Debug)]
pub struct TodoAccount {
    pub authority: Pubkey,
    pub idx: u8,
    pub content: String,
    pub marked: bool,
}

impl Default for UserProfile {
    fn default() -> (r: UserProfile)
        ensures
            r.authority.bytes@ == Seq::new(32, |i: int| 0u8),
            r.last_todo == 0,
            r.todo_count == 0,
    {
        let r = UserProfile { authority: Pubkey::default(), last_todo: 0, todo_count: 0 };
        proof {
            assert(r.authority.bytes@ =~= Seq::new(32, |i: int| 0u8));
        }
        r
    }
}

impl Default for TodoAccount {
    fn default() -> (r: TodoAccount)
        ensures
            r.authority.bytes@ == Seq::new(32, |i: int| 0u8),
            r.idx == 0,
            r.content@ == Seq::<char>::empty(),
            !r.marked,
    {
        let r = TodoAccount {
            authority: Pubkey::default(),
            idx: 0,
            content: String::new(),
            marked: false,
        };
        proof {
            assert(r.authority.bytes@ =~= Seq::new(32, |i: int| 0u8));
        }
        r
    }
}

/// Accounts of `initialize_user`.
pub struct InitializeUser {
    pub authority: Pubkey,
    pub user_profile: UserProfile,
}

/// Accounts of `add_todo`.
pub struct AddTodo {
    pub user_profile: UserProfile,
    pub authority: Pubkey,
    pub todo_account: TodoAccount,
}

/// Accounts of `mark_todo`.
pub struct MarkTodo {
    pub user_profile: UserProfile,
    pub todo_account: TodoAccount,
    pub authority: Pubkey,
}

impl AddTodo {
    /// Whether the signer owns the profile.
    pub fn has_one_authority(&self) -> (r: bool)
        ensures
            r == (self.user_profile.authority.bytes@ == self.authority.bytes@),
    {
        self.user_profile.authority == self.authority
    }
}

impl MarkTodo {
    /// Whether the signer owns both the profile and the todo.
    pub fn has_one_authority(&self) -> (r: bool)
        ensures
            r == (self.user_profile.authority.bytes@ == self.authority.bytes@
                && self.todo_account.authority.bytes@ == self.authority.bytes@),
    {
        self.user_profile.authority == self.authority && self.todo_account.authority
            == self.authority
    }
}

/// The profile after one more todo.
pub open spec fn profile_after_add(p: UserProfile) -> UserProfile {
    UserProfile {
        last_todo: (p.last_todo + 1) as u8,
        todo_count: (p.todo_count + 1) as u8,
        ..p
    }
}

/// Starts the signer's profile with no todos.
pub fn initialize_user(ctx: &mut InitializeUser) -> (r: Result<(), TodoError>)
    ensures
        r is Ok,
        final(ctx).authority == old(ctx).authority,
        final(ctx).user_profile == (UserProfile {
            authority: old(ctx).authority,
            last_todo: 0,
            todo_count: 0,
        }),
{
    ctx.user_profile.authority = ctx.authority;
    ctx.user_profile.last_todo = 0;
    ctx.user_profile.todo_count = 0;
    Ok(())
}

/// Adds an unmarked todo with the given content, numbered with the profile's
/// next number; the profile moves on to the following number and counts one
/// more todo.
pub fn add_todo(ctx: &mut AddTodo, _content: String) -> (r: Result<(), TodoError>)
    requires
        old(ctx).user_profile.last_todo < 255,
        old(ctx).user_profile.todo_count < 255,
    ensures
        r is Ok,
        final(ctx).authority == old(ctx).authority,
        final(ctx).todo_account == (TodoAccount {
            authority: old(ctx).authority,
            idx: old(ctx).user_profile.last_todo,
            content: _content,
            marked: false,
        }),
        final(ctx).user_profile == profile_after_add(old(ctx).user_profile),
{
    ctx.todo_account.authority = ctx.authority;
    ctx.todo_account.content = _content;
    ctx.todo_account.marked = false;
    ctx.todo_account.idx = ctx.user_profile.last_todo;
    ctx.user_profile.last_todo = ctx.user_profile.last_todo + 1;
    ctx.user_profile.todo_count = ctx.user_profile.todo_count + 1;
    Ok(())
}

/// What marking does to a todo: a todo already marked is refused.
pub open spec fn mark_outcome(t: TodoAccount) -> Result<TodoAccount, TodoError> {
    if t.marked {
        Err(TodoError::AlreadyMarked)
    } else {
        Ok(TodoAccount { marked: true, ..t })
    }
}

/// Marks the todo done; a refusal leaves everything as it was.
pub fn mark_todo(ctx: &mut MarkTodo, todo_idx: u8) -> (r: Result<(), TodoError>)
    ensures
        match mark_outcome(old(ctx).todo_account) {
            Err(e) => r == Err::<(), TodoError>(e) && *final(ctx) == *old(ctx),
            Ok(t) => {
                &&& r is Ok
                &&& final(ctx).todo_account == t
                &&& final(ctx).user_profile == old(ctx).user_profile
                &&& final(ctx).authority == old(ctx).authority
            },
        },
{
    if ctx.todo_account.marked {
        return Err(TodoError::AlreadyMarked);
    }
    ctx.todo_account.marked = true;
    Ok(())
}

// ---------------------------------------------------------------------------
// Laws

/// A profile's next number and its count of todos stay equal: both start at
/// 0 and both grow by one with each todo.
pub proof fn lemma_number_equals_count(p: UserProfile)
    requires
        p.last_todo == p.todo_count,
        p.last_todo < 255,
    ensures
        profile_after_add(p).last_todo == profile_after_add(p).todo_count,
{
}

/// The profile after `k` more todos.
pub open spec fn profile_after_adds(p: UserProfile, k: nat) -> UserProfile
    decreases k,
{
    if k == 0 {
        p
    } else {
        profile_after_add(profile_after_adds(p, (k - 1) as nat))
    }
}

/// Starting from a new profile, the `k`-th todo (from 0) gets number `k`,
/// so the todos of one profile get pairwise different numbers, and the
/// count keeps up with them.
pub proof fn lemma_todo_numbers(p: UserProfile, k: nat)
    requires
        p.last_todo == 0,
        p.todo_count == 0,
        k <= 255,
    ensures
        profile_after_adds(p, k).last_todo == k,
        profile_after_adds(p, k).todo_count == k,
    decreases k,
{
    if k > 0 {
        lemma_todo_numbers(p, (k - 1) as nat);
    }
}

/// Marking succeeds exactly on an unmarked todo, whatever its number, and
/// then marks it and changes nothing else; a marked todo is refused with
/// `AlreadyMarked`.
pub proof fn lemma_mark_exactly(t: TodoAccount)
    ensures
        mark_outcome(t) is Ok <==> !t.marked,
        mark_outcome(t) matches Ok(m) ==> {
            &&& m.marked
            &&& m.authority == t.authority
            &&& m.idx == t.idx
            &&& m.content == t.content
        },
        t.marked ==> mark_outcome(t) == Err::<TodoAccount, TodoError>(TodoError::AlreadyMarked),
{
}

/// One more todo moves the profile's next number and its count up by one
/// and keeps its owner.
pub proof fn lemma_profile_after_add_exactly(p: UserProfile)
    requires
        p.last_todo < 255,
        p.todo_count < 255,
    ensures
        profile_after_add(p).last_todo == p.last_todo + 1,
        profile_after_add(p).todo_count == p.todo_count + 1,
        profile_after_add(p).authority == p.authority,
{
}

/// A todo is marked at most once: after marking succeeds, marking again is
/// refused.
pub proof fn lemma_mark_once(t: TodoAccount)
    requires
        mark_outcome(t) is Ok,
    ensures
        mark_outcome(mark_outcome(t)->Ok_0) == Err::<TodoAccount, TodoError>(
            TodoError::AlreadyMarked,
        ),
{
}

} // verus!
