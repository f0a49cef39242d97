//! A blog: a user account numbers its posts from 0 and counts them.
//!
//! The numbers are single bytes; a number that would pass 255 stops the
//! instruction, so `create_post` requires that it cannot.
use vstd::prelude::*;
use crate::key::Pubkey;

verus! {

/// A user of the blog: the number the next post gets, and how many posts the
/// user has written.
#[derive(Clone, Debug)]
pub struct UserAccount {
    pub name: String,
    pub avatar: String,
    pub authority: Pubkey,
    pub last_post_id: u8,
    pub post_count: u8,
}

/// A post.
#[derive(Clone, Debug)]
pub struct PostAccount {
    pub id: u8,
    pub title: String,
    pub content: String,
    pub user: Pubkey,
    pub authority: Pubkey,
}

/// Accounts of `init_user`.
pub struct InitUser {
    pub user_account: UserAccount,
    pub authority: Pubkey,
}

/// Accounts of `create_post`.
pub struct CreatePost {
    pub user_account: UserAccount,
    pub user_account_key: Pubkey,
    pub post_account: PostAccount,
    pub authority: Pubkey,
}

impl CreatePost {
    /// Whether the signer owns the user account.
    pub fn has_one_authority(&self) -> (r: bool)
        ensures
            r == (self.user_account.authority.bytes@ == self.authority.bytes@),
    {
        self.user_account.authority == self.authority
    }
}

/// The user account after one more post.
pub open spec fn user_after_post(u: UserAccount) -> UserAccount {
    UserAccount {
        last_post_id: (u.last_post_id + 1) as u8,
        post_count: (u.post_count + 1) as u8,
        ..u
    }
}

/// Starts the signer's user account with its name and avatar and no posts.
pub fn init_user(ctx: &mut InitUser, name: String, avatar: String)
    ensures
        final(ctx).authority == old(ctx).authority,
        final(ctx).user_account == (UserAccount {
            name,
            avatar,
            authority: old(ctx).authority,
            last_post_id: 0,
            post_count: 0,
        }),
{
    ctx.user_account.name = name;
    ctx.user_account.avatar = avatar;
    ctx.user_account.authority = ctx.authority;
    ctx.user_account.last_post_id = 0;
    ctx.user_account.post_count = 0;
}

/// Writes a post numbered with the user's next number; the user moves on to
/// the following number and counts one more post.
pub fn create_post(ctx: &mut CreatePost, title: String, content: String)
    requires
        old(ctx).user_account.last_post_id < 255,
        old(ctx).user_account.post_count < 255,
    ensures
        final(ctx).authority == old(ctx).authority,
        final(ctx).user_account_key == old(ctx).user_account_key,
        final(ctx).post_account == (PostAccount {
            id: old(ctx).user_account.last_post_id,
            title,
            content,
            user: old(ctx).user_account_key,
            authority: old(ctx).authority,
        }),
        final(ctx).user_account == user_after_post(old(ctx).user_account),
{
    ctx.post_account.id = ctx.user_account.last_post_id;
    ctx.post_account.title = title;
    ctx.post_account.content = content;
    ctx.post_account.user = ctx.user_account_key;
    ctx.post_account.authority = ctx.authority;
    ctx.user_account.last_post_id = ctx.user_account.last_post_id + 1;
    ctx.user_account.post_count = ctx.user_account.post_count + 1;
}

/// The user account after `k` posts.
pub open spec fn user_after_posts(u: UserAccount, k: nat) -> UserAccount
    decreases k,
{
    if k == 0 {
        u
    } else {
        user_after_post(user_after_posts(u, (k - 1) as nat))
    }
}

// ---------------------------------------------------------------------------
// Laws

/// A user's next number and its count of posts stay equal: both start at 0
/// and both grow by one with each post.
pub proof fn lemma_number_equals_count(u: UserAccount)
    requires
        u.last_post_id == u.post_count,
        u.last_post_id < 255,
    ensures
        user_after_post(u).last_post_id == user_after_post(u).post_count,
{
}

/// One more post moves the user's next number and its count up by one and
/// keeps its name, avatar and owner.
pub proof fn lemma_user_after_post_exactly(u: UserAccount)
    requires
        u.last_post_id < 255,
        u.post_count < 255,
    ensures
        user_after_post(u).last_post_id == u.last_post_id + 1,
        user_after_post(u).post_count == u.post_count + 1,
        user_after_post(u).name == u.name,
        user_after_post(u).avatar == u.avatar,
        user_after_post(u).authority == u.authority,
{
}

/// Starting from a new user, the `k`-th post (from 0) gets number `k`, so
/// the posts of one user get pairwise different numbers.
pub proof fn lemma_post_numbers(u: UserAccount, k: nat)
    requires
        u.last_post_id == 0,
        u.post_count == 0,
        k <= 255,
    ensures
        user_after_posts(u, k).last_post_id == k,
        user_after_posts(u, k).post_count == k,
    decreases k,
{
    if k > 0 {
        lemma_post_numbers(u, (k - 1) as nat);
    }
}

} // verus!
