//! The rules of seven small on-chain programs: a lamport vault, an election,
//! an event registry with attendance NFTs, a blog, a todo list, a token
//! vesting registry and a poll.

pub mod key;
pub mod text;
pub mod events;
pub mod vault;
pub mod election;
pub mod voting;
pub mod todo;
pub mod blog;
pub mod vesting;
