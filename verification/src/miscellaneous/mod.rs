//! The miscellaneous endpoints: the emoji listing, gitignore templates,
//! markdown rendering, instance metadata and the rate limit.

pub mod emojis;
pub mod gitignore;
pub mod markdown;
pub mod meta;
pub mod rate_limit;
