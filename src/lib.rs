//! A social ledger: user profiles, posts and follow edges stored in an arena keyed
//! by deterministic addresses, with every transition checked and atomic.
pub mod address;
pub mod arena;
pub mod error;
pub mod follow;
pub mod greeting;
pub mod laws;
pub mod ledger;
pub mod post;
pub mod profile;
