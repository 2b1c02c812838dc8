//! Storage-free logic of two ledger contracts: a counter and a pooled vault.
//!
//! The contracts never touch the host themselves. Every entry point is a
//! [`task::Task`]: a value that names the next thing the host has to do and
//! that is resumed with the host's answer. Whoever embeds the library runs
//! the loop; everything that is decided is decided here.

pub mod counter;
pub mod host;
pub mod keys;
pub mod ledger;
pub mod note;
pub mod task;
pub mod vault;
