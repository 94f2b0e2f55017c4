//! A password-hashing module meant to sit behind a linear-memory boundary.
//!
//! The library holds the logic of that boundary: the decoding of the integer
//! selectors that the host passes, the delegation to the Argon2 hashing
//! capability, the word-aligned block layouts that the heap hands out, and the
//! diagnostic text of every fault. All faults are fatal to the module
//! instance; the library reports them as values and the host glue turns them
//! into a call of the host's failure callback.
pub mod capability;
pub mod fault;
pub mod hashing;
pub mod heap;
pub mod selectors;

pub use fault::Fault;
pub use hashing::hash;
pub use heap::{block_layout, BlockLayout};
