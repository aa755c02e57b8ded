//! A deterministic, non-cryptographic 64-bit hashing primitive, together
//! with the small containers that sit beside it.
//!
//! The heart of the crate is [`hasher`]: a byte-mixing state machine
//! ([`hasher::MHash`]) with an avalanche step, a value-to-byte decomposition
//! protocol ([`hasher::Hashable`]), and the seeded entry point
//! ([`hasher::hash`]).  The [`queue`], [`stack`] and [`twins`] modules hold
//! the peripheral collaborators: a FIFO queue, a LIFO stack, and a search
//! for duplicate entries.

pub mod hasher;
pub mod queue;
pub mod stack;
pub mod twins;

pub use hasher::hash;
pub use hasher::Hashable;
pub use hasher::MHash;
pub use queue::Queue;
pub use stack::Stack;
pub use twins::first_twin;
