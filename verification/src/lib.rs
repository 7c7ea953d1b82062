//! Swaps of a shielded exchange. A swap plaintext has a fixed 200-byte
//! form and a unique asset identifier, and is encrypted to its claim
//! address; a swap action commits to the balance it requires, and shows its
//! plaintext to a viewer that holds the right payload key. Every type also
//! converts to and from its protocol message.

pub mod bytes;
pub mod field;
pub mod asset;
pub mod group;
pub mod hash;
pub mod symmetric;
pub mod keys;
pub mod balance;
pub mod note;
pub mod swap;
pub mod proto;
pub mod transaction;
