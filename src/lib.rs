//! A partially fillable limit order settled through notes.
//!
//! An order note commits to its executable script, its serial randomness and a fixed layout
//! of inputs. Each fill pays the maker through a payment note and, unless the order is used
//! up, replaces the order note by a remainder note that keeps the same partial recipient.
//!
//! Field elements are held as `u64`, words as `[u64; 4]`. Hashing is done by the RPO hasher
//! of `miden_objects`; its results are named by spec functions of `commitment`.

pub mod commitment;
pub mod asset;
pub mod order;
pub mod fill;
pub mod laws;
pub mod settlement;
