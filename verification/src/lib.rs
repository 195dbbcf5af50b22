//! A small resource layer for building SQL statement text.
//!
//! The crate is organised in three tiers.  At the bottom sits a
//! dual-strategy allocator ([`const_alloc`]) that hands out owned byte
//! regions either from a bounded arena or from the ordinary runtime heap,
//! under one common contract.  On top of it grow two buffer types: an
//! exclusively owned byte buffer ([`const_string`]) and a generic growable
//! array ([`const_vec`]), both with amortized power-of-two growth and an
//! irreversible freeze operation that trades the buffer for an exact-sized
//! immutable result.  The top tier is a SQL serialization protocol
//! ([`expression`], [`schema`], [`query`]): value types that append their
//! SQL text into a shared accumulator, composed recursively into select
//! and join statements.

use vstd::prelude::*;

pub mod const_alloc;
pub mod const_string;
pub mod const_vec;
pub mod expression;
pub mod fmt;
pub mod query;
pub mod schema;

verus! {

/// Upper bound that the buffer types place on their logical size, so that
/// the next-power-of-two capacity computation cannot overflow a `usize` on
/// any supported machine.
pub const CAP_LIMIT: usize = 0x4000_0000;

} // verus!
