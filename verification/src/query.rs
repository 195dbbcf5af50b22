//! Statement nodes of the expression protocol.

pub mod select;
