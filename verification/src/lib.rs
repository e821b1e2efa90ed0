//! Core decision logic for mutating a digital-asset record.
//!
//! The library routes decoded instructions, classifies asset records as
//! programmable or legacy, vetoes operations on locked assets, assembles
//! the fact payload handed to an external policy oracle, and plans the
//! freeze/thaw transitions around a transfer. Every decision is made over
//! plain values; the surrounding program performs the cross-program calls
//! that the decisions ask for.

pub mod account;
pub mod address;
pub mod bytes;
pub mod derivation;
pub mod error;
pub mod instruction;
pub mod oracle;
pub mod payload;
pub mod processor;
pub mod state;
pub mod transition;
