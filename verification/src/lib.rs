//! The core of a confidential transfer between two parties: Pedersen
//! commitments that hide amounts yet add up, and a signature that the two
//! parties make together to show that the outputs of the transfer balance
//! its inputs and that both agreed to it.
//!
//! Curve and hash arithmetic are the work of outside libraries. Each call
//! into them is a small function of its own, whose contract says what the
//! call is taken to do; everything else is proved from those contracts.
//!
//! The contracts speak of numbers, not of bytes. A scalar is its value below
//! the group order. A point of the curve is the multiple of the generator
//! `G` that it is, again a number below the group order: the group is
//! cyclic, so every point is such a multiple, and adding points adds these
//! numbers modulo the order.
//!
//! - [`field`]: the integers modulo the group order.
//! - [`scalar`]: scalars as thirty-two bytes, and their arithmetic.
//! - [`context`]: the curve context that every operation is handed.
//! - [`commitment`]: commitments, their sums and multiples.
//! - [`blinding`]: blinding factors and the balance of a transfer.
//! - [`challenge`]: the challenge that the parties sign.
//! - [`signature`]: partial signatures, their check and their sum.
//! - [`kernel`]: the finished transaction and its check.
//! - [`transfer`]: the proposal, the response and the three steps.
//! - [`laws`]: what holds of all of it, for every input.
//! - [`error`]: the failures.

pub mod blinding;
pub mod challenge;
pub mod commitment;
pub mod context;
pub mod error;
pub mod field;
pub mod kernel;
pub mod laws;
pub mod scalar;
pub mod signature;
pub mod transfer;
