//! A minimal persistent cons-cell list: an immutable, structurally shared
//! binary tree of pairs whose right-leaning chains act as lists, together
//! with the structural operations (`cons`, `car`, `cdr`, `append`,
//! `reverse`, `length`) and a canonical parenthesized rendering.
//!
//! The [`model`] module gives the mathematical model of a node and the
//! specification functions the contracts are stated over; [`list`] holds
//! the executable types and operations; [`laws`] proves the general
//! properties of the operations.

pub mod laws;
pub mod list;
pub mod model;
