//! A constraint-generation engine: lowers a small, resolved, typed program
//! into a rank-1 constraint system, preserving exact fixed-width integer
//! semantics and emitting constraints in one deterministic order.
//!
//! The crate is organised leaves first: circuit booleans, the constraint
//! system sink, the width-generic unsigned-integer gadget layer, the tagged
//! `Integer` union with its width-dispatched arithmetic and allocation, the
//! constrained value model, and the program-resolution driver on top.

pub mod boolean;
pub mod r1cs;
pub mod errors;
pub mod types;
pub mod uint;
pub mod integer;
pub mod value;
pub mod program;
pub mod laws;
