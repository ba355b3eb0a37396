use vstd::prelude::*;

verus! {

/// A circuit boolean: one wire of the circuit, either a constant known at
/// generation time or an allocated witness wire, identified by its index.
#[derive(Clone, Copy, PartialEq, Eq, Structural, Debug)]
pub enum Boolean {
    Constant(bool),
    Witness(usize),
}

} // verus!
