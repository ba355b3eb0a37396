use vstd::prelude::*;
use crate::r1cs::ConstraintKind;
use crate::types::{InputValue, IntegerType, Type};

verus! {

/// What a rendering layer needs to describe one integer operand of a failed
/// operation: its width tag and, when known, its evaluation.
#[derive(Clone, Copy, PartialEq, Eq, Debug)]
pub struct OperandInfo {
    pub ty: IntegerType,
    pub value: Option<u128>,
}

/// Failures local to the integer constraint subsystem. Every variant carries
/// the data a diagnostic layer outside this crate renders for the user.
#[derive(Clone, Copy, PartialEq, Eq, Debug)]
pub enum IntegerError {
    /// The declared parameter type is not an integer type.
    InvalidType(Type),
    /// The supplied literal does not fit the declared integer type: it is
    /// not an integer literal, or it does not fit in the declared width.
    InvalidInteger(Type, InputValue),
    /// Constraint-free equality was asked of two operands whose widths differ.
    CannotEvaluate(OperandInfo, OperandInfo),
    /// An enforcing operation was asked of two operands whose widths differ;
    /// the kind names the attempted operator.
    CannotEnforce(ConstraintKind, OperandInfo, OperandInfo),
    /// The width gadget rejected a division whose divisor is known to be zero.
    DivisionByZero,
}

/// Failures of the program-resolution driver.
#[derive(Clone, Copy, PartialEq, Eq, Debug)]
pub enum CompilerError {
    /// The program has no definition named `main`.
    NoMain,
    /// The name `main` resolves to something other than a function.
    NoMainFunction,
    /// A function body refers to a parameter index past the declared arity.
    UndefinedParameter(usize),
    /// An arithmetic expression was applied to a non-integer operand.
    ExpectedInteger,
    /// A failure of the integer constraint subsystem, propagated unchanged.
    IntegerError(IntegerError),
}

} // verus!
