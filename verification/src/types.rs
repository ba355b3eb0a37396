use vstd::prelude::*;

verus! {

/// The five fixed bit-widths an integer value may carry.
#[derive(Clone, Copy, PartialEq, Eq, Structural, Debug)]
pub enum IntegerType {
    U8,
    U16,
    U32,
    U64,
    U128,
}

impl IntegerType {
    /// The bit-width declared by this tag.
    pub open spec fn width(self) -> nat {
        match self {
            IntegerType::U8 => 8,
            IntegerType::U16 => 16,
            IntegerType::U32 => 32,
            IntegerType::U64 => 64,
            IntegerType::U128 => 128,
        }
    }

    /// The bit-width declared by this tag, as a machine integer.
    pub fn width_exec(&self) -> (w: usize)
        ensures
            w as nat == self.width(),
    {
        match self {
            IntegerType::U8 => 8,
            IntegerType::U16 => 16,
            IntegerType::U32 => 32,
            IntegerType::U64 => 64,
            IntegerType::U128 => 128,
        }
    }
}

/// A declared static type of a `main` parameter.
#[derive(Clone, Copy, PartialEq, Eq, Structural, Debug)]
pub enum Type {
    IntegerType(IntegerType),
    Boolean,
    FieldElement,
}

/// A caller-supplied literal for one declared parameter, tagged with its
/// claimed kind. `None` at the call site means a free witness instead.
#[derive(Clone, Copy, PartialEq, Eq, Debug)]
pub enum InputValue {
    Integer(u128),
    Boolean(bool),
}

/// Declares one named parameter of the `main` function's signature: its
/// identifier and its static type. Immutable once created.
#[derive(PartialEq, Eq, Debug)]
pub struct InputModel {
    pub identifier: String,
    pub ty: Type,
}

/// The mathematical model of an `InputModel`.
pub ghost struct InputModelV {
    pub identifier: Seq<char>,
    pub ty: Type,
}

impl View for InputModel {
    type V = InputModelV;

    open spec fn view(&self) -> InputModelV {
        InputModelV { identifier: self.identifier@, ty: self.ty }
    }
}

impl InputModel {
    /// Builds a parameter declaration.
    pub fn new(identifier: String, ty: Type) -> (m: InputModel)
        ensures
            m@.identifier == identifier@,
            m@.ty == ty,
    {
        InputModel { identifier, ty }
    }
}

} // verus!
