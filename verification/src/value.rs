use vstd::prelude::*;
use crate::boolean::Boolean;
use crate::errors::{CompilerError, IntegerError};
use crate::integer::{int_wf, IntV, Integer};
use crate::r1cs::ConstraintKind;
use crate::types::{InputModel, InputModelV};

verus! {

/// The arithmetic operators a function body may apply.
#[derive(Clone, Copy, PartialEq, Eq, Structural, Debug)]
pub enum BinaryOp {
    Add,
    Sub,
    Mul,
    Div,
    Pow,
}

impl BinaryOp {
    /// The constraint kind this operator enforces.
    pub open spec fn kind(self) -> ConstraintKind {
        match self {
            BinaryOp::Add => ConstraintKind::Add,
            BinaryOp::Sub => ConstraintKind::Sub,
            BinaryOp::Mul => ConstraintKind::Mul,
            BinaryOp::Div => ConstraintKind::Div,
            BinaryOp::Pow => ConstraintKind::Pow,
        }
    }

    /// The constraint kind this operator enforces, as a value.
    pub fn kind_exec(&self) -> (k: ConstraintKind)
        ensures
            k == self.kind(),
    {
        match self {
            BinaryOp::Add => ConstraintKind::Add,
            BinaryOp::Sub => ConstraintKind::Sub,
            BinaryOp::Mul => ConstraintKind::Mul,
            BinaryOp::Div => ConstraintKind::Div,
            BinaryOp::Pow => ConstraintKind::Pow,
        }
    }
}

/// A resolved function body: a tree of arithmetic operations over the
/// function's parameters, referred to positionally.
#[derive(PartialEq, Eq, Debug)]
pub enum Expression {
    Parameter(usize),
    Binary(BinaryOp, Box<Expression>, Box<Expression>),
}

impl Expression {
    /// How many arithmetic nodes the expression holds; each one allocates at
    /// most 128 wires when enforced, so this bounds the wires the body needs.
    pub open spec fn weight(self) -> nat
        decreases self,
    {
        match self {
            Expression::Parameter(_) => 0,
            Expression::Binary(_, l, r) => 1 + l.weight() + r.weight(),
        }
    }

    /// Copies the expression tree.
    pub fn clone_expr(&self) -> (r: Expression)
        ensures
            r == *self,
        decreases self,
    {
        match self {
            Expression::Parameter(i) => Expression::Parameter(*i),
            Expression::Binary(op, l, r) => Expression::Binary(
                *op,
                Box::new(l.clone_expr()),
                Box::new(r.clone_expr()),
            ),
        }
    }
}

/// A closure over a resolved function definition: its declared parameters
/// and its body, callable during enforcement.
#[derive(PartialEq, Eq, Debug)]
pub struct Function {
    pub parameters: Vec<InputModel>,
    pub body: Expression,
}

/// The mathematical model of a function definition.
pub ghost struct FunctionV {
    pub parameters: Seq<InputModelV>,
    pub body: Expression,
}

impl View for Function {
    type V = FunctionV;

    open spec fn view(&self) -> FunctionV {
        FunctionV {
            parameters: self.parameters@.map_values(|m: InputModel| m@),
            body: self.body,
        }
    }
}

impl Function {
    /// Copies the function definition.
    pub fn clone_fn(&self) -> (r: Function)
        ensures
            r@ == self@,
    {
        let mut parameters: Vec<InputModel> = Vec::new();
        let mut i: usize = 0;
        while i < self.parameters.len()
            invariant
                i <= self.parameters.len(),
                parameters@.len() == i,
                forall|j: int| 0 <= j < i ==> parameters@[j]@ == self.parameters@[j]@,
            decreases self.parameters.len() - i,
        {
            let m = &self.parameters[i];
            parameters.push(InputModel { identifier: m.identifier.clone(), ty: m.ty });
            i = i + 1;
        }
        let r = Function { parameters, body: self.body.clone_expr() };
        proof {
            assert(r@.parameters =~= self@.parameters);
        }
        r
    }
}

/// The closed union of every runtime value the circuit can carry in this
/// core: a circuit boolean, a tagged integer, or a resolved function.
/// Exactly one case is active at a time; no value changes kind.
#[derive(PartialEq, Eq, Debug)]
pub enum ConstrainedValue {
    Boolean(Boolean),
    Integer(Integer),
    Function(Function),
}

/// The mathematical model of a constrained value.
pub ghost enum ValueV {
    Boolean(Boolean),
    Integer(IntV),
    Function(FunctionV),
}

impl View for ConstrainedValue {
    type V = ValueV;

    open spec fn view(&self) -> ValueV {
        match self {
            ConstrainedValue::Boolean(b) => ValueV::Boolean(*b),
            ConstrainedValue::Integer(i) => ValueV::Integer(i@),
            ConstrainedValue::Function(f) => ValueV::Function(f@),
        }
    }
}

/// Well-formedness of a value: an integer's representation matches its tag.
pub open spec fn val_wf(v: ValueV) -> bool {
    match v {
        ValueV::Integer(iv) => int_wf(iv),
        _ => true,
    }
}

/// The models of a sequence of values.
pub open spec fn views_of(s: Seq<ConstrainedValue>) -> Seq<ValueV> {
    s.map_values(|v: ConstrainedValue| v@)
}

/// Lifts a subsystem result to its model.
pub open spec fn vres_view(r: Result<ConstrainedValue, IntegerError>)
    -> Result<ValueV, IntegerError> {
    match r {
        Ok(v) => Ok(v@),
        Err(e) => Err(e),
    }
}

/// Lifts a driver result to its model.
pub open spec fn cres_view(r: Result<ConstrainedValue, CompilerError>)
    -> Result<ValueV, CompilerError> {
    match r {
        Ok(v) => Ok(v@),
        Err(e) => Err(e),
    }
}

impl ConstrainedValue {
    /// Copies the value.
    pub fn clone_value(&self) -> (r: ConstrainedValue)
        ensures
            r@ == self@,
    {
        match self {
            ConstrainedValue::Boolean(b) => ConstrainedValue::Boolean(*b),
            ConstrainedValue::Integer(i) => ConstrainedValue::Integer(i.clone_int()),
            ConstrainedValue::Function(f) => ConstrainedValue::Function(f.clone_fn()),
        }
    }
}

} // verus!
