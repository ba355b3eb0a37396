use vstd::prelude::*;
use crate::boolean::Boolean;

verus! {

/// The relation a primitive constraint enforces between its operand wires.
#[derive(Clone, Copy, PartialEq, Eq, Structural, Debug)]
pub enum ConstraintKind {
    Eq,
    Add,
    Sub,
    Mul,
    Div,
    Pow,
}

/// One primitive constraint: the named relation must hold between the wire
/// sequences `left`, `right` and `output` (`output` is empty for `Eq`).
#[derive(PartialEq, Eq, Debug)]
pub struct Constraint {
    pub kind: ConstraintKind,
    pub left: Vec<Boolean>,
    pub right: Vec<Boolean>,
    pub output: Vec<Boolean>,
}

/// The mathematical model of one constraint: the same record over sequences.
pub ghost struct ConstraintModel {
    pub kind: ConstraintKind,
    pub left: Seq<Boolean>,
    pub right: Seq<Boolean>,
    pub output: Seq<Boolean>,
}

impl View for Constraint {
    type V = ConstraintModel;

    open spec fn view(&self) -> ConstraintModel {
        ConstraintModel {
            kind: self.kind,
            left: self.left@,
            right: self.right@,
            output: self.output@,
        }
    }
}

/// The mutable sink that accumulates primitive constraints: an ordered
/// sequence of constraints plus the index of the next unallocated wire.
/// Every enforcing operation appends to `constraints` and never reorders
/// or removes, so the emission order is a single well-defined total order.
pub struct ConstraintSystem {
    pub constraints: Vec<Constraint>,
    pub next_wire: usize,
}

/// The mathematical model of a constraint system.
pub ghost struct CsModel {
    pub constraints: Seq<ConstraintModel>,
    pub next_wire: int,
}

impl View for ConstraintSystem {
    type V = CsModel;

    open spec fn view(&self) -> CsModel {
        CsModel {
            constraints: self.constraints@.map_values(|c: Constraint| c@),
            next_wire: self.next_wire as int,
        }
    }
}

impl ConstraintSystem {
    /// An empty constraint system: no constraints, no wires allocated.
    pub fn new() -> (cs: ConstraintSystem)
        ensures
            cs@.constraints == Seq::<ConstraintModel>::empty(),
            cs@.next_wire == 0,
    {
        let cs = ConstraintSystem { constraints: Vec::new(), next_wire: 0 };
        proof {
            assert(cs@.constraints =~= Seq::<ConstraintModel>::empty());
        }
        cs
    }

    /// The number of constraints accumulated so far.
    pub fn num_constraints(&self) -> (n: usize)
        ensures
            n == self@.constraints.len(),
    {
        self.constraints.len()
    }

    /// Allocates one fresh witness wire and returns its index.
    pub fn alloc_wire(&mut self) -> (w: usize)
        requires
            old(self)@.next_wire < usize::MAX,
        ensures
            w == old(self)@.next_wire,
            final(self)@.next_wire == old(self)@.next_wire + 1,
            final(self)@.constraints == old(self)@.constraints,
    {
        let w = self.next_wire;
        self.next_wire = self.next_wire + 1;
        w
    }

    /// Appends one constraint to the sequence.
    pub fn append(&mut self, c: Constraint)
        ensures
            final(self)@.constraints == old(self)@.constraints.push(c@),
            final(self)@.next_wire == old(self)@.next_wire,
    {
        let ghost before = self@.constraints;
        let ghost cm = c@;
        self.constraints.push(c);
        proof {
            assert(self@.constraints =~= before.push(cm));
        }
    }
}

} // verus!
