use vstd::prelude::*;
use vstd::arithmetic::power2::pow2;
use crate::boolean::Boolean;
use crate::errors::{IntegerError, OperandInfo};
use crate::r1cs::{ConstraintKind, ConstraintSystem, CsModel};
use crate::types::{InputModel, InputModelV, InputValue, IntegerType, Type};
use crate::uint::{alloc_input_gadget, alloc_input_s, arith_gadget_s, enforce_arith,
    enforce_eq_gadget, eq_gadget_s, pow2_exec, uint_eq, uint_wf, UInt, UIntV};
use crate::value::{val_wf, vres_view, ConstrainedValue, ValueV};
use crate::program::ConstrainedProgram;

verus! {

/// A tagged circuit integer: a closed union with one case per fixed
/// bit-width, each wrapping a circuit-integer representation whose wire
/// sequence has exactly the tag's declared width.
#[derive(PartialEq, Eq, Debug)]
pub enum Integer {
    U8(UInt),
    U16(UInt),
    U32(UInt),
    U64(UInt),
    U128(UInt),
}

/// The mathematical model of a tagged integer: its width tag and the model
/// of its representation.
pub ghost struct IntV {
    pub ty: IntegerType,
    pub repr: UIntV,
}

impl View for Integer {
    type V = IntV;

    open spec fn view(&self) -> IntV {
        match self {
            Integer::U8(u) => IntV { ty: IntegerType::U8, repr: u@ },
            Integer::U16(u) => IntV { ty: IntegerType::U16, repr: u@ },
            Integer::U32(u) => IntV { ty: IntegerType::U32, repr: u@ },
            Integer::U64(u) => IntV { ty: IntegerType::U64, repr: u@ },
            Integer::U128(u) => IntV { ty: IntegerType::U128, repr: u@ },
        }
    }
}

/// The invariant every integer in the system maintains: its representation
/// is well formed at exactly the width its tag declares.
pub open spec fn int_wf(i: IntV) -> bool {
    uint_wf(i.repr, i.ty.width())
}

/// What a diagnostic needs to describe an operand.
pub open spec fn summary_of(i: IntV) -> OperandInfo {
    OperandInfo { ty: i.ty, value: i.repr.value }
}

impl Integer {
    /// The width tag this integer carries.
    pub fn get_type(&self) -> (t: IntegerType)
        ensures
            t == self@.ty,
    {
        match self {
            Integer::U8(_) => IntegerType::U8,
            Integer::U16(_) => IntegerType::U16,
            Integer::U32(_) => IntegerType::U32,
            Integer::U64(_) => IntegerType::U64,
            Integer::U128(_) => IntegerType::U128,
        }
    }

    /// The known evaluation of this integer's wires, if any.
    pub fn get_value(&self) -> (v: Option<u128>)
        ensures
            v == self@.repr.value,
    {
        match self {
            Integer::U8(u) => u.value,
            Integer::U16(u) => u.value,
            Integer::U32(u) => u.value,
            Integer::U64(u) => u.value,
            Integer::U128(u) => u.value,
        }
    }

    /// The operand description a failed operation reports.
    pub fn summary(&self) -> (s: OperandInfo)
        ensures
            s == summary_of(self@),
    {
        OperandInfo { ty: self.get_type(), value: self.get_value() }
    }

    /// Copies the integer.
    pub fn clone_int(&self) -> (r: Integer)
        ensures
            r@ == self@,
    {
        match self {
            Integer::U8(u) => Integer::U8(u.clone_uint()),
            Integer::U16(u) => Integer::U16(u.clone_uint()),
            Integer::U32(u) => Integer::U32(u.clone_uint()),
            Integer::U64(u) => Integer::U64(u.clone_uint()),
            Integer::U128(u) => Integer::U128(u.clone_uint()),
        }
    }

    /// Wraps a representation in the tag for `ty`.
    pub fn tag_with(ty: IntegerType, u: UInt) -> (r: Integer)
        ensures
            r@ == (IntV { ty, repr: u@ }),
    {
        match ty {
            IntegerType::U8 => Integer::U8(u),
            IntegerType::U16 => Integer::U16(u),
            IntegerType::U32 => Integer::U32(u),
            IntegerType::U64 => Integer::U64(u),
            IntegerType::U128 => Integer::U128(u),
        }
    }

    /// Builds a constant integer of the given width from a literal that fits
    /// it: constant wires, known evaluation, no witness. Returns `None` when
    /// the literal does not fit the width.
    pub fn new_constant(ty: IntegerType, value: u128) -> (r: Option<Integer>)
        ensures
            match r {
                Some(i) => {
                    &&& (value as nat) < pow2(ty.width())
                    &&& i@ == (IntV {
                        ty,
                        repr: UIntV {
                            bits: crate::uint::const_bits_s(value, ty.width()),
                            value: Some(value),
                        },
                    })
                    &&& int_wf(i@)
                },
                None => (value as nat) >= pow2(ty.width()),
            },
    {
        let w = ty.width_exec();
        let fits = if w == 128 {
            proof {
                crate::uint::lemma_u128_fits_128();
            }
            true
        } else {
            value < pow2_exec(w)
        };
        if fits {
            let bits = crate::uint::const_bits(value, w);
            Some(Integer::tag_with(ty, UInt { bits, value: Some(value) }))
        } else {
            None
        }
    }
}

/// What constraint-free equality returns: only same-width operands compare;
/// the result is a constant boolean of the structural equality of the two
/// representations.
pub open spec fn evaluate_eq_s(l: IntV, r: IntV) -> Result<ValueV, IntegerError> {
    if l.ty == r.ty {
        Ok(ValueV::Boolean(Boolean::Constant(l.repr == r.repr)))
    } else {
        Err(IntegerError::CannotEvaluate(summary_of(l), summary_of(r)))
    }
}

/// What width-dispatched arithmetic does: same-width operands go to the
/// width gadget, whose result is wrapped back in the matching tag; operands
/// of differing widths fail and leave the system untouched.
pub open spec fn enforce_arith_s(kind: ConstraintKind, l: IntV, r: IntV, cs: CsModel)
    -> (Result<ValueV, IntegerError>, CsModel) {
    if l.ty == r.ty {
        let (gres, cs2) = arith_gadget_s(kind, l.repr, r.repr, l.ty.width(), cs);
        match gres {
            Ok(u) => (Ok(ValueV::Integer(IntV { ty: l.ty, repr: u })), cs2),
            Err(e) => (Err(e), cs2),
        }
    } else {
        (Err(IntegerError::CannotEnforce(kind, summary_of(l), summary_of(r))), cs)
    }
}

/// What constraint-emitting equality does: same-width operands have their
/// wires forced equal by one constraint; differing widths fail untouched.
pub open spec fn enforce_eq_s(l: IntV, r: IntV, cs: CsModel)
    -> (Result<(), IntegerError>, CsModel) {
    if l.ty == r.ty {
        (Ok(()), eq_gadget_s(l.repr, r.repr, cs))
    } else {
        (Err(IntegerError::CannotEnforce(ConstraintKind::Eq, summary_of(l), summary_of(r))), cs)
    }
}

/// What parameter allocation does: a non-integer declared type fails with
/// `InvalidType`; a supplied literal that is not an integer, or does not fit
/// the declared width, fails with `InvalidInteger`; otherwise a witness of
/// the declared width is allocated, constrained to the literal when one is
/// present and free when none is.
pub open spec fn from_param_s(m: InputModelV, v: Option<InputValue>, cs: CsModel)
    -> (Result<ValueV, IntegerError>, CsModel) {
    match m.ty {
        Type::IntegerType(it) => match v {
            Some(InputValue::Integer(n)) => if (n as nat) < pow2(it.width()) {
                let (u, cs2) = alloc_input_s(Some(n), it.width(), cs);
                (Ok(ValueV::Integer(IntV { ty: it, repr: u })), cs2)
            } else {
                (Err(IntegerError::InvalidInteger(m.ty, InputValue::Integer(n))), cs)
            },
            Some(other) => (Err(IntegerError::InvalidInteger(m.ty, other)), cs),
            None => {
                let (u, cs2) = alloc_input_s(None, it.width(), cs);
                (Ok(ValueV::Integer(IntV { ty: it, repr: u })), cs2)
            },
        },
        _ => (Err(IntegerError::InvalidType(m.ty)), cs),
    }
}

impl ConstrainedProgram {
    /// Wraps an already-built integer as a constrained value.
    pub fn get_integer_constant(integer: Integer) -> (r: ConstrainedValue)
        ensures
            r@ == ValueV::Integer(integer@),
    {
        ConstrainedValue::Integer(integer)
    }

    /// Pure, constraint-free equality of two integers, used for constant
    /// folding: it never touches the constraint system.
    pub fn evaluate_integer_eq(left: Integer, right: Integer)
        -> (r: Result<ConstrainedValue, IntegerError>)
        ensures
            vres_view(r) == evaluate_eq_s(left@, right@),
    {
        let ls = left.summary();
        let rs = right.summary();
        match (&left, &right) {
            (Integer::U8(a), Integer::U8(b)) =>
                Ok(ConstrainedValue::Boolean(Boolean::Constant(uint_eq(a, b)))),
            (Integer::U16(a), Integer::U16(b)) =>
                Ok(ConstrainedValue::Boolean(Boolean::Constant(uint_eq(a, b)))),
            (Integer::U32(a), Integer::U32(b)) =>
                Ok(ConstrainedValue::Boolean(Boolean::Constant(uint_eq(a, b)))),
            (Integer::U64(a), Integer::U64(b)) =>
                Ok(ConstrainedValue::Boolean(Boolean::Constant(uint_eq(a, b)))),
            (Integer::U128(a), Integer::U128(b)) =>
                Ok(ConstrainedValue::Boolean(Boolean::Constant(uint_eq(a, b)))),
            _ => Err(IntegerError::CannotEvaluate(ls, rs)),
        }
    }

    /// Width-dispatched arithmetic shared by the five operators.
    pub(crate) fn enforce_integer_arith(cs: &mut ConstraintSystem, kind: ConstraintKind,
        left: Integer, right: Integer) -> (r: Result<ConstrainedValue, IntegerError>)
        requires
            kind != ConstraintKind::Eq,
            int_wf(left@),
            int_wf(right@),
            old(cs)@.next_wire + 128 <= usize::MAX,
        ensures
            (vres_view(r), final(cs)@) == enforce_arith_s(kind, left@, right@, old(cs)@),
            r matches Ok(v) ==> val_wf(v@),
    {
        let ls = left.summary();
        let rs = right.summary();
        match (left, right) {
            (Integer::U8(a), Integer::U8(b)) => match enforce_arith(cs, kind, &a, &b, 8) {
                Ok(u) => Ok(ConstrainedValue::Integer(Integer::U8(u))),
                Err(e) => Err(e),
            },
            (Integer::U16(a), Integer::U16(b)) => match enforce_arith(cs, kind, &a, &b, 16) {
                Ok(u) => Ok(ConstrainedValue::Integer(Integer::U16(u))),
                Err(e) => Err(e),
            },
            (Integer::U32(a), Integer::U32(b)) => match enforce_arith(cs, kind, &a, &b, 32) {
                Ok(u) => Ok(ConstrainedValue::Integer(Integer::U32(u))),
                Err(e) => Err(e),
            },
            (Integer::U64(a), Integer::U64(b)) => match enforce_arith(cs, kind, &a, &b, 64) {
                Ok(u) => Ok(ConstrainedValue::Integer(Integer::U64(u))),
                Err(e) => Err(e),
            },
            (Integer::U128(a), Integer::U128(b)) => match enforce_arith(cs, kind, &a, &b, 128) {
                Ok(u) => Ok(ConstrainedValue::Integer(Integer::U128(u))),
                Err(e) => Err(e),
            },
            _ => Err(IntegerError::CannotEnforce(kind, ls, rs)),
        }
    }

    /// Constraint-emitting addition; same-width operands wrap modulo `2^w`.
    pub fn enforce_integer_add(cs: &mut ConstraintSystem, left: Integer, right: Integer)
        -> (r: Result<ConstrainedValue, IntegerError>)
        requires
            int_wf(left@),
            int_wf(right@),
            old(cs)@.next_wire + 128 <= usize::MAX,
        ensures
            (vres_view(r), final(cs)@)
                == enforce_arith_s(ConstraintKind::Add, left@, right@, old(cs)@),
            r matches Ok(v) ==> val_wf(v@),
    {
        Self::enforce_integer_arith(cs, ConstraintKind::Add, left, right)
    }

    /// Constraint-emitting subtraction; same-width operands wrap modulo `2^w`.
    pub fn enforce_integer_sub(cs: &mut ConstraintSystem, left: Integer, right: Integer)
        -> (r: Result<ConstrainedValue, IntegerError>)
        requires
            int_wf(left@),
            int_wf(right@),
            old(cs)@.next_wire + 128 <= usize::MAX,
        ensures
            (vres_view(r), final(cs)@)
                == enforce_arith_s(ConstraintKind::Sub, left@, right@, old(cs)@),
            r matches Ok(v) ==> val_wf(v@),
    {
        Self::enforce_integer_arith(cs, ConstraintKind::Sub, left, right)
    }

    /// Constraint-emitting multiplication; same-width operands wrap modulo `2^w`.
    pub fn enforce_integer_mul(cs: &mut ConstraintSystem, left: Integer, right: Integer)
        -> (r: Result<ConstrainedValue, IntegerError>)
        requires
            int_wf(left@),
            int_wf(right@),
            old(cs)@.next_wire + 128 <= usize::MAX,
        ensures
            (vres_view(r), final(cs)@)
                == enforce_arith_s(ConstraintKind::Mul, left@, right@, old(cs)@),
            r matches Ok(v) ==> val_wf(v@),
    {
        Self::enforce_integer_arith(cs, ConstraintKind::Mul, left, right)
    }

    /// Constraint-emitting truncating division; a divisor known to be zero
    /// is rejected by the gadget.
    pub fn enforce_integer_div(cs: &mut ConstraintSystem, left: Integer, right: Integer)
        -> (r: Result<ConstrainedValue, IntegerError>)
        requires
            int_wf(left@),
            int_wf(right@),
            old(cs)@.next_wire + 128 <= usize::MAX,
        ensures
            (vres_view(r), final(cs)@)
                == enforce_arith_s(ConstraintKind::Div, left@, right@, old(cs)@),
            r matches Ok(v) ==> val_wf(v@),
    {
        Self::enforce_integer_arith(cs, ConstraintKind::Div, left, right)
    }

    /// Constraint-emitting exponentiation; same-width operands wrap modulo `2^w`.
    pub fn enforce_integer_pow(cs: &mut ConstraintSystem, left: Integer, right: Integer)
        -> (r: Result<ConstrainedValue, IntegerError>)
        requires
            int_wf(left@),
            int_wf(right@),
            old(cs)@.next_wire + 128 <= usize::MAX,
        ensures
            (vres_view(r), final(cs)@)
                == enforce_arith_s(ConstraintKind::Pow, left@, right@, old(cs)@),
            r matches Ok(v) ==> val_wf(v@),
    {
        Self::enforce_integer_arith(cs, ConstraintKind::Pow, left, right)
    }

    /// Constraint-emitting equality of two integers.
    pub fn enforce_integer_eq(cs: &mut ConstraintSystem, left: Integer, right: Integer)
        -> (r: Result<(), IntegerError>)
        ensures
            (r, final(cs)@) == enforce_eq_s(left@, right@, old(cs)@),
    {
        let ls = left.summary();
        let rs = right.summary();
        match (left, right) {
            (Integer::U8(a), Integer::U8(b)) => {
                enforce_eq_gadget(cs, &a, &b);
                Ok(())
            },
            (Integer::U16(a), Integer::U16(b)) => {
                enforce_eq_gadget(cs, &a, &b);
                Ok(())
            },
            (Integer::U32(a), Integer::U32(b)) => {
                enforce_eq_gadget(cs, &a, &b);
                Ok(())
            },
            (Integer::U64(a), Integer::U64(b)) => {
                enforce_eq_gadget(cs, &a, &b);
                Ok(())
            },
            (Integer::U128(a), Integer::U128(b)) => {
                enforce_eq_gadget(cs, &a, &b);
                Ok(())
            },
            _ => Err(IntegerError::CannotEnforce(ConstraintKind::Eq, ls, rs)),
        }
    }

    /// Allocates an integer witness for one declared `main` parameter from
    /// its declared type and the optional caller-supplied literal.
    pub fn integer_from_parameter(&mut self, cs: &mut ConstraintSystem,
        integer_model: InputModel, integer_value: Option<InputValue>)
        -> (r: Result<ConstrainedValue, IntegerError>)
        requires
            old(cs)@.next_wire + 128 <= usize::MAX,
        ensures
            final(self)@ == old(self)@,
            (vres_view(r), final(cs)@) == from_param_s(integer_model@, integer_value, old(cs)@),
            r matches Ok(v) ==> val_wf(v@),
    {
        let integer_type = match integer_model.ty {
            Type::IntegerType(t) => t,
            other => {
                return Err(IntegerError::InvalidType(other));
            },
        };
        let integer_option: Option<u128> = match integer_value {
            Some(InputValue::Integer(n)) => Some(n),
            Some(parameter) => {
                return Err(IntegerError::InvalidInteger(integer_model.ty, parameter));
            },
            None => None,
        };
        let w = integer_type.width_exec();
        if let Some(n) = integer_option {
            let fits = if w == 128 {
                proof {
                    crate::uint::lemma_u128_fits_128();
                }
                true
            } else {
                n < pow2_exec(w)
            };
            if !fits {
                return Err(IntegerError::InvalidInteger(
                    integer_model.ty,
                    InputValue::Integer(n),
                ));
            }
        }
        let u = alloc_input_gadget(cs, w, integer_option);
        Ok(ConstrainedValue::Integer(Integer::tag_with(integer_type, u)))
    }
}

} // verus!
