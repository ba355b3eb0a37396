use vstd::prelude::*;
use vstd::arithmetic::power::pow;
use vstd::arithmetic::power2::pow2;
use crate::boolean::Boolean;
use crate::errors::{CompilerError, IntegerError};
use crate::integer::{enforce_arith_s, enforce_eq_s, evaluate_eq_s, from_param_s, summary_of,
    IntV};
use crate::program::{generate_s, lookup_s, main_key, resolved_entries, scoped, ProgramV};
use crate::r1cs::{ConstraintKind, ConstraintModel, CsModel};
use crate::types::{InputModelV, InputValue, IntegerType, Type};
use crate::uint::{arith_sem, const_bits_s, witness_bits_s, UIntV};
use crate::value::ValueV;

verus! {

/// For same-width operands whose values are both known, every arithmetic
/// operator succeeds (division by a known zero aside) and returns an integer
/// of the same width whose unconstrained evaluation is the operator's
/// semantics at that width: add, sub, mul and pow wrap modulo `2^w`, div
/// truncates. Exactly one constraint is appended.
pub proof fn lemma_enforce_arith_known_values(kind: ConstraintKind, l: IntV, r: IntV,
    x: u128, y: u128, cs: CsModel)
    requires
        kind != ConstraintKind::Eq,
        l.ty == r.ty,
        l.repr.value == Some(x),
        r.repr.value == Some(y),
        !(kind == ConstraintKind::Div && y == 0),
    ensures
        ({
            let w = l.ty.width();
            enforce_arith_s(kind, l, r, cs) == (
                Result::<ValueV, IntegerError>::Ok(ValueV::Integer(IntV {
                    ty: l.ty,
                    repr: UIntV {
                        bits: witness_bits_s(cs.next_wire, w),
                        value: Some(arith_sem(kind, x, y, w)),
                    },
                })),
                CsModel {
                    constraints: cs.constraints.push(ConstraintModel {
                        kind,
                        left: l.repr.bits,
                        right: r.repr.bits,
                        output: witness_bits_s(cs.next_wire, w),
                    }),
                    next_wire: cs.next_wire + w,
                },
            )
        }),
        arith_sem(ConstraintKind::Add, x, y, l.ty.width())
            == ((x + y) % (pow2(l.ty.width()) as int)) as u128,
        arith_sem(ConstraintKind::Sub, x, y, l.ty.width())
            == ((x + pow2(l.ty.width()) - y) % (pow2(l.ty.width()) as int)) as u128,
        arith_sem(ConstraintKind::Mul, x, y, l.ty.width())
            == ((x * y) % (pow2(l.ty.width()) as int)) as u128,
        y != 0 ==> arith_sem(ConstraintKind::Div, x, y, l.ty.width()) == x / y,
        arith_sem(ConstraintKind::Pow, x, y, l.ty.width())
            == (pow(x as int, y as nat) % (pow2(l.ty.width()) as int)) as u128,
{
}

/// A division whose divisor is known to be zero is rejected, and no
/// constraint is appended.
pub proof fn lemma_enforce_div_known_zero(l: IntV, r: IntV, cs: CsModel)
    requires
        l.ty == r.ty,
        r.repr.value == Some(0u128),
    ensures
        enforce_arith_s(ConstraintKind::Div, l, r, cs)
            == (Result::<ValueV, IntegerError>::Err(IntegerError::DivisionByZero), cs),
{
}

/// Operands of differing widths are always rejected — never implicitly
/// widened or narrowed: every arithmetic operator, the enforcing equality
/// and the constraint-free equality fail with the width-mismatch error, and
/// no constraint is appended.
pub proof fn lemma_width_mismatch(kind: ConstraintKind, l: IntV, r: IntV, cs: CsModel)
    requires
        l.ty != r.ty,
    ensures
        evaluate_eq_s(l, r)
            == Result::<ValueV, IntegerError>::Err(
                IntegerError::CannotEvaluate(summary_of(l), summary_of(r))),
        kind != ConstraintKind::Eq ==> enforce_arith_s(kind, l, r, cs)
            == (Result::<ValueV, IntegerError>::Err(
                IntegerError::CannotEnforce(kind, summary_of(l), summary_of(r))), cs),
        enforce_eq_s(l, r, cs)
            == (Result::<(), IntegerError>::Err(
                IntegerError::CannotEnforce(ConstraintKind::Eq, summary_of(l), summary_of(r))),
                cs),
{
}

/// Constraint-free equality is reflexive: every integer compares equal to
/// itself, as a constant boolean.
pub proof fn lemma_evaluate_eq_reflexive(a: IntV)
    ensures
        evaluate_eq_s(a, a)
            == Result::<ValueV, IntegerError>::Ok(ValueV::Boolean(Boolean::Constant(true))),
{
}

/// Constraint-free equality distinguishes: two same-width integers with
/// different representations compare as the constant false.
pub proof fn lemma_evaluate_eq_distinguishes(a: IntV, b: IntV)
    requires
        a.ty == b.ty,
        a.repr != b.repr,
    ensures
        evaluate_eq_s(a, b)
            == Result::<ValueV, IntegerError>::Ok(ValueV::Boolean(Boolean::Constant(false))),
{
}

/// A declared non-integer parameter type always fails with `InvalidType`,
/// whatever value is supplied, and appends no constraint.
pub proof fn lemma_from_parameter_invalid_type(m: InputModelV,
    v: Option<InputValue>, cs: CsModel)
    requires
        !(m.ty matches Type::IntegerType(_)),
    ensures
        from_param_s(m, v, cs)
            == (Result::<ValueV, IntegerError>::Err(IntegerError::InvalidType(m.ty)), cs),
{
}

/// A declared integer type with a supplied non-integer literal always fails
/// with `InvalidInteger`, and appends no constraint.
pub proof fn lemma_from_parameter_invalid_literal(m: InputModelV,
    v: InputValue, cs: CsModel)
    requires
        m.ty matches Type::IntegerType(_),
        !(v matches InputValue::Integer(_)),
    ensures
        from_param_s(m, Some(v), cs)
            == (Result::<ValueV, IntegerError>::Err(IntegerError::InvalidInteger(m.ty, v)), cs),
{
}

/// A missing input allocates a free witness: the declared width's wires are
/// allocated, no evaluation is known, and no equality constraint with any
/// literal — indeed no constraint at all — is appended.
pub proof fn lemma_from_parameter_free_witness(m: InputModelV,
    it: IntegerType, cs: CsModel)
    requires
        m.ty == Type::IntegerType(it),
    ensures
        from_param_s(m, None, cs) == (
            Result::<ValueV, IntegerError>::Ok(ValueV::Integer(IntV {
                ty: it,
                repr: UIntV { bits: witness_bits_s(cs.next_wire, it.width()), value: None },
            })),
            CsModel { constraints: cs.constraints, next_wire: cs.next_wire + it.width() },
        ),
{
}

/// A supplied integer literal that fits the declared width allocates the
/// witness and additionally appends the one equality constraint binding the
/// witness wires to the literal's constant bits.
pub proof fn lemma_from_parameter_literal_witness(m: InputModelV,
    it: IntegerType, n: u128, cs: CsModel)
    requires
        m.ty == Type::IntegerType(it),
        (n as nat) < pow2(it.width()),
    ensures
        from_param_s(m, Some(InputValue::Integer(n)), cs) == (
            Result::<ValueV, IntegerError>::Ok(ValueV::Integer(IntV {
                ty: it,
                repr: UIntV {
                    bits: witness_bits_s(cs.next_wire, it.width()),
                    value: Some(n),
                },
            })),
            CsModel {
                constraints: cs.constraints.push(ConstraintModel {
                    kind: ConstraintKind::Eq,
                    left: witness_bits_s(cs.next_wire, it.width()),
                    right: const_bits_s(n, it.width()),
                    output: Seq::empty(),
                }),
                next_wire: cs.next_wire + it.width(),
            },
        ),
{
}

/// Generation is deterministic: two runs over the same program, the same
/// parameter list and the same starting constraint system produce the same
/// output value and the same constraint sequence.
pub proof fn lemma_generate_deterministic(p1: ProgramV, p2: ProgramV,
    v1: Seq<Option<InputValue>>, v2: Seq<Option<InputValue>>, cs1: CsModel, cs2: CsModel)
    requires
        p1 == p2,
        v1 == v2,
        cs1 == cs2,
    ensures
        generate_s(p1, v1, cs1) == generate_s(p2, v2, cs2),
{
}

/// Qualifying two identifiers under the same scope keeps them apart.
proof fn lemma_scoped_injective(outer: Seq<char>, a: Seq<char>, b: Seq<char>)
    requires
        a != b,
    ensures
        scoped(outer, a) != scoped(outer, b),
{
    if scoped(outer, a) == scoped(outer, b) {
        let pa = outer + seq!['_'];
        assert(scoped(outer, a) == pa + a);
        assert(scoped(outer, b) == pa + b);
        assert(a.len() == b.len());
        assert forall|i: int| 0 <= i < a.len() implies a[i] == b[i] by {
            assert((pa + a)[pa.len() + i] == a[i]);
            assert((pa + b)[pa.len() + i] == b[i]);
        }
        assert(a =~= b);
    }
}

/// A table none of whose keys is `key` looks `key` up to nothing.
proof fn lemma_lookup_none(t: Seq<(Seq<char>, ValueV)>, key: Seq<char>)
    requires
        forall|j: int| 0 <= j < t.len() ==> t[j].0 != key,
    ensures
        lookup_s(t, key) is None,
    decreases t.len(),
{
    if t.len() > 0 {
        lemma_lookup_none(t.drop_first(), key);
    }
}

/// A program none of whose definitions is named `main` fails generation with
/// `NoMain`, whatever inputs are supplied.
pub proof fn lemma_no_main(p: ProgramV, params: Seq<Option<InputValue>>, cs: CsModel)
    requires
        forall|j: int| 0 <= j < p.definitions.len() ==> p.definitions[j].name != "main"@,
    ensures
        generate_s(p, params, cs)
            == (Result::<ValueV, CompilerError>::Err(CompilerError::NoMain), cs),
{
    let t = resolved_entries(p);
    assert forall|j: int| 0 <= j < t.len() implies t[j].0 != main_key(p) by {
        lemma_scoped_injective(p.name, p.definitions[j].name, "main"@);
    }
    lemma_lookup_none(t, main_key(p));
}

/// A program whose `main` resolves to something other than a function fails
/// generation with `NoMainFunction`, whatever inputs are supplied.
pub proof fn lemma_main_not_function(p: ProgramV, params: Seq<Option<InputValue>>,
    cs: CsModel, v: ValueV)
    requires
        lookup_s(resolved_entries(p), main_key(p)) == Some(v),
        !(v matches ValueV::Function(_)),
    ensures
        generate_s(p, params, cs)
            == (Result::<ValueV, CompilerError>::Err(CompilerError::NoMainFunction), cs),
{
}

} // verus!
