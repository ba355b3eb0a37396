use vstd::prelude::*;
use vstd::arithmetic::power::{pow, lemma_pow0, lemma_pow1, lemma_pow_adds};
use vstd::arithmetic::power2::{pow2, lemma2_to64, lemma2_to64_rest, lemma_pow2_adds,
    lemma_pow2_strictly_increases};
use vstd::arithmetic::div_mod::{lemma_small_mod, lemma_mod_add_multiples_vanish,
    lemma_mul_mod_noop_general, lemma_mul_mod_noop_left};
use vstd::arithmetic::mul::lemma_mul_upper_bound;
use vstd::pervasive::unreached;
use crate::boolean::Boolean;
use crate::errors::IntegerError;
use crate::r1cs::{Constraint, ConstraintKind, ConstraintModel, ConstraintSystem, CsModel};

verus! {

/// A width-generic circuit integer: a sequence of boolean wires (the caller
/// fixes its length to the declared width) together with, when known, the
/// concrete evaluation of those wires. `value == None` is a free witness,
/// used for circuit-topology-only passes.
#[derive(PartialEq, Eq, Debug)]
pub struct UInt {
    pub bits: Vec<Boolean>,
    pub value: Option<u128>,
}

/// The mathematical model of a circuit integer.
pub ghost struct UIntV {
    pub bits: Seq<Boolean>,
    pub value: Option<u128>,
}

impl View for UInt {
    type V = UIntV;

    open spec fn view(&self) -> UIntV {
        UIntV { bits: self.bits@, value: self.value }
    }
}

/// The widths the gadget layer serves: exactly the five declared tags.
pub open spec fn width_ok(w: nat) -> bool {
    w == 8 || w == 16 || w == 32 || w == 64 || w == 128
}

/// Well-formedness of a circuit integer at width `w`: the wire sequence has
/// exactly `w` bits and a known evaluation fits in `w` bits.
pub open spec fn uint_wf(u: UIntV, w: nat) -> bool {
    &&& u.bits.len() == w
    &&& match u.value {
        Some(v) => (v as nat) < pow2(w),
        None => true,
    }
}

/// Bit `i` of `v`, least significant first.
pub open spec fn bit_of(v: u128, i: int) -> bool
    recommends 0 <= i < 128,
{
    (v >> (i as u128)) & 1 == 1
}

/// The constant wires that spell out `v` in `w` bits.
pub open spec fn const_bits_s(v: u128, w: nat) -> Seq<Boolean> {
    Seq::new(w, |i: int| Boolean::Constant(bit_of(v, i)))
}

/// `w` fresh witness wires starting at index `start`.
pub open spec fn witness_bits_s(start: int, w: nat) -> Seq<Boolean> {
    Seq::new(w, |i: int| Boolean::Witness((start + i) as usize))
}

/// The evaluation the width gadget assigns to an arithmetic result at width
/// `w`: add, sub and mul wrap modulo `2^w`; div truncates; pow wraps modulo
/// `2^w`. The `Eq` kind produces no integer and is given a dummy value.
pub open spec fn arith_sem(kind: ConstraintKind, x: u128, y: u128, w: nat) -> u128 {
    let m = pow2(w) as int;
    match kind {
        ConstraintKind::Add => ((x + y) % m) as u128,
        ConstraintKind::Sub => ((x + m - y) % m) as u128,
        ConstraintKind::Mul => ((x * y) % m) as u128,
        ConstraintKind::Div => if y == 0 { 0 } else { x / y },
        ConstraintKind::Pow => (pow(x as int, y as nat) % m) as u128,
        ConstraintKind::Eq => 0,
    }
}

/// The result wires' evaluation: known exactly when both operands are known.
pub open spec fn arith_value(kind: ConstraintKind, lv: Option<u128>, rv: Option<u128>, w: nat)
    -> Option<u128> {
    match (lv, rv) {
        (Some(x), Some(y)) => Some(arith_sem(kind, x, y, w)),
        _ => None,
    }
}

/// What an arithmetic gadget does at width `w`: on a division whose divisor
/// is known to be zero it fails and leaves the system untouched; otherwise it
/// allocates `w` fresh output wires, appends the one constraint relating the
/// operand wires to them, and returns those wires with their evaluation.
pub open spec fn arith_gadget_s(kind: ConstraintKind, l: UIntV, r: UIntV, w: nat, cs: CsModel)
    -> (Result<UIntV, IntegerError>, CsModel) {
    if kind == ConstraintKind::Div && r.value == Some(0u128) {
        (Err(IntegerError::DivisionByZero), cs)
    } else {
        let out = witness_bits_s(cs.next_wire, w);
        let c = ConstraintModel { kind, left: l.bits, right: r.bits, output: out };
        (
            Ok(UIntV { bits: out, value: arith_value(kind, l.value, r.value, w) }),
            CsModel { constraints: cs.constraints.push(c), next_wire: cs.next_wire + w },
        )
    }
}

/// What the equality-enforcement gadget does: it appends the one constraint
/// forcing the two wire sequences equal, and allocates nothing.
pub open spec fn eq_gadget_s(l: UIntV, r: UIntV, cs: CsModel) -> CsModel {
    let c = ConstraintModel {
        kind: ConstraintKind::Eq,
        left: l.bits,
        right: r.bits,
        output: Seq::empty(),
    };
    CsModel { constraints: cs.constraints.push(c), next_wire: cs.next_wire }
}

/// What the input-allocation gadget does at width `w`: it allocates `w`
/// fresh witness wires; with a literal it additionally appends the equality
/// constraint binding those wires to the literal's constant bits, and with
/// none it appends nothing — a free witness.
pub open spec fn alloc_input_s(lit: Option<u128>, w: nat, cs: CsModel) -> (UIntV, CsModel) {
    let bits = witness_bits_s(cs.next_wire, w);
    let constraints = match lit {
        Some(v) => cs.constraints.push(ConstraintModel {
            kind: ConstraintKind::Eq,
            left: bits,
            right: const_bits_s(v, w),
            output: Seq::empty(),
        }),
        None => cs.constraints,
    };
    (
        UIntV { bits, value: lit },
        CsModel { constraints, next_wire: cs.next_wire + w },
    )
}

/// Numeric values of the powers of two the gadget layer turns on.
proof fn lemma_pow2_facts()
    ensures
        pow2(8) == 0x100,
        pow2(16) == 0x10000,
        pow2(32) == 0x100000000,
        pow2(64) == 0x10000000000000000,
        pow2(127) == 0x80000000000000000000000000000000,
        pow2(128) == 0x100000000000000000000000000000000,
{
    lemma2_to64();
    lemma2_to64_rest();
    lemma_pow2_adds(64, 63);
    lemma_pow2_adds(64, 64);
}

/// Computes `2^w` for a width below 128.
pub fn pow2_exec(w: usize) -> (r: u128)
    requires
        w < 128,
    ensures
        r as nat == pow2(w as nat),
{
    proof {
        lemma_pow2_facts();
        lemma2_to64();
    }
    let mut r: u128 = 1;
    let mut i: usize = 0;
    while i < w
        invariant
            i <= w < 128,
            r as nat == pow2(i as nat),
        decreases w - i,
    {
        proof {
            lemma_pow2_facts();
            if i + 1 < 127 {
                lemma_pow2_strictly_increases((i + 1) as nat, 127);
            }
            assert(pow2((i + 1) as nat) == 2 * pow2(i as nat)) by {
                lemma_pow2_adds(1, i as nat);
                lemma2_to64();
            }
        }
        r = r * 2;
        i = i + 1;
    }
    r
}

/// Multiplication modulo `2^w` for operands already reduced below `2^w`.
fn mulmod(x: u128, y: u128, w: usize) -> (r: u128)
    requires
        width_ok(w as nat),
        (x as nat) < pow2(w as nat),
        (y as nat) < pow2(w as nat),
    ensures
        r as int == (x as int * y as int) % (pow2(w as nat) as int),
        (r as nat) < pow2(w as nat),
{
    proof {
        lemma_pow2_facts();
    }
    if w == 128 {
        x.wrapping_mul(y)
    } else {
        let m = pow2_exec(w);
        proof {
            if w as nat != 64 {
                lemma_pow2_strictly_increases(w as nat, 64);
            }
            lemma_mul_upper_bound(x as int, pow2(64) as int - 1, y as int, pow2(64) as int - 1);
        }
        (x * y) % m
    }
}

/// Exponentiation modulo `2^w` by binary decomposition of the exponent.
fn pow_mod_exec(b: u128, e: u128, w: usize) -> (r: u128)
    requires
        width_ok(w as nat),
        (b as nat) < pow2(w as nat),
    ensures
        r as int == pow(b as int, e as nat) % (pow2(w as nat) as int),
        (r as nat) < pow2(w as nat),
    decreases e,
{
    let ghost m = pow2(w as nat) as int;
    proof {
        lemma_pow2_facts();
    }
    if e == 0 {
        proof {
            lemma_pow0(b as int);
            lemma_small_mod(1, pow2(w as nat));
        }
        1
    } else {
        let h = pow_mod_exec(b, e / 2, w);
        let hh = mulmod(h, h, w);
        let r = if e % 2 == 0 {
            hh
        } else {
            mulmod(hh, b, w)
        };
        proof {
            let p = pow(b as int, (e / 2) as nat);
            // h is p reduced, so h * h reduces to p * p.
            lemma_mul_mod_noop_general(p, p, m);
            assert(hh as int == (p * p) % m);
            lemma_pow_adds(b as int, (e / 2) as nat, (e / 2) as nat);
            assert(e as nat == (e / 2) as nat + (e / 2) as nat + (e % 2) as nat);
            if e % 2 == 0 {
                assert(pow(b as int, e as nat) == p * p);
            } else {
                lemma_pow_adds(b as int, ((e / 2) + (e / 2)) as nat, 1);
                lemma_pow1(b as int);
                assert(pow(b as int, e as nat) == (p * p) * (b as int));
                lemma_mul_mod_noop_left(p * p, b as int, m);
            }
        }
        r
    }
}

impl UInt {
    /// Copies the representation.
    pub fn clone_uint(&self) -> (r: UInt)
        ensures
            r@ == self@,
    {
        UInt { bits: copy_bits(&self.bits), value: self.value }
    }
}

/// The numeric value of `2^128`, above every `u128` value.
pub proof fn lemma_u128_fits_128()
    ensures
        pow2(128) == 0x100000000000000000000000000000000,
{
    lemma_pow2_facts();
}

/// Copies a wire sequence.
fn copy_bits(bits: &Vec<Boolean>) -> (r: Vec<Boolean>)
    ensures
        r@ == bits@,
{
    let mut r: Vec<Boolean> = Vec::new();
    let mut i: usize = 0;
    while i < bits.len()
        invariant
            i <= bits.len(),
            r@.len() == i,
            forall|j: int| 0 <= j < i ==> r@[j] == bits@[j],
        decreases bits.len() - i,
    {
        r.push(bits[i]);
        i = i + 1;
    }
    proof {
        assert(r@ =~= bits@);
    }
    r
}

/// Builds the constant wires spelling out `v` in `w` bits.
pub fn const_bits(v: u128, w: usize) -> (r: Vec<Boolean>)
    requires
        w <= 128,
    ensures
        r@ == const_bits_s(v, w as nat),
{
    let mut r: Vec<Boolean> = Vec::new();
    let mut i: usize = 0;
    while i < w
        invariant
            i <= w <= 128,
            r@.len() == i,
            forall|j: int| 0 <= j < i ==> r@[j] == Boolean::Constant(bit_of(v, j)),
        decreases w - i,
    {
        let b: bool = (v >> (i as u128)) & 1 == 1;
        r.push(Boolean::Constant(b));
        i = i + 1;
    }
    proof {
        assert(r@ =~= const_bits_s(v, w as nat));
    }
    r
}

/// Allocates `w` fresh witness wires in the constraint system.
fn alloc_witness_bits(cs: &mut ConstraintSystem, w: usize) -> (r: Vec<Boolean>)
    requires
        old(cs)@.next_wire + w <= usize::MAX,
    ensures
        r@ == witness_bits_s(old(cs)@.next_wire, w as nat),
        final(cs)@.next_wire == old(cs)@.next_wire + w,
        final(cs)@.constraints == old(cs)@.constraints,
{
    let mut r: Vec<Boolean> = Vec::new();
    let mut i: usize = 0;
    while i < w
        invariant
            i <= w,
            cs@.next_wire == old(cs)@.next_wire + i,
            cs@.next_wire + (w - i) <= usize::MAX,
            cs@.constraints == old(cs)@.constraints,
            r@.len() == i,
            forall|j: int| 0 <= j < i ==>
                r@[j] == Boolean::Witness((old(cs)@.next_wire + j) as usize),
        decreases w - i,
    {
        let wire = cs.alloc_wire();
        r.push(Boolean::Witness(wire));
        i = i + 1;
    }
    proof {
        assert(r@ =~= witness_bits_s(old(cs)@.next_wire, w as nat));
    }
    r
}

/// The known evaluation of one arithmetic gadget result.
fn arith_sem_exec(kind: ConstraintKind, x: u128, y: u128, w: usize) -> (r: u128)
    requires
        width_ok(w as nat),
        kind != ConstraintKind::Eq,
        !(kind == ConstraintKind::Div && y == 0),
        (x as nat) < pow2(w as nat),
        (y as nat) < pow2(w as nat),
    ensures
        r == arith_sem(kind, x, y, w as nat),
        (r as nat) < pow2(w as nat),
{
    proof {
        lemma_pow2_facts();
    }
    let ghost m = pow2(w as nat) as int;
    match kind {
        ConstraintKind::Add => {
            if w == 128 {
                let r = x.wrapping_add(y);
                proof {
                    if x + y <= u128::MAX {
                        lemma_small_mod((x + y) as nat, pow2(128));
                    } else {
                        lemma_mod_add_multiples_vanish(x + y - m, m);
                        lemma_small_mod((x + y - m) as nat, pow2(128));
                    }
                }
                r
            } else {
                let md = pow2_exec(w);
                proof {
                    lemma_small_mod(((x + y) as nat) % pow2(w as nat), pow2(w as nat));
                }
                (x + y) % md
            }
        },
        ConstraintKind::Sub => {
            if x >= y {
                proof {
                    lemma_mod_add_multiples_vanish(x - y, m);
                    lemma_small_mod((x - y) as nat, pow2(w as nat));
                }
                x - y
            } else if w == 128 {
                let r = x.wrapping_sub(y);
                proof {
                    lemma_small_mod((x + m - y) as nat, pow2(128));
                }
                r
            } else {
                let md = pow2_exec(w);
                proof {
                    lemma_small_mod((x + m - y) as nat, pow2(w as nat));
                }
                md - (y - x)
            }
        },
        ConstraintKind::Mul => mulmod(x, y, w),
        ConstraintKind::Div => {
            let r = x / y;
            r
        },
        ConstraintKind::Pow => pow_mod_exec(x, y, w),
        ConstraintKind::Eq => unreached(),
    }
}

/// Lifts a gadget result to its model.
pub open spec fn ures_view(r: Result<UInt, IntegerError>) -> Result<UIntV, IntegerError> {
    match r {
        Ok(u) => Ok(u@),
        Err(e) => Err(e),
    }
}

/// One arithmetic width gadget: emits the constraint relating the operand
/// wires to `w` freshly allocated output wires, and evaluates the result
/// when both operands are known.
pub fn enforce_arith(cs: &mut ConstraintSystem, kind: ConstraintKind, left: &UInt, right: &UInt,
    w: usize) -> (res: Result<UInt, IntegerError>)
    requires
        width_ok(w as nat),
        kind != ConstraintKind::Eq,
        uint_wf(left@, w as nat),
        uint_wf(right@, w as nat),
        old(cs)@.next_wire + w <= usize::MAX,
    ensures
        (ures_view(res), final(cs)@) == arith_gadget_s(kind, left@, right@, w as nat, old(cs)@),
        res matches Ok(u) ==> uint_wf(u@, w as nat),
{
    if kind == ConstraintKind::Div {
        if let Some(y) = right.value {
            if y == 0 {
                return Err(IntegerError::DivisionByZero);
            }
        }
    }
    let value: Option<u128> = match (left.value, right.value) {
        (Some(x), Some(y)) => Some(arith_sem_exec(kind, x, y, w)),
        _ => None,
    };
    let out_bits = alloc_witness_bits(cs, w);
    let constraint = Constraint {
        kind,
        left: copy_bits(&left.bits),
        right: copy_bits(&right.bits),
        output: copy_bits(&out_bits),
    };
    cs.append(constraint);
    let res = UInt { bits: out_bits, value };
    Ok(res)
}

/// The equality-enforcement width gadget: appends the one constraint forcing
/// the two wire sequences equal.
pub fn enforce_eq_gadget(cs: &mut ConstraintSystem, left: &UInt, right: &UInt)
    ensures
        final(cs)@ == eq_gadget_s(left@, right@, old(cs)@),
{
    let constraint = Constraint {
        kind: ConstraintKind::Eq,
        left: copy_bits(&left.bits),
        right: copy_bits(&right.bits),
        output: Vec::new(),
    };
    cs.append(constraint);
}

/// The input-allocation width gadget: allocates a `w`-bit witness and, when a
/// literal is supplied, additionally constrains the witness equal to it.
pub fn alloc_input_gadget(cs: &mut ConstraintSystem, w: usize, literal: Option<u128>)
    -> (res: UInt)
    requires
        width_ok(w as nat),
        old(cs)@.next_wire + w <= usize::MAX,
        literal matches Some(v) ==> (v as nat) < pow2(w as nat),
    ensures
        (res@, final(cs)@) == alloc_input_s(literal, w as nat, old(cs)@),
        uint_wf(res@, w as nat),
{
    let bits = alloc_witness_bits(cs, w);
    if let Some(v) = literal {
        let constraint = Constraint {
            kind: ConstraintKind::Eq,
            left: copy_bits(&bits),
            right: const_bits(v, w),
            output: Vec::new(),
        };
        cs.append(constraint);
    }
    UInt { bits, value: literal }
}

/// Structural equality of two circuit integers: same wires, same evaluation.
pub fn uint_eq(a: &UInt, b: &UInt) -> (r: bool)
    ensures
        r == (a@ == b@),
{
    let values_eq = match (a.value, b.value) {
        (Some(x), Some(y)) => x == y,
        (None, None) => true,
        _ => false,
    };
    if !values_eq {
        return false;
    }
    if a.bits.len() != b.bits.len() {
        return false;
    }
    let mut i: usize = 0;
    while i < a.bits.len()
        invariant
            i <= a.bits.len(),
            a.bits.len() == b.bits.len(),
            a@.value == b@.value,
            forall|j: int| 0 <= j < i ==> a.bits@[j] == b.bits@[j],
        decreases a.bits.len() - i,
    {
        if a.bits[i] != b.bits[i] {
            return false;
        }
        i = i + 1;
    }
    proof {
        assert(a@.bits =~= b@.bits);
    }
    true
}

} // verus!
