use constraint_gen::boolean::Boolean;
use constraint_gen::errors::IntegerError;
use constraint_gen::integer::Integer;
use constraint_gen::program::ConstrainedProgram;
use constraint_gen::r1cs::{ConstraintKind, ConstraintSystem};
use constraint_gen::types::IntegerType;
use constraint_gen::value::ConstrainedValue;

fn u8c(v: u128) -> Integer {
    Integer::new_constant(IntegerType::U8, v).unwrap()
}

fn u16c(v: u128) -> Integer {
    Integer::new_constant(IntegerType::U16, v).unwrap()
}

fn expect_integer(r: Result<ConstrainedValue, IntegerError>) -> Integer {
    match r {
        Ok(ConstrainedValue::Integer(i)) => i,
        other => panic!("expected an integer result, got {:?}", other),
    }
}

#[test]
fn u8_add_exact() {
    let mut cs = ConstraintSystem::new();
    let r = expect_integer(ConstrainedProgram::enforce_integer_add(&mut cs, u8c(3), u8c(4)));
    assert_eq!(r.get_type(), IntegerType::U8);
    assert_eq!(r.get_value(), Some(7));
    assert_eq!(cs.num_constraints(), 1);
    assert_eq!(cs.constraints[0].kind, ConstraintKind::Add);
}

#[test]
fn u8_add_wraps_modulo_width() {
    let mut cs = ConstraintSystem::new();
    let r = expect_integer(ConstrainedProgram::enforce_integer_add(&mut cs, u8c(250), u8c(10)));
    assert_eq!(r.get_value(), Some(4));
}

#[test]
fn u8_sub_wraps_modulo_width() {
    let mut cs = ConstraintSystem::new();
    let r = expect_integer(ConstrainedProgram::enforce_integer_sub(&mut cs, u8c(3), u8c(5)));
    assert_eq!(r.get_value(), Some(254));
    let mut cs2 = ConstraintSystem::new();
    let r2 = expect_integer(ConstrainedProgram::enforce_integer_sub(&mut cs2, u8c(9), u8c(4)));
    assert_eq!(r2.get_value(), Some(5));
}

#[test]
fn u8_mul_wraps_modulo_width() {
    let mut cs = ConstraintSystem::new();
    let r = expect_integer(ConstrainedProgram::enforce_integer_mul(&mut cs, u8c(16), u8c(17)));
    assert_eq!(r.get_value(), Some(16));
}

#[test]
fn u8_div_truncates() {
    let mut cs = ConstraintSystem::new();
    let r = expect_integer(ConstrainedProgram::enforce_integer_div(&mut cs, u8c(7), u8c(2)));
    assert_eq!(r.get_value(), Some(3));
}

#[test]
fn u8_div_by_known_zero_is_rejected() {
    let mut cs = ConstraintSystem::new();
    let r = ConstrainedProgram::enforce_integer_div(&mut cs, u8c(7), u8c(0));
    assert_eq!(r.unwrap_err(), IntegerError::DivisionByZero);
    assert_eq!(cs.num_constraints(), 0);
    assert_eq!(cs.next_wire, 0);
}

#[test]
fn u8_pow_exact_and_wrapping() {
    let mut cs = ConstraintSystem::new();
    let r = expect_integer(ConstrainedProgram::enforce_integer_pow(&mut cs, u8c(3), u8c(5)));
    assert_eq!(r.get_value(), Some(243));
    let mut cs2 = ConstraintSystem::new();
    let r2 = expect_integer(ConstrainedProgram::enforce_integer_pow(&mut cs2, u8c(2), u8c(10)));
    assert_eq!(r2.get_value(), Some(0));
}

#[test]
fn u128_add_wraps_at_full_width() {
    let mut cs = ConstraintSystem::new();
    let a = Integer::new_constant(IntegerType::U128, u128::MAX).unwrap();
    let b = Integer::new_constant(IntegerType::U128, 1).unwrap();
    let r = expect_integer(ConstrainedProgram::enforce_integer_add(&mut cs, a, b));
    assert_eq!(r.get_value(), Some(0));
}

#[test]
fn u64_mul_wraps_at_width() {
    let mut cs = ConstraintSystem::new();
    let a = Integer::new_constant(IntegerType::U64, 1 << 32).unwrap();
    let b = Integer::new_constant(IntegerType::U64, 1 << 32).unwrap();
    let r = expect_integer(ConstrainedProgram::enforce_integer_mul(&mut cs, a, b));
    assert_eq!(r.get_value(), Some(0));
}

#[test]
fn mixed_width_arithmetic_is_rejected_without_constraints() {
    let mut cs = ConstraintSystem::new();
    let r = ConstrainedProgram::enforce_integer_add(&mut cs, u8c(1), u16c(2));
    match r.unwrap_err() {
        IntegerError::CannotEnforce(kind, l, rr) => {
            assert_eq!(kind, ConstraintKind::Add);
            assert_eq!(l.ty, IntegerType::U8);
            assert_eq!(l.value, Some(1));
            assert_eq!(rr.ty, IntegerType::U16);
            assert_eq!(rr.value, Some(2));
        }
        other => panic!("expected a width mismatch, got {:?}", other),
    }
    assert_eq!(cs.num_constraints(), 0);
    assert_eq!(cs.next_wire, 0);

    let mut cs2 = ConstraintSystem::new();
    let r2 = ConstrainedProgram::enforce_integer_mul(&mut cs2, u16c(2), u8c(1));
    assert!(matches!(r2, Err(IntegerError::CannotEnforce(ConstraintKind::Mul, _, _))));
    assert_eq!(cs2.num_constraints(), 0);
}

#[test]
fn evaluate_eq_is_reflexive_and_distinguishes() {
    let r = ConstrainedProgram::evaluate_integer_eq(u8c(9), u8c(9));
    assert!(matches!(r, Ok(ConstrainedValue::Boolean(Boolean::Constant(true)))));
    let r2 = ConstrainedProgram::evaluate_integer_eq(u8c(9), u8c(10));
    assert!(matches!(r2, Ok(ConstrainedValue::Boolean(Boolean::Constant(false)))));
}

#[test]
fn evaluate_eq_rejects_mixed_widths() {
    let r = ConstrainedProgram::evaluate_integer_eq(u8c(1), u16c(1));
    match r.unwrap_err() {
        IntegerError::CannotEvaluate(l, rr) => {
            assert_eq!(l.ty, IntegerType::U8);
            assert_eq!(rr.ty, IntegerType::U16);
        }
        other => panic!("expected a width mismatch, got {:?}", other),
    }
}

#[test]
fn enforce_eq_appends_one_constraint() {
    let mut cs = ConstraintSystem::new();
    let r = ConstrainedProgram::enforce_integer_eq(&mut cs, u8c(5), u8c(5));
    assert!(r.is_ok());
    assert_eq!(cs.num_constraints(), 1);
    assert_eq!(cs.constraints[0].kind, ConstraintKind::Eq);
    assert_eq!(cs.next_wire, 0);
}

#[test]
fn enforce_eq_rejects_mixed_widths() {
    let mut cs = ConstraintSystem::new();
    let r = ConstrainedProgram::enforce_integer_eq(&mut cs, u8c(5), u16c(5));
    assert!(matches!(r, Err(IntegerError::CannotEnforce(ConstraintKind::Eq, _, _))));
    assert_eq!(cs.num_constraints(), 0);
}

#[test]
fn get_integer_constant_wraps_the_value() {
    let r = ConstrainedProgram::get_integer_constant(u8c(42));
    match r {
        ConstrainedValue::Integer(i) => assert_eq!(i.get_value(), Some(42)),
        other => panic!("expected an integer, got {:?}", other),
    }
}

#[test]
fn new_constant_rejects_literals_past_the_width() {
    assert!(Integer::new_constant(IntegerType::U8, 256).is_none());
    assert!(Integer::new_constant(IntegerType::U8, 255).is_some());
    assert!(Integer::new_constant(IntegerType::U16, 65536).is_none());
}
