use constraint_gen::errors::IntegerError;
use constraint_gen::program::ConstrainedProgram;
use constraint_gen::r1cs::{ConstraintKind, ConstraintSystem};
use constraint_gen::types::{InputModel, InputValue, IntegerType, Type};
use constraint_gen::value::ConstrainedValue;

fn model(name: &str, ty: Type) -> InputModel {
    InputModel::new(name.to_string(), ty)
}

#[test]
fn non_integer_type_fails_invalid_type_whatever_the_value() {
    let mut program = ConstrainedProgram::new();
    let mut cs = ConstraintSystem::new();
    let r = program.integer_from_parameter(
        &mut cs,
        model("flag", Type::Boolean),
        Some(InputValue::Integer(3)),
    );
    assert_eq!(r.unwrap_err(), IntegerError::InvalidType(Type::Boolean));
    let r2 = program.integer_from_parameter(&mut cs, model("flag", Type::Boolean), None);
    assert_eq!(r2.unwrap_err(), IntegerError::InvalidType(Type::Boolean));
    let r3 = program.integer_from_parameter(
        &mut cs,
        model("f", Type::FieldElement),
        Some(InputValue::Boolean(true)),
    );
    assert_eq!(r3.unwrap_err(), IntegerError::InvalidType(Type::FieldElement));
    assert_eq!(cs.num_constraints(), 0);
    assert_eq!(cs.next_wire, 0);
}

#[test]
fn non_integer_literal_fails_invalid_integer() {
    let mut program = ConstrainedProgram::new();
    let mut cs = ConstraintSystem::new();
    let ty = Type::IntegerType(IntegerType::U8);
    let r = program.integer_from_parameter(&mut cs, model("x", ty), Some(InputValue::Boolean(true)));
    assert_eq!(
        r.unwrap_err(),
        IntegerError::InvalidInteger(ty, InputValue::Boolean(true))
    );
    assert_eq!(cs.num_constraints(), 0);
}

#[test]
fn literal_past_the_declared_width_fails_invalid_integer() {
    let mut program = ConstrainedProgram::new();
    let mut cs = ConstraintSystem::new();
    let ty = Type::IntegerType(IntegerType::U8);
    let r = program.integer_from_parameter(&mut cs, model("x", ty), Some(InputValue::Integer(300)));
    assert_eq!(
        r.unwrap_err(),
        IntegerError::InvalidInteger(ty, InputValue::Integer(300))
    );
    assert_eq!(cs.num_constraints(), 0);
}

#[test]
fn missing_value_allocates_a_free_witness() {
    let mut program = ConstrainedProgram::new();
    let mut cs = ConstraintSystem::new();
    let ty = Type::IntegerType(IntegerType::U16);
    let r = program.integer_from_parameter(&mut cs, model("x", ty), None);
    match r {
        Ok(ConstrainedValue::Integer(i)) => {
            assert_eq!(i.get_type(), IntegerType::U16);
            assert_eq!(i.get_value(), None);
        }
        other => panic!("expected a free integer witness, got {:?}", other),
    }
    assert_eq!(cs.num_constraints(), 0);
    assert_eq!(cs.next_wire, 16);
}

#[test]
fn supplied_literal_allocates_a_constrained_witness() {
    let mut program = ConstrainedProgram::new();
    let mut cs = ConstraintSystem::new();
    let ty = Type::IntegerType(IntegerType::U8);
    let r = program.integer_from_parameter(&mut cs, model("x", ty), Some(InputValue::Integer(7)));
    match r {
        Ok(ConstrainedValue::Integer(i)) => {
            assert_eq!(i.get_type(), IntegerType::U8);
            assert_eq!(i.get_value(), Some(7));
        }
        other => panic!("expected a constrained integer witness, got {:?}", other),
    }
    assert_eq!(cs.num_constraints(), 1);
    assert_eq!(cs.constraints[0].kind, ConstraintKind::Eq);
    assert_eq!(cs.next_wire, 8);
}

#[test]
fn u128_literal_is_always_in_range() {
    let mut program = ConstrainedProgram::new();
    let mut cs = ConstraintSystem::new();
    let ty = Type::IntegerType(IntegerType::U128);
    let r = program.integer_from_parameter(
        &mut cs,
        model("x", ty),
        Some(InputValue::Integer(u128::MAX)),
    );
    match r {
        Ok(ConstrainedValue::Integer(i)) => assert_eq!(i.get_value(), Some(u128::MAX)),
        other => panic!("expected an integer witness, got {:?}", other),
    }
    assert_eq!(cs.next_wire, 128);
}
