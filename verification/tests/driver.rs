use constraint_gen::errors::{CompilerError, IntegerError};
use constraint_gen::program::{generate_constraints, ConstrainedProgram, Definition, Program};
use constraint_gen::r1cs::{ConstraintKind, ConstraintSystem};
use constraint_gen::types::{InputModel, InputValue, IntegerType, Type};
use constraint_gen::value::{BinaryOp, ConstrainedValue, Expression, Function};

fn param(name: &str, ty: IntegerType) -> InputModel {
    InputModel::new(name.to_string(), Type::IntegerType(ty))
}

fn binary(op: BinaryOp, l: Expression, r: Expression) -> Expression {
    Expression::Binary(op, Box::new(l), Box::new(r))
}

fn main_program(parameters: Vec<InputModel>, body: Expression) -> Program {
    Program {
        name: "test".to_string(),
        definitions: vec![Definition {
            name: "main".to_string(),
            value: ConstrainedValue::Function(Function { parameters, body }),
        }],
    }
}

fn add_main(x: IntegerType, y: IntegerType) -> Program {
    main_program(
        vec![param("x", x), param("y", y)],
        binary(BinaryOp::Add, Expression::Parameter(0), Expression::Parameter(1)),
    )
}

#[test]
fn main_u8_addition_produces_the_sum() {
    let mut cs = ConstraintSystem::new();
    let r = generate_constraints(
        &mut cs,
        add_main(IntegerType::U8, IntegerType::U8),
        vec![Some(InputValue::Integer(3)), Some(InputValue::Integer(4))],
    );
    match r {
        Ok(ConstrainedValue::Integer(i)) => {
            assert_eq!(i.get_type(), IntegerType::U8);
            assert_eq!(i.get_value(), Some(7));
        }
        other => panic!("expected the sum, got {:?}", other),
    }
    assert_eq!(cs.num_constraints(), 3);
    assert_eq!(cs.constraints[0].kind, ConstraintKind::Eq);
    assert_eq!(cs.constraints[1].kind, ConstraintKind::Eq);
    assert_eq!(cs.constraints[2].kind, ConstraintKind::Add);
    assert_eq!(cs.next_wire, 24);
}

#[test]
fn main_u8_addition_wraps_on_overflow() {
    let mut cs = ConstraintSystem::new();
    let r = generate_constraints(
        &mut cs,
        add_main(IntegerType::U8, IntegerType::U8),
        vec![Some(InputValue::Integer(250)), Some(InputValue::Integer(10))],
    );
    match r {
        Ok(ConstrainedValue::Integer(i)) => assert_eq!(i.get_value(), Some(4)),
        other => panic!("expected the wrapped sum, got {:?}", other),
    }
}

#[test]
fn main_mixed_widths_fails_cannot_enforce() {
    for inputs in [
        vec![Some(InputValue::Integer(3)), Some(InputValue::Integer(4))],
        vec![None, None],
        vec![],
    ] {
        let mut cs = ConstraintSystem::new();
        let r = generate_constraints(&mut cs, add_main(IntegerType::U8, IntegerType::U16), inputs);
        match r {
            Err(CompilerError::IntegerError(IntegerError::CannotEnforce(kind, l, rr))) => {
                assert_eq!(kind, ConstraintKind::Add);
                assert_eq!(l.ty, IntegerType::U8);
                assert_eq!(rr.ty, IntegerType::U16);
            }
            other => panic!("expected a width mismatch, got {:?}", other),
        }
    }
}

#[test]
fn program_without_main_fails_no_main() {
    let mut cs = ConstraintSystem::new();
    let program = Program {
        name: "test".to_string(),
        definitions: vec![Definition {
            name: "helper".to_string(),
            value: ConstrainedValue::Function(Function {
                parameters: vec![],
                body: Expression::Parameter(0),
            }),
        }],
    };
    let r = generate_constraints(&mut cs, program, vec![]);
    assert!(matches!(r, Err(CompilerError::NoMain)));
    assert_eq!(cs.num_constraints(), 0);
}

#[test]
fn empty_program_fails_no_main() {
    let mut cs = ConstraintSystem::new();
    let program = Program { name: "test".to_string(), definitions: vec![] };
    let r = generate_constraints(&mut cs, program, vec![]);
    assert!(matches!(r, Err(CompilerError::NoMain)));
}

#[test]
fn main_resolving_to_a_non_function_fails_no_main_function() {
    let mut cs = ConstraintSystem::new();
    let program = Program {
        name: "test".to_string(),
        definitions: vec![Definition {
            name: "main".to_string(),
            value: ConstrainedValue::Integer(
                constraint_gen::integer::Integer::new_constant(IntegerType::U8, 1).unwrap(),
            ),
        }],
    };
    let r = generate_constraints(&mut cs, program, vec![]);
    assert!(matches!(r, Err(CompilerError::NoMainFunction)));
    assert_eq!(cs.num_constraints(), 0);
}

#[test]
fn generation_is_deterministic() {
    let inputs = || vec![Some(InputValue::Integer(200)), Some(InputValue::Integer(99))];
    let body = || {
        binary(
            BinaryOp::Mul,
            binary(BinaryOp::Add, Expression::Parameter(0), Expression::Parameter(1)),
            Expression::Parameter(0),
        )
    };
    let program = || main_program(vec![param("x", IntegerType::U8), param("y", IntegerType::U8)], body());
    let mut cs1 = ConstraintSystem::new();
    let r1 = generate_constraints(&mut cs1, program(), inputs());
    let mut cs2 = ConstraintSystem::new();
    let r2 = generate_constraints(&mut cs2, program(), inputs());
    assert_eq!(r1.unwrap(), r2.unwrap());
    assert_eq!(cs1.constraints, cs2.constraints);
    assert_eq!(cs1.next_wire, cs2.next_wire);
}

#[test]
fn missing_inputs_become_free_witnesses() {
    let mut cs = ConstraintSystem::new();
    let r = generate_constraints(&mut cs, add_main(IntegerType::U8, IntegerType::U8), vec![]);
    match r {
        Ok(ConstrainedValue::Integer(i)) => {
            assert_eq!(i.get_type(), IntegerType::U8);
            assert_eq!(i.get_value(), None);
        }
        other => panic!("expected a free sum, got {:?}", other),
    }
    assert_eq!(cs.num_constraints(), 1);
    assert_eq!(cs.constraints[0].kind, ConstraintKind::Add);
}

#[test]
fn body_referring_past_the_arity_fails_undefined_parameter() {
    let mut cs = ConstraintSystem::new();
    let program = main_program(vec![param("x", IntegerType::U8)], Expression::Parameter(5));
    let r = generate_constraints(&mut cs, program, vec![Some(InputValue::Integer(1))]);
    assert!(matches!(r, Err(CompilerError::UndefinedParameter(5))));
}

#[test]
fn main_division_by_zero_input_fails() {
    let mut cs = ConstraintSystem::new();
    let program = main_program(
        vec![param("x", IntegerType::U8), param("y", IntegerType::U8)],
        binary(BinaryOp::Div, Expression::Parameter(0), Expression::Parameter(1)),
    );
    let r = generate_constraints(
        &mut cs,
        program,
        vec![Some(InputValue::Integer(4)), Some(InputValue::Integer(0))],
    );
    assert!(matches!(
        r,
        Err(CompilerError::IntegerError(IntegerError::DivisionByZero))
    ));
}

#[test]
fn invalid_parameter_surfaces_through_the_driver() {
    let mut cs = ConstraintSystem::new();
    let program = main_program(
        vec![param("x", IntegerType::U8)],
        Expression::Parameter(0),
    );
    let r = generate_constraints(&mut cs, program, vec![Some(InputValue::Boolean(true))]);
    assert!(matches!(
        r,
        Err(CompilerError::IntegerError(IntegerError::InvalidInteger(_, _)))
    ));
}

#[test]
fn non_integer_operand_fails_expected_integer() {
    let mut cs = ConstraintSystem::new();
    let args = vec![ConstrainedValue::Boolean(constraint_gen::boolean::Boolean::Constant(true))];
    let body = binary(BinaryOp::Add, Expression::Parameter(0), Expression::Parameter(0));
    let r = ConstrainedProgram::enforce_expression(&mut cs, &args, &body);
    assert!(matches!(r, Err(CompilerError::ExpectedInteger)));
    assert_eq!(cs.num_constraints(), 0);
}

#[test]
fn definitions_are_scoped_by_program_name() {
    let mut table = ConstrainedProgram::new();
    let program = Program {
        name: "pkg".to_string(),
        definitions: vec![Definition {
            name: "main".to_string(),
            value: ConstrainedValue::Function(Function {
                parameters: vec![],
                body: Expression::Parameter(0),
            }),
        }],
    };
    table.resolve_definitions(program);
    assert!(table.get(&"pkg_main".to_string()).is_some());
    assert!(table.get(&"main".to_string()).is_none());
    assert!(table.get(&"pkg_other".to_string()).is_none());
}
