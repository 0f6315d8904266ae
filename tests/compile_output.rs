use objectiveai::decimal::Decimal;
use objectiveai::expression::{
    Expression, ExpressionError, FunctionOutput, TaskOutput, VectorCompletionOutput, Vote,
};
use objectiveai::function::{scalar_valid, sum_decimals, vector_valid, Function, InlineFunction, RemoteFunction};
use objectiveai::input::Input;

fn num(m: i64, s: u32) -> Input {
    Input::Number(Decimal::new(m, s))
}

fn inline_scalar(output: Expression) -> Function {
    Function::Inline(InlineFunction::Scalar { input_maps: None, tasks: vec![], output })
}

fn inline_vector(output: Expression) -> Function {
    Function::Inline(InlineFunction::Vector { input_maps: None, tasks: vec![], output })
}

fn remote_vector(output: Expression, output_length: Expression) -> Function {
    Function::Remote(RemoteFunction::Vector {
        description: "votes".to_string(),
        changelog: None,
        input_schema: Input::Null,
        input_maps: None,
        tasks: vec![],
        output,
        output_length,
    })
}

fn remote_scalar(output: Expression) -> Function {
    Function::Remote(RemoteFunction::Scalar {
        description: "score".to_string(),
        changelog: Some("first".to_string()),
        input_schema: Input::Null,
        input_maps: None,
        tasks: vec![],
        output,
    })
}

#[test]
fn scalar_half_is_valid() {
    let c = inline_scalar(Expression::Literal(num(5, 1))).compile_output(&Input::Null, &[]).unwrap();
    assert!(c.valid);
    assert!(matches!(c.output, FunctionOutput::Scalar(d) if d == Decimal::new(5, 1)));
}

#[test]
fn scalar_one_and_a_half_is_invalid() {
    let c = inline_scalar(Expression::Literal(num(15, 1))).compile_output(&Input::Null, &[]).unwrap();
    assert!(!c.valid);
}

#[test]
fn scalar_bounds_are_inclusive() {
    assert!(remote_scalar(Expression::Literal(num(0, 0))).compile_output(&Input::Null, &[]).unwrap().valid);
    assert!(remote_scalar(Expression::Literal(num(1000, 3))).compile_output(&Input::Null, &[]).unwrap().valid);
    assert!(!remote_scalar(Expression::Literal(num(-1, 2))).compile_output(&Input::Null, &[]).unwrap().valid);
    assert!(!remote_scalar(Expression::Literal(num(10001, 4))).compile_output(&Input::Null, &[]).unwrap().valid);
}

#[test]
fn vector_summing_to_one_is_valid() {
    let out = Expression::Literal(Input::Array(vec![num(3, 1), num(3, 1), num(4, 1)]));
    let c = inline_vector(out).compile_output(&Input::Null, &[]).unwrap();
    assert!(c.valid);
    match c.output {
        FunctionOutput::Vector(v) => assert_eq!(v, vec![Decimal::new(3, 1), Decimal::new(3, 1), Decimal::new(4, 1)]),
        other => panic!("unexpected output {:?}", other),
    }
}

#[test]
fn vector_summing_past_band_is_invalid() {
    let out = Expression::Literal(Input::Array(vec![num(3, 1), num(3, 1), num(5, 1)]));
    assert!(!inline_vector(out).compile_output(&Input::Null, &[]).unwrap().valid);
}

#[test]
fn vector_sum_band_edges() {
    let low = Expression::Literal(Input::Array(vec![num(49, 2), num(50, 2)]));
    assert!(inline_vector(low).compile_output(&Input::Null, &[]).unwrap().valid);
    let high = Expression::Literal(Input::Array(vec![num(51, 2), num(50, 2)]));
    assert!(inline_vector(high).compile_output(&Input::Null, &[]).unwrap().valid);
    let too_low = Expression::Literal(Input::Array(vec![num(48, 2), num(50, 2)]));
    assert!(!inline_vector(too_low).compile_output(&Input::Null, &[]).unwrap().valid);
}

#[test]
fn vector_of_wrong_length_is_invalid_regardless_of_sum() {
    let out = Expression::Literal(Input::Array(vec![num(5, 1), num(5, 1)]));
    let c = remote_vector(out, Expression::Literal(num(3, 0))).compile_output(&Input::Null, &[]).unwrap();
    assert!(!c.valid);
}

#[test]
fn vector_of_expected_length_is_valid() {
    let out = Expression::Literal(Input::Array(vec![num(3, 1), num(3, 1), num(4, 1)]));
    let c = remote_vector(out, Expression::Literal(num(3, 0))).compile_output(&Input::Null, &[]).unwrap();
    assert!(c.valid);
}

#[test]
fn shape_mismatch_is_invalid_not_an_error() {
    let vec_out = Expression::Literal(Input::Array(vec![num(1, 0)]));
    assert!(!inline_scalar(vec_out).compile_output(&Input::Null, &[]).unwrap().valid);
    let scalar_out = Expression::Literal(num(1, 0));
    assert!(!inline_vector(scalar_out).compile_output(&Input::Null, &[]).unwrap().valid);
}

#[test]
fn other_values_become_error_outputs() {
    let c = inline_scalar(Expression::Literal(Input::Str("oops".to_string()))).compile_output(&Input::Null, &[]).unwrap();
    assert!(!c.valid);
    assert!(matches!(c.output, FunctionOutput::Error(Input::Str(ref s)) if s == "oops"));
    let mixed = Expression::Literal(Input::Array(vec![num(1, 0), Input::Null]));
    let d = inline_vector(mixed).compile_output(&Input::Null, &[]).unwrap();
    assert!(!d.valid);
    assert!(matches!(d.output, FunctionOutput::Error(Input::Array(ref v)) if v.len() == 2));
}

#[test]
fn output_reads_task_outputs_by_slot() {
    let tasks = vec![
        None,
        Some(TaskOutput::Function(FunctionOutput::Scalar(Decimal::new(7, 1)))),
        Some(TaskOutput::VectorCompletion(VectorCompletionOutput {
            votes: vec![Vote { model: "m".to_string(), vote: vec![Decimal::new(1, 0), Decimal::new(0, 0)], weight: Decimal::new(1, 0) }],
            scores: vec![Decimal::new(2, 1), Decimal::new(8, 1)],
            weights: vec![Decimal::new(1, 0)],
        })),
    ];
    let c = inline_scalar(Expression::TaskRef(1)).compile_output(&Input::Null, &tasks).unwrap();
    assert!(c.valid);
    assert!(matches!(c.output, FunctionOutput::Scalar(d) if d == Decimal::new(7, 1)));
    let v = inline_vector(Expression::TaskRef(2)).compile_output(&Input::Null, &tasks).unwrap();
    assert!(v.valid);
    assert!(matches!(v.output, FunctionOutput::Vector(ref s) if s.len() == 2));
    let skipped = inline_scalar(Expression::TaskRef(0)).compile_output(&Input::Null, &tasks).unwrap();
    assert!(!skipped.valid);
    assert!(matches!(skipped.output, FunctionOutput::Error(Input::Null)));
}

#[test]
fn task_slot_past_the_end_is_an_error() {
    let tasks = vec![None];
    let e = inline_scalar(Expression::TaskRef(2)).compile_output(&Input::Null, &tasks).unwrap_err();
    assert_eq!(e, ExpressionError::TaskOutOfRange(2));
}

#[test]
fn output_length_must_be_a_non_negative_integer() {
    let out = Expression::Literal(Input::Array(vec![]));
    let e = remote_vector(out, Expression::Literal(num(15, 1))).compile_output(&Input::Null, &[]).unwrap_err();
    assert_eq!(e, ExpressionError::ExpectedInteger);
    let out2 = Expression::Literal(Input::Array(vec![]));
    let e2 = remote_vector(out2, Expression::Literal(num(-1, 0))).compile_output(&Input::Null, &[]).unwrap_err();
    assert_eq!(e2, ExpressionError::ExpectedInteger);
}

#[test]
fn output_length_is_evaluated_without_task_outputs() {
    let tasks = vec![Some(TaskOutput::Function(FunctionOutput::Scalar(Decimal::new(1, 0))))];
    let e = remote_vector(Expression::TaskRef(0), Expression::TaskRef(0)).compile_output(&Input::Null, &tasks).unwrap_err();
    assert_eq!(e, ExpressionError::TaskOutOfRange(0));
}

#[test]
fn sum_of_decimals_is_exact() {
    let s = sum_decimals(&[Decimal::new(1, 1), Decimal::new(25, 2)]).unwrap();
    assert_eq!(s.mantissa, 35);
    assert_eq!(s.scale, 2);
    assert_eq!(sum_decimals(&[]), Some(Decimal::zero()));
}

#[test]
fn sum_overflow_gives_none() {
    let max = Decimal::from_parts(objectiveai::decimal::MAX_MANTISSA, 0).unwrap();
    assert_eq!(sum_decimals(&[max, max]), None);
}

#[test]
fn scalar_and_vector_validity_rules() {
    assert!(scalar_valid(Decimal::new(5, 1)));
    assert!(!scalar_valid(Decimal::new(15, 1)));
    assert!(!scalar_valid(Decimal { mantissa: 1, scale: 40 }));
    assert!(vector_valid(Some(Decimal::new(99, 2)), 2, None));
    assert!(vector_valid(Some(Decimal::new(101, 2)), 3, Some(3)));
    assert!(!vector_valid(Some(Decimal::new(102, 2)), 2, None));
    assert!(!vector_valid(Some(Decimal::new(1, 0)), 2, Some(3)));
    assert!(!vector_valid(None, 2, None));
}

#[test]
fn decimal_parts_out_of_range_are_refused() {
    assert!(Decimal::from_parts(1, 29).is_none());
    assert!(Decimal::from_parts(objectiveai::decimal::MAX_MANTISSA + 1, 0).is_none());
    assert_eq!(Decimal::from_parts(-5, 3), Some(Decimal::new(-5, 3)));
}

#[test]
fn remote_function_accessors() {
    let f = RemoteFunction::Vector {
        description: "d".to_string(),
        changelog: Some("c".to_string()),
        input_schema: Input::Bool(true),
        input_maps: Some(Expression::InputRef),
        tasks: vec![],
        output: Expression::MapRef,
        output_length: Expression::Literal(num(2, 0)),
    };
    assert_eq!(f.description(), "d");
    assert_eq!(f.changelog(), Some("c"));
    assert!(matches!(f.input_schema(), Input::Bool(true)));
    assert!(matches!(f.input_maps(), Some(Expression::InputRef)));
    assert!(f.tasks().is_empty());
    assert!(matches!(f.output(), Expression::MapRef));
    assert!(f.output_length().is_some());
    let g = InlineFunction::Scalar { input_maps: None, tasks: vec![], output: Expression::InputRef };
    assert!(g.input_maps().is_none());
    assert!(g.tasks().is_empty());
    assert!(matches!(g.output(), Expression::InputRef));
}
