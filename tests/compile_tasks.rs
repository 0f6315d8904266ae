use objectiveai::decimal::Decimal;
use objectiveai::expression::{Expression, ExpressionError};
use objectiveai::function::{Function, InlineFunction};
use objectiveai::input::Input;
use objectiveai::task::{
    CompiledTask, ScalarFunctionTaskExpression, Task, TaskExpression, VectorCompletionTaskExpression,
    VectorFunctionTaskExpression,
};

fn text(s: &str) -> Input {
    Input::Str(s.to_string())
}

fn scalar_task(owner: &str, skip: Option<Expression>, map: Option<u64>, input: Expression) -> TaskExpression {
    TaskExpression::ScalarFunction(ScalarFunctionTaskExpression {
        owner: owner.to_string(),
        repository: "repo".to_string(),
        commit: "abc123".to_string(),
        skip,
        map,
        input,
    })
}

fn inline(input_maps: Option<Expression>, tasks: Vec<TaskExpression>) -> Function {
    Function::Inline(InlineFunction::Scalar { input_maps, tasks, output: Expression::Literal(Input::Null) })
}

fn scalar_input(t: &Task) -> (&str, &Input) {
    match t {
        Task::ScalarFunction(s) => (s.owner.as_str(), &s.input),
        other => panic!("unexpected task {:?}", other),
    }
}

#[test]
fn plain_tasks_compile_to_one_slot_each_in_order() {
    let f = inline(
        None,
        vec![
            scalar_task("first", None, None, Expression::InputRef),
            scalar_task("second", None, None, Expression::Literal(text("lit"))),
            scalar_task("third", None, None, Expression::Index(Box::new(Expression::InputRef), 1)),
        ],
    );
    let input = Input::Array(vec![text("x"), text("y")]);
    let slots = f.compile_tasks(&input).unwrap();
    assert_eq!(slots.len(), 3);
    let owners: Vec<String> = slots
        .iter()
        .map(|s| match s {
            Some(CompiledTask::One(t)) => scalar_input(t).0.to_string(),
            other => panic!("unexpected slot {:?}", other),
        })
        .collect();
    assert_eq!(owners, vec!["first", "second", "third"]);
    match &slots[0] {
        Some(CompiledTask::One(Task::ScalarFunction(t))) => {
            assert_eq!(t.repository, "repo");
            assert_eq!(t.commit, "abc123");
            assert_eq!(format!("{:?}", t.input), format!("{:?}", input));
        }
        other => panic!("unexpected slot {:?}", other),
    }
    match &slots[1] {
        Some(CompiledTask::One(t)) => assert!(matches!(scalar_input(t).1, Input::Str(s) if s == "lit")),
        other => panic!("unexpected slot {:?}", other),
    }
    match &slots[2] {
        Some(CompiledTask::One(t)) => assert!(matches!(scalar_input(t).1, Input::Str(s) if s == "y")),
        other => panic!("unexpected slot {:?}", other),
    }
}

#[test]
fn skipped_task_leaves_empty_slot() {
    let f = inline(
        None,
        vec![
            scalar_task("a", Some(Expression::Literal(Input::Bool(true))), None, Expression::InputRef),
            scalar_task("b", Some(Expression::Literal(Input::Bool(false))), None, Expression::InputRef),
        ],
    );
    let slots = f.compile_tasks(&Input::Null).unwrap();
    assert_eq!(slots.len(), 2);
    assert!(slots[0].is_none());
    assert!(matches!(&slots[1], Some(CompiledTask::One(_))));
}

#[test]
fn skip_is_checked_before_map_lookup() {
    // the map index points nowhere and the task input reads `map`:
    // neither matters once the task is skipped
    let f = inline(
        None,
        vec![scalar_task("a", Some(Expression::InputRef), Some(7), Expression::MapRef)],
    );
    let slots = f.compile_tasks(&Input::Bool(true)).unwrap();
    assert_eq!(slots.len(), 1);
    assert!(slots[0].is_none());
}

#[test]
fn absent_map_index_gives_empty_fan_out() {
    let maps = Input::Array(vec![Input::Array(vec![text("a")]), Input::Array(vec![text("b")])]);
    let f = inline(
        Some(Expression::Literal(maps)),
        vec![scalar_task("a", None, Some(3), Expression::MapRef)],
    );
    let slots = f.compile_tasks(&Input::Null).unwrap();
    assert!(matches!(&slots[0], Some(CompiledTask::Many(v)) if v.is_empty()));
}

#[test]
fn missing_input_maps_give_empty_fan_out() {
    let f = inline(None, vec![scalar_task("a", None, Some(0), Expression::MapRef)]);
    let slots = f.compile_tasks(&Input::Null).unwrap();
    assert!(matches!(&slots[0], Some(CompiledTask::Many(v)) if v.is_empty()));
}

#[test]
fn fan_out_compiles_one_task_per_element_in_order() {
    let input = Input::Array(vec![
        Input::Array(vec![text("x"), text("y"), text("z")]),
        Input::Array(vec![text("other")]),
    ]);
    let f = inline(
        Some(Expression::InputRef),
        vec![
            scalar_task("mapped", None, Some(0), Expression::MapRef),
            scalar_task("plain", None, None, Expression::Literal(Input::Null)),
        ],
    );
    let slots = f.compile_tasks(&input).unwrap();
    assert_eq!(slots.len(), 2);
    match &slots[0] {
        Some(CompiledTask::Many(tasks)) => {
            assert_eq!(tasks.len(), 3);
            let seen: Vec<String> = tasks
                .iter()
                .map(|t| match scalar_input(t).1 {
                    Input::Str(s) => s.clone(),
                    other => panic!("unexpected input {:?}", other),
                })
                .collect();
            assert_eq!(seen, vec!["x", "y", "z"]);
        }
        other => panic!("unexpected slot {:?}", other),
    }
    assert!(matches!(&slots[1], Some(CompiledTask::One(_))));
}

#[test]
fn map_outside_fan_out_is_an_error() {
    let f = inline(None, vec![scalar_task("a", None, None, Expression::MapRef)]);
    assert_eq!(f.compile_tasks(&Input::Null).unwrap_err(), ExpressionError::MapUnavailable);
}

#[test]
fn skip_that_is_not_a_boolean_is_an_error() {
    let f = inline(None, vec![scalar_task("a", Some(Expression::Literal(text("yes"))), None, Expression::InputRef)]);
    assert_eq!(f.compile_tasks(&Input::Null).unwrap_err(), ExpressionError::ExpectedBool);
}

#[test]
fn input_maps_must_be_arrays_of_arrays() {
    let f = inline(
        Some(Expression::Literal(Input::Array(vec![Input::Number(Decimal::new(1, 0))]))),
        vec![],
    );
    assert_eq!(f.compile_tasks(&Input::Null).unwrap_err(), ExpressionError::ExpectedInputMaps);
}

#[test]
fn indexing_errors() {
    let f = inline(None, vec![scalar_task("a", None, None, Expression::Index(Box::new(Expression::InputRef), 5))]);
    assert_eq!(
        f.compile_tasks(&Input::Array(vec![Input::Null])).unwrap_err(),
        ExpressionError::IndexOutOfRange(5)
    );
    let g = inline(None, vec![scalar_task("a", None, None, Expression::Index(Box::new(Expression::InputRef), 0))]);
    assert_eq!(g.compile_tasks(&Input::Null).unwrap_err(), ExpressionError::NotAnArray);
}

#[test]
fn task_outputs_are_not_available_to_tasks() {
    let f = inline(None, vec![scalar_task("a", None, None, Expression::TaskRef(0))]);
    assert_eq!(f.compile_tasks(&Input::Null).unwrap_err(), ExpressionError::TaskOutOfRange(0));
}

#[test]
fn first_failing_slot_decides_the_error() {
    let f = inline(
        None,
        vec![
            scalar_task("ok", None, None, Expression::InputRef),
            scalar_task("bad", None, None, Expression::MapRef),
            scalar_task("worse", Some(Expression::Literal(Input::Null)), None, Expression::InputRef),
        ],
    );
    assert_eq!(f.compile_tasks(&Input::Null).unwrap_err(), ExpressionError::MapUnavailable);
}

#[test]
fn completion_task_flattens_items_in_order() {
    let task = TaskExpression::VectorCompletion(VectorCompletionTaskExpression {
        skip: None,
        map: None,
        messages: vec![
            Expression::Literal(text("system")),
            Expression::Literal(Input::Array(vec![text("user one"), text("user two")])),
            Expression::InputRef,
        ],
        tools: None,
        responses: vec![Expression::Literal(Input::Array(vec![text("yes"), text("no")]))],
    });
    let f = inline(None, vec![task]);
    let slots = f.compile_tasks(&text("last")).unwrap();
    match &slots[0] {
        Some(CompiledTask::One(Task::VectorCompletion(t))) => {
            let messages: Vec<String> = t
                .messages
                .iter()
                .map(|m| match m {
                    Input::Str(s) => s.clone(),
                    other => panic!("unexpected message {:?}", other),
                })
                .collect();
            assert_eq!(messages, vec!["system", "user one", "user two", "last"]);
            assert!(t.tools.is_none());
            assert_eq!(t.responses.len(), 2);
        }
        other => panic!("unexpected slot {:?}", other),
    }
}

#[test]
fn completion_task_tools_compile_when_present() {
    let task = TaskExpression::VectorCompletion(VectorCompletionTaskExpression {
        skip: None,
        map: None,
        messages: vec![],
        tools: Some(vec![Expression::Literal(text("search")), Expression::Literal(Input::Array(vec![]))]),
        responses: vec![],
    });
    let slots = inline(None, vec![task]).compile_tasks(&Input::Null).unwrap();
    match &slots[0] {
        Some(CompiledTask::One(Task::VectorCompletion(t))) => {
            assert_eq!(t.tools.as_ref().map(|v| v.len()), Some(1));
            assert!(t.messages.is_empty());
        }
        other => panic!("unexpected slot {:?}", other),
    }
}

#[test]
fn vector_function_task_compiles_with_map_element() {
    let task = TaskExpression::VectorFunction(VectorFunctionTaskExpression {
        owner: "o".to_string(),
        repository: "r".to_string(),
        commit: "c".to_string(),
        skip: None,
        map: Some(0),
        input: Expression::MapRef,
    });
    let input = Input::Array(vec![Input::Array(vec![Input::Bool(true), Input::Bool(false)])]);
    let slots = inline(Some(Expression::InputRef), vec![task]).compile_tasks(&input).unwrap();
    match &slots[0] {
        Some(CompiledTask::Many(tasks)) => {
            assert_eq!(tasks.len(), 2);
            assert!(matches!(&tasks[0], Task::VectorFunction(t) if matches!(t.input, Input::Bool(true)) && t.owner == "o"));
            assert!(matches!(&tasks[1], Task::VectorFunction(t) if matches!(t.input, Input::Bool(false))));
        }
        other => panic!("unexpected slot {:?}", other),
    }
}

fn sample_function() -> Function {
    inline(
        Some(Expression::InputRef),
        vec![
            scalar_task("a", None, Some(0), Expression::MapRef),
            scalar_task("b", Some(Expression::Literal(Input::Bool(true))), None, Expression::InputRef),
            scalar_task("c", None, None, Expression::Index(Box::new(Expression::InputRef), 0)),
        ],
    )
}

#[test]
fn compiling_twice_gives_identical_slots() {
    let input = Input::Array(vec![Input::Array(vec![text("p"), text("q")])]);
    let first = sample_function().compile_tasks(&input).unwrap();
    let second = sample_function().compile_tasks(&input).unwrap();
    assert_eq!(format!("{:?}", first), format!("{:?}", second));
}

#[test]
fn take_skip_removes_the_skip_expression() {
    let mut t = scalar_task("a", Some(Expression::Literal(Input::Bool(true))), Some(2), Expression::InputRef);
    assert!(matches!(t.take_skip(), Some(Expression::Literal(Input::Bool(true)))));
    assert!(t.take_skip().is_none());
    assert_eq!(t.input_map(), Some(2));
}

fn person() -> Input {
    Input::Object(vec![
        ("name".to_string(), text("ada")),
        ("tags".to_string(), Input::Array(vec![text("math"), text("engines")])),
        ("name".to_string(), text("shadowed")),
    ])
}

fn compiled_input(f: Function, input: &Input) -> String {
    match f.compile_tasks(input).unwrap().remove(0) {
        Some(CompiledTask::One(Task::ScalarFunction(t))) => format!("{:?}", t.input),
        other => panic!("unexpected slot {:?}", other),
    }
}

#[test]
fn fields_read_the_first_match_or_null() {
    let name = inline(None, vec![scalar_task("a", None, None, Expression::Field(Box::new(Expression::InputRef), "name".to_string()))]);
    assert_eq!(compiled_input(name, &person()), format!("{:?}", text("ada")));
    let missing = inline(None, vec![scalar_task("a", None, None, Expression::Field(Box::new(Expression::InputRef), "age".to_string()))]);
    assert_eq!(compiled_input(missing, &person()), format!("{:?}", Input::Null));
    let nested = Expression::Index(Box::new(Expression::Field(Box::new(Expression::InputRef), "tags".to_string())), 1);
    let tag = inline(None, vec![scalar_task("a", None, None, nested)]);
    assert_eq!(compiled_input(tag, &person()), format!("{:?}", text("engines")));
}

#[test]
fn field_of_a_non_object_is_an_error() {
    let f = inline(None, vec![scalar_task("a", None, None, Expression::Field(Box::new(Expression::InputRef), "x".to_string()))]);
    assert_eq!(f.compile_tasks(&Input::Array(vec![])).unwrap_err(), ExpressionError::NotAnObject);
}

#[test]
fn whole_object_inputs_are_copied_intact() {
    let f = inline(None, vec![scalar_task("a", None, None, Expression::InputRef)]);
    assert_eq!(compiled_input(f, &person()), format!("{:?}", person()));
}
