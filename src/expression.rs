//! Expressions, the context they are evaluated in, and the values that
//! tasks and functions produce.

use crate::decimal::Decimal;
use crate::input::{Input, InputView, models};
use vstd::prelude::*;

verus! {

broadcast use vstd::std_specs::vec::axiom_vec_index_decreases;

/// Why an expression could not be evaluated to the value that was asked for.
#[derive(Clone, Copy, Debug, PartialEq, Eq, Structural)]
pub enum ExpressionError {
    /// `map` was referenced outside of a fan-out.
    MapUnavailable,
    /// A task slot past the end of the task outputs was referenced.
    TaskOutOfRange(u64),
    /// An array was indexed past its end.
    IndexOutOfRange(u64),
    /// A value that is not an array was indexed.
    NotAnArray,
    /// A field was read from a value that is not an object.
    NotAnObject,
    /// A boolean was expected.
    ExpectedBool,
    /// A non-negative integer was expected.
    ExpectedInteger,
    /// An array of arrays was expected for the input maps.
    ExpectedInputMaps,
}

/// An expression over the evaluation context.
#[derive(Debug)]
pub enum Expression {
    /// A constant value.
    Literal(Input),
    /// The request input.
    InputRef,
    /// The current fan-out element.
    MapRef,
    /// The output of the task at a slot; a skipped slot reads as `Null`.
    TaskRef(u64),
    /// The element at a position of an array.
    Index(Box<Expression>, u64),
    /// The field of an object with a name; `Null` when it has none.
    Field(Box<Expression>, String),
}

/// One model's vote in a vector completion.
#[derive(Debug)]
pub struct Vote {
    pub model: String,
    pub vote: Vec<Decimal>,
    pub weight: Decimal,
}

/// The result of a vector-completion task.
#[derive(Debug)]
pub struct VectorCompletionOutput {
    pub votes: Vec<Vote>,
    pub scores: Vec<Decimal>,
    pub weights: Vec<Decimal>,
}

/// Mathematical model of a [`FunctionOutput`].
pub enum FunctionOutputView {
    Scalar(Decimal),
    Vector(Seq<Decimal>),
    Error(InputView),
}

/// The final value of a function.
#[derive(Debug)]
pub enum FunctionOutput {
    Scalar(Decimal),
    Vector(Vec<Decimal>),
    Error(Input),
}

/// The result of one task slot.
#[derive(Debug)]
pub enum TaskOutput {
    Function(FunctionOutput),
    VectorCompletion(VectorCompletionOutput),
}

/// A function's output together with whether it meets its invariants.
#[derive(Debug)]
pub struct CompiledFunctionOutput {
    pub output: FunctionOutput,
    pub valid: bool,
}

/// Mathematical model of [`Params`].
pub struct ParamsView {
    pub input: InputView,
    pub tasks: Seq<Option<TaskOutput>>,
    pub map: Option<InputView>,
}

/// The context an expression is evaluated in: the request input, the task
/// outputs so far (empty while tasks are compiled) and the current fan-out
/// element (only while one task is expanded over an input map).
pub struct Params<'a> {
    pub input: &'a Input,
    pub tasks: &'a [Option<TaskOutput>],
    pub map: Option<&'a Input>,
}

impl FunctionOutput {
    pub open spec fn view(self) -> FunctionOutputView {
        match self {
            FunctionOutput::Scalar(d) => FunctionOutputView::Scalar(d),
            FunctionOutput::Vector(v) => FunctionOutputView::Vector(v@),
            FunctionOutput::Error(x) => FunctionOutputView::Error(x.model()),
        }
    }
}

impl<'a> Params<'a> {
    pub open spec fn view(self) -> ParamsView {
        ParamsView {
            input: self.input.model(),
            tasks: self.tasks@,
            map: match self.map {
                Some(m) => Some(m.model()),
                None => None,
            },
        }
    }
}

/// The numbers of a sequence as array elements.
pub open spec fn numbers(s: Seq<Decimal>) -> Seq<InputView> {
    Seq::new(s.len(), |i: int| InputView::Number(s[i]))
}

/// How a function output reads inside an expression.
pub open spec fn output_value(o: FunctionOutputView) -> InputView {
    match o {
        FunctionOutputView::Scalar(d) => InputView::Number(d),
        FunctionOutputView::Vector(s) => InputView::Array(numbers(s)),
        FunctionOutputView::Error(x) => x,
    }
}

/// How a task slot reads inside an expression: a vector completion by its
/// scores, a skipped slot as `Null`.
pub open spec fn slot_value(t: Option<TaskOutput>) -> InputView {
    match t {
        None => InputView::Null,
        Some(TaskOutput::Function(o)) => output_value(o.view()),
        Some(TaskOutput::VectorCompletion(c)) => InputView::Array(numbers(c.scores@)),
    }
}

/// The value of the first field with a name, or `Null` when there is none.
pub open spec fn field_value(s: Seq<(Seq<char>, InputView)>, k: Seq<char>) -> InputView
    decreases s.len(),
{
    if s.len() == 0 {
        InputView::Null
    } else if s[0].0 == k {
        s[0].1
    } else {
        field_value(s.subrange(1, s.len() as int), k)
    }
}

/// The value of an expression in a context.
pub open spec fn eval(e: Expression, p: ParamsView) -> Result<InputView, ExpressionError>
    decreases e,
{
    match e {
        Expression::Literal(v) => Ok(v.model()),
        Expression::InputRef => Ok(p.input),
        Expression::MapRef => match p.map {
            Some(m) => Ok(m),
            None => Err(ExpressionError::MapUnavailable),
        },
        Expression::TaskRef(i) => if i < p.tasks.len() {
            Ok(slot_value(p.tasks[i as int]))
        } else {
            Err(ExpressionError::TaskOutOfRange(i))
        },
        Expression::Index(inner, i) => match eval(*inner, p) {
            Err(err) => Err(err),
            Ok(InputView::Array(s)) => if i < s.len() {
                Ok(s[i as int])
            } else {
                Err(ExpressionError::IndexOutOfRange(i))
            },
            Ok(_) => Err(ExpressionError::NotAnArray),
        },
        Expression::Field(inner, name) => match eval(*inner, p) {
            Err(err) => Err(err),
            Ok(InputView::Object(s)) => Ok(field_value(s, name@)),
            Ok(_) => Err(ExpressionError::NotAnObject),
        },
    }
}

/// An expression's value read as a boolean.
pub open spec fn eval_bool(e: Expression, p: ParamsView) -> Result<bool, ExpressionError> {
    match eval(e, p) {
        Err(err) => Err(err),
        Ok(InputView::Bool(b)) => Ok(b),
        Ok(_) => Err(ExpressionError::ExpectedBool),
    }
}

/// The non-negative integer a value holds: a number of scale 0 that fits in 64 bits.
pub open spec fn as_u64(v: InputView) -> Result<u64, ExpressionError> {
    match v {
        InputView::Number(d) => if d.scale == 0 && 0 <= d.mantissa <= u64::MAX {
            Ok(d.mantissa as u64)
        } else {
            Err(ExpressionError::ExpectedInteger)
        },
        _ => Err(ExpressionError::ExpectedInteger),
    }
}

/// An expression's value read as a non-negative integer.
pub open spec fn eval_u64(e: Expression, p: ParamsView) -> Result<u64, ExpressionError> {
    match eval(e, p) {
        Err(err) => Err(err),
        Ok(v) => as_u64(v),
    }
}

/// A value read as a function output: a number is a scalar, an array of
/// numbers a vector, anything else an error value.
pub open spec fn as_output(v: InputView) -> FunctionOutputView {
    match v {
        InputView::Number(d) => FunctionOutputView::Scalar(d),
        InputView::Array(s) => if forall|i: int| 0 <= i < s.len() ==> s[i] is Number {
            FunctionOutputView::Vector(Seq::new(s.len(), |i: int| s[i]->Number_0))
        } else {
            FunctionOutputView::Error(v)
        },
        _ => FunctionOutputView::Error(v),
    }
}

/// The items a value stands for: the elements of an array, or the value itself.
pub open spec fn expand(v: InputView) -> Seq<InputView> {
    match v {
        InputView::Array(s) => s,
        _ => seq![v],
    }
}

/// The items of a list of expressions, each one expanded, in order.
pub open spec fn eval_items(es: Seq<Expression>, p: ParamsView) -> Result<
    Seq<InputView>,
    ExpressionError,
>
    decreases es.len(),
{
    if es.len() == 0 {
        Ok(Seq::empty())
    } else {
        match eval_items(es.drop_last(), p) {
            Err(err) => Err(err),
            Ok(s) => match eval(es.last(), p) {
                Err(err) => Err(err),
                Ok(v) => Ok(s + expand(v)),
            },
        }
    }
}

pub open spec fn model_result(r: Result<Input, ExpressionError>) -> Result<
    InputView,
    ExpressionError,
> {
    match r {
        Ok(v) => Ok(v.model()),
        Err(err) => Err(err),
    }
}

/// An array of numbers.
pub fn number_array(s: &[Decimal]) -> (r: Input)
    ensures
        r.model() == InputView::Array(numbers(s@)),
{
    let mut out: Vec<Input> = Vec::new();
    let mut i: usize = 0;
    while i < s.len()
        invariant
            0 <= i <= s.len(),
            out@.len() == i,
            forall|j: int| 0 <= j < i ==> out@[j].model() == InputView::Number(s@[j]),
        decreases s.len() - i,
    {
        out.push(Input::Number(s[i]));
        i = i + 1;
    }
    let r = Input::Array(out);
    assert(r.model()->Array_0 =~= numbers(s@));
    r
}

impl FunctionOutput {
    /// How this output reads inside an expression.
    pub fn to_input(&self) -> (r: Input)
        ensures
            r.model() == output_value(self.view()),
    {
        match self {
            FunctionOutput::Scalar(d) => Input::Number(*d),
            FunctionOutput::Vector(v) => number_array(v.as_slice()),
            FunctionOutput::Error(x) => x.deep_clone(),
        }
    }
}

/// How a task slot reads inside an expression.
pub fn slot_to_input(t: &Option<TaskOutput>) -> (r: Input)
    ensures
        r.model() == slot_value(*t),
{
    match t {
        None => Input::Null,
        Some(TaskOutput::Function(o)) => o.to_input(),
        Some(TaskOutput::VectorCompletion(c)) => number_array(c.scores.as_slice()),
    }
}

/// Evaluates an expression in a context.
pub fn evaluate(e: &Expression, p: &Params) -> (r: Result<Input, ExpressionError>)
    ensures
        model_result(r) == eval(*e, p.view()),
    decreases e,
{
    match e {
        Expression::Literal(v) => Ok(v.deep_clone()),
        Expression::InputRef => Ok(p.input.deep_clone()),
        Expression::MapRef => match p.map {
            Some(m) => Ok(m.deep_clone()),
            None => Err(ExpressionError::MapUnavailable),
        },
        Expression::TaskRef(i) => {
            if *i < p.tasks.len() as u64 {
                Ok(slot_to_input(&p.tasks[*i as usize]))
            } else {
                Err(ExpressionError::TaskOutOfRange(*i))
            }
        },
        Expression::Index(inner, i) => {
            let v = evaluate(inner, p)?;
            match v {
                Input::Array(items) => {
                    if *i < items.len() as u64 {
                        Ok(items[*i as usize].deep_clone())
                    } else {
                        Err(ExpressionError::IndexOutOfRange(*i))
                    }
                },
                _ => Err(ExpressionError::NotAnArray),
            }
        },
        Expression::Field(inner, name) => {
            let v = evaluate(inner, p)?;
            let ghost vm = v.model();
            match v {
                Input::Object(fields) => Ok(field(&fields, name, Ghost(vm->Object_0))),
                _ => Err(ExpressionError::NotAnObject),
            }
        },
    }
}

/// A copy of the value of the first field named `name`, or `Null`.
fn field(fields: &Vec<(String, Input)>, name: &String, Ghost(s): Ghost<Seq<(Seq<char>, InputView)>>) -> (r: Input)
    requires
        s.len() == fields@.len(),
        forall|j: int| 0 <= j < s.len() ==> s[j] == (fields@[j].0@, fields@[j].1.model()),
    ensures
        r.model() == field_value(s, name@),
{
    let mut i: usize = 0;
    assert(s.subrange(0, s.len() as int) =~= s);
    while i < fields.len()
        invariant
            0 <= i <= fields.len(),
            s.len() == fields@.len(),
            forall|j: int| 0 <= j < s.len() ==> s[j] == (fields@[j].0@, fields@[j].1.model()),
            field_value(s, name@) == field_value(s.subrange(i as int, s.len() as int), name@),
        decreases fields.len() - i,
    {
        let ghost rest = s.subrange(i as int, s.len() as int);
        assert(rest[0] == s[i as int]);
        if fields[i].0.eq(name) {
            return fields[i].1.deep_clone();
        }
        assert(rest.subrange(1, rest.len() as int) =~= s.subrange(i + 1, s.len() as int));
        i = i + 1;
    }
    Input::Null
}

/// Evaluates an expression to a boolean.
pub fn evaluate_bool(e: &Expression, p: &Params) -> (r: Result<bool, ExpressionError>)
    ensures
        r == eval_bool(*e, p.view()),
{
    match evaluate(e, p)? {
        Input::Bool(b) => Ok(b),
        _ => Err(ExpressionError::ExpectedBool),
    }
}

/// Evaluates an expression to a non-negative integer.
pub fn evaluate_u64(e: &Expression, p: &Params) -> (r: Result<u64, ExpressionError>)
    ensures
        r == eval_u64(*e, p.view()),
{
    match evaluate(e, p)? {
        Input::Number(d) => {
            if d.scale == 0 && 0 <= d.mantissa && d.mantissa <= u64::MAX as i128 {
                Ok(d.mantissa as u64)
            } else {
                Err(ExpressionError::ExpectedInteger)
            }
        },
        _ => Err(ExpressionError::ExpectedInteger),
    }
}

/// Reads a value as a function output.
pub fn to_output(v: Input) -> (r: FunctionOutput)
    ensures
        r.view() == as_output(v.model()),
{
    let ghost vm = v.model();
    match v {
        Input::Number(d) => FunctionOutput::Scalar(d),
        Input::Array(items) => {
            let ghost s = vm->Array_0;
            assert(forall|j: int| 0 <= j < items.len() ==> s[j] == items@[j].model());
            let mut out: Vec<Decimal> = Vec::new();
            let mut i: usize = 0;
            let mut all_numbers = true;
            while i < items.len()
                invariant
                    0 <= i <= items.len(),
                    s.len() == items.len(),
                    forall|j: int| 0 <= j < items.len() ==> s[j] == items@[j].model(),
                    all_numbers ==> out@.len() == i,
                    all_numbers ==> forall|j: int| 0 <= j < i ==> #[trigger] s[j] is Number,
                    all_numbers ==> forall|j: int| 0 <= j < i ==> out@[j] == #[trigger] s[j]->Number_0,
                    !all_numbers ==> exists|j: int| 0 <= j < i && !(s[j] is Number),
                decreases items.len() - i,
            {
                assert(s[i as int] == items@[i as int].model());
                match &items[i] {
                    Input::Number(d) => {
                        assert(s[i as int] == InputView::Number(*d));
                        if all_numbers {
                            let ghost before = out@;
                            out.push(*d);
                            assert(forall|j: int| 0 <= j < i ==> out@[j] == before[j]);
                            assert(out@[i as int] == s[i as int]->Number_0);
                        }
                    },
                    _ => {
                        assert(!(s[i as int] is Number));
                        all_numbers = false;
                    },
                }
                i = i + 1;
            }
            if all_numbers {
                assert(out@ =~= Seq::new(s.len(), |j: int| s[j]->Number_0));
                assert(forall|j: int| 0 <= j < s.len() ==> s[j] is Number);
                FunctionOutput::Vector(out)
            } else {
                let r = Input::Array(items);
                assert(r.model() == vm);
                FunctionOutput::Error(r)
            }
        },
        other => FunctionOutput::Error(other),
    }
}

/// Evaluates a list of expressions, expanding each array into its elements.
pub fn evaluate_items(es: &Vec<Expression>, p: &Params) -> (r: Result<Vec<Input>, ExpressionError>)
    ensures
        match r {
            Ok(v) => eval_items(es@, p.view()) == Ok::<Seq<InputView>, ExpressionError>(models(v@)),
            Err(err) => eval_items(es@, p.view()) == Err::<Seq<InputView>, ExpressionError>(err),
        },
{
    let mut out: Vec<Input> = Vec::new();
    let mut i: usize = 0;
    assert(models(out@) =~= Seq::<InputView>::empty());
    assert(eval_items(es@.subrange(0, 0), p.view()) == Ok::<Seq<InputView>, ExpressionError>(Seq::empty()));
    while i < es.len()
        invariant
            0 <= i <= es.len(),
            eval_items(es@.subrange(0, i as int), p.view()) == Ok::<Seq<InputView>, ExpressionError>(models(out@)),
        decreases es.len() - i,
    {
        let ghost prev = out@;
        let v = match evaluate(&es[i], p) {
            Ok(v) => v,
            Err(err) => {
                proof { lemma_items_error(es@, i as nat, p.view()); }
                return Err(err);
            },
        };
        let ghost vm = v.model();
        match v {
            Input::Array(mut items) => {
                let ghost im = models(items@);
                assert(vm == InputView::Array(im)) by {
                    assert(vm->Array_0 =~= im);
                }
                out.append(&mut items);
                assert(models(out@) =~= models(prev) + im);
            },
            other => {
                out.push(other);
                assert(models(out@) =~= models(prev) + seq![vm]);
            },
        }
        assert(es@.subrange(0, i + 1).drop_last() =~= es@.subrange(0, i as int));
        i = i + 1;
    }
    assert(es@.subrange(0, es.len() as int) =~= es@);
    Ok(out)
}

/// An evaluation error at position `i` is the error of the whole list, once
/// the items before it evaluated.
proof fn lemma_items_error(es: Seq<Expression>, i: nat, p: ParamsView)
    requires
        i < es.len(),
        eval_items(es.subrange(0, i as int), p) is Ok,
        eval(es[i as int], p) is Err,
    ensures
        eval_items(es, p) == Err::<Seq<InputView>, ExpressionError>(eval(es[i as int], p)->Err_0),
    decreases es.len() - i,
{
    let n = es.len();
    if i + 1 == n {
        assert(es.drop_last() =~= es.subrange(0, i as int));
    } else {
        assert(es.drop_last().subrange(0, i as int) =~= es.subrange(0, i as int));
        assert(es.drop_last()[i as int] == es[i as int]);
        lemma_items_error(es.drop_last(), i, p);
    }
}

} // verus!
