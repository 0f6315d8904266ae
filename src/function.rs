//! Functions: compiling their tasks against an input, and compiling and
//! validating their output against the task results.

use crate::decimal::{checked_add, checked_sum_of, le, Decimal};
use crate::expression::{
    as_output, eval, eval_bool, eval_u64, evaluate, evaluate_bool, evaluate_u64, to_output,
    CompiledFunctionOutput, Expression, ExpressionError, FunctionOutput, FunctionOutputView, Params,
    ParamsView, TaskOutput,
};
use crate::input::{opt_model, Input, InputView};
use crate::task::{task_views, CompiledTask, CompiledTaskView, Task, TaskExpression, TaskView};
use vstd::prelude::*;

verus! {

/// A function stored remotely, with its descriptive metadata.
#[derive(Debug)]
pub enum RemoteFunction {
    Scalar {
        description: String,
        changelog: Option<String>,
        input_schema: Input,
        input_maps: Option<Expression>,
        tasks: Vec<TaskExpression>,
        output: Expression,
    },
    Vector {
        description: String,
        changelog: Option<String>,
        input_schema: Input,
        input_maps: Option<Expression>,
        tasks: Vec<TaskExpression>,
        output: Expression,
        output_length: Expression,
    },
}

/// A function given in full with the request.
#[derive(Debug)]
pub enum InlineFunction {
    Scalar { input_maps: Option<Expression>, tasks: Vec<TaskExpression>, output: Expression },
    Vector { input_maps: Option<Expression>, tasks: Vec<TaskExpression>, output: Expression },
}

#[derive(Debug)]
pub enum Function {
    Remote(RemoteFunction),
    Inline(InlineFunction),
}

impl Function {
    pub open spec fn input_maps_of(self) -> Option<Expression> {
        match self {
            Function::Remote(RemoteFunction::Scalar { input_maps, .. }) => input_maps,
            Function::Remote(RemoteFunction::Vector { input_maps, .. }) => input_maps,
            Function::Inline(InlineFunction::Scalar { input_maps, .. }) => input_maps,
            Function::Inline(InlineFunction::Vector { input_maps, .. }) => input_maps,
        }
    }

    pub open spec fn tasks_of(self) -> Seq<TaskExpression> {
        match self {
            Function::Remote(RemoteFunction::Scalar { tasks, .. }) => tasks@,
            Function::Remote(RemoteFunction::Vector { tasks, .. }) => tasks@,
            Function::Inline(InlineFunction::Scalar { tasks, .. }) => tasks@,
            Function::Inline(InlineFunction::Vector { tasks, .. }) => tasks@,
        }
    }

    pub open spec fn output_of(self) -> Expression {
        match self {
            Function::Remote(RemoteFunction::Scalar { output, .. }) => output,
            Function::Remote(RemoteFunction::Vector { output, .. }) => output,
            Function::Inline(InlineFunction::Scalar { output, .. }) => output,
            Function::Inline(InlineFunction::Vector { output, .. }) => output,
        }
    }

    pub open spec fn is_vector(self) -> bool {
        match self {
            Function::Remote(RemoteFunction::Vector { .. }) => true,
            Function::Inline(InlineFunction::Vector { .. }) => true,
            _ => false,
        }
    }
}

/// The context of task compilation: the input alone.
pub open spec fn input_params(input: InputView) -> ParamsView {
    ParamsView { input, tasks: Seq::empty(), map: None }
}

/// The context of one fan-out element.
pub open spec fn map_params(input: InputView, element: InputView) -> ParamsView {
    ParamsView { input, tasks: Seq::empty(), map: Some(element) }
}

/// A value shaped as input maps: an array of arrays.
pub open spec fn is_input_maps(v: InputView) -> bool {
    &&& v is Array
    &&& forall|i: int| 0 <= i < v->Array_0.len() ==> #[trigger] v->Array_0[i] is Array
}

/// The input maps of a function for an input.
pub open spec fn spec_input_maps(f: Function, input: InputView) -> Result<
    Option<InputView>,
    ExpressionError,
> {
    match f.input_maps_of() {
        None => Ok(None),
        Some(e) => match eval(e, input_params(input)) {
            Err(err) => Err(err),
            Ok(v) => if is_input_maps(v) {
                Ok(Some(v))
            } else {
                Err(ExpressionError::ExpectedInputMaps)
            },
        },
    }
}

/// The elements of the input map at an index, if there is one.
pub open spec fn lookup_map(maps: Option<InputView>, i: u64) -> Option<Seq<InputView>> {
    match maps {
        Some(InputView::Array(s)) => if i < s.len() && s[i as int] is Array {
            Some(s[i as int]->Array_0)
        } else {
            None
        },
        _ => None,
    }
}

/// Whether a task is skipped.
pub open spec fn spec_skipped(t: TaskExpression, input: InputView) -> Result<bool, ExpressionError> {
    match t.skip_of() {
        None => Ok(false),
        Some(e) => eval_bool(e, input_params(input)),
    }
}

/// One task compiled once per fan-out element, in order.
pub open spec fn compile_fan_out(t: TaskExpression, input: InputView, elements: Seq<InputView>) -> Result<
    Seq<TaskView>,
    ExpressionError,
>
    decreases elements.len(),
{
    if elements.len() == 0 {
        Ok(Seq::empty())
    } else {
        match compile_fan_out(t, input, elements.drop_last()) {
            Err(err) => Err(err),
            Ok(s) => match t.spec_compile(map_params(input, elements.last())) {
                Err(err) => Err(err),
                Ok(task) => Ok(s.push(task)),
            },
        }
    }
}

/// The slot that a task expression compiles to.
pub open spec fn compile_slot(t: TaskExpression, input: InputView, maps: Option<InputView>) -> Result<
    Option<CompiledTaskView>,
    ExpressionError,
> {
    match spec_skipped(t, input) {
        Err(err) => Err(err),
        Ok(true) => Ok(None),
        Ok(false) => match t.map_of() {
            None => match t.spec_compile(input_params(input)) {
                Err(err) => Err(err),
                Ok(task) => Ok(Some(CompiledTaskView::One(task))),
            },
            Some(i) => match lookup_map(maps, i) {
                None => Ok(Some(CompiledTaskView::Many(Seq::empty()))),
                Some(elements) => match compile_fan_out(t, input, elements) {
                    Err(err) => Err(err),
                    Ok(tasks) => Ok(Some(CompiledTaskView::Many(tasks))),
                },
            },
        },
    }
}

/// The slots of a sequence of task expressions, in order; the first error wins.
pub open spec fn compile_slots(ts: Seq<TaskExpression>, input: InputView, maps: Option<InputView>) -> Result<
    Seq<Option<CompiledTaskView>>,
    ExpressionError,
>
    decreases ts.len(),
{
    if ts.len() == 0 {
        Ok(Seq::empty())
    } else {
        match compile_slots(ts.drop_last(), input, maps) {
            Err(err) => Err(err),
            Ok(s) => match compile_slot(ts.last(), input, maps) {
                Err(err) => Err(err),
                Ok(slot) => Ok(s.push(slot)),
            },
        }
    }
}

/// The task slots that a function compiles to for an input.
pub open spec fn spec_compile_tasks(f: Function, input: InputView) -> Result<
    Seq<Option<CompiledTaskView>>,
    ExpressionError,
> {
    match spec_input_maps(f, input) {
        Err(err) => Err(err),
        Ok(maps) => compile_slots(f.tasks_of(), input, maps),
    }
}

pub open spec fn slot_views(v: Seq<Option<CompiledTask>>) -> Seq<Option<CompiledTaskView>> {
    Seq::new(
        v.len(),
        |i: int|
            match v[i] {
                Some(c) => Some(c.view()),
                None => None,
            },
    )
}

/// An error at one position of a prefix-recursive compilation is the error
/// of the whole, once the positions before it succeeded.
proof fn lemma_slots_error(ts: Seq<TaskExpression>, i: nat, input: InputView, maps: Option<InputView>)
    requires
        i < ts.len(),
        compile_slots(ts.subrange(0, i as int), input, maps) is Ok,
        compile_slot(ts[i as int], input, maps) is Err,
    ensures
        compile_slots(ts, input, maps) == Err::<Seq<Option<CompiledTaskView>>, ExpressionError>(
            compile_slot(ts[i as int], input, maps)->Err_0,
        ),
    decreases ts.len() - i,
{
    if i + 1 == ts.len() {
        assert(ts.drop_last() =~= ts.subrange(0, i as int));
    } else {
        assert(ts.drop_last().subrange(0, i as int) =~= ts.subrange(0, i as int));
        assert(ts.drop_last()[i as int] == ts[i as int]);
        lemma_slots_error(ts.drop_last(), i, input, maps);
    }
}

proof fn lemma_fan_out_error(t: TaskExpression, input: InputView, es: Seq<InputView>, i: nat)
    requires
        i < es.len(),
        compile_fan_out(t, input, es.subrange(0, i as int)) is Ok,
        t.spec_compile(map_params(input, es[i as int])) is Err,
    ensures
        compile_fan_out(t, input, es) == Err::<Seq<TaskView>, ExpressionError>(
            t.spec_compile(map_params(input, es[i as int]))->Err_0,
        ),
    decreases es.len() - i,
{
    if i + 1 == es.len() {
        assert(es.drop_last() =~= es.subrange(0, i as int));
    } else {
        assert(es.drop_last().subrange(0, i as int) =~= es.subrange(0, i as int));
        assert(es.drop_last()[i as int] == es[i as int]);
        lemma_fan_out_error(t, input, es.drop_last(), i);
    }
}

/// Compiles one task expression once per element of an input map.
fn fan_out(t: &TaskExpression, input: &Input, elements: &Vec<Input>) -> (r: Result<
    Vec<Task>,
    ExpressionError,
>)
    ensures
        match r {
            Ok(v) => compile_fan_out(*t, input.model(), crate::input::models(elements@)) == Ok::<
                Seq<TaskView>,
                ExpressionError,
            >(task_views(v@)),
            Err(err) => compile_fan_out(*t, input.model(), crate::input::models(elements@)) == Err::<
                Seq<TaskView>,
                ExpressionError,
            >(err),
        },
{
    let ghost es = crate::input::models(elements@);
    let no_tasks: Vec<Option<TaskOutput>> = Vec::new();
    let mut out: Vec<Task> = Vec::new();
    let mut i: usize = 0;
    assert(task_views(out@) =~= Seq::<TaskView>::empty());
    assert(compile_fan_out(*t, input.model(), es.subrange(0, 0)) == Ok::<Seq<TaskView>, ExpressionError>(Seq::empty()));
    while i < elements.len()
        invariant
            0 <= i <= elements.len(),
            out@.len() == i,
            es == crate::input::models(elements@),
            no_tasks@.len() == 0,
            compile_fan_out(*t, input.model(), es.subrange(0, i as int)) == Ok::<
                Seq<TaskView>,
                ExpressionError,
            >(task_views(out@)),
        decreases elements.len() - i,
    {
        let params = Params { input, tasks: no_tasks.as_slice(), map: Some(&elements[i]) };
        assert(params.view().tasks =~= Seq::<Option<TaskOutput>>::empty());
        assert(params.view() == map_params(input.model(), es[i as int]));
        let ghost prev = out@;
        match t.compile(&params) {
            Ok(task) => {
                out.push(task);
            },
            Err(err) => {
                proof { lemma_fan_out_error(*t, input.model(), es, i as nat); }
                return Err(err);
            },
        }
        assert(task_views(out@) =~= task_views(prev).push(out@[i as int].view()));
        assert(es.subrange(0, i + 1).drop_last() =~= es.subrange(0, i as int));
        i = i + 1;
    }
    assert(es.subrange(0, elements.len() as int) =~= es);
    Ok(out)
}

/// Compiles the slot of one task expression.
fn compile_one_slot(t: &TaskExpression, input: &Input, maps: &Option<Input>) -> (r: Result<
    Option<CompiledTask>,
    ExpressionError,
>)
    requires
        maps matches Some(m) ==> is_input_maps(m.model()),
    ensures
        ({
            let mv = opt_model(*maps);
            match r {
                Ok(slot) => compile_slot(*t, input.model(), mv) == Ok::<
                    Option<CompiledTaskView>,
                    ExpressionError,
                >(
                    match slot {
                        Some(c) => Some(c.view()),
                        None => None,
                    },
                ),
                Err(err) => compile_slot(*t, input.model(), mv) == Err::<
                    Option<CompiledTaskView>,
                    ExpressionError,
                >(err),
            }
        }),
{
    let no_tasks: Vec<Option<TaskOutput>> = Vec::new();
    let params = Params { input, tasks: no_tasks.as_slice(), map: None };
    assert(params.view().tasks =~= Seq::<Option<TaskOutput>>::empty());
    assert(params.view() == input_params(input.model()));
    if let Some(skip) = t.skip() {
        if evaluate_bool(skip, &params)? {
            return Ok(None);
        }
    }
    match t.input_map() {
        None => {
            let task = t.compile(&params)?;
            Ok(Some(CompiledTask::One(task)))
        },
        Some(index) => {
            match maps {
                Some(Input::Array(outer)) => {
                    if index < outer.len() as u64 {
                        let ghost mv = maps->0.model();
                        assert(mv->Array_0[index as int] == outer@[index as int].model());
                        match &outer[index as usize] {
                            Input::Array(elements) => {
                                assert(outer@[index as int].model()->Array_0 =~= crate::input::models(elements@));
                                let tasks = fan_out(t, input, elements)?;
                                Ok(Some(CompiledTask::Many(tasks)))
                            },
                            _ => Ok(Some(CompiledTask::Many(Vec::new()))),
                        }
                    } else {
                        let r = Ok(Some(CompiledTask::Many(Vec::new())));
                        assert(task_views(Seq::<Task>::empty()) =~= Seq::<TaskView>::empty());
                        r
                    }
                },
                _ => {
                    assert(task_views(Seq::<Task>::empty()) =~= Seq::<TaskView>::empty());
                    Ok(Some(CompiledTask::Many(Vec::new())))
                },
            }
        },
    }
}

impl Function {
    /// Compiles the function's task expressions against an input into one
    /// slot per task expression, in declaration order.
    pub fn compile_tasks(self, input: &Input) -> (r: Result<
        Vec<Option<CompiledTask>>,
        ExpressionError,
    >)
        ensures
            match r {
                Ok(v) => spec_compile_tasks(self, input.model()) == Ok::<
                    Seq<Option<CompiledTaskView>>,
                    ExpressionError,
                >(slot_views(v@)),
                Err(err) => spec_compile_tasks(self, input.model()) == Err::<
                    Seq<Option<CompiledTaskView>>,
                    ExpressionError,
                >(err),
            },
    {
        let ghost f = self;
        let (input_maps_expr, task_exprs) = match self {
            Function::Remote(RemoteFunction::Scalar { input_maps, tasks, .. }) => (input_maps, tasks),
            Function::Remote(RemoteFunction::Vector { input_maps, tasks, .. }) => (input_maps, tasks),
            Function::Inline(InlineFunction::Scalar { input_maps, tasks, .. }) => (input_maps, tasks),
            Function::Inline(InlineFunction::Vector { input_maps, tasks, .. }) => (input_maps, tasks),
        };
        let no_tasks: Vec<Option<TaskOutput>> = Vec::new();
        let params = Params { input, tasks: no_tasks.as_slice(), map: None };
        assert(params.view().tasks =~= Seq::<Option<TaskOutput>>::empty());
        assert(params.view() == input_params(input.model()));
        let maps: Option<Input> = match &input_maps_expr {
            None => None,
            Some(e) => {
                let v = evaluate(e, &params)?;
                if !is_maps(&v) {
                    return Err(ExpressionError::ExpectedInputMaps);
                }
                Some(v)
            },
        };
        let ghost mv = opt_model(maps);
        assert(spec_input_maps(f, input.model()) == Ok::<Option<InputView>, ExpressionError>(mv));
        let ghost ts = task_exprs@;
        let mut out: Vec<Option<CompiledTask>> = Vec::new();
        let mut i: usize = 0;
        assert(slot_views(out@) =~= Seq::<Option<CompiledTaskView>>::empty());
        assert(compile_slots(ts.subrange(0, 0), input.model(), mv) == Ok::<
            Seq<Option<CompiledTaskView>>,
            ExpressionError,
        >(Seq::empty()));
        while i < task_exprs.len()
            invariant
                0 <= i <= task_exprs.len(),
                out@.len() == i,
                f == self,
                ts == task_exprs@,
                ts == f.tasks_of(),
                mv == opt_model(maps),
                maps matches Some(m) ==> is_input_maps(m.model()),
                spec_input_maps(f, input.model()) == Ok::<Option<InputView>, ExpressionError>(mv),
                compile_slots(ts.subrange(0, i as int), input.model(), mv) == Ok::<
                    Seq<Option<CompiledTaskView>>,
                    ExpressionError,
                >(slot_views(out@)),
            decreases task_exprs.len() - i,
        {
            let ghost prev = out@;
            match compile_one_slot(&task_exprs[i], input, &maps) {
                Ok(slot) => {
                    out.push(slot);
                },
                Err(err) => {
                    proof { lemma_slots_error(ts, i as nat, input.model(), mv); }
                    return Err(err);
                },
            }
            assert(slot_views(out@) =~= slot_views(prev).push(slot_views(out@)[i as int]));
            assert(ts.subrange(0, i + 1).drop_last() =~= ts.subrange(0, i as int));
            i = i + 1;
        }
        assert(ts.subrange(0, task_exprs.len() as int) =~= ts);
        Ok(out)
    }
}

/// Whether a value is an array of arrays.
fn is_maps(v: &Input) -> (r: bool)
    ensures
        r == is_input_maps(v.model()),
{
    match v {
        Input::Array(outer) => {
            let ghost s = v.model()->Array_0;
            let mut i: usize = 0;
            while i < outer.len()
                invariant
                    0 <= i <= outer.len(),
                    *v == Input::Array(*outer),
                    s == v.model()->Array_0,
                    s.len() == outer.len(),
                    forall|j: int| 0 <= j < i ==> #[trigger] s[j] is Array,
                decreases outer.len() - i,
            {
                assert(s[i as int] == outer@[i as int].model());
                match &outer[i] {
                    Input::Array(_) => {},
                    _ => {
                        return false;
                    },
                }
                i = i + 1;
            }
            true
        },
        _ => false,
    }
}


/// The sum of a sequence of decimals as `rust_decimal` folds it from zero,
/// left to right; `None` once a step overflows.
pub open spec fn spec_sum(s: Seq<Decimal>) -> Option<Decimal>
    decreases s.len(),
{
    if s.len() == 0 {
        Some(Decimal { mantissa: 0, scale: 0 })
    } else {
        match spec_sum(s.drop_last()) {
            None => None,
            Some(acc) => checked_sum_of(acc, s.last()),
        }
    }
}

/// `0 <= d <= 1`.
pub open spec fn in_unit_interval(d: Decimal) -> bool {
    &&& d.wf()
    &&& (Decimal { mantissa: 0, scale: 0 }).spec_le(d)
    &&& d.spec_le(Decimal { mantissa: 1, scale: 0 })
}

/// `0.99 <= d <= 1.01`.
pub open spec fn in_sum_band(d: Decimal) -> bool {
    &&& d.wf()
    &&& (Decimal { mantissa: 99, scale: 2 }).spec_le(d)
    &&& d.spec_le(Decimal { mantissa: 101, scale: 2 })
}

/// Validity of a vector output from its sum and length: the sum lies in
/// `[0.99, 1.01]` and, when a length is expected, the length matches it.
pub open spec fn spec_vector_valid(sum: Option<Decimal>, len: nat, expected: Option<u64>) -> bool {
    &&& match expected {
        Some(n) => len == n,
        None => true,
    }
    &&& match sum {
        Some(t) => in_sum_band(t),
        None => false,
    }
}

/// Validity of an output: a scalar of a scalar function lies in `[0, 1]`; a
/// vector of a vector function meets [`spec_vector_valid`]; any other pairing
/// is invalid.
pub open spec fn spec_output_valid(vector: bool, o: FunctionOutputView, expected: Option<u64>) -> bool {
    match o {
        FunctionOutputView::Scalar(d) => !vector && in_unit_interval(d),
        FunctionOutputView::Vector(s) => vector && spec_vector_valid(spec_sum(s), s.len(), expected),
        FunctionOutputView::Error(_) => false,
    }
}

/// The expected output length: only remote vector functions declare one.
pub open spec fn spec_output_length(f: Function, input: InputView) -> Result<Option<u64>, ExpressionError> {
    match f {
        Function::Remote(RemoteFunction::Vector { output_length, .. }) => match eval_u64(
            output_length,
            input_params(input),
        ) {
            Err(err) => Err(err),
            Ok(n) => Ok(Some(n)),
        },
        _ => Ok(None),
    }
}

/// The output of a function for an input and task outputs, with its validity.
pub open spec fn spec_compile_output(f: Function, input: InputView, tasks: Seq<Option<TaskOutput>>) -> Result<
    (FunctionOutputView, bool),
    ExpressionError,
> {
    match spec_output_length(f, input) {
        Err(err) => Err(err),
        Ok(expected) => match eval(f.output_of(), ParamsView { input, tasks, map: None }) {
            Err(err) => Err(err),
            Ok(v) => Ok((as_output(v), spec_output_valid(f.is_vector(), as_output(v), expected))),
        },
    }
}

/// The sum of decimals, folded from zero with `rust_decimal`'s checked addition.
pub fn sum_decimals(v: &[Decimal]) -> (r: Option<Decimal>)
    ensures
        r == spec_sum(v@),
{
    let mut acc: Option<Decimal> = Some(Decimal::zero());
    let mut i: usize = 0;
    assert(v@.subrange(0, 0) =~= Seq::<Decimal>::empty());
    while i < v.len()
        invariant
            0 <= i <= v.len(),
            acc == spec_sum(v@.subrange(0, i as int)),
        decreases v.len() - i,
    {
        acc = match acc {
            None => None,
            Some(a) => checked_add(a, v[i]),
        };
        assert(v@.subrange(0, i + 1).drop_last() =~= v@.subrange(0, i as int));
        i = i + 1;
    }
    assert(v@.subrange(0, v.len() as int) =~= v@);
    acc
}

/// Whether a scalar output lies in `[0, 1]`; a decimal outside the
/// representable range never does.
pub fn scalar_valid(d: Decimal) -> (r: bool)
    ensures
        r == in_unit_interval(d),
{
    d.is_wf() && le(Decimal::zero(), d) && le(d, Decimal::one())
}

/// Whether a vector output of length `len` whose sum is `sum` is valid.
pub fn vector_valid(sum: Option<Decimal>, len: usize, expected: Option<u64>) -> (r: bool)
    ensures
        r == spec_vector_valid(sum, len as nat, expected),
{
    let length_ok = match expected {
        Some(n) => len as u64 == n,
        None => true,
    };
    length_ok && match sum {
        Some(t) => t.is_wf() && le(Decimal::new(99, 2), t) && le(t, Decimal::new(101, 2)),
        None => false,
    }
}

impl Function {
    /// Evaluates the output expression against the input and the task
    /// outputs, and checks the result against the function's shape.
    pub fn compile_output(self, input: &Input, task_outputs: &[Option<TaskOutput>]) -> (r: Result<
        CompiledFunctionOutput,
        ExpressionError,
    >)
        ensures
            match r {
                Ok(c) => spec_compile_output(self, input.model(), task_outputs@) == Ok::<
                    (FunctionOutputView, bool),
                    ExpressionError,
                >((c.output.view(), c.valid)),
                Err(err) => spec_compile_output(self, input.model(), task_outputs@) == Err::<
                    (FunctionOutputView, bool),
                    ExpressionError,
                >(err),
            },
    {
        let no_tasks: Vec<Option<TaskOutput>> = Vec::new();
        let params = Params { input, tasks: no_tasks.as_slice(), map: None };
        assert(params.view().tasks =~= Seq::<Option<TaskOutput>>::empty());
        assert(params.view() == input_params(input.model()));
        let vector = match &self {
            Function::Remote(RemoteFunction::Vector { .. }) => true,
            Function::Inline(InlineFunction::Vector { .. }) => true,
            _ => false,
        };
        let expected: Option<u64> = match &self {
            Function::Remote(RemoteFunction::Vector { output_length, .. }) => Some(
                evaluate_u64(output_length, &params)?,
            ),
            _ => None,
        };
        let output_expr = match &self {
            Function::Remote(RemoteFunction::Scalar { output, .. }) => output,
            Function::Remote(RemoteFunction::Vector { output, .. }) => output,
            Function::Inline(InlineFunction::Scalar { output, .. }) => output,
            Function::Inline(InlineFunction::Vector { output, .. }) => output,
        };
        let params = Params { input, tasks: task_outputs, map: None };
        let value = evaluate(output_expr, &params)?;
        let output = to_output(value);
        let valid = match &output {
            FunctionOutput::Scalar(d) => !vector && scalar_valid(*d),
            FunctionOutput::Vector(v) => vector && vector_valid(
                sum_decimals(v.as_slice()),
                v.len(),
                expected,
            ),
            FunctionOutput::Error(_) => false,
        };
        Ok(CompiledFunctionOutput { output, valid })
    }
}


/// A successful compilation has one slot per task expression, each being
/// that expression's own slot.
proof fn lemma_slots_pointwise(ts: Seq<TaskExpression>, input: InputView, maps: Option<InputView>)
    requires
        compile_slots(ts, input, maps) is Ok,
    ensures
        compile_slots(ts, input, maps)->Ok_0.len() == ts.len(),
        forall|i: int|
            0 <= i < ts.len() ==> compile_slot(#[trigger] ts[i], input, maps) == Ok::<
                Option<CompiledTaskView>,
                ExpressionError,
            >(compile_slots(ts, input, maps)->Ok_0[i]),
    decreases ts.len(),
{
    if ts.len() > 0 {
        lemma_slots_pointwise(ts.drop_last(), input, maps);
        assert forall|i: int| 0 <= i < ts.len() - 1 implies ts.drop_last()[i] == ts[i] by {}
    }
}

/// A successful fan-out has one task per element, each compiled with that
/// element, and that element alone, as the map value.
proof fn lemma_fan_out_pointwise(t: TaskExpression, input: InputView, es: Seq<InputView>)
    requires
        compile_fan_out(t, input, es) is Ok,
    ensures
        compile_fan_out(t, input, es)->Ok_0.len() == es.len(),
        forall|k: int|
            0 <= k < es.len() ==> t.spec_compile(map_params(input, #[trigger] es[k])) == Ok::<
                TaskView,
                ExpressionError,
            >(compile_fan_out(t, input, es)->Ok_0[k]),
    decreases es.len(),
{
    if es.len() > 0 {
        lemma_fan_out_pointwise(t, input, es.drop_last());
        assert forall|k: int| 0 <= k < es.len() - 1 implies es.drop_last()[k] == es[k] by {}
    }
}

/// Without skip or map on any task, a compiled function has exactly one
/// `One` slot per task expression, in declaration order.
pub proof fn lemma_plain_tasks_compile_one_each(f: Function, input: InputView)
    requires
        forall|i: int|
            0 <= i < f.tasks_of().len() ==> (#[trigger] f.tasks_of()[i]).skip_of() is None
                && f.tasks_of()[i].map_of() is None,
        spec_compile_tasks(f, input) is Ok,
    ensures
        spec_compile_tasks(f, input)->Ok_0.len() == f.tasks_of().len(),
        forall|i: int|
            0 <= i < f.tasks_of().len() ==> spec_compile_tasks(f, input)->Ok_0[i] == Some(
                CompiledTaskView::One((#[trigger] f.tasks_of()[i]).spec_compile(input_params(input))->Ok_0),
            ),
{
    let maps = spec_input_maps(f, input)->Ok_0;
    lemma_slots_pointwise(f.tasks_of(), input, maps);
}

/// A task whose skip expression evaluates to `true` compiles to an empty
/// slot, whatever the input maps hold: no map lookup decides it.
pub proof fn lemma_skipped_task_is_none(f: Function, input: InputView, i: int)
    requires
        0 <= i < f.tasks_of().len(),
        f.tasks_of()[i].skip_of() matches Some(e) && eval_bool(e, input_params(input)) == Ok::<
            bool,
            ExpressionError,
        >(true),
        spec_compile_tasks(f, input) is Ok,
    ensures
        spec_compile_tasks(f, input)->Ok_0[i] is None,
        forall|maps: Option<InputView>|
            #[trigger] compile_slot(f.tasks_of()[i], input, maps) == Ok::<
                Option<CompiledTaskView>,
                ExpressionError,
            >(None),
{
    let maps = spec_input_maps(f, input)->Ok_0;
    lemma_slots_pointwise(f.tasks_of(), input, maps);
}

/// A task that is not skipped and names an input map that the input maps
/// do not hold compiles to an empty fan-out.
pub proof fn lemma_absent_map_is_empty_fan_out(f: Function, input: InputView, i: int)
    requires
        0 <= i < f.tasks_of().len(),
        spec_skipped(f.tasks_of()[i], input) == Ok::<bool, ExpressionError>(false),
        f.tasks_of()[i].map_of() matches Some(k) && lookup_map(
            spec_input_maps(f, input)->Ok_0,
            k,
        ) is None,
        spec_compile_tasks(f, input) is Ok,
    ensures
        spec_compile_tasks(f, input)->Ok_0[i] == Some(CompiledTaskView::Many(Seq::empty())),
{
    let maps = spec_input_maps(f, input)->Ok_0;
    lemma_slots_pointwise(f.tasks_of(), input, maps);
}

/// A task that is not skipped and fans out over an input map of `n`
/// elements compiles to `n` tasks, the `k`-th compiled with the `k`-th
/// element as its map value and no other.
pub proof fn lemma_fan_out_one_task_per_element(f: Function, input: InputView, i: int)
    requires
        0 <= i < f.tasks_of().len(),
        spec_skipped(f.tasks_of()[i], input) == Ok::<bool, ExpressionError>(false),
        f.tasks_of()[i].map_of() matches Some(k) && lookup_map(
            spec_input_maps(f, input)->Ok_0,
            k,
        ) is Some,
        spec_compile_tasks(f, input) is Ok,
    ensures
        ({
            let t = f.tasks_of()[i];
            let es = lookup_map(spec_input_maps(f, input)->Ok_0, t.map_of()->0)->0;
            let slot = spec_compile_tasks(f, input)->Ok_0[i];
            &&& slot matches Some(CompiledTaskView::Many(tasks))
            &&& slot->0->Many_0.len() == es.len()
            &&& forall|k: int|
                0 <= k < es.len() ==> t.spec_compile(map_params(input, #[trigger] es[k])) == Ok::<
                    TaskView,
                    ExpressionError,
                >(slot->0->Many_0[k])
        }),
{
    let maps = spec_input_maps(f, input)->Ok_0;
    let t = f.tasks_of()[i];
    lemma_slots_pointwise(f.tasks_of(), input, maps);
    let es = lookup_map(maps, t.map_of()->0)->0;
    lemma_fan_out_pointwise(t, input, es);
}

/// Compilation is a function of the function and the input's value: two
/// compilations of inputs with the same value give the same slots.
pub proof fn lemma_compile_tasks_repeatable(
    f: Function,
    a: Input,
    b: Input,
    ra: Result<Vec<Option<CompiledTask>>, ExpressionError>,
    rb: Result<Vec<Option<CompiledTask>>, ExpressionError>,
)
    requires
        a.model() == b.model(),
        match ra {
            Ok(v) => spec_compile_tasks(f, a.model()) == Ok::<
                Seq<Option<CompiledTaskView>>,
                ExpressionError,
            >(slot_views(v@)),
            Err(err) => spec_compile_tasks(f, a.model()) == Err::<
                Seq<Option<CompiledTaskView>>,
                ExpressionError,
            >(err),
        },
        match rb {
            Ok(v) => spec_compile_tasks(f, b.model()) == Ok::<
                Seq<Option<CompiledTaskView>>,
                ExpressionError,
            >(slot_views(v@)),
            Err(err) => spec_compile_tasks(f, b.model()) == Err::<
                Seq<Option<CompiledTaskView>>,
                ExpressionError,
            >(err),
        },
    ensures
        ra is Ok <==> rb is Ok,
        ra matches Ok(v) ==> slot_views(v@) == slot_views(rb->Ok_0@),
        ra matches Err(e) ==> rb == Err::<Vec<Option<CompiledTask>>, ExpressionError>(e),
{
}


impl RemoteFunction {
    pub fn description(&self) -> (r: &str)
        ensures
            r@ == match self {
                RemoteFunction::Scalar { description, .. } => description@,
                RemoteFunction::Vector { description, .. } => description@,
            },
    {
        match self {
            RemoteFunction::Scalar { description, .. } => description.as_str(),
            RemoteFunction::Vector { description, .. } => description.as_str(),
        }
    }

    pub fn changelog(&self) -> (r: Option<&str>)
        ensures
            ({
                let c = match self {
                    RemoteFunction::Scalar { changelog, .. } => changelog,
                    RemoteFunction::Vector { changelog, .. } => changelog,
                };
                &&& r is Some <==> c is Some
                &&& r matches Some(t) ==> t@ == c->0@
            }),
    {
        let c = match self {
            RemoteFunction::Scalar { changelog, .. } => changelog,
            RemoteFunction::Vector { changelog, .. } => changelog,
        };
        match c {
            Some(t) => Some(t.as_str()),
            None => None,
        }
    }

    pub fn input_schema(&self) -> (r: &Input)
        ensures
            *r == match self {
                RemoteFunction::Scalar { input_schema, .. } => input_schema,
                RemoteFunction::Vector { input_schema, .. } => input_schema,
            },
    {
        match self {
            RemoteFunction::Scalar { input_schema, .. } => input_schema,
            RemoteFunction::Vector { input_schema, .. } => input_schema,
        }
    }

    pub fn input_maps(&self) -> (r: Option<&Expression>)
        ensures
            r is Some <==> Function::Remote(*self).input_maps_of() is Some,
            r matches Some(e) ==> *e == Function::Remote(*self).input_maps_of()->0,
    {
        match self {
            RemoteFunction::Scalar { input_maps, .. } => input_maps.as_ref(),
            RemoteFunction::Vector { input_maps, .. } => input_maps.as_ref(),
        }
    }

    pub fn tasks(&self) -> (r: &[TaskExpression])
        ensures
            r@ == Function::Remote(*self).tasks_of(),
    {
        match self {
            RemoteFunction::Scalar { tasks, .. } => tasks.as_slice(),
            RemoteFunction::Vector { tasks, .. } => tasks.as_slice(),
        }
    }

    pub fn output(&self) -> (r: &Expression)
        ensures
            *r == Function::Remote(*self).output_of(),
    {
        match self {
            RemoteFunction::Scalar { output, .. } => output,
            RemoteFunction::Vector { output, .. } => output,
        }
    }

    /// The output length expression; only vector functions have one.
    pub fn output_length(&self) -> (r: Option<&Expression>)
        ensures
            r is Some <==> self is Vector,
            r matches Some(e) ==> *e == self->Vector_output_length,
    {
        match self {
            RemoteFunction::Scalar { .. } => None,
            RemoteFunction::Vector { output_length, .. } => Some(output_length),
        }
    }
}

impl InlineFunction {
    pub fn input_maps(&self) -> (r: Option<&Expression>)
        ensures
            r is Some <==> Function::Inline(*self).input_maps_of() is Some,
            r matches Some(e) ==> *e == Function::Inline(*self).input_maps_of()->0,
    {
        match self {
            InlineFunction::Scalar { input_maps, .. } => input_maps.as_ref(),
            InlineFunction::Vector { input_maps, .. } => input_maps.as_ref(),
        }
    }

    pub fn tasks(&self) -> (r: &[TaskExpression])
        ensures
            r@ == Function::Inline(*self).tasks_of(),
    {
        match self {
            InlineFunction::Scalar { tasks, .. } => tasks.as_slice(),
            InlineFunction::Vector { tasks, .. } => tasks.as_slice(),
        }
    }

    pub fn output(&self) -> (r: &Expression)
        ensures
            *r == Function::Inline(*self).output_of(),
    {
        match self {
            InlineFunction::Scalar { output, .. } => output,
            InlineFunction::Vector { output, .. } => output,
        }
    }
}

} // verus!
