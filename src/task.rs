//! Task expressions and the concrete tasks they compile to.

use crate::expression::{
    eval, eval_items, evaluate, evaluate_items, model_result, ExpressionError, Expression, Params,
    ParamsView,
};
use crate::input::{models, Input, InputView};
use vstd::prelude::*;

verus! {

/// A task that calls a remote scalar function.
#[derive(Debug)]
pub struct ScalarFunctionTaskExpression {
    pub owner: String,
    pub repository: String,
    pub commit: String,
    /// When it evaluates to `true`, the task is left out.
    pub skip: Option<Expression>,
    /// The input map that the task fans out over.
    pub map: Option<u64>,
    /// The input handed to the function.
    pub input: Expression,
}

/// A task that calls a remote vector function.
#[derive(Debug)]
pub struct VectorFunctionTaskExpression {
    pub owner: String,
    pub repository: String,
    pub commit: String,
    pub skip: Option<Expression>,
    pub map: Option<u64>,
    pub input: Expression,
}

/// A task that asks models to vote over candidate responses. Each
/// expression of `messages`, `tools` and `responses` yields one item or an
/// array of items.
#[derive(Debug)]
pub struct VectorCompletionTaskExpression {
    pub skip: Option<Expression>,
    pub map: Option<u64>,
    pub messages: Vec<Expression>,
    pub tools: Option<Vec<Expression>>,
    pub responses: Vec<Expression>,
}

#[derive(Debug)]
pub enum TaskExpression {
    ScalarFunction(ScalarFunctionTaskExpression),
    VectorFunction(VectorFunctionTaskExpression),
    VectorCompletion(VectorCompletionTaskExpression),
}

#[derive(Debug)]
pub struct ScalarFunctionTask {
    pub owner: String,
    pub repository: String,
    pub commit: String,
    pub input: Input,
}

#[derive(Debug)]
pub struct VectorFunctionTask {
    pub owner: String,
    pub repository: String,
    pub commit: String,
    pub input: Input,
}

#[derive(Debug)]
pub struct VectorCompletionTask {
    pub messages: Vec<Input>,
    pub tools: Option<Vec<Input>>,
    pub responses: Vec<Input>,
}

/// A concrete task, ready to be executed.
#[derive(Debug)]
pub enum Task {
    ScalarFunction(ScalarFunctionTask),
    VectorFunction(VectorFunctionTask),
    VectorCompletion(VectorCompletionTask),
}

/// The tasks of one slot: one task, or one per element of an input map.
#[derive(Debug)]
pub enum CompiledTask {
    One(Task),
    Many(Vec<Task>),
}

/// Mathematical model of a [`Task`].
pub enum TaskView {
    ScalarFunction {
        owner: Seq<char>,
        repository: Seq<char>,
        commit: Seq<char>,
        input: InputView,
    },
    VectorFunction {
        owner: Seq<char>,
        repository: Seq<char>,
        commit: Seq<char>,
        input: InputView,
    },
    VectorCompletion {
        messages: Seq<InputView>,
        tools: Option<Seq<InputView>>,
        responses: Seq<InputView>,
    },
}

/// Mathematical model of a [`CompiledTask`].
pub enum CompiledTaskView {
    One(TaskView),
    Many(Seq<TaskView>),
}

impl Task {
    pub open spec fn view(self) -> TaskView {
        match self {
            Task::ScalarFunction(t) => TaskView::ScalarFunction {
                owner: t.owner@,
                repository: t.repository@,
                commit: t.commit@,
                input: t.input.model(),
            },
            Task::VectorFunction(t) => TaskView::VectorFunction {
                owner: t.owner@,
                repository: t.repository@,
                commit: t.commit@,
                input: t.input.model(),
            },
            Task::VectorCompletion(t) => TaskView::VectorCompletion {
                messages: models(t.messages@),
                tools: match t.tools {
                    Some(v) => Some(models(v@)),
                    None => None,
                },
                responses: models(t.responses@),
            },
        }
    }
}

/// The models of a sequence of tasks.
pub open spec fn task_views(v: Seq<Task>) -> Seq<TaskView> {
    Seq::new(v.len(), |i: int| v[i].view())
}

impl CompiledTask {
    pub open spec fn view(self) -> CompiledTaskView {
        match self {
            CompiledTask::One(t) => CompiledTaskView::One(t.view()),
            CompiledTask::Many(v) => CompiledTaskView::Many(task_views(v@)),
        }
    }
}

impl TaskExpression {
    /// The skip expression of the task.
    pub open spec fn skip_of(self) -> Option<Expression> {
        match self {
            TaskExpression::ScalarFunction(t) => t.skip,
            TaskExpression::VectorFunction(t) => t.skip,
            TaskExpression::VectorCompletion(t) => t.skip,
        }
    }

    /// The input map index of the task.
    pub open spec fn map_of(self) -> Option<u64> {
        match self {
            TaskExpression::ScalarFunction(t) => t.map,
            TaskExpression::VectorFunction(t) => t.map,
            TaskExpression::VectorCompletion(t) => t.map,
        }
    }

    /// The task this expression compiles to in a context.
    pub open spec fn spec_compile(self, p: ParamsView) -> Result<TaskView, ExpressionError> {
        match self {
            TaskExpression::ScalarFunction(t) => match eval(t.input, p) {
                Err(err) => Err(err),
                Ok(v) => Ok(
                    TaskView::ScalarFunction {
                        owner: t.owner@,
                        repository: t.repository@,
                        commit: t.commit@,
                        input: v,
                    },
                ),
            },
            TaskExpression::VectorFunction(t) => match eval(t.input, p) {
                Err(err) => Err(err),
                Ok(v) => Ok(
                    TaskView::VectorFunction {
                        owner: t.owner@,
                        repository: t.repository@,
                        commit: t.commit@,
                        input: v,
                    },
                ),
            },
            TaskExpression::VectorCompletion(t) => compile_completion(t, p),
        }
    }

    /// Removes the skip expression and hands it back.
    pub fn take_skip(&mut self) -> (r: Option<Expression>)
        ensures
            r == old(self).skip_of(),
            final(self).skip_of() is None,
            final(self).map_of() == old(self).map_of(),
            forall|p: ParamsView| #[trigger] final(self).spec_compile(p) == old(self).spec_compile(p),
    {
        match self {
            TaskExpression::ScalarFunction(task) => task.skip.take(),
            TaskExpression::VectorFunction(task) => task.skip.take(),
            TaskExpression::VectorCompletion(task) => task.skip.take(),
        }
    }

    /// The input map index of the task.
    pub fn input_map(&self) -> (r: Option<u64>)
        ensures
            r == self.map_of(),
    {
        match self {
            TaskExpression::ScalarFunction(task) => task.map,
            TaskExpression::VectorFunction(task) => task.map,
            TaskExpression::VectorCompletion(task) => task.map,
        }
    }

    /// The skip expression of the task, if any.
    pub fn skip(&self) -> (r: Option<&Expression>)
        ensures
            r is Some <==> self.skip_of() is Some,
            r matches Some(e) ==> *e == self.skip_of()->0,
    {
        match self {
            TaskExpression::ScalarFunction(task) => task.skip.as_ref(),
            TaskExpression::VectorFunction(task) => task.skip.as_ref(),
            TaskExpression::VectorCompletion(task) => task.skip.as_ref(),
        }
    }

    /// Compiles the expression into a concrete task.
    pub fn compile(&self, params: &Params) -> (r: Result<Task, ExpressionError>)
        ensures
            match r {
                Ok(t) => self.spec_compile(params.view()) == Ok::<TaskView, ExpressionError>(t.view()),
                Err(err) => self.spec_compile(params.view()) == Err::<TaskView, ExpressionError>(err),
            },
    {
        match self {
            TaskExpression::ScalarFunction(task) => {
                let t = task.compile(params)?;
                Ok(Task::ScalarFunction(t))
            },
            TaskExpression::VectorFunction(task) => {
                let t = task.compile(params)?;
                Ok(Task::VectorFunction(t))
            },
            TaskExpression::VectorCompletion(task) => {
                let t = task.compile(params)?;
                Ok(Task::VectorCompletion(t))
            },
        }
    }
}

/// The completion task that an expression compiles to: messages, then
/// tools, then responses, the first error winning.
pub open spec fn compile_completion(t: VectorCompletionTaskExpression, p: ParamsView) -> Result<
    TaskView,
    ExpressionError,
> {
    match eval_items(t.messages@, p) {
        Err(err) => Err(err),
        Ok(messages) => match compile_tools(t.tools, p) {
            Err(err) => Err(err),
            Ok(tools) => match eval_items(t.responses@, p) {
                Err(err) => Err(err),
                Ok(responses) => Ok(TaskView::VectorCompletion { messages, tools, responses }),
            },
        },
    }
}

pub open spec fn compile_tools(tools: Option<Vec<Expression>>, p: ParamsView) -> Result<
    Option<Seq<InputView>>,
    ExpressionError,
> {
    match tools {
        None => Ok(None),
        Some(es) => match eval_items(es@, p) {
            Err(err) => Err(err),
            Ok(s) => Ok(Some(s)),
        },
    }
}

impl ScalarFunctionTaskExpression {
    pub fn compile(&self, params: &Params) -> (r: Result<ScalarFunctionTask, ExpressionError>)
        ensures
            model_result(
                match r {
                    Ok(t) => Ok(t.input),
                    Err(err) => Err(err),
                },
            ) == eval(self.input, params.view()),
            r matches Ok(t) ==> t.owner@ == self.owner@ && t.repository@ == self.repository@
                && t.commit@ == self.commit@,
    {
        let input = evaluate(&self.input, params)?;
        Ok(
            ScalarFunctionTask {
                owner: self.owner.clone(),
                repository: self.repository.clone(),
                commit: self.commit.clone(),
                input,
            },
        )
    }
}

impl VectorFunctionTaskExpression {
    pub fn compile(&self, params: &Params) -> (r: Result<VectorFunctionTask, ExpressionError>)
        ensures
            model_result(
                match r {
                    Ok(t) => Ok(t.input),
                    Err(err) => Err(err),
                },
            ) == eval(self.input, params.view()),
            r matches Ok(t) ==> t.owner@ == self.owner@ && t.repository@ == self.repository@
                && t.commit@ == self.commit@,
    {
        let input = evaluate(&self.input, params)?;
        Ok(
            VectorFunctionTask {
                owner: self.owner.clone(),
                repository: self.repository.clone(),
                commit: self.commit.clone(),
                input,
            },
        )
    }
}

impl VectorCompletionTaskExpression {
    pub fn compile(&self, params: &Params) -> (r: Result<VectorCompletionTask, ExpressionError>)
        ensures
            match r {
                Ok(t) => compile_completion(*self, params.view()) == Ok::<TaskView, ExpressionError>(
                    Task::VectorCompletion(t).view(),
                ),
                Err(err) => compile_completion(*self, params.view()) == Err::<
                    TaskView,
                    ExpressionError,
                >(err),
            },
    {
        let messages = evaluate_items(&self.messages, params)?;
        let tools = match &self.tools {
            None => None,
            Some(es) => Some(evaluate_items(es, params)?),
        };
        let responses = evaluate_items(&self.responses, params)?;
        Ok(VectorCompletionTask { messages, tools, responses })
    }
}

} // verus!
