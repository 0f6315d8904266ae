//! Accumulators that fold streamed completion chunks, in arrival order,
//! into one record.

use crate::decimal::Decimal;
use vstd::prelude::*;
use vstd::string::*;

verus! {

/// Why a completion stopped.
#[derive(Clone, Copy, Debug, PartialEq, Eq, Structural)]
pub enum FinishReason {
    Stop,
    Length,
    ToolCalls,
    ContentFilter,
    Error,
}

/// The kind of a tool call.
#[derive(Clone, Copy, Debug, PartialEq, Eq, Structural)]
pub enum ToolCallType {
    Function,
}

/// The author of a message.
#[derive(Clone, Copy, Debug, PartialEq, Eq, Structural)]
pub enum Role {
    Assistant,
}

/// The object tag of a streamed chunk.
#[derive(Clone, Copy, Debug, PartialEq, Eq, Structural)]
pub enum Object {
    ChatCompletionChunk,
}

/// The first of two optional values that is present.
pub open spec fn first_present<T>(acc: Option<T>, next: Option<T>) -> Option<T> {
    if acc is Some {
        acc
    } else {
        next
    }
}

/// Two optional texts joined: present ones are concatenated in order.
pub open spec fn join_text(acc: Option<Seq<char>>, next: Option<Seq<char>>) -> Option<Seq<char>> {
    match (acc, next) {
        (Some(a), Some(b)) => Some(a + b),
        (None, Some(b)) => Some(b),
        (a, None) => a,
    }
}

pub open spec fn text_view(s: Option<String>) -> Option<Seq<char>> {
    match s {
        Some(t) => Some(t@),
        None => None,
    }
}

fn copy_text(s: &Option<String>) -> (r: Option<String>)
    ensures
        text_view(r) == text_view(*s),
{
    match s {
        Some(t) => Some(t.clone()),
        None => None,
    }
}

/// Appends an optional text to an optional accumulated text.
fn push_text(acc: &mut Option<String>, next: &Option<String>)
    ensures
        text_view(*final(acc)) == join_text(text_view(*old(acc)), text_view(*next)),
{
    match next {
        Some(b) => {
            match acc {
                Some(a) => {
                    a.append(b.as_str());
                },
                None => {
                    *acc = Some(b.clone());
                },
            }
        },
        None => {},
    }
}

/// Mathematical model of a [`ToolCallFunction`].
pub struct ToolCallFunctionView {
    pub name: Option<Seq<char>>,
    pub arguments: Option<Seq<char>>,
}

/// The function part of a streamed tool call.
#[derive(Debug)]
pub struct ToolCallFunction {
    pub name: Option<String>,
    pub arguments: Option<String>,
}

/// The function part after one more chunk: the first name wins, argument
/// fragments are concatenated.
pub open spec fn merge_function(acc: ToolCallFunctionView, next: ToolCallFunctionView) -> ToolCallFunctionView {
    ToolCallFunctionView {
        name: first_present(acc.name, next.name),
        arguments: join_text(acc.arguments, next.arguments),
    }
}

impl ToolCallFunction {
    pub open spec fn view(self) -> ToolCallFunctionView {
        ToolCallFunctionView { name: text_view(self.name), arguments: text_view(self.arguments) }
    }

    /// An accumulator with no name and no arguments yet.
    pub fn new() -> (r: ToolCallFunction)
        ensures
            r.view() == (ToolCallFunctionView { name: None, arguments: None }),
    {
        ToolCallFunction { name: None, arguments: None }
    }

    pub fn copy(&self) -> (r: ToolCallFunction)
        ensures
            r.view() == self.view(),
    {
        ToolCallFunction { name: copy_text(&self.name), arguments: copy_text(&self.arguments) }
    }

    /// Folds in the next chunk.
    pub fn push(&mut self, other: &ToolCallFunction)
        ensures
            final(self).view() == merge_function(old(self).view(), other.view()),
    {
        if self.name.is_none() {
            self.name = copy_text(&other.name);
        }
        push_text(&mut self.arguments, &other.arguments);
    }
}

/// Mathematical model of a [`ToolCall`].
pub struct ToolCallView {
    pub index: u64,
    pub kind: Option<ToolCallType>,
    pub id: Option<Seq<char>>,
    pub function: Option<ToolCallFunctionView>,
}

/// A streamed tool call.
#[derive(Debug)]
pub struct ToolCall {
    pub index: u64,
    pub kind: Option<ToolCallType>,
    pub id: Option<String>,
    pub function: Option<ToolCallFunction>,
}

/// The tool call after one more chunk: the first kind, id and function name
/// win, argument fragments are concatenated, the index stays.
pub open spec fn merge_tool_call(acc: ToolCallView, next: ToolCallView) -> ToolCallView {
    ToolCallView {
        index: acc.index,
        kind: first_present(acc.kind, next.kind),
        id: first_present(acc.id, next.id),
        function: match (acc.function, next.function) {
            (Some(a), Some(b)) => Some(merge_function(a, b)),
            (None, Some(b)) => Some(b),
            (a, None) => a,
        },
    }
}

impl ToolCall {
    pub open spec fn view(self) -> ToolCallView {
        ToolCallView {
            index: self.index,
            kind: self.kind,
            id: text_view(self.id),
            function: match self.function {
                Some(f) => Some(f.view()),
                None => None,
            },
        }
    }

    /// Folds in the next chunk for the same index.
    pub fn push(&mut self, other: &ToolCall)
        ensures
            final(self).view() == merge_tool_call(old(self).view(), other.view()),
    {
        if self.kind.is_none() {
            self.kind = other.kind;
        }
        if self.id.is_none() {
            self.id = copy_text(&other.id);
        }
        match &other.function {
            Some(other_function) => {
                match &mut self.function {
                    Some(self_function) => {
                        self_function.push(other_function);
                    },
                    None => {
                        self.function = Some(other_function.copy());
                    },
                }
            },
            None => {},
        }
    }
}

/// The log probability of one token.
#[derive(Debug)]
pub struct TokenLogprob {
    pub token: String,
    pub logprob: Decimal,
}

impl TokenLogprob {
    pub open spec fn view(self) -> (Seq<char>, Decimal) {
        (self.token@, self.logprob)
    }

    pub fn copy(&self) -> (r: TokenLogprob)
        ensures
            r.view() == self.view(),
    {
        TokenLogprob { token: self.token.clone(), logprob: self.logprob }
    }
}

pub open spec fn token_views(v: Seq<TokenLogprob>) -> Seq<(Seq<char>, Decimal)> {
    Seq::new(v.len(), |i: int| v[i].view())
}

/// Token log probabilities of a completion, in order.
#[derive(Debug)]
pub struct Logprobs {
    pub content: Vec<TokenLogprob>,
}

impl Logprobs {
    pub open spec fn view(self) -> Seq<(Seq<char>, Decimal)> {
        token_views(self.content@)
    }

    pub fn copy(&self) -> (r: Logprobs)
        ensures
            r.view() == self.view(),
    {
        let mut r = Logprobs { content: Vec::new() };
        r.push(self);
        assert(r.view() =~= self.view());
        r
    }

    /// Appends the next chunk's tokens.
    pub fn push(&mut self, other: &Logprobs)
        ensures
            final(self).view() == old(self).view() + other.view(),
    {
        let ghost start = self.view();
        let mut i: usize = 0;
        while i < other.content.len()
            invariant
                0 <= i <= other.content.len(),
                self.view() =~= start + other.view().subrange(0, i as int),
            decreases other.content.len() - i,
        {
            let t = other.content[i].copy();
            let ghost before = self.content@;
            self.content.push(t);
            assert(token_views(self.content@) =~= token_views(before).push(other.content@[i as int].view()));
            assert(other.view().subrange(0, i + 1) =~= other.view().subrange(0, i as int).push(other.view()[i as int]));
            i = i + 1;
        }
        assert(other.view().subrange(0, other.content.len() as int) =~= other.view());
    }
}

/// Mathematical model of a [`Delta`].
pub struct DeltaView {
    pub role: Option<Role>,
    pub content: Option<Seq<char>>,
    pub refusal: Option<Seq<char>>,
}

/// The message fragment of a streamed chunk.
#[derive(Debug)]
pub struct Delta {
    pub role: Option<Role>,
    pub content: Option<String>,
    pub refusal: Option<String>,
}

pub open spec fn merge_delta(acc: DeltaView, next: DeltaView) -> DeltaView {
    DeltaView {
        role: first_present(acc.role, next.role),
        content: join_text(acc.content, next.content),
        refusal: join_text(acc.refusal, next.refusal),
    }
}

impl Delta {
    pub open spec fn view(self) -> DeltaView {
        DeltaView {
            role: self.role,
            content: text_view(self.content),
            refusal: text_view(self.refusal),
        }
    }

    /// Folds in the next fragment: the first role wins, texts are concatenated.
    pub fn push(&mut self, other: &Delta)
        ensures
            final(self).view() == merge_delta(old(self).view(), other.view()),
    {
        if self.role.is_none() {
            self.role = other.role;
        }
        push_text(&mut self.content, &other.content);
        push_text(&mut self.refusal, &other.refusal);
    }
}

/// Mathematical model of a [`Choice`].
pub struct ChoiceView {
    pub delta: DeltaView,
    pub finish_reason: Option<FinishReason>,
    pub index: u64,
    pub logprobs: Option<Seq<(Seq<char>, Decimal)>>,
}

/// One streamed choice.
#[derive(Debug)]
pub struct Choice {
    pub delta: Delta,
    pub finish_reason: Option<FinishReason>,
    pub index: u64,
    pub logprobs: Option<Logprobs>,
}

/// The choice after one more chunk: the delta merges, the first finish
/// reason wins, log probabilities are appended, the index stays.
pub open spec fn merge_choice(acc: ChoiceView, next: ChoiceView) -> ChoiceView {
    ChoiceView {
        delta: merge_delta(acc.delta, next.delta),
        finish_reason: first_present(acc.finish_reason, next.finish_reason),
        index: acc.index,
        logprobs: match (acc.logprobs, next.logprobs) {
            (Some(a), Some(b)) => Some(a + b),
            (None, Some(b)) => Some(b),
            (a, None) => a,
        },
    }
}

impl Choice {
    pub open spec fn view(self) -> ChoiceView {
        ChoiceView {
            delta: self.delta.view(),
            finish_reason: self.finish_reason,
            index: self.index,
            logprobs: match self.logprobs {
                Some(l) => Some(l.view()),
                None => None,
            },
        }
    }

    /// Folds in the next chunk of the same choice.
    pub fn push(&mut self, other: &Choice)
        ensures
            final(self).view() == merge_choice(old(self).view(), other.view()),
    {
        self.delta.push(&other.delta);
        if self.finish_reason.is_none() {
            self.finish_reason = other.finish_reason;
        }
        match &other.logprobs {
            Some(other_logprobs) => {
                match &mut self.logprobs {
                    Some(self_logprobs) => {
                        self_logprobs.push(other_logprobs);
                    },
                    None => {
                        self.logprobs = Some(other_logprobs.copy());
                    },
                }
            },
            None => {},
        }
    }
}

} // verus!
