//! The JSON-like values that functions receive as input and that
//! expressions produce.

use crate::decimal::Decimal;
use vstd::prelude::*;

verus! {

broadcast use vstd::std_specs::vec::axiom_vec_index_decreases;

/// Mathematical model of an [`Input`].
pub enum InputView {
    Null,
    Bool(bool),
    Number(Decimal),
    Str(Seq<char>),
    Array(Seq<InputView>),
    Object(Seq<(Seq<char>, InputView)>),
}

/// A value handed to a function, or produced while compiling one.
#[derive(Debug)]
pub enum Input {
    Null,
    Bool(bool),
    Number(Decimal),
    Str(String),
    Array(Vec<Input>),
    /// Named fields, in order.
    Object(Vec<(String, Input)>),
}

/// The models of a sequence of values, element by element.
pub open spec fn models(v: Seq<Input>) -> Seq<InputView> {
    Seq::new(v.len(), |i: int| v[i].model())
}

/// The model of an optional value.
pub open spec fn opt_model(o: Option<Input>) -> Option<InputView> {
    match o {
        Some(v) => Some(v.model()),
        None => None,
    }
}

impl Input {
    pub open spec fn model(self) -> InputView
        decreases self,
    {
        match self {
            Input::Null => InputView::Null,
            Input::Bool(b) => InputView::Bool(b),
            Input::Number(d) => InputView::Number(d),
            Input::Str(s) => InputView::Str(s@),
            Input::Array(v) => InputView::Array(
                Seq::new(
                    v.len() as nat,
                    |i: int|
                        if 0 <= i < v.len() {
                            v[i].model()
                        } else {
                            InputView::Null
                        },
                ),
            ),
            Input::Object(v) => InputView::Object(
                Seq::new(
                    v.len() as nat,
                    |i: int|
                        if 0 <= i < v.len() {
                            (v[i].0@, v[i].1.model())
                        } else {
                            (Seq::empty(), InputView::Null)
                        },
                ),
            ),
        }
    }

    /// A copy of this value, element by element.
    pub fn deep_clone(&self) -> (r: Input)
        ensures
            r.model() == self.model(),
        decreases self,
    {
        match self {
            Input::Null => Input::Null,
            Input::Bool(b) => Input::Bool(*b),
            Input::Number(d) => Input::Number(*d),
            Input::Str(s) => Input::Str(s.clone()),
            Input::Array(v) => {
                let mut out: Vec<Input> = Vec::new();
                let mut i: usize = 0;
                while i < v.len()
                    invariant
                        0 <= i <= v.len(),
                        *self == Input::Array(*v),
                        out@.len() == i,
                        forall|j: int| 0 <= j < i ==> out@[j].model() == v@[j].model(),
                    decreases v.len() - i,
                {
                    proof {
                        assert(decreases_to!(*self => self->Array_0));
                        assert(decreases_to!(self->Array_0 => self->Array_0[i as int]));
                    }
                    let c = v[i].deep_clone();
                    out.push(c);
                    i = i + 1;
                }
                let r = Input::Array(out);
                assert(r.model()->Array_0 =~= self.model()->Array_0);
                r
            },
            Input::Object(v) => {
                let mut out: Vec<(String, Input)> = Vec::new();
                let mut i: usize = 0;
                while i < v.len()
                    invariant
                        0 <= i <= v.len(),
                        *self == Input::Object(*v),
                        out@.len() == i,
                        forall|j: int|
                            0 <= j < i ==> out@[j].0@ == v@[j].0@ && out@[j].1.model() == v@[j].1.model(),
                    decreases v.len() - i,
                {
                    proof {
                        assert(decreases_to!(*self => self->Object_0));
                        assert(decreases_to!(self->Object_0 => self->Object_0[i as int]));
                        assert(decreases_to!(self->Object_0[i as int] => self->Object_0[i as int].1));
                    }
                    let value = v[i].1.deep_clone();
                    out.push((v[i].0.clone(), value));
                    i = i + 1;
                }
                let r = Input::Object(out);
                assert(r.model()->Object_0 =~= self.model()->Object_0);
                r
            },
        }
    }
}

} // verus!
