//! Tags of completed (non-streamed) responses.

use vstd::prelude::*;

verus! {

/// The object tag of a completed response.
#[derive(Clone, Copy, Debug, PartialEq, Eq, Structural)]
pub enum Object {
    ChatCompletion,
}

impl From<crate::streaming::Object> for Object {
    /// A finished stream of chunks is a completion.
    fn from(value: crate::streaming::Object) -> (r: Object) {
        match value {
            crate::streaming::Object::ChatCompletionChunk => Object::ChatCompletion,
        }
    }
}

impl vstd::std_specs::convert::FromSpecImpl<crate::streaming::Object> for Object {
    open spec fn obeys_from_spec() -> bool {
        true
    }

    open spec fn from_spec(v: crate::streaming::Object) -> Object {
        match v {
            crate::streaming::Object::ChatCompletionChunk => Object::ChatCompletion,
        }
    }
}

} // verus!
