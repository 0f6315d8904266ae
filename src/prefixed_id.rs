//! Identifiers written as a three-byte prefix followed by a body.

use vstd::prelude::*;
use vstd::string::StringSliceAdditionalSpecFns;
use vstd::utf8::is_char_boundary;

verus! {

/// The body of `s` when `s` starts with the three bytes of `prefix` and the
/// body is at least `min_body` bytes long; `None` otherwise.
pub fn prefixed_body<'a>(s: &'a str, prefix: [u8; 3], min_body: usize) -> (r: Option<&'a str>)
    requires
        min_body <= usize::MAX - 3,
    ensures
        ({
            let b = s.spec_bytes();
            let matches = b.len() >= 3 + min_body && b[0] == prefix@[0] && b[1] == prefix@[1] && b[2]
                == prefix@[2];
            &&& r is Some ==> matches
            &&& r matches Some(body) ==> body.spec_bytes() == b.subrange(3, b.len() as int)
            &&& matches && is_char_boundary(b, 3) ==> r is Some
        }),
{
    let bytes = s.as_bytes();
    if bytes.len() >= 3 + min_body && bytes[0] == prefix[0]
        && bytes[1] == prefix[1] && bytes[2] == prefix[2] && s.is_char_boundary(3) {
        let (_, body) = s.split_at(3);
        Some(body)
    } else {
        None
    }
}

} // verus!
