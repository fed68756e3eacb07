//! String helpers shared by the label parsers.
use vstd::prelude::*;
use vstd::utf8::*;
use vstd::string::*;

use crate::batch::push_str;
use crate::error::{type_error, BindingError, ErrorKind};
use crate::format::chars_to_string;

verus! {

/// Byte-wise equality of two string slices; equal bytes mean equal text.
pub fn str_eq(a: &str, b: &str) -> (r: bool)
    ensures
        r == (a@ == b@),
{
    let x = a.as_bytes();
    let y = b.as_bytes();
    proof {
        encode_utf8_decode_utf8(a@);
        encode_utf8_decode_utf8(b@);
    }
    if x.len() != y.len() {
        return false;
    }
    let n = x.len();
    let mut i: usize = 0;
    while i < n
        invariant
            x@ == a.spec_bytes(),
            y@ == b.spec_bytes(),
            n == x@.len(),
            n == y@.len(),
            0 <= i <= n,
            forall|j: int| 0 <= j < i ==> x@[j] == y@[j],
        decreases n - i,
    {
        if x[i] != y[i] {
            assert(x@[i as int] != y@[i as int]);
            return false;
        }
        i = i + 1;
    }
    assert(x@ =~= y@);
    true
}


/// Calls `std::str::from_utf8`, which succeeds exactly on well-formed UTF-8,
/// and copies the text out.
#[verifier::external_body]
fn std_utf8(bytes: &[u8]) -> (r: Option<String>)
    ensures
        r is Some <==> valid_utf8(bytes@),
        r matches Some(s) ==> s@ == decode_utf8(bytes@),
{
    std::str::from_utf8(bytes).ok().map(str::to_owned)
}

/// `<what> is not valid UTF-8`.
fn not_utf8_message(what: &str) -> (m: String)
    ensures
        m@ == what@ + " is not valid UTF-8"@,
{
    let mut out: Vec<char> = Vec::new();
    push_str(&mut out, what);
    push_str(&mut out, " is not valid UTF-8");
    chars_to_string(out)
}

/// Decodes host bytes as UTF-8 text; malformed input is a `TypeError`.
pub fn utf8_text(bytes: &[u8], what: &str) -> (r: Result<String, BindingError>)
    ensures
        r is Ok <==> valid_utf8(bytes@),
        r matches Ok(s) ==> s@ == decode_utf8(bytes@),
        r matches Err(e) ==> e.kind == ErrorKind::Type && e.message@ == what@ + " is not valid UTF-8"@,
{
    match std_utf8(bytes) {
        Some(s) => Ok(s),
        None => Err(type_error(not_utf8_message(what))),
    }
}

} // verus!
