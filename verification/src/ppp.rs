//! PPP solution vocabulary.
use vstd::prelude::*;
use crate::rtk_arc::{integer_status_label as rtk_arc_integer_status_label, integer_status_text, IntegerStatus};

verus! {

/// The label of an integer ambiguity-resolution outcome, as an owned string.
pub fn integer_status_label(status: IntegerStatus) -> (r: String)
    ensures
        r@ == integer_status_text(status),
        status is Fixed ==> r@ == "Fixed"@,
        status is NotFixed ==> r@ == "NotFixed"@,
{
    rtk_arc_integer_status_label(status).to_owned()
}

} // verus!
