//! Shape checks of index-aligned batch inputs: the arrays a batch call takes
//! must agree in length before any element is read.
use vstd::prelude::*;
use vstd::string::*;

use crate::error::{type_error, BindingError, ErrorKind};
use crate::format::{chars_to_string, decimal_digits, push_decimal};

verus! {

/// Appends the characters of `s` in order.
pub fn push_str(out: &mut Vec<char>, s: &str)
    ensures
        final(out)@ == old(out)@ + s@,
{
    let n = s.unicode_len();
    let ghost start = out@;
    let mut i: usize = 0;
    while i < n
        invariant
            n == s@.len(),
            0 <= i <= n,
            out@ == start + s@.subrange(0, i as int),
        decreases n - i,
    {
        let c = s.get_char(i);
        out.push(c);
        assert(s@.subrange(0, i + 1) =~= s@.subrange(0, i as int).push(c));
        i = i + 1;
    }
    assert(s@.subrange(0, n as int) =~= s@);
}

/// The decimal text of a count.
pub open spec fn count_text(n: usize) -> Seq<char> {
    decimal_digits(n as nat)
}

/// Message for an empty satellite list.
pub open spec fn empty_satellites_text() -> Seq<char> {
    "satellites must not be empty"@
}

/// Message for a receiver array that is not a whole number of rows.
pub open spec fn ragged_receivers_text(n_values: usize) -> Seq<char> {
    "receiversEcefM length ("@ + count_text(n_values) + ") must be a multiple of 3 (flat row-major n-by-3)"@
}

/// Message for a receiver row count that differs from the satellite count.
pub open spec fn receiver_rows_text(n_rows: usize, n_satellites: usize) -> Seq<char> {
    "receiversEcefM ("@ + count_text(n_rows) + " rows) and satellites ("@ + count_text(n_satellites)
        + ") must have the same length"@
}

/// Message for an epoch count that differs from the satellite count.
pub open spec fn epoch_count_text(n_epochs: usize, n_satellites: usize) -> Seq<char> {
    "epochsJ2000S ("@ + count_text(n_epochs) + ") and satellites ("@ + count_text(n_satellites)
        + ") must have the same length"@
}

/// Renders `prefix`, the decimal `a`, `middle`, the decimal `b`, `suffix`.
fn two_count_message(prefix: &str, a: usize, middle: &str, b: usize, suffix: &str) -> (s: String)
    ensures
        s@ == prefix@ + count_text(a) + middle@ + count_text(b) + suffix@,
{
    let mut out: Vec<char> = Vec::new();
    push_str(&mut out, prefix);
    push_decimal(&mut out, a as u64);
    push_str(&mut out, middle);
    push_decimal(&mut out, b as u64);
    push_str(&mut out, suffix);
    assert(out@ =~= prefix@ + count_text(a) + middle@ + count_text(b) + suffix@);
    chars_to_string(out)
}

/// Validates the shapes of a batch of `(satellite, receiver, epoch)`
/// prediction requests: `n_satellites` tokens, a flat row-major n-by-3
/// receiver array of `n_receiver_values` numbers and `n_epochs` epochs.
/// The checks run in that order and the first that fails is reported as a
/// `TypeError`; on success the request count is returned.
pub fn predict_request_count(n_satellites: usize, n_receiver_values: usize, n_epochs: usize) -> (r: Result<
    usize,
    BindingError,
>)
    ensures
        r is Ok <==> (n_satellites > 0 && n_receiver_values % 3 == 0 && n_receiver_values / 3
            == n_satellites && n_epochs == n_satellites),
        r matches Ok(n) ==> n == n_satellites,
        r matches Err(e) ==> e.kind == ErrorKind::Type,
        r matches Err(e) ==> (n_satellites == 0 ==> e.message@ == empty_satellites_text()),
        r matches Err(e) ==> (n_satellites > 0 && n_receiver_values % 3 != 0 ==> e.message@
            == ragged_receivers_text(n_receiver_values)),
        r matches Err(e) ==> (n_satellites > 0 && n_receiver_values % 3 == 0 && n_receiver_values
            / 3 != n_satellites ==> e.message@ == receiver_rows_text(
            (n_receiver_values / 3) as usize,
            n_satellites,
        )),
        r matches Err(e) ==> (n_satellites > 0 && n_receiver_values % 3 == 0 && n_receiver_values
            / 3 == n_satellites && n_epochs != n_satellites ==> e.message@ == epoch_count_text(
            n_epochs,
            n_satellites,
        )),
{
    if n_satellites == 0 {
        return Err(type_error("satellites must not be empty".to_owned()));
    }
    if n_receiver_values % 3 != 0 {
        let mut out: Vec<char> = Vec::new();
        push_str(&mut out, "receiversEcefM length (");
        push_decimal(&mut out, n_receiver_values as u64);
        push_str(&mut out, ") must be a multiple of 3 (flat row-major n-by-3)");
        assert(out@ =~= ragged_receivers_text(n_receiver_values));
        return Err(type_error(chars_to_string(out)));
    }
    let rows = n_receiver_values / 3;
    if rows != n_satellites {
        let m = two_count_message(
            "receiversEcefM (",
            rows,
            " rows) and satellites (",
            n_satellites,
            ") must have the same length",
        );
        return Err(type_error(m));
    }
    if n_epochs != n_satellites {
        let m = two_count_message(
            "epochsJ2000S (",
            n_epochs,
            ") and satellites (",
            n_satellites,
            ") must have the same length",
        );
        return Err(type_error(m));
    }
    Ok(n_satellites)
}

/// Message for a satellite list and an epoch list of different lengths.
pub open spec fn satellite_epoch_mismatch_text(n_satellites: usize, n_epochs: usize) -> Seq<char> {
    "satellites ("@ + count_text(n_satellites) + ") and epochsJ2000S ("@ + count_text(n_epochs)
        + ") must have the same length"@
}

/// Checks that a satellite list and an epoch list pair up one to one; a
/// mismatch is a `TypeError` naming both lengths.
pub fn check_satellite_epoch_lengths(n_satellites: usize, n_epochs: usize) -> (r: Result<
    (),
    BindingError,
>)
    ensures
        r is Ok <==> n_satellites == n_epochs,
        r matches Err(e) ==> e.kind == ErrorKind::Type && e.message@
            == satellite_epoch_mismatch_text(n_satellites, n_epochs),
{
    if n_satellites != n_epochs {
        let m = two_count_message(
            "satellites (",
            n_satellites,
            ") and epochsJ2000S (",
            n_epochs,
            ") must have the same length",
        );
        return Err(type_error(m));
    }
    Ok(())
}

/// Checks that satellite identifiers and weights pair up one to one; a
/// mismatch is a `TypeError`.
pub fn check_weight_lengths(n_satellites: usize, n_weights: usize) -> (r: Result<(), BindingError>)
    ensures
        r is Ok <==> n_satellites == n_weights,
        r matches Err(e) ==> e.kind == ErrorKind::Type && e.message@
            == "satelliteIds and weights must have the same length"@,
{
    if n_satellites != n_weights {
        return Err(type_error("satelliteIds and weights must have the same length".to_owned()));
    }
    Ok(())
}

/// Message for a vector that is not three elements long.
pub open spec fn vec3_length_text(name: Seq<char>, len: usize) -> Seq<char> {
    name + " must have exactly 3 elements, got "@ + count_text(len)
}

/// A position, velocity or acceleration vector has three components;
/// another length is a `TypeError` naming the vector and its length.
pub fn check_vec3_len(name: &str, len: usize) -> (r: Result<(), BindingError>)
    ensures
        r is Ok <==> len == 3,
        r matches Err(e) ==> e.kind == ErrorKind::Type && e.message@ == vec3_length_text(name@, len),
{
    if len != 3 {
        let mut out: Vec<char> = Vec::new();
        push_str(&mut out, name);
        push_str(&mut out, " must have exactly 3 elements, got ");
        push_decimal(&mut out, len as u64);
        assert(out@ =~= vec3_length_text(name@, len));
        return Err(type_error(chars_to_string(out)));
    }
    Ok(())
}

/// A receiver position has three ECEF components; another length is a
/// `TypeError`.
pub fn check_receiver_ecef_len(len: usize) -> (r: Result<(), BindingError>)
    ensures
        r is Ok <==> len == 3,
        r matches Err(e) ==> e.kind == ErrorKind::Type && e.message@ == "receiverEcefM must have length 3"@,
{
    if len != 3 {
        return Err(type_error("receiverEcefM must have length 3".to_owned()));
    }
    Ok(())
}

/// Message for an IQ array of odd length.
pub open spec fn iq_length_text(name: Seq<char>) -> Seq<char> {
    name + " must be an interleaved [i, q] array of even length"@
}

/// Interleaved `[i, q]` samples come in pairs; an odd length is a
/// `TypeError` naming the array. On success the number of samples.
pub fn iq_sample_count(name: &str, len: usize) -> (r: Result<usize, BindingError>)
    ensures
        r is Ok <==> len % 2 == 0,
        r matches Ok(n) ==> n == len / 2,
        r matches Err(e) ==> e.kind == ErrorKind::Type && e.message@ == iq_length_text(name@),
{
    if len % 2 != 0 {
        let mut out: Vec<char> = Vec::new();
        push_str(&mut out, name);
        push_str(&mut out, " must be an interleaved [i, q] array of even length");
        assert(out@ =~= iq_length_text(name@));
        return Err(type_error(chars_to_string(out)));
    }
    Ok(len / 2)
}

} // verus!
