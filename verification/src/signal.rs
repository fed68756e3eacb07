//! GPS L1 C/A spreading codes, read through the engine's code generator,
//! and the index-aligned results of a batch of predictions.
use vstd::prelude::*;

use crate::batch::{count_text, push_str};
use crate::error::{engine_message_error, range_error, BindingError, ErrorKind};
use crate::format::{chars_to_string, push_decimal};

verus! {

/// Length of a C/A code period in chips.
pub open spec fn ca_code_length() -> int {
    1023
}

/// The 1023 bipolar chips the engine's generator gives a GPS PRN.
pub uninterp spec fn ca_chips(prn: i64) -> Seq<i8>;

/// Whether the generator has a code for a PRN: GPS PRNs 1 through 32.
pub open spec fn ca_prn_supported(prn: i64) -> bool {
    1 <= prn <= 32
}

/// The chip at a wrapping, zero-based index: the index is reduced modulo
/// the code length (Euclidean, so negative indices count back from the end).
pub open spec fn ca_chip_at(prn: i64, index: i64) -> i8 {
    ca_chips(prn)[index as int % ca_code_length()]
}

/// Calls `sidereon_core::signal::ca_code`, which selects the G2 phase taps
/// of PRN 1 to 32 (any other PRN is an error) and emits 1023 chips, each
/// `1 - 2 * bit`.
#[verifier::external_body]
fn core_ca_code(prn: i64) -> (r: Result<Vec<i8>, String>)
    ensures
        r is Ok <==> ca_prn_supported(prn),
        r matches Ok(v) ==> v@ == ca_chips(prn),
        r matches Ok(v) ==> v@.len() == ca_code_length(),
        r matches Ok(v) ==> forall|i: int| 0 <= i < v@.len() ==> (v@[i] == 1 || v@[i] == -1),
{
    sidereon_core::signal::ca_code(prn).map_err(|e| e.to_string())
}

/// Calls `sidereon_core::signal::ca_chip`, which generates the code of the
/// PRN and reads it at `index.rem_euclid(1023)`.
#[verifier::external_body]
fn core_ca_chip(prn: i64, index: i64) -> (r: Result<i8, String>)
    ensures
        r is Ok <==> ca_prn_supported(prn),
        r matches Ok(c) ==> c == ca_chip_at(prn, index),
{
    sidereon_core::signal::ca_chip(prn, index).map_err(|e| e.to_string())
}

/// The 1023 bipolar C/A chips of a GPS PRN; an unsupported PRN is a
/// `RangeError`.
pub fn ca_code(prn: i64) -> (r: Result<Vec<i8>, BindingError>)
    ensures
        r is Ok <==> ca_prn_supported(prn),
        r matches Ok(v) ==> v@ == ca_chips(prn) && v@.len() == 1023,
        r matches Ok(v) ==> forall|i: int| 0 <= i < v@.len() ==> (v@[i] == 1 || v@[i] == -1),
        r matches Err(e) ==> e.kind == ErrorKind::Range,
{
    match core_ca_code(prn) {
        Ok(v) => Ok(v),
        Err(message) => Err(range_error(message)),
    }
}

/// One C/A chip at a wrapping zero-based index; an unsupported PRN is a
/// `RangeError`.
pub fn ca_chip(prn: i64, index: i64) -> (r: Result<i8, BindingError>)
    ensures
        r is Ok <==> ca_prn_supported(prn),
        r matches Ok(c) ==> c == ca_chip_at(prn, index),
        r matches Err(e) ==> e.kind == ErrorKind::Range,
{
    match core_ca_chip(prn, index) {
        Ok(c) => Ok(c),
        Err(message) => Err(range_error(message)),
    }
}

/// The chip sequence repeats with the code period: an index and the index
/// one period later read the same chip.
pub proof fn lemma_ca_chip_periodic(prn: i64, index: i64)
    requires
        index as int + ca_code_length() <= i64::MAX,
    ensures
        ca_chip_at(prn, index) == ca_chip_at(prn, (index + 1023) as i64),
{
    assert((index as int + 1023) % 1023 == index as int % 1023) by (nonlinear_arith);
}

/// A chip read at an index inside the first period is the code's chip at
/// that index.
pub proof fn lemma_ca_chip_in_period(prn: i64, index: i64)
    requires
        0 <= index < 1023,
    ensures
        ca_chip_at(prn, index) == ca_chips(prn)[index as int],
{
}

/// Message for a request index past the end of a batch.
pub open spec fn request_index_text(index: usize) -> Seq<char> {
    "request index "@ + count_text(index) + " out of range"@
}

/// A `RangeError` for a request index past the end of a batch.
fn request_index_error(index: usize) -> (e: BindingError)
    ensures
        e.kind == ErrorKind::Range,
        e.message@ == request_index_text(index),
{
    let mut out: Vec<char> = Vec::new();
    push_str(&mut out, "request index ");
    push_decimal(&mut out, index as u64);
    push_str(&mut out, " out of range");
    assert(out@ =~= request_index_text(index));
    range_error(chars_to_string(out))
}

/// The per-request outcomes of a batch, index-aligned with its requests:
/// each is a result or the failure message of that request.
pub struct PredictBatch<T> {
    results: Vec<Result<T, String>>,
}

impl<T> PredictBatch<T> {
    /// The outcomes, in request order.
    pub closed spec fn outcomes(&self) -> Seq<Result<T, String>> {
        self.results@
    }

    /// A batch of outcomes.
    pub fn new(results: Vec<Result<T, String>>) -> (b: Self)
        ensures
            b.outcomes() == results@,
    {
        PredictBatch { results }
    }

    /// The number of requests.
    pub fn count(&self) -> (n: usize)
        ensures
            n == self.outcomes().len(),
    {
        self.results.len()
    }

    /// Whether request `index` succeeded; an index past the end is a
    /// `RangeError`.
    pub fn is_ok(&self, index: usize) -> (r: Result<bool, BindingError>)
        ensures
            index < self.outcomes().len() ==> (r matches Ok(b) && b == (self.outcomes()[index as int] is Ok)),
            index >= self.outcomes().len() ==> (r matches Err(e) && e.kind == ErrorKind::Range
                && e.message@ == request_index_text(index)),
    {
        if index < self.results.len() {
            Ok(self.results[index].is_ok())
        } else {
            Err(request_index_error(index))
        }
    }

    /// The result of request `index`; an index past the end is a
    /// `RangeError`, a failed request an engine `Error` carrying its message.
    pub fn result(&self, index: usize) -> (r: Result<&T, BindingError>)
        ensures
            index < self.outcomes().len() ==> match self.outcomes()[index as int] {
                Ok(v) => r == Ok::<&T, BindingError>(&v),
                Err(m) => r matches Err(e) && e.kind == ErrorKind::Engine && e.message@ == m@,
            },
            index >= self.outcomes().len() ==> (r matches Err(e) && e.kind == ErrorKind::Range
                && e.message@ == request_index_text(index)),
    {
        if index < self.results.len() {
            match &self.results[index] {
                Ok(v) => Ok(v),
                Err(m) => Err(engine_message_error(m.clone())),
            }
        } else {
            Err(request_index_error(index))
        }
    }

    /// The failure message of request `index`, `None` when it succeeded; an
    /// index past the end is a `RangeError`.
    pub fn error(&self, index: usize) -> (r: Result<Option<String>, BindingError>)
        ensures
            index < self.outcomes().len() ==> match self.outcomes()[index as int] {
                Ok(_) => r matches Ok(v) && v is None,
                Err(m) => r matches Ok(v) && v matches Some(s) && s@ == m@,
            },
            index >= self.outcomes().len() ==> (r matches Err(e) && e.kind == ErrorKind::Range
                && e.message@ == request_index_text(index)),
    {
        if index < self.results.len() {
            match &self.results[index] {
                Ok(_) => Ok(None),
                Err(m) => Ok(Some(m.clone())),
            }
        } else {
            Err(request_index_error(index))
        }
    }
}

} // verus!
