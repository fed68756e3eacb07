//! CCSDS navigation-message assembly rules: header defaults of OEM and OPM
//! files, the segment count of an OEM, and the anomaly of an OPM Keplerian
//! block.
use vstd::prelude::*;

use crate::error::{engine_message_error, type_error, BindingError, ErrorKind};
use sidereon_core::astro::oem::Oem as CoreOem;
use sidereon_core::astro::opm::Opm as CoreOpm;

verus! {

/// Optional header fields of an OEM or OPM file as the host passes them.
#[derive(Clone, Debug)]
pub struct HeaderInput {
    pub version: Option<String>,
    pub creation_date: Option<String>,
    pub originator: Option<String>,
}

/// Header fields with the version resolved.
#[derive(Clone, Debug)]
pub struct Header {
    pub version: String,
    pub creation_date: Option<String>,
    pub originator: Option<String>,
}

/// Resolves a header: the format version defaults to `2.0`; the creation
/// date and originator are kept as given.
pub fn resolve_header(input: HeaderInput) -> (h: Header)
    ensures
        h.version@ == (match input.version {
            Some(v) => v@,
            None => "2.0"@,
        }),
        h.creation_date == input.creation_date,
        h.originator == input.originator,
{
    Header {
        version: match input.version {
            Some(v) => v,
            None => "2.0".to_owned(),
        },
        creation_date: input.creation_date,
        originator: input.originator,
    }
}

/// An OEM carries at least one segment; none is a `TypeError`.
pub fn check_oem_segments(n_segments: usize) -> (r: Result<(), BindingError>)
    ensures
        r is Ok <==> n_segments > 0,
        r matches Err(e) ==> e.kind == ErrorKind::Type && e.message@
            == "Oem requires at least one segment"@,
{
    if n_segments == 0 {
        return Err(type_error("Oem requires at least one segment".to_owned()));
    }
    Ok(())
}

/// Which anomaly an OPM Keplerian block carries.
#[derive(Clone, Copy, Debug, PartialEq, Eq, Structural)]
pub enum AnomalyKind {
    True,
    Mean,
}

/// Chooses the anomaly of a Keplerian block from which of the true and
/// mean anomalies were supplied: exactly one must be; neither or both is a
/// `TypeError`.
pub fn keplerian_anomaly(has_true: bool, has_mean: bool) -> (r: Result<AnomalyKind, BindingError>)
    ensures
        (has_true && !has_mean) <==> r == Ok::<AnomalyKind, BindingError>(AnomalyKind::True),
        (!has_true && has_mean) <==> r == Ok::<AnomalyKind, BindingError>(AnomalyKind::Mean),
        (has_true == has_mean) <==> r is Err,
        r matches Err(e) ==> e.kind == ErrorKind::Type,
        r matches Err(e) ==> (!has_true ==> e.message@
            == "Keplerian block requires trueAnomalyDeg or meanAnomalyDeg"@),
        r matches Err(e) ==> (has_true ==> e.message@
            == "Keplerian block cannot carry both trueAnomalyDeg and meanAnomalyDeg"@),
{
    if has_true && !has_mean {
        Ok(AnomalyKind::True)
    } else if !has_true && has_mean {
        Ok(AnomalyKind::Mean)
    } else if !has_true {
        Err(type_error("Keplerian block requires trueAnomalyDeg or meanAnomalyDeg".to_owned()))
    } else {
        Err(type_error("Keplerian block cannot carry both trueAnomalyDeg and meanAnomalyDeg".to_owned()))
    }
}

/// The engine's orbit ephemeris message, carried opaquely.
#[verifier::external_type_specification]
#[verifier::external_body]
pub struct ExCoreOem(CoreOem);

/// The engine's orbit parameter message, carried opaquely.
#[verifier::external_type_specification]
#[verifier::external_body]
pub struct ExCoreOpm(CoreOpm);

/// What `sidereon_core::astro::oem::parse_kvn` reads from a text, or `None` where it returns an error.
pub uninterp spec fn oem_of_kvn(text: Seq<char>) -> Option<CoreOem>;

/// Calls `sidereon_core::astro::oem::parse_kvn`, a function of the text alone; on failure, the error's
/// text.
#[verifier::external_body]
fn core_parse_oem_kvn(text: &str) -> (r: Result<CoreOem, String>)
    ensures
        r is Ok <==> oem_of_kvn(text@) is Some,
        r matches Ok(v) ==> oem_of_kvn(text@) == Some(v),
{
    sidereon_core::astro::oem::parse_kvn(text).map_err(|e| e.to_string())
}

/// Parses an OEM in KVN form: the engine's result, or an engine `Error` where it refuses the
/// text.
pub fn parse_oem_kvn(text: &str) -> (r: Result<CoreOem, BindingError>)
    ensures
        r is Ok <==> oem_of_kvn(text@) is Some,
        r matches Ok(v) ==> oem_of_kvn(text@) == Some(v),
        r matches Err(e) ==> e.kind == ErrorKind::Engine,
{
    match core_parse_oem_kvn(text) {
        Ok(v) => Ok(v),
        Err(message) => Err(engine_message_error(message)),
    }
}

/// What `sidereon_core::astro::oem::parse_xml` reads from a text, or `None` where it returns an error.
pub uninterp spec fn oem_of_xml(text: Seq<char>) -> Option<CoreOem>;

/// Calls `sidereon_core::astro::oem::parse_xml`, a function of the text alone; on failure, the error's
/// text.
#[verifier::external_body]
fn core_parse_oem_xml(text: &str) -> (r: Result<CoreOem, String>)
    ensures
        r is Ok <==> oem_of_xml(text@) is Some,
        r matches Ok(v) ==> oem_of_xml(text@) == Some(v),
{
    sidereon_core::astro::oem::parse_xml(text).map_err(|e| e.to_string())
}

/// Parses an OEM in XML form: the engine's result, or an engine `Error` where it refuses the
/// text.
pub fn parse_oem_xml(text: &str) -> (r: Result<CoreOem, BindingError>)
    ensures
        r is Ok <==> oem_of_xml(text@) is Some,
        r matches Ok(v) ==> oem_of_xml(text@) == Some(v),
        r matches Err(e) ==> e.kind == ErrorKind::Engine,
{
    match core_parse_oem_xml(text) {
        Ok(v) => Ok(v),
        Err(message) => Err(engine_message_error(message)),
    }
}

/// What `sidereon_core::astro::opm::parse_kvn` reads from a text, or `None` where it returns an error.
pub uninterp spec fn opm_of_kvn(text: Seq<char>) -> Option<CoreOpm>;

/// Calls `sidereon_core::astro::opm::parse_kvn`, a function of the text alone; on failure, the error's
/// text.
#[verifier::external_body]
fn core_parse_opm_kvn(text: &str) -> (r: Result<CoreOpm, String>)
    ensures
        r is Ok <==> opm_of_kvn(text@) is Some,
        r matches Ok(v) ==> opm_of_kvn(text@) == Some(v),
{
    sidereon_core::astro::opm::parse_kvn(text).map_err(|e| e.to_string())
}

/// Parses an OPM in KVN form: the engine's result, or an engine `Error` where it refuses the
/// text.
pub fn parse_opm_kvn(text: &str) -> (r: Result<CoreOpm, BindingError>)
    ensures
        r is Ok <==> opm_of_kvn(text@) is Some,
        r matches Ok(v) ==> opm_of_kvn(text@) == Some(v),
        r matches Err(e) ==> e.kind == ErrorKind::Engine,
{
    match core_parse_opm_kvn(text) {
        Ok(v) => Ok(v),
        Err(message) => Err(engine_message_error(message)),
    }
}

/// What `sidereon_core::astro::opm::parse_xml` reads from a text, or `None` where it returns an error.
pub uninterp spec fn opm_of_xml(text: Seq<char>) -> Option<CoreOpm>;

/// Calls `sidereon_core::astro::opm::parse_xml`, a function of the text alone; on failure, the error's
/// text.
#[verifier::external_body]
fn core_parse_opm_xml(text: &str) -> (r: Result<CoreOpm, String>)
    ensures
        r is Ok <==> opm_of_xml(text@) is Some,
        r matches Ok(v) ==> opm_of_xml(text@) == Some(v),
{
    sidereon_core::astro::opm::parse_xml(text).map_err(|e| e.to_string())
}

/// Parses an OPM in XML form: the engine's result, or an engine `Error` where it refuses the
/// text.
pub fn parse_opm_xml(text: &str) -> (r: Result<CoreOpm, BindingError>)
    ensures
        r is Ok <==> opm_of_xml(text@) is Some,
        r matches Ok(v) ==> opm_of_xml(text@) == Some(v),
        r matches Err(e) ==> e.kind == ErrorKind::Engine,
{
    match core_parse_opm_xml(text) {
        Ok(v) => Ok(v),
        Err(message) => Err(engine_message_error(message)),
    }
}

} // verus!
