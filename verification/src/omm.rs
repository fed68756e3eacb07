//! CCSDS OMM epoch: validated UTC calendar fields with their ISO-8601
//! rendering, and the defaults of the optional OMM metadata.
use vstd::prelude::*;

use crate::error::{engine_message_error, range_error, BindingError, ErrorKind};
use sidereon_core::astro::omm::Omm as CoreOmm;
use crate::format::{chars_to_string, padded_decimal, push_padded_decimal};

verus! {

/// A UTC calendar epoch as carried by an OMM `EPOCH` field.
#[derive(Clone, Copy, Debug, PartialEq, Eq, Structural)]
pub struct OmmEpoch {
    year: i32,
    month: u32,
    day: u32,
    hour: u32,
    minute: u32,
    second: u32,
    microsecond: u32,
    femtosecond: u32,
}

/// The calendar fields are each within their range (a leap second allowed).
pub open spec fn valid_calendar(month: u32, day: u32, hour: u32, minute: u32, second: u32, microsecond: u32, femtosecond: u32) -> bool {
    &&& 1 <= month <= 12
    &&& 1 <= day <= 31
    &&& hour <= 23
    &&& minute <= 59
    &&& second <= 60
    &&& microsecond <= 999_999
    &&& femtosecond <= 999_999_999
}

/// A year written with at least four characters, the sign counting as one.
pub open spec fn year_text(year: i32) -> Seq<char> {
    if year >= 0 {
        padded_decimal(year as nat, 4)
    } else {
        seq!['-'] + padded_decimal((-year) as nat, 3)
    }
}

/// `YYYY-MM-DDThh:mm:ss.uuuuuu`: ISO-8601 text with microsecond precision.
pub open spec fn iso8601_text(e: OmmEpoch) -> Seq<char> {
    year_text(e.year_spec()) + seq!['-'] + padded_decimal(e.month_spec() as nat, 2) + seq!['-']
        + padded_decimal(e.day_spec() as nat, 2) + seq!['T'] + padded_decimal(e.hour_spec() as nat, 2) + seq![':']
        + padded_decimal(e.minute_spec() as nat, 2) + seq![':'] + padded_decimal(e.second_spec() as nat, 2) + seq!['.']
        + padded_decimal(e.microsecond_spec() as nat, 6)
}

impl OmmEpoch {
    #[verifier::type_invariant]
    spec fn fields_in_range(&self) -> bool {
        valid_calendar(self.month, self.day, self.hour, self.minute, self.second, self.microsecond, self.femtosecond)
    }

    pub closed spec fn year_spec(&self) -> i32 { self.year }
    pub closed spec fn month_spec(&self) -> u32 { self.month }
    pub closed spec fn day_spec(&self) -> u32 { self.day }
    pub closed spec fn hour_spec(&self) -> u32 { self.hour }
    pub closed spec fn minute_spec(&self) -> u32 { self.minute }
    pub closed spec fn second_spec(&self) -> u32 { self.second }
    pub closed spec fn microsecond_spec(&self) -> u32 { self.microsecond }
    pub closed spec fn femtosecond_spec(&self) -> u32 { self.femtosecond }

    /// Builds an epoch from UTC calendar fields; an absent femtosecond is
    /// zero, and a field out of its range is a `RangeError`.
    pub fn new(
        year: i32,
        month: u32,
        day: u32,
        hour: u32,
        minute: u32,
        second: u32,
        microsecond: u32,
        femtosecond: Option<u32>,
    ) -> (r: Result<OmmEpoch, BindingError>)
        ensures
            ({
                let f = match femtosecond { Some(v) => v, None => 0u32 };
                &&& valid_calendar(month, day, hour, minute, second, microsecond, f) <==> r is Ok
                &&& r matches Err(e) ==> e.kind == ErrorKind::Range
                &&& r matches Ok(v) ==> {
                    &&& v.year_spec() == year
                    &&& v.month_spec() == month
                    &&& v.day_spec() == day
                    &&& v.hour_spec() == hour
                    &&& v.minute_spec() == minute
                    &&& v.second_spec() == second
                    &&& v.microsecond_spec() == microsecond
                    &&& v.femtosecond_spec() == f
                }
            }),
    {
        if month < 1 || month > 12 {
            return Err(range_error("month must be in 1..=12".to_owned()));
        }
        if day < 1 || day > 31 {
            return Err(range_error("day must be in 1..=31".to_owned()));
        }
        if hour > 23 {
            return Err(range_error("hour must be in 0..=23".to_owned()));
        }
        if minute > 59 {
            return Err(range_error("minute must be in 0..=59".to_owned()));
        }
        if second > 60 {
            return Err(range_error("second must be in 0..=60".to_owned()));
        }
        if microsecond > 999_999 {
            return Err(range_error("microsecond must be in 0..=999999".to_owned()));
        }
        let femtosecond = match femtosecond {
            Some(v) => v,
            None => 0,
        };
        if femtosecond > 999_999_999 {
            return Err(range_error("femtosecond must be in 0..=999999999".to_owned()));
        }
        Ok(OmmEpoch { year, month, day, hour, minute, second, microsecond, femtosecond })
    }

    /// Calendar year.
    pub fn year(&self) -> (r: i32)
        ensures
            r == self.year_spec(),
    {
        self.year
    }

    /// Calendar month, 1 to 12.
    pub fn month(&self) -> (r: u32)
        ensures
            r == self.month_spec(),
            1 <= r <= 12,
    {
        proof {
            use_type_invariant(self);
        }
        self.month
    }

    /// Calendar day, 1 to 31.
    pub fn day(&self) -> (r: u32)
        ensures
            r == self.day_spec(),
            1 <= r <= 31,
    {
        proof {
            use_type_invariant(self);
        }
        self.day
    }

    /// Hour of day.
    pub fn hour(&self) -> (r: u32)
        ensures
            r == self.hour_spec(),
            r <= 23,
    {
        proof {
            use_type_invariant(self);
        }
        self.hour
    }

    /// Minute of hour.
    pub fn minute(&self) -> (r: u32)
        ensures
            r == self.minute_spec(),
            r <= 59,
    {
        proof {
            use_type_invariant(self);
        }
        self.minute
    }

    /// Second of minute (60 for a leap second).
    pub fn second(&self) -> (r: u32)
        ensures
            r == self.second_spec(),
            r <= 60,
    {
        proof {
            use_type_invariant(self);
        }
        self.second
    }

    /// Microsecond of second.
    pub fn microsecond(&self) -> (r: u32)
        ensures
            r == self.microsecond_spec(),
            r <= 999_999,
    {
        proof {
            use_type_invariant(self);
        }
        self.microsecond
    }

    /// Femtosecond remainder within the microsecond.
    pub fn femtosecond(&self) -> (r: u32)
        ensures
            r == self.femtosecond_spec(),
            r <= 999_999_999,
    {
        proof {
            use_type_invariant(self);
        }
        self.femtosecond
    }

    /// ISO-8601 epoch text with microsecond precision; the femtosecond
    /// remainder is not written.
    pub fn iso8601(&self) -> (r: String)
        ensures
            r@ == iso8601_text(*self),
    {
        let mut out: Vec<char> = Vec::new();
        if self.year < 0 {
            out.push('-');
            let magnitude: u64 = (-(self.year as i64)) as u64;
            push_padded_decimal(&mut out, magnitude, 3);
        } else {
            push_padded_decimal(&mut out, self.year as u64, 4);
        }
        let ghost y = out@;
        assert(y =~= year_text(self.year));
        out.push('-');
        push_padded_decimal(&mut out, self.month as u64, 2);
        out.push('-');
        push_padded_decimal(&mut out, self.day as u64, 2);
        out.push('T');
        push_padded_decimal(&mut out, self.hour as u64, 2);
        out.push(':');
        push_padded_decimal(&mut out, self.minute as u64, 2);
        out.push(':');
        push_padded_decimal(&mut out, self.second as u64, 2);
        out.push('.');
        push_padded_decimal(&mut out, self.microsecond as u64, 6);
        assert(out@ =~= iso8601_text(*self));
        chars_to_string(out)
    }
}

/// Optional OMM metadata fields other than the three drag terms.
#[derive(Clone, Debug)]
pub struct OmmMetaInput {
    pub ccsds_omm_vers: Option<String>,
    pub creation_date: Option<String>,
    pub originator: Option<String>,
    pub object_name: Option<String>,
    pub object_id: Option<String>,
    pub center_name: Option<String>,
    pub ref_frame: Option<String>,
    pub time_system: Option<String>,
    pub mean_element_theory: Option<String>,
    pub ephemeris_type: Option<i32>,
    pub classification_type: Option<String>,
    pub element_set_no: Option<i32>,
    pub rev_at_epoch: Option<i64>,
}

/// OMM metadata with the CCSDS defaults resolved.
#[derive(Clone, Debug)]
pub struct OmmMeta {
    pub ccsds_omm_vers: String,
    pub creation_date: Option<String>,
    pub originator: Option<String>,
    pub object_name: Option<String>,
    pub object_id: Option<String>,
    pub center_name: Option<String>,
    pub ref_frame: Option<String>,
    pub time_system: Option<String>,
    pub mean_element_theory: Option<String>,
    pub ephemeris_type: i32,
    pub classification_type: String,
    pub element_set_no: i32,
    pub rev_at_epoch: i64,
}

/// Resolves OMM metadata: version `2.0`, ephemeris type 0, classification
/// `U`, element set 999 and revolution 0 when absent; the other fields are
/// kept as given.
pub fn omm_meta(input: OmmMetaInput) -> (r: OmmMeta)
    ensures
        r.ccsds_omm_vers@ == (match input.ccsds_omm_vers { Some(v) => v@, None => "2.0"@ }),
        r.classification_type@ == (match input.classification_type { Some(v) => v@, None => "U"@ }),
        r.ephemeris_type == (match input.ephemeris_type { Some(v) => v, None => 0i32 }),
        r.element_set_no == (match input.element_set_no { Some(v) => v, None => 999i32 }),
        r.rev_at_epoch == (match input.rev_at_epoch { Some(v) => v, None => 0i64 }),
        r.creation_date == input.creation_date,
        r.originator == input.originator,
        r.object_name == input.object_name,
        r.object_id == input.object_id,
        r.center_name == input.center_name,
        r.ref_frame == input.ref_frame,
        r.time_system == input.time_system,
        r.mean_element_theory == input.mean_element_theory,
{
    OmmMeta {
        ccsds_omm_vers: match input.ccsds_omm_vers { Some(v) => v, None => "2.0".to_owned() },
        creation_date: input.creation_date,
        originator: input.originator,
        object_name: input.object_name,
        object_id: input.object_id,
        center_name: input.center_name,
        ref_frame: input.ref_frame,
        time_system: input.time_system,
        mean_element_theory: input.mean_element_theory,
        ephemeris_type: match input.ephemeris_type { Some(v) => v, None => 0 },
        classification_type: match input.classification_type { Some(v) => v, None => "U".to_owned() },
        element_set_no: match input.element_set_no { Some(v) => v, None => 999 },
        rev_at_epoch: match input.rev_at_epoch { Some(v) => v, None => 0 },
    }
}

/// The engine's orbit mean-elements message, carried opaquely.
#[verifier::external_type_specification]
#[verifier::external_body]
pub struct ExCoreOmm(CoreOmm);

/// What `sidereon_core::astro::omm::parse_kvn` reads from a text, or `None` where it returns an error.
pub uninterp spec fn omm_of_kvn(text: Seq<char>) -> Option<CoreOmm>;

/// Calls `sidereon_core::astro::omm::parse_kvn`, a function of the text alone; on failure, the error's
/// text.
#[verifier::external_body]
fn core_parse_omm_kvn(text: &str) -> (r: Result<CoreOmm, String>)
    ensures
        r is Ok <==> omm_of_kvn(text@) is Some,
        r matches Ok(v) ==> omm_of_kvn(text@) == Some(v),
{
    sidereon_core::astro::omm::parse_kvn(text).map_err(|e| e.to_string())
}

/// Parses an OMM in KVN form: the engine's result, or an engine `Error` where it refuses the
/// text.
pub fn parse_omm_kvn(text: &str) -> (r: Result<CoreOmm, BindingError>)
    ensures
        r is Ok <==> omm_of_kvn(text@) is Some,
        r matches Ok(v) ==> omm_of_kvn(text@) == Some(v),
        r matches Err(e) ==> e.kind == ErrorKind::Engine,
{
    match core_parse_omm_kvn(text) {
        Ok(v) => Ok(v),
        Err(message) => Err(engine_message_error(message)),
    }
}

/// What `sidereon_core::astro::omm::parse_xml` reads from a text, or `None` where it returns an error.
pub uninterp spec fn omm_of_xml(text: Seq<char>) -> Option<CoreOmm>;

/// Calls `sidereon_core::astro::omm::parse_xml`, a function of the text alone; on failure, the error's
/// text.
#[verifier::external_body]
fn core_parse_omm_xml(text: &str) -> (r: Result<CoreOmm, String>)
    ensures
        r is Ok <==> omm_of_xml(text@) is Some,
        r matches Ok(v) ==> omm_of_xml(text@) == Some(v),
{
    sidereon_core::astro::omm::parse_xml(text).map_err(|e| e.to_string())
}

/// Parses an OMM in XML form: the engine's result, or an engine `Error` where it refuses the
/// text.
pub fn parse_omm_xml(text: &str) -> (r: Result<CoreOmm, BindingError>)
    ensures
        r is Ok <==> omm_of_xml(text@) is Some,
        r matches Ok(v) ==> omm_of_xml(text@) == Some(v),
        r matches Err(e) ==> e.kind == ErrorKind::Engine,
{
    match core_parse_omm_xml(text) {
        Ok(v) => Ok(v),
        Err(message) => Err(engine_message_error(message)),
    }
}

/// What `sidereon_core::astro::omm::parse_json` reads from a text, or `None` where it returns an error.
pub uninterp spec fn omm_of_json(text: Seq<char>) -> Option<CoreOmm>;

/// Calls `sidereon_core::astro::omm::parse_json`, a function of the text alone; on failure, the error's
/// text.
#[verifier::external_body]
fn core_parse_omm_json(text: &str) -> (r: Result<CoreOmm, String>)
    ensures
        r is Ok <==> omm_of_json(text@) is Some,
        r matches Ok(v) ==> omm_of_json(text@) == Some(v),
{
    sidereon_core::astro::omm::parse_json(text).map_err(|e| e.to_string())
}

/// Parses an OMM in JSON form: the engine's result, or an engine `Error` where it refuses the
/// text.
pub fn parse_omm_json(text: &str) -> (r: Result<CoreOmm, BindingError>)
    ensures
        r is Ok <==> omm_of_json(text@) is Some,
        r matches Ok(v) ==> omm_of_json(text@) == Some(v),
        r matches Err(e) ==> e.kind == ErrorKind::Engine,
{
    match core_parse_omm_json(text) {
        Ok(v) => Ok(v),
        Err(message) => Err(engine_message_error(message)),
    }
}

} // verus!
