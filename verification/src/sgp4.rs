//! SGP4 propagation vocabulary.
use vstd::prelude::*;
use crate::error::{engine_message_error, invalid_label_message, invalid_label_text, range_error, type_error, BindingError, ErrorKind};
use sidereon_core::astro::sgp4::{Satellite as CoreSatellite, TleFile as CoreTleFile};
use sidereon_core::astro::tle::TleElements as CoreTleElements;
use crate::text::str_eq;

verus! {

/// SGP4 operation mode.
#[derive(Clone, Copy, Debug, PartialEq, Eq, Structural)]
pub enum OpsMode {
    Improved,
    Afspc,
}

/// The label of an SGP4 operation mode.
pub open spec fn ops_mode_text(v: OpsMode) -> Seq<char> {
    match v {
        OpsMode::Improved => "improved"@,
        OpsMode::Afspc => "afspc"@,
    }
}

/// Each `OpsMode` has its own fixed label: Improved is "improved", Afspc is "afspc".
pub proof fn law_ops_mode_text_literals(v: OpsMode)
    ensures
        v is Improved ==> ops_mode_text(v) == "improved"@,
        v is Afspc ==> ops_mode_text(v) == "afspc"@,
{
}

/// The value a label names, if any.
pub open spec fn ops_mode_of_label(t: Seq<char>) -> Option<OpsMode> {
    if t == "improved"@ {
        Some(OpsMode::Improved)
    } else if t == "afspc"@ {
        Some(OpsMode::Afspc)
    } else {
        None
    }
}

/// Each label names a fixed `OpsMode`: "improved" names Improved, "afspc" names Afspc; no other text names one.
pub proof fn law_ops_mode_of_label_literals(t: Seq<char>)
    ensures
        ops_mode_of_label("improved"@) == Some(OpsMode::Improved),
        ops_mode_of_label("afspc"@) == Some(OpsMode::Afspc),
        ops_mode_of_label(t) is Some ==> (t == "improved"@ || t == "afspc"@),
{
    reveal_strlit("improved");
    reveal_strlit("afspc");
    assert("improved"@.len() == 8);
    assert("afspc"@.len() == 5);
}

/// Parses an optional SGP4 operation-mode label; absent means the improved mode, an unknown label is a `TypeError`.
pub fn ops_mode(label: Option<String>) -> (r: Result<OpsMode, BindingError>)
    ensures
        (label matches Some(s) && s@ == "improved"@) ==> (r matches Ok(x) && x == OpsMode::Improved),
        (label matches Some(s) && s@ == "afspc"@) ==> (r matches Ok(x) && x == OpsMode::Afspc),
        r matches Err(e) ==> (label matches Some(l) && e.message@ == invalid_label_text("opsMode"@, l@, ": expected \"improved\" or \"afspc\""@)),
        match label {
            None => r matches Ok(w) && w == OpsMode::Improved,
            Some(l) => match ops_mode_of_label(l@) {
                Some(v) => r matches Ok(w) && w == v,
                None => r matches Err(e) && e.kind == ErrorKind::Type,
            },
        },
{
    proof {
        law_ops_mode_of_label_literals(Seq::empty());
    }
    match label {
        None => Ok(OpsMode::Improved),
        Some(l) => {
            if str_eq(l.as_str(), "improved") {
                Ok(OpsMode::Improved)
            } else if str_eq(l.as_str(), "afspc") {
                Ok(OpsMode::Afspc)
            } else {
                Err(type_error(invalid_label_message("opsMode", l.as_str(), ": expected \"improved\" or \"afspc\"")))
            }
        },
    }
}

/// Every label parses back to the value it names.
pub proof fn lemma_ops_mode_label_roundtrip(v: OpsMode)
    ensures
        ops_mode_of_label(ops_mode_text(v)) == Some(v),
{
    reveal_strlit("improved");
    reveal_strlit("afspc");
    assert("improved"@.len() == 8 && "afspc"@.len() == 5);
}

/// A pass search window ends strictly after it starts; otherwise a
/// `RangeError`.
pub fn check_time_window(start_unix_us: i64, end_unix_us: i64) -> (r: Result<(), BindingError>)
    ensures
        r is Ok <==> start_unix_us < end_unix_us,
        r matches Err(e) ==> e.kind == ErrorKind::Range && e.message@ == "endUnixUs must be after startUnixUs"@,
{
    if end_unix_us <= start_unix_us {
        return Err(range_error("endUnixUs must be after startUnixUs".to_owned()));
    }
    Ok(())
}

/// Whether every epoch is later than the one before it.
pub open spec fn strictly_increasing(epochs: Seq<i64>) -> bool {
    forall|i: int, j: int| 0 <= i < j < epochs.len() ==> epochs[i] < epochs[j]
}

/// An epoch grid holds at least two samples (else a `TypeError`) in
/// strictly increasing order (else a `RangeError`).
pub fn check_epoch_grid(epochs_unix_us: &[i64]) -> (r: Result<(), BindingError>)
    ensures
        r is Ok <==> (epochs_unix_us@.len() >= 2 && strictly_increasing(epochs_unix_us@)),
        epochs_unix_us@.len() < 2 ==> (r matches Err(e) && e.kind == ErrorKind::Type
            && e.message@ == "epochsUnixUs must contain at least two samples"@),
        epochs_unix_us@.len() >= 2 && !strictly_increasing(epochs_unix_us@) ==> (r matches Err(e)
            && e.kind == ErrorKind::Range && e.message@ == "epochsUnixUs must be strictly increasing"@),
{
    let n = epochs_unix_us.len();
    if n < 2 {
        return Err(type_error("epochsUnixUs must contain at least two samples".to_owned()));
    }
    let mut i: usize = 1;
    while i < n
        invariant
            n == epochs_unix_us@.len(),
            1 <= i <= n,
            strictly_increasing(epochs_unix_us@.subrange(0, i as int)),
        decreases n - i,
    {
        if epochs_unix_us[i - 1] >= epochs_unix_us[i] {
            assert(!strictly_increasing(epochs_unix_us@));
            return Err(range_error("epochsUnixUs must be strictly increasing".to_owned()));
        }
        proof {
            let s = epochs_unix_us@;
            let prev = s.subrange(0, i as int);
            let next = s.subrange(0, i + 1);
            assert forall|a: int, b: int| 0 <= a < b < next.len() implies next[a] < next[b] by {
                if b < i {
                    assert(prev[a] < prev[b]);
                } else if a < i - 1 {
                    assert(prev[a] < prev[i - 1]);
                }
            }
        }
        i = i + 1;
    }
    assert(epochs_unix_us@.subrange(0, n as int) =~= epochs_unix_us@);
    Ok(())
}

/// The engine's TLE element set, carried opaquely.
#[verifier::external_type_specification]
#[verifier::external_body]
pub struct ExCoreTleElements(CoreTleElements);

/// The engine's initialized SGP4 satellite, carried opaquely.
#[verifier::external_type_specification]
#[verifier::external_body]
pub struct ExCoreSatellite(CoreSatellite);

/// The engine's parsed multi-record TLE file, carried opaquely.
#[verifier::external_type_specification]
#[verifier::external_body]
pub struct ExCoreTleFile(CoreTleFile);

/// The operation mode an optional label selects: improved when absent.
pub open spec fn selected_ops_mode(label: Option<String>) -> Option<OpsMode> {
    match label {
        None => Some(OpsMode::Improved),
        Some(l) => ops_mode_of_label(l@),
    }
}

/// The elements `sidereon_core::astro::tle::parse` reads from two lines, or
/// `None` where it refuses them.
pub uninterp spec fn tle_elements_of(line1: Seq<char>, line2: Seq<char>) -> Option<CoreTleElements>;

/// The satellite `Satellite::from_tle_with_opsmode` initializes from two
/// lines in a mode, or `None` where it refuses them.
pub uninterp spec fn sgp4_satellite_of(line1: Seq<char>, line2: Seq<char>, mode: OpsMode) -> Option<CoreSatellite>;

/// What `parse_tle_file_with_opsmode` reads from a file's text in a mode.
pub uninterp spec fn tle_file_of(text: Seq<char>, mode: OpsMode) -> CoreTleFile;

/// How many records, stray lines and orphan names a parsed TLE file
/// rejected (`TleFile::skipped`).
pub uninterp spec fn tle_file_skipped_count(file: CoreTleFile) -> nat;

/// Calls `sidereon_core::astro::tle::parse` and keeps its elements; on
/// failure, the error's text.
#[verifier::external_body]
fn core_tle_elements(line1: &str, line2: &str) -> (r: Result<CoreTleElements, String>)
    ensures
        r is Ok <==> tle_elements_of(line1@, line2@) is Some,
        r matches Ok(v) ==> tle_elements_of(line1@, line2@) == Some(v),
{
    sidereon_core::astro::tle::parse(line1, line2).map(|parsed| parsed.elements).map_err(|e| e.to_string())
}

/// Calls `sidereon_core::astro::sgp4::Satellite::from_tle_with_opsmode`; on
/// failure, the error's text.
#[verifier::external_body]
fn core_sgp4_satellite(line1: &str, line2: &str, mode: OpsMode) -> (r: Result<CoreSatellite, String>)
    ensures
        r is Ok <==> sgp4_satellite_of(line1@, line2@, mode) is Some,
        r matches Ok(v) ==> sgp4_satellite_of(line1@, line2@, mode) == Some(v),
{
    let mode = match mode {
        OpsMode::Improved => sidereon_core::astro::sgp4::OpsMode::Improved,
        OpsMode::Afspc => sidereon_core::astro::sgp4::OpsMode::Afspc,
    };
    CoreSatellite::from_tle_with_opsmode(line1, line2, mode).map_err(|e| e.to_string())
}

/// Calls `sidereon_core::astro::sgp4::parse_tle_file_with_opsmode`, a
/// function of the text and mode that never fails.
#[verifier::external_body]
fn core_tle_file(text: &str, mode: OpsMode) -> (r: CoreTleFile)
    ensures
        r == tle_file_of(text@, mode),
{
    let mode = match mode {
        OpsMode::Improved => sidereon_core::astro::sgp4::OpsMode::Improved,
        OpsMode::Afspc => sidereon_core::astro::sgp4::OpsMode::Afspc,
    };
    sidereon_core::astro::sgp4::parse_tle_file_with_opsmode(text, mode)
}

/// Calls `TleFile::skipped`.
#[verifier::external_body]
fn core_tle_file_skipped(file: &CoreTleFile) -> (r: usize)
    ensures
        r == tle_file_skipped_count(*file),
{
    file.skipped()
}

/// A two-line element set with the SGP4 satellite it initializes.
pub struct TleRecord {
    pub elements: CoreTleElements,
    pub satellite: CoreSatellite,
}

/// Parses two TLE lines and initializes SGP4 in the mode the label names
/// (improved when absent): an unknown mode label is a `TypeError`; lines
/// the engine refuses are an engine `Error`.
pub fn tle_record(line1: &str, line2: &str, mode_label: Option<String>) -> (r: Result<TleRecord, BindingError>)
    ensures
        selected_ops_mode(mode_label) is None ==> (r matches Err(e) && e.kind == ErrorKind::Type),
        selected_ops_mode(mode_label) matches Some(m) ==> {
            &&& r is Ok <==> (tle_elements_of(line1@, line2@) is Some && sgp4_satellite_of(line1@, line2@, m) is Some)
            &&& r matches Ok(t) ==> (tle_elements_of(line1@, line2@) == Some(t.elements)
                && sgp4_satellite_of(line1@, line2@, m) == Some(t.satellite))
            &&& r matches Err(e) ==> e.kind == ErrorKind::Engine
        },
{
    let mode = ops_mode(mode_label)?;
    let elements = match core_tle_elements(line1, line2) {
        Ok(v) => v,
        Err(message) => return Err(engine_message_error(message)),
    };
    let satellite = match core_sgp4_satellite(line1, line2, mode) {
        Ok(v) => v,
        Err(message) => return Err(engine_message_error(message)),
    };
    Ok(TleRecord { elements, satellite })
}

/// Parses a multi-record TLE file in the mode the label names (improved
/// when absent); records that fail are kept apart by the engine. Only an
/// unknown mode label fails, as a `TypeError`.
pub fn parse_tle_file(text: &str, mode_label: Option<String>) -> (r: Result<CoreTleFile, BindingError>)
    ensures
        r is Ok <==> selected_ops_mode(mode_label) is Some,
        r matches Ok(f) ==> f == tle_file_of(text@, selected_ops_mode(mode_label)->0),
        r matches Err(e) ==> e.kind == ErrorKind::Type,
{
    let mode = ops_mode(mode_label)?;
    Ok(core_tle_file(text, mode))
}

/// How many entries of a parsed TLE file were rejected.
pub fn tle_file_skipped(file: &CoreTleFile) -> (r: usize)
    ensures
        r == tle_file_skipped_count(*file),
{
    core_tle_file_skipped(file)
}

} // verus!
