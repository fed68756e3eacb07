//! RINEX lint and observation-QC vocabulary.
use vstd::prelude::*;
use crate::error::{engine_message_error, BindingError, ErrorKind};
use crate::text::utf8_text;
use vstd::utf8::{decode_utf8, valid_utf8};
use sidereon_core::rinex::qc::RepairOptions as CoreRepairOptions;
use sidereon_core::rinex::qc::LintReport as CoreLintReport;
use sidereon_core::rinex::qc::ObsRepair as CoreObsRepair;
use sidereon_core::rinex::qc::NavRepair as CoreNavRepair;
use crate::gnss::{display_label, system_display_label, Constellation};

verus! {

/// Severity of a RINEX lint finding.
#[derive(Clone, Copy, Debug, PartialEq, Eq, Structural)]
pub enum Severity {
    Fatal,
    Error,
    Warning,
    Info,
}

/// The label of a lint finding severity.
pub open spec fn severity_text(v: Severity) -> Seq<char> {
    match v {
        Severity::Fatal => "fatal"@,
        Severity::Error => "error"@,
        Severity::Warning => "warning"@,
        Severity::Info => "info"@,
    }
}

/// Each `Severity` has its own fixed label: Fatal is "fatal", Error is "error", Warning is "warning", Info is "info".
pub proof fn law_severity_text_literals(v: Severity)
    ensures
        v is Fatal ==> severity_text(v) == "fatal"@,
        v is Error ==> severity_text(v) == "error"@,
        v is Warning ==> severity_text(v) == "warning"@,
        v is Info ==> severity_text(v) == "info"@,
{
}

/// The label of a lint finding severity.
pub fn severity_label(v: Severity) -> (r: &'static str)
    ensures
        r@ == severity_text(v),
        v is Fatal ==> r@ == "fatal"@,
        v is Error ==> r@ == "error"@,
        v is Warning ==> r@ == "warning"@,
        v is Info ==> r@ == "info"@,
{
    match v {
        Severity::Fatal => "fatal",
        Severity::Error => "error",
        Severity::Warning => "warning",
        Severity::Info => "info",
    }
}

/// Distinct values have distinct labels.
pub proof fn lemma_severity_text_injective(a: Severity, b: Severity)
    ensures
        severity_text(a) == severity_text(b) ==> a == b,
{
    reveal_strlit("fatal");
    reveal_strlit("error");
    reveal_strlit("warning");
    reveal_strlit("info");
    assert("fatal"@.len() == 5 && "error"@.len() == 5 && "warning"@.len() == 7);
    assert("info"@.len() == 4);
    assert("fatal"@[0] != "error"@[0]);
}

/// Where the nominal observation interval of a QC report came from.
#[derive(Clone, Copy, Debug, PartialEq, Eq, Structural)]
pub enum IntervalSource {
    Override,
    Header,
    Inferred,
    Unresolved,
}

/// The label of where an observation interval came from.
pub open spec fn interval_source_text(v: IntervalSource) -> Seq<char> {
    match v {
        IntervalSource::Override => "override"@,
        IntervalSource::Header => "header"@,
        IntervalSource::Inferred => "inferred"@,
        IntervalSource::Unresolved => "unresolved"@,
    }
}

/// Each `IntervalSource` has its own fixed label: Override is "override", Header is "header", Inferred is "inferred", Unresolved is "unresolved".
pub proof fn law_interval_source_text_literals(v: IntervalSource)
    ensures
        v is Override ==> interval_source_text(v) == "override"@,
        v is Header ==> interval_source_text(v) == "header"@,
        v is Inferred ==> interval_source_text(v) == "inferred"@,
        v is Unresolved ==> interval_source_text(v) == "unresolved"@,
{
}

/// The label of where an observation interval came from.
pub fn interval_source_label(v: IntervalSource) -> (r: &'static str)
    ensures
        r@ == interval_source_text(v),
        v is Override ==> r@ == "override"@,
        v is Header ==> r@ == "header"@,
        v is Inferred ==> r@ == "inferred"@,
        v is Unresolved ==> r@ == "unresolved"@,
{
    match v {
        IntervalSource::Override => "override",
        IntervalSource::Header => "header",
        IntervalSource::Inferred => "inferred",
        IntervalSource::Unresolved => "unresolved",
    }
}

/// Distinct values have distinct labels.
pub proof fn lemma_interval_source_text_injective(a: IntervalSource, b: IntervalSource)
    ensures
        interval_source_text(a) == interval_source_text(b) ==> a == b,
{
    reveal_strlit("override");
    reveal_strlit("header");
    reveal_strlit("inferred");
    reveal_strlit("unresolved");
    assert("override"@.len() == 8 && "header"@.len() == 6 && "inferred"@.len() == 8);
    assert("unresolved"@.len() == 10);
    assert("override"@[0] != "inferred"@[0]);
}

/// The label of a constellation in QC reports: its display label.
pub fn system_label(system: Constellation) -> (r: &'static str)
    ensures
        r@ == display_label(system),
        system is Gps ==> r@ == "GPS"@,
        system is Glonass ==> r@ == "GLONASS"@,
        system is Galileo ==> r@ == "Galileo"@,
        system is BeiDou ==> r@ == "BeiDou"@,
        system is Qzss ==> r@ == "QZSS"@,
        system is Navic ==> r@ == "NavIC"@,
        system is Sbas ==> r@ == "SBAS"@,
{
    system_display_label(system)
}


/// A `PGM / RUN BY / DATE` stamp for repaired files.
#[derive(Clone, Debug)]
pub struct FileStampInput {
    pub program: String,
    pub run_by: String,
    pub date: String,
}

/// Repair options as the host passes them; absent flags take the engine's
/// defaults.
#[derive(Clone, Debug)]
pub struct RepairOptionsInput {
    pub file_stamp: Option<FileStampInput>,
    pub set_interval: Option<bool>,
    pub set_time_of_last_obs: Option<bool>,
    pub set_obs_counts: Option<bool>,
    pub drop_empty_records: Option<bool>,
    pub sort_records: Option<bool>,
    pub drop_unsupported: Option<bool>,
}

/// Resolved repair options.
#[derive(Clone, Debug)]
pub struct RepairFlags {
    pub file_stamp: Option<FileStampInput>,
    pub set_interval: bool,
    pub set_time_of_last_obs: bool,
    pub set_obs_counts: bool,
    pub drop_empty_records: bool,
    pub sort_records: bool,
    pub drop_unsupported: bool,
}

/// Reads `sidereon_core::rinex::qc::RepairOptions::default()`: no stamp,
/// every flag off except record sorting.
#[verifier::external_body]
fn core_repair_defaults() -> (r: RepairFlags)
    ensures
        r.file_stamp is None,
        !r.set_interval && !r.set_time_of_last_obs && !r.set_obs_counts,
        !r.drop_empty_records && r.sort_records && !r.drop_unsupported,
{
    let d = CoreRepairOptions::default();
    RepairFlags {
        file_stamp: None,
        set_interval: d.set_interval,
        set_time_of_last_obs: d.set_time_of_last_obs,
        set_obs_counts: d.set_obs_counts,
        drop_empty_records: d.drop_empty_records,
        sort_records: d.sort_records,
        drop_unsupported: d.drop_unsupported,
    }
}

/// The value of an optional flag, or its default.
pub open spec fn flag_or(v: Option<bool>, default: bool) -> bool {
    match v {
        Some(b) => b,
        None => default,
    }
}

/// The resolved repair flags: each absent flag takes the engine default
/// (only record sorting is on), and no options at all means all defaults.
pub open spec fn resolved_repair_flags(value: Option<RepairOptionsInput>) -> RepairFlags {
    match value {
        None => RepairFlags {
            file_stamp: None,
            set_interval: false,
            set_time_of_last_obs: false,
            set_obs_counts: false,
            drop_empty_records: false,
            sort_records: true,
            drop_unsupported: false,
        },
        Some(i) => RepairFlags {
            file_stamp: i.file_stamp,
            set_interval: flag_or(i.set_interval, false),
            set_time_of_last_obs: flag_or(i.set_time_of_last_obs, false),
            set_obs_counts: flag_or(i.set_obs_counts, false),
            drop_empty_records: flag_or(i.drop_empty_records, false),
            sort_records: flag_or(i.sort_records, true),
            drop_unsupported: flag_or(i.drop_unsupported, false),
        },
    }
}

/// Resolves repair options: each absent flag takes the engine default (only
/// record sorting is on), and no options at all means all defaults.
pub fn repair_options(value: Option<RepairOptionsInput>) -> (r: RepairFlags)
    ensures
        r == resolved_repair_flags(value),
        match value {
            None => r.file_stamp is None && !r.set_interval && !r.set_time_of_last_obs && !r.set_obs_counts
                && !r.drop_empty_records && r.sort_records && !r.drop_unsupported,
            Some(i) => {
                &&& r.file_stamp == i.file_stamp
                &&& r.set_interval == flag_or(i.set_interval, false)
                &&& r.set_time_of_last_obs == flag_or(i.set_time_of_last_obs, false)
                &&& r.set_obs_counts == flag_or(i.set_obs_counts, false)
                &&& r.drop_empty_records == flag_or(i.drop_empty_records, false)
                &&& r.sort_records == flag_or(i.sort_records, true)
                &&& r.drop_unsupported == flag_or(i.drop_unsupported, false)
            },
        },
{
    let defaults = core_repair_defaults();
    match value {
        None => defaults,
        Some(input) => RepairFlags {
            file_stamp: input.file_stamp,
            set_interval: match input.set_interval { Some(b) => b, None => defaults.set_interval },
            set_time_of_last_obs: match input.set_time_of_last_obs { Some(b) => b, None => defaults.set_time_of_last_obs },
            set_obs_counts: match input.set_obs_counts { Some(b) => b, None => defaults.set_obs_counts },
            drop_empty_records: match input.drop_empty_records { Some(b) => b, None => defaults.drop_empty_records },
            sort_records: match input.sort_records { Some(b) => b, None => defaults.sort_records },
            drop_unsupported: match input.drop_unsupported { Some(b) => b, None => defaults.drop_unsupported },
        },
    }
}

/// The engine's lint report and repair results, carried opaquely.
#[verifier::external_type_specification]
#[verifier::external_body]
pub struct ExCoreLintReport(CoreLintReport);

#[verifier::external_type_specification]
#[verifier::external_body]
pub struct ExCoreObsRepair(CoreObsRepair);

#[verifier::external_type_specification]
#[verifier::external_body]
pub struct ExCoreRepairOptions(CoreRepairOptions);

#[verifier::external_type_specification]
#[verifier::external_body]
pub struct ExCoreNavRepair(CoreNavRepair);

/// The report `sidereon::lint_rinex_obs` gives for observation text.
pub uninterp spec fn obs_lint_report(text: Seq<char>) -> CoreLintReport;

/// The report `sidereon::lint_rinex_nav` gives for navigation text.
pub uninterp spec fn nav_lint_report(text: Seq<char>) -> CoreLintReport;

/// Calls `sidereon::lint_rinex_obs`, a function of the text alone.
#[verifier::external_body]
fn core_lint_obs(text: &str) -> (r: CoreLintReport)
    ensures
        r == obs_lint_report(text@),
{
    sidereon::lint_rinex_obs(text)
}

/// Calls `sidereon::lint_rinex_nav`, a function of the text alone.
#[verifier::external_body]
fn core_lint_nav(text: &str) -> (r: CoreLintReport)
    ensures
        r == nav_lint_report(text@),
{
    sidereon::lint_rinex_nav(text)
}

/// Lints RINEX observation text given as UTF-8 bytes: the engine's report
/// for the decoded text.
pub fn lint_rinex_obs(bytes: &[u8]) -> (r: Result<CoreLintReport, BindingError>)
    ensures
        r is Ok <==> valid_utf8(bytes@),
        r matches Ok(rep) ==> rep == obs_lint_report(decode_utf8(bytes@)),
        r matches Err(e) ==> e.kind == ErrorKind::Type,
{
    let text = utf8_text(bytes, "RINEX OBS source")?;
    Ok(core_lint_obs(text.as_str()))
}

/// Lints RINEX navigation text given as UTF-8 bytes: the engine's report
/// for the decoded text.
pub fn lint_rinex_nav(bytes: &[u8]) -> (r: Result<CoreLintReport, BindingError>)
    ensures
        r is Ok <==> valid_utf8(bytes@),
        r matches Ok(rep) ==> rep == nav_lint_report(decode_utf8(bytes@)),
        r matches Err(e) ==> e.kind == ErrorKind::Type,
{
    let text = utf8_text(bytes, "RINEX NAV source")?;
    Ok(core_lint_nav(text.as_str()))
}

/// The `sidereon_core::rinex::qc::RepairOptions` built from resolved flags.
pub uninterp spec fn engine_repair_options(flags: RepairFlags) -> CoreRepairOptions;

/// What `sidereon::repair_rinex_obs` gives for text and options: the repair,
/// or `None` where it returns an error.
pub uninterp spec fn obs_repair(text: Seq<char>, options: CoreRepairOptions) -> Option<CoreObsRepair>;

/// What `RinexObs::to_rinex_string` writes for a repair's product, or `None`
/// where it returns an error.
pub uninterp spec fn obs_repair_rinex_text(repair: CoreObsRepair) -> Option<Seq<char>>;

/// What `sidereon::repair_rinex_nav` gives for text and options: the repair,
/// or `None` where it returns an error.
pub uninterp spec fn nav_repair(text: Seq<char>, options: CoreRepairOptions) -> Option<CoreNavRepair>;

/// Builds `sidereon_core::rinex::qc::RepairOptions` from resolved flags,
/// starting from its `Default` and moving each field in.
#[verifier::external_body]
fn core_repair_options(flags: RepairFlags) -> (r: CoreRepairOptions)
    ensures
        r == engine_repair_options(flags),
{
    let mut o = CoreRepairOptions::default();
    o.file_stamp = flags.file_stamp.map(|s| sidereon_core::rinex::observations::PgmRunByDate { program: s.program, run_by: s.run_by, date: s.date });
    o.set_interval = flags.set_interval;
    o.set_time_of_last_obs = flags.set_time_of_last_obs;
    o.set_obs_counts = flags.set_obs_counts;
    o.drop_empty_records = flags.drop_empty_records;
    o.sort_records = flags.sort_records;
    o.drop_unsupported = flags.drop_unsupported;
    o
}

/// Calls `sidereon::repair_rinex_obs`, a function of the text and options;
/// on failure, the engine error's text.
#[verifier::external_body]
fn core_repair_obs(text: &str, options: &CoreRepairOptions) -> (r: Result<CoreObsRepair, String>)
    ensures
        r is Ok <==> obs_repair(text@, *options) is Some,
        r matches Ok(v) ==> obs_repair(text@, *options) == Some(v),
{
    sidereon::repair_rinex_obs(text, options).map_err(|e| e.to_string())
}

/// Calls `RinexObs::to_rinex_string` on the repaired product; on failure,
/// the writer error's text.
#[verifier::external_body]
fn core_obs_repair_text(repair: &CoreObsRepair) -> (r: Result<String, String>)
    ensures
        r is Ok <==> obs_repair_rinex_text(*repair) is Some,
        r matches Ok(t) ==> obs_repair_rinex_text(*repair) == Some(t@),
{
    repair.repaired.to_rinex_string().map_err(|e| e.to_string())
}

/// Calls `sidereon::repair_rinex_nav`, a function of the text and options;
/// on failure, the engine error's text.
#[verifier::external_body]
fn core_repair_nav(text: &str, options: &CoreRepairOptions) -> (r: Result<CoreNavRepair, String>)
    ensures
        r is Ok <==> nav_repair(text@, *options) is Some,
        r matches Ok(v) ==> nav_repair(text@, *options) == Some(v),
{
    sidereon::repair_rinex_nav(text, options).map_err(|e| e.to_string())
}

/// An observation repair: the engine's result and the repaired file text.
#[derive(Debug)]
pub struct RinexObsRepair {
    pub inner: CoreObsRepair,
    pub repaired_text: String,
}

/// Whether the engine repairs observation text with the given options and
/// writes the product back out.
pub open spec fn obs_repair_succeeds(text: Seq<char>, value: Option<RepairOptionsInput>) -> bool {
    &&& obs_repair(text, engine_repair_options(resolved_repair_flags(value))) matches Some(rep)
    &&& obs_repair_rinex_text(rep) is Some
}

/// Repairs RINEX observation text given as UTF-8 bytes; malformed UTF-8 is
/// a `TypeError`, an unrepairable file an engine `Error`; on success, the
/// engine's repair and the text its product writes.
pub fn repair_rinex_obs(bytes: &[u8], options: Option<RepairOptionsInput>) -> (r: Result<RinexObsRepair, BindingError>)
    ensures
        !valid_utf8(bytes@) ==> (r matches Err(e) && e.kind == ErrorKind::Type),
        valid_utf8(bytes@) ==> (r is Ok <==> obs_repair_succeeds(decode_utf8(bytes@), options)),
        valid_utf8(bytes@) && r is Err ==> (r matches Err(e) && e.kind == ErrorKind::Engine),
        r matches Ok(v) ==> {
            &&& obs_repair(decode_utf8(bytes@), engine_repair_options(resolved_repair_flags(options))) == Some(v.inner)
            &&& obs_repair_rinex_text(v.inner) == Some(v.repaired_text@)
        },
{
    let text = utf8_text(bytes, "RINEX OBS source")?;
    let options = core_repair_options(repair_options(options));
    let inner = match core_repair_obs(text.as_str(), &options) {
        Ok(inner) => inner,
        Err(message) => return Err(engine_message_error(message)),
    };
    match core_obs_repair_text(&inner) {
        Ok(repaired_text) => Ok(RinexObsRepair { inner, repaired_text }),
        Err(message) => Err(engine_message_error(message)),
    }
}

/// Repairs RINEX navigation text given as UTF-8 bytes; malformed UTF-8 is
/// a `TypeError`, an unrepairable file an engine `Error`; on success, the
/// engine's repair.
pub fn repair_rinex_nav(bytes: &[u8], options: Option<RepairOptionsInput>) -> (r: Result<CoreNavRepair, BindingError>)
    ensures
        !valid_utf8(bytes@) ==> (r matches Err(e) && e.kind == ErrorKind::Type),
        valid_utf8(bytes@) ==> (r is Ok <==> nav_repair(decode_utf8(bytes@), engine_repair_options(resolved_repair_flags(options))) is Some),
        valid_utf8(bytes@) && r is Err ==> (r matches Err(e) && e.kind == ErrorKind::Engine),
        r matches Ok(v) ==> nav_repair(decode_utf8(bytes@), engine_repair_options(resolved_repair_flags(options))) == Some(v),
{
    let text = utf8_text(bytes, "RINEX NAV source")?;
    let options = core_repair_options(repair_options(options));
    match core_repair_nav(text.as_str(), &options) {
        Ok(inner) => Ok(inner),
        Err(message) => Err(engine_message_error(message)),
    }
}

} // verus!
