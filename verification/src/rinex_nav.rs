//! Broadcast navigation (RINEX NAV) vocabulary: message families, CNAV signals and group-delay terms.
use vstd::prelude::*;

use crate::error::{engine_message_error, BindingError, ErrorKind};
use crate::text::utf8_text;
use vstd::utf8::{decode_utf8, valid_utf8};
use sidereon_core::rinex::nav::BroadcastEphemeris as CoreNavStore;
use sidereon_core::rinex::nav::BroadcastRecord as CoreBroadcastRecord;
use sidereon_core::rinex::nav::GlonassRecord as CoreGlonassRecord;
use sidereon_core::rinex::nav::IonoCorrections as CoreIonoCorrections;

verus! {

/// Broadcast navigation message family of an ephemeris record.
#[derive(Clone, Copy, Debug, PartialEq, Eq, Structural)]
pub enum NavMessage {
    GpsLnav,
    GpsCnav,
    GpsCnav2,
    QzssCnav,
    QzssCnav2,
    GalileoInav,
    GalileoFnav,
    BeidouD1,
    BeidouD2,
}

/// The label of a broadcast navigation message family.
pub open spec fn nav_message_text(v: NavMessage) -> Seq<char> {
    match v {
        NavMessage::GpsLnav => "gps_lnav"@,
        NavMessage::GpsCnav => "gps_cnav"@,
        NavMessage::GpsCnav2 => "gps_cnav2"@,
        NavMessage::QzssCnav => "qzss_cnav"@,
        NavMessage::QzssCnav2 => "qzss_cnav2"@,
        NavMessage::GalileoInav => "galileo_inav"@,
        NavMessage::GalileoFnav => "galileo_fnav"@,
        NavMessage::BeidouD1 => "beidou_d1"@,
        NavMessage::BeidouD2 => "beidou_d2"@,
    }
}

/// Each `NavMessage` has its own fixed label: GpsLnav is "gps_lnav", GpsCnav is "gps_cnav", GpsCnav2 is "gps_cnav2", QzssCnav is "qzss_cnav", QzssCnav2 is "qzss_cnav2", GalileoInav is "galileo_inav", GalileoFnav is "galileo_fnav", BeidouD1 is "beidou_d1", BeidouD2 is "beidou_d2".
pub proof fn law_nav_message_text_literals(v: NavMessage)
    ensures
        v is GpsLnav ==> nav_message_text(v) == "gps_lnav"@,
        v is GpsCnav ==> nav_message_text(v) == "gps_cnav"@,
        v is GpsCnav2 ==> nav_message_text(v) == "gps_cnav2"@,
        v is QzssCnav ==> nav_message_text(v) == "qzss_cnav"@,
        v is QzssCnav2 ==> nav_message_text(v) == "qzss_cnav2"@,
        v is GalileoInav ==> nav_message_text(v) == "galileo_inav"@,
        v is GalileoFnav ==> nav_message_text(v) == "galileo_fnav"@,
        v is BeidouD1 ==> nav_message_text(v) == "beidou_d1"@,
        v is BeidouD2 ==> nav_message_text(v) == "beidou_d2"@,
{
}

/// The label of a broadcast navigation message family.
pub fn nav_message_label(v: NavMessage) -> (r: String)
    ensures
        r@ == nav_message_text(v),
        v is GpsLnav ==> r@ == "gps_lnav"@,
        v is GpsCnav ==> r@ == "gps_cnav"@,
        v is GpsCnav2 ==> r@ == "gps_cnav2"@,
        v is QzssCnav ==> r@ == "qzss_cnav"@,
        v is QzssCnav2 ==> r@ == "qzss_cnav2"@,
        v is GalileoInav ==> r@ == "galileo_inav"@,
        v is GalileoFnav ==> r@ == "galileo_fnav"@,
        v is BeidouD1 ==> r@ == "beidou_d1"@,
        v is BeidouD2 ==> r@ == "beidou_d2"@,
{
    match v {
        NavMessage::GpsLnav => "gps_lnav".to_owned(),
        NavMessage::GpsCnav => "gps_cnav".to_owned(),
        NavMessage::GpsCnav2 => "gps_cnav2".to_owned(),
        NavMessage::QzssCnav => "qzss_cnav".to_owned(),
        NavMessage::QzssCnav2 => "qzss_cnav2".to_owned(),
        NavMessage::GalileoInav => "galileo_inav".to_owned(),
        NavMessage::GalileoFnav => "galileo_fnav".to_owned(),
        NavMessage::BeidouD1 => "beidou_d1".to_owned(),
        NavMessage::BeidouD2 => "beidou_d2".to_owned(),
    }
}

/// Distinct values have distinct labels.
pub proof fn lemma_nav_message_text_injective(a: NavMessage, b: NavMessage)
    ensures
        nav_message_text(a) == nav_message_text(b) ==> a == b,
{
    reveal_strlit("gps_lnav");
    reveal_strlit("gps_cnav");
    reveal_strlit("gps_cnav2");
    reveal_strlit("qzss_cnav");
    reveal_strlit("qzss_cnav2");
    reveal_strlit("galileo_inav");
    reveal_strlit("galileo_fnav");
    reveal_strlit("beidou_d1");
    reveal_strlit("beidou_d2");
    assert("gps_lnav"@.len() == 8 && "gps_cnav"@.len() == 8 && "gps_cnav2"@.len() == 9);
    assert("qzss_cnav"@.len() == 9 && "qzss_cnav2"@.len() == 10 && "galileo_inav"@.len() == 12);
    assert("galileo_fnav"@.len() == 12 && "beidou_d1"@.len() == 9 && "beidou_d2"@.len() == 9);
    assert("gps_lnav"@[4] != "gps_cnav"@[4]);
    assert("gps_cnav2"@[0] != "qzss_cnav"@[0]);
    assert("gps_cnav2"@[0] != "beidou_d1"@[0]);
    assert("gps_cnav2"@[0] != "beidou_d2"@[0]);
    assert("qzss_cnav"@[0] != "beidou_d1"@[0]);
    assert("qzss_cnav"@[0] != "beidou_d2"@[0]);
    assert("galileo_inav"@[8] != "galileo_fnav"@[8]);
    assert("beidou_d1"@[8] != "beidou_d2"@[8]);
}

/// GPS/QZSS CNAV signal selector for inter-signal corrections.
#[derive(Clone, Copy, Debug, PartialEq, Eq, Structural)]
pub enum CnavSignal {
    L1Ca,
    L2C,
    L5I5,
    L5Q5,
    L1Cp,
    L1Cd,
}

/// Broadcast group-delay term selector.
#[derive(Clone, Copy, Debug, PartialEq, Eq, Structural)]
pub enum BroadcastDelayTerm {
    GpsTgd,
    GalileoBgdE5aE1,
    GalileoBgdE5bE1,
    BeidouTgd1,
    BeidouTgd2,
    CnavIscL1Ca,
    CnavIscL2C,
    CnavIscL5I5,
    CnavIscL5Q5,
    CnavIscL1Cd,
    CnavIscL1Cp,
}

/// The engine's broadcast ephemeris store, carried opaquely.
#[verifier::external_type_specification]
#[verifier::external_body]
pub struct ExCoreNavStore(CoreNavStore);

/// The engine's broadcast ephemeris record, carried opaquely.
#[verifier::external_type_specification]
#[verifier::external_body]
pub struct ExCoreBroadcastRecord(CoreBroadcastRecord);

/// The engine's GLONASS state-vector record, carried opaquely.
#[verifier::external_type_specification]
#[verifier::external_body]
pub struct ExCoreGlonassRecord(CoreGlonassRecord);

/// The engine's NAV-header ionosphere corrections, carried opaquely.
#[verifier::external_type_specification]
#[verifier::external_body]
pub struct ExCoreIonoCorrections(CoreIonoCorrections);

/// What `sidereon_core::rinex::nav::parse_nav` reads from a text, or `None` where it returns an error.
pub uninterp spec fn nav_records_of(text: Seq<char>) -> Option<Seq<CoreBroadcastRecord>>;

/// Calls `sidereon_core::rinex::nav::parse_nav`, a function of the text alone; on failure, the error's
/// text.
#[verifier::external_body]
fn core_parse_rinex_nav_records(text: &str) -> (r: Result<Vec<CoreBroadcastRecord>, String>)
    ensures
        r is Ok <==> nav_records_of(text@) is Some,
        r matches Ok(v) ==> nav_records_of(text@) == Some(v@),
{
    sidereon_core::rinex::nav::parse_nav(text).map_err(|e| e.to_string())
}

/// Parses every supported GPS, Galileo and BeiDou broadcast record of NAV bytes: malformed UTF-8 is a `TypeError`; otherwise the engine's records,
/// or an engine `Error` where it refuses the text.
pub fn parse_rinex_nav_records(bytes: &[u8]) -> (r: Result<Vec<CoreBroadcastRecord>, BindingError>)
    ensures
        !valid_utf8(bytes@) ==> (r matches Err(e) && e.kind == ErrorKind::Type),
        valid_utf8(bytes@) ==> (r is Ok <==> nav_records_of(decode_utf8(bytes@)) is Some),
        valid_utf8(bytes@) && r is Err ==> (r matches Err(e) && e.kind == ErrorKind::Engine),
        r matches Ok(v) ==> valid_utf8(bytes@) && nav_records_of(decode_utf8(bytes@)) == Some(v@),
{
    let text = utf8_text(bytes, "RINEX NAV source")?;
    match core_parse_rinex_nav_records(text.as_str()) {
        Ok(v) => Ok(v),
        Err(message) => Err(engine_message_error(message)),
    }
}

/// What `sidereon_core::rinex::nav::parse_glonass` reads from a text, or `None` where it returns an error.
pub uninterp spec fn glonass_records_of(text: Seq<char>) -> Option<Seq<CoreGlonassRecord>>;

/// Calls `sidereon_core::rinex::nav::parse_glonass`, a function of the text alone; on failure, the error's
/// text.
#[verifier::external_body]
fn core_parse_rinex_glonass_records(text: &str) -> (r: Result<Vec<CoreGlonassRecord>, String>)
    ensures
        r is Ok <==> glonass_records_of(text@) is Some,
        r matches Ok(v) ==> glonass_records_of(text@) == Some(v@),
{
    sidereon_core::rinex::nav::parse_glonass(text).map_err(|e| e.to_string())
}

/// Parses every GLONASS state-vector record of NAV bytes: malformed UTF-8 is a `TypeError`; otherwise the engine's records,
/// or an engine `Error` where it refuses the text.
pub fn parse_rinex_glonass_records(bytes: &[u8]) -> (r: Result<Vec<CoreGlonassRecord>, BindingError>)
    ensures
        !valid_utf8(bytes@) ==> (r matches Err(e) && e.kind == ErrorKind::Type),
        valid_utf8(bytes@) ==> (r is Ok <==> glonass_records_of(decode_utf8(bytes@)) is Some),
        valid_utf8(bytes@) && r is Err ==> (r matches Err(e) && e.kind == ErrorKind::Engine),
        r matches Ok(v) ==> valid_utf8(bytes@) && glonass_records_of(decode_utf8(bytes@)) == Some(v@),
{
    let text = utf8_text(bytes, "RINEX NAV source")?;
    match core_parse_rinex_glonass_records(text.as_str()) {
        Ok(v) => Ok(v),
        Err(message) => Err(engine_message_error(message)),
    }
}

/// What `sidereon_core::rinex::nav::parse_iono_corrections` reads from a text, or `None` where it returns an error.
pub uninterp spec fn iono_corrections_of(text: Seq<char>) -> Option<CoreIonoCorrections>;

/// Calls `sidereon_core::rinex::nav::parse_iono_corrections`, a function of the text alone; on failure, the error's
/// text.
#[verifier::external_body]
fn core_parse_rinex_iono_corrections(text: &str) -> (r: Result<CoreIonoCorrections, String>)
    ensures
        r is Ok <==> iono_corrections_of(text@) is Some,
        r matches Ok(v) ==> iono_corrections_of(text@) == Some(v),
{
    sidereon_core::rinex::nav::parse_iono_corrections(text).map_err(|e| e.to_string())
}

/// Parses the GPS and BeiDou Klobuchar coefficients of a NAV header: malformed UTF-8 is a `TypeError`; otherwise the engine's result,
/// or an engine `Error` where it refuses the text.
pub fn parse_rinex_iono_corrections(bytes: &[u8]) -> (r: Result<CoreIonoCorrections, BindingError>)
    ensures
        !valid_utf8(bytes@) ==> (r matches Err(e) && e.kind == ErrorKind::Type),
        valid_utf8(bytes@) ==> (r is Ok <==> iono_corrections_of(decode_utf8(bytes@)) is Some),
        valid_utf8(bytes@) && r is Err ==> (r matches Err(e) && e.kind == ErrorKind::Engine),
        r matches Ok(v) ==> valid_utf8(bytes@) && iono_corrections_of(decode_utf8(bytes@)) == Some(v),
{
    let text = utf8_text(bytes, "RINEX NAV source")?;
    match core_parse_rinex_iono_corrections(text.as_str()) {
        Ok(v) => Ok(v),
        Err(message) => Err(engine_message_error(message)),
    }
}

/// The store `BroadcastEphemeris::from_nav` builds from a NAV text, or
/// `None` where it returns an error.
pub uninterp spec fn nav_store_of(text: Seq<char>) -> Option<CoreNavStore>;

/// Whether `sidereon_core::rinex::nav::parse_leap_seconds` reads the NAV
/// header's leap seconds (present or absent) without an error.
pub uninterp spec fn leap_seconds_readable(text: Seq<char>) -> bool;

/// Calls `BroadcastEphemeris::from_nav`, a function of the text alone; on
/// failure, the error's text.
#[verifier::external_body]
fn core_nav_store(text: &str) -> (r: Result<CoreNavStore, String>)
    ensures
        r is Ok <==> nav_store_of(text@) is Some,
        r matches Ok(v) ==> nav_store_of(text@) == Some(v),
{
    CoreNavStore::from_nav(text).map_err(|e| e.to_string())
}

/// Calls `sidereon_core::rinex::nav::parse_leap_seconds` and keeps whether
/// it succeeded (the value itself is a float); on failure, the error's
/// text.
#[verifier::external_body]
fn core_leap_seconds_check(text: &str) -> (r: Result<(), String>)
    ensures
        r is Ok <==> leap_seconds_readable(text@),
{
    sidereon_core::rinex::nav::parse_leap_seconds(text).map(|_| ()).map_err(|e| e.to_string())
}

/// Parses RINEX NAV bytes into the default broadcast ephemeris store:
/// malformed UTF-8 is a `TypeError`; a text whose records or header leap
/// seconds the engine refuses is an engine `Error`.
pub fn parse_rinex_nav(bytes: &[u8]) -> (r: Result<CoreNavStore, BindingError>)
    ensures
        !valid_utf8(bytes@) ==> (r matches Err(e) && e.kind == ErrorKind::Type),
        valid_utf8(bytes@) ==> (r is Ok <==> (nav_store_of(decode_utf8(bytes@)) is Some
            && leap_seconds_readable(decode_utf8(bytes@)))),
        valid_utf8(bytes@) && r is Err ==> (r matches Err(e) && e.kind == ErrorKind::Engine),
        r matches Ok(v) ==> valid_utf8(bytes@) && nav_store_of(decode_utf8(bytes@)) == Some(v),
{
    let text = utf8_text(bytes, "RINEX NAV source")?;
    let store = match core_nav_store(text.as_str()) {
        Ok(v) => v,
        Err(message) => return Err(engine_message_error(message)),
    };
    match core_leap_seconds_check(text.as_str()) {
        Ok(()) => Ok(store),
        Err(message) => Err(engine_message_error(message)),
    }
}

/// Parses RINEX NAV bytes read from a file; the same as `parse_rinex_nav`.
pub fn load_rinex_nav(bytes: &[u8]) -> (r: Result<CoreNavStore, BindingError>)
    ensures
        !valid_utf8(bytes@) ==> (r matches Err(e) && e.kind == ErrorKind::Type),
        valid_utf8(bytes@) ==> (r is Ok <==> (nav_store_of(decode_utf8(bytes@)) is Some
            && leap_seconds_readable(decode_utf8(bytes@)))),
        valid_utf8(bytes@) && r is Err ==> (r matches Err(e) && e.kind == ErrorKind::Engine),
        r matches Ok(v) ==> valid_utf8(bytes@) && nav_store_of(decode_utf8(bytes@)) == Some(v),
{
    parse_rinex_nav(bytes)
}

} // verus!
