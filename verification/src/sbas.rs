//! SBAS glue: wire-form, time-scale and solve-mode vocabularies with their
//! defaults, block decoding, and the broadcast-PRN / satellite-token mapping.
use vstd::prelude::*;

use crate::error::{engine_error, invalid_label_message, invalid_label_text, type_error, BindingError, ErrorKind};
use crate::gnss::Constellation;
use crate::satellite::{
    parse_sat, satellite_of_token, satellite_token, satellite_token_text, SatelliteId,
};
use crate::text::str_eq;
use sidereon_core::sbas::message::SbasBlock as CoreSbasBlock;
use sidereon_core::sbas::message::SbasWireForm as CoreSbasWireForm;

verus! {

/// How an SBAS block arrives: 32 bytes with CRC, or the 29-byte body.
#[derive(Clone, Copy, Debug, PartialEq, Eq, Structural)]
pub enum SbasWireForm {
    Framed250,
    Body226,
}

/// The label of a wire form.
pub open spec fn form_text(f: SbasWireForm) -> Seq<char> {
    match f {
        SbasWireForm::Framed250 => "framed250"@,
        SbasWireForm::Body226 => "body226"@,
    }
}

/// Each `SbasWireForm` has its own fixed label: Framed250 is "framed250", Body226 is "body226".
pub proof fn law_form_text_literals(f: SbasWireForm)
    ensures
        f is Framed250 ==> form_text(f) == "framed250"@,
        f is Body226 ==> form_text(f) == "body226"@,
{
}

/// The wire form a label names, if any.
pub open spec fn form_of_label(t: Seq<char>) -> Option<SbasWireForm> {
    if t == "framed250"@ {
        Some(SbasWireForm::Framed250)
    } else if t == "body226"@ {
        Some(SbasWireForm::Body226)
    } else {
        None
    }
}

/// Each label names a fixed `SbasWireForm`: "framed250" names Framed250, "body226" names Body226; no other text names one.
pub proof fn law_form_of_label_literals(t: Seq<char>)
    ensures
        form_of_label("framed250"@) == Some(SbasWireForm::Framed250),
        form_of_label("body226"@) == Some(SbasWireForm::Body226),
        form_of_label(t) is Some ==> (t == "framed250"@ || t == "body226"@),
{
    reveal_strlit("framed250");
    reveal_strlit("body226");
    assert("framed250"@.len() == 9);
    assert("body226"@.len() == 7);
}

/// The label of a wire form.
pub fn form_label(f: SbasWireForm) -> (r: &'static str)
    ensures
        r@ == form_text(f),
        f is Framed250 ==> r@ == "framed250"@,
        f is Body226 ==> r@ == "body226"@,
{
    match f {
        SbasWireForm::Framed250 => "framed250",
        SbasWireForm::Body226 => "body226",
    }
}

/// Parses an optional wire-form label; absent means `framed250`, an unknown
/// label is a `TypeError`.
pub fn parse_form(value: Option<String>) -> (r: Result<SbasWireForm, BindingError>)
    ensures
        (value matches Some(s) && s@ == "framed250"@) ==> (r matches Ok(x) && x == SbasWireForm::Framed250),
        (value matches Some(s) && s@ == "body226"@) ==> (r matches Ok(x) && x == SbasWireForm::Body226),
        r matches Err(e) ==> (value matches Some(l) && e.message@ == invalid_label_text("SBAS wire form"@, l@, ": expected \"framed250\" or \"body226\""@)),
        match value {
            None => r matches Ok(f) && f == SbasWireForm::Framed250,
            Some(v) => match form_of_label(v@) {
                Some(f) => r matches Ok(g) && g == f,
                None => r matches Err(e) && e.kind == ErrorKind::Type,
            },
        },
{
    proof {
        law_form_of_label_literals(Seq::empty());
    }
    match value {
        None => Ok(SbasWireForm::Framed250),
        Some(v) => {
            if str_eq(v.as_str(), "framed250") {
                Ok(SbasWireForm::Framed250)
            } else if str_eq(v.as_str(), "body226") {
                Ok(SbasWireForm::Body226)
            } else {
                Err(type_error(invalid_label_message("SBAS wire form", v.as_str(), ": expected \"framed250\" or \"body226\"")))
            }
        },
    }
}

/// Every wire-form label parses back to its form.
pub proof fn lemma_form_label_roundtrip(f: SbasWireForm)
    ensures
        form_of_label(form_text(f)) == Some(f),
{
    reveal_strlit("framed250");
    reveal_strlit("body226");
    assert("framed250"@.len() == 9 && "body226"@.len() == 7);
}

/// The GNSS time scales an SBAS epoch may be given in.
#[derive(Clone, Copy, Debug, PartialEq, Eq, Structural)]
pub enum GnssTimeScale {
    Gpst,
    Gst,
    Bdt,
}

/// The time scale a label names, if any.
pub open spec fn time_scale_of_label(t: Seq<char>) -> Option<GnssTimeScale> {
    if t == "gpst"@ {
        Some(GnssTimeScale::Gpst)
    } else if t == "gst"@ {
        Some(GnssTimeScale::Gst)
    } else if t == "bdt"@ {
        Some(GnssTimeScale::Bdt)
    } else {
        None
    }
}

/// Each label names a fixed `GnssTimeScale`: "gpst" names Gpst, "gst" names Gst, "bdt" names Bdt; no other text names one.
pub proof fn law_time_scale_of_label_literals(t: Seq<char>)
    ensures
        time_scale_of_label("gpst"@) == Some(GnssTimeScale::Gpst),
        time_scale_of_label("gst"@) == Some(GnssTimeScale::Gst),
        time_scale_of_label("bdt"@) == Some(GnssTimeScale::Bdt),
        time_scale_of_label(t) is Some ==> (t == "gpst"@ || t == "gst"@ || t == "bdt"@),
{
    reveal_strlit("gpst");
    reveal_strlit("gst");
    reveal_strlit("bdt");
    assert("gpst"@.len() == 4);
    assert("gst"@.len() == 3);
    assert("bdt"@.len() == 3);
    assert("gst"@[0] != "bdt"@[0]);
}

/// Parses an optional time-scale label; absent means GPS time, an unknown
/// label is a `TypeError`.
pub fn parse_time_scale(value: Option<String>) -> (r: Result<GnssTimeScale, BindingError>)
    ensures
        (value matches Some(s) && s@ == "gpst"@) ==> (r matches Ok(x) && x == GnssTimeScale::Gpst),
        (value matches Some(s) && s@ == "gst"@) ==> (r matches Ok(x) && x == GnssTimeScale::Gst),
        (value matches Some(s) && s@ == "bdt"@) ==> (r matches Ok(x) && x == GnssTimeScale::Bdt),
        r matches Err(e) ==> (value matches Some(l) && e.message@ == invalid_label_text("GNSS time scale"@, l@, ""@)),
        match value {
            None => r matches Ok(t) && t == GnssTimeScale::Gpst,
            Some(v) => match time_scale_of_label(v@) {
                Some(t) => r matches Ok(u) && u == t,
                None => r matches Err(e) && e.kind == ErrorKind::Type,
            },
        },
{
    proof {
        law_time_scale_of_label_literals(Seq::empty());
    }
    match value {
        None => Ok(GnssTimeScale::Gpst),
        Some(v) => {
            if str_eq(v.as_str(), "gpst") {
                Ok(GnssTimeScale::Gpst)
            } else if str_eq(v.as_str(), "gst") {
                Ok(GnssTimeScale::Gst)
            } else if str_eq(v.as_str(), "bdt") {
                Ok(GnssTimeScale::Bdt)
            } else {
                Err(type_error(invalid_label_message("GNSS time scale", v.as_str(), "")))
            }
        },
    }
}

/// What an SBAS-corrected source does when corrections cannot be applied.
#[derive(Clone, Copy, Debug, PartialEq, Eq, Structural)]
pub enum SbasSolveMode {
    MixedAugmentation,
    SbasOnly,
}

/// The solve mode a label names, if any.
pub open spec fn mode_of_label(t: Seq<char>) -> Option<SbasSolveMode> {
    if t == "mixedAugmentation"@ {
        Some(SbasSolveMode::MixedAugmentation)
    } else if t == "sbasOnly"@ {
        Some(SbasSolveMode::SbasOnly)
    } else {
        None
    }
}

/// Each label names a fixed `SbasSolveMode`: "mixedAugmentation" names MixedAugmentation, "sbasOnly" names SbasOnly; no other text names one.
pub proof fn law_mode_of_label_literals(t: Seq<char>)
    ensures
        mode_of_label("mixedAugmentation"@) == Some(SbasSolveMode::MixedAugmentation),
        mode_of_label("sbasOnly"@) == Some(SbasSolveMode::SbasOnly),
        mode_of_label(t) is Some ==> (t == "mixedAugmentation"@ || t == "sbasOnly"@),
{
    reveal_strlit("mixedAugmentation");
    reveal_strlit("sbasOnly");
    assert("mixedAugmentation"@.len() == 17);
    assert("sbasOnly"@.len() == 8);
}

/// Parses an optional solve-mode label; absent means mixed augmentation, an
/// unknown label is a `TypeError`.
pub fn parse_mode(value: Option<String>) -> (r: Result<SbasSolveMode, BindingError>)
    ensures
        (value matches Some(s) && s@ == "mixedAugmentation"@) ==> (r matches Ok(x) && x == SbasSolveMode::MixedAugmentation),
        (value matches Some(s) && s@ == "sbasOnly"@) ==> (r matches Ok(x) && x == SbasSolveMode::SbasOnly),
        r matches Err(e) ==> (value matches Some(l) && e.message@ == invalid_label_text("SBAS solve mode"@, l@, ": expected \"mixedAugmentation\" or \"sbasOnly\""@)),
        match value {
            None => r matches Ok(m) && m == SbasSolveMode::MixedAugmentation,
            Some(v) => match mode_of_label(v@) {
                Some(m) => r matches Ok(n) && n == m,
                None => r matches Err(e) && e.kind == ErrorKind::Type,
            },
        },
{
    proof {
        law_mode_of_label_literals(Seq::empty());
    }
    match value {
        None => Ok(SbasSolveMode::MixedAugmentation),
        Some(v) => {
            if str_eq(v.as_str(), "mixedAugmentation") {
                Ok(SbasSolveMode::MixedAugmentation)
            } else if str_eq(v.as_str(), "sbasOnly") {
                Ok(SbasSolveMode::SbasOnly)
            } else {
                Err(type_error(invalid_label_message("SBAS solve mode", v.as_str(), ": expected \"mixedAugmentation\" or \"sbasOnly\"")))
            }
        },
    }
}

/// The engine's decoded SBAS block, carried opaquely.
#[verifier::external_type_specification]
#[verifier::external_body]
pub struct ExCoreSbasBlock(CoreSbasBlock);

/// The block `sidereon_core::sbas::message::SbasBlock::decode` reads from
/// bytes in a wire form, or `None` where it refuses them.
pub uninterp spec fn sbas_block_decoding(bytes: Seq<u8>, form: SbasWireForm) -> Option<CoreSbasBlock>;

/// Calls `sidereon_core::sbas::message::SbasBlock::decode`, a function of
/// the bytes and the form, which refuses a block that is not 32 bytes
/// (framed, CRC-checked) or 29 bytes (body).
#[verifier::external_body]
fn core_decode_block(bytes: &[u8], form: SbasWireForm) -> (r: Result<CoreSbasBlock, sidereon_core::Error>)
    ensures
        r is Ok <==> sbas_block_decoding(bytes@, form) is Some,
        r matches Ok(b) ==> sbas_block_decoding(bytes@, form) == Some(b),
        r is Ok ==> bytes@.len() == (if form == SbasWireForm::Framed250 { 32int } else { 29int }),
{
    let form = match form {
        SbasWireForm::Framed250 => CoreSbasWireForm::Framed250,
        SbasWireForm::Body226 => CoreSbasWireForm::Body226,
    };
    CoreSbasBlock::decode(bytes, form)
}

/// The wire form an optional label selects: framed when absent.
pub open spec fn selected_form(form: Option<String>) -> Option<SbasWireForm> {
    match form {
        Some(v) => form_of_label(v@),
        None => Some(SbasWireForm::Framed250),
    }
}

/// Decodes a raw SBAS block in the form `form` names (framed by default):
/// an unknown form label is a `TypeError`; otherwise the engine's block, or
/// an engine `Error` where the engine refuses the bytes.
pub fn decode_block(bytes: &[u8], form: Option<String>) -> (r: Result<CoreSbasBlock, BindingError>)
    ensures
        selected_form(form) is None ==> (r matches Err(e) && e.kind == ErrorKind::Type),
        selected_form(form) matches Some(f) ==> {
            &&& r is Ok <==> sbas_block_decoding(bytes@, f) is Some
            &&& r matches Ok(b) ==> sbas_block_decoding(bytes@, f) == Some(b)
            &&& r matches Err(e) ==> e.kind == ErrorKind::Engine
        },
        r is Ok ==> bytes@.len() == 32 || bytes@.len() == 29,
        r is Ok && form is None ==> bytes@.len() == 32,
{
    let f = parse_form(form)?;
    match core_decode_block(bytes, f) {
        Ok(b) => Ok(b),
        Err(e) => Err(engine_error(&e)),
    }
}

/// The SBAS satellite a broadcast PRN stands for: PRN 120 to 158 are slots
/// 20 to 58.
pub open spec fn sbas_sat_of_prn(prn: u16) -> Option<SatelliteId> {
    if 120 <= prn <= 158 {
        Some(SatelliteId { system: Constellation::Sbas, prn: (prn - 100) as u8 })
    } else {
        None
    }
}

/// The broadcast PRN of an SBAS satellite slot 20 to 58.
pub open spec fn sbas_prn_of_sat(sat: SatelliteId) -> Option<u16> {
    if sat.system == Constellation::Sbas && 20 <= sat.prn <= 58 {
        Some((sat.prn + 100) as u16)
    } else {
        None
    }
}

/// Calls `sidereon_core::sbas::store::sbas_prn_to_sat`, which maps the
/// broadcast range 120..=158 onto slots by subtracting 100.
#[verifier::external_body]
fn core_sbas_prn_to_sat(prn: u16) -> (r: Option<SatelliteId>)
    ensures
        r == sbas_sat_of_prn(prn),
{
    sidereon_core::sbas::store::sbas_prn_to_sat(prn).map(|id| SatelliteId { system: crate::gnss::system_from_core(id.system), prn: id.prn })
}

/// Calls `sidereon_core::sbas::store::sat_to_sbas_prn`, which maps SBAS
/// slots 20..=58 onto broadcast PRNs by adding 100.
#[verifier::external_body]
fn core_sat_to_sbas_prn(sat: SatelliteId) -> (r: Option<u16>)
    ensures
        r == sbas_prn_of_sat(sat),
{
    sidereon_core::sbas::store::sat_to_sbas_prn(sidereon_core::GnssSatelliteId { system: crate::gnss::system_to_core(sat.system), prn: sat.prn })
}

/// The satellite token of an SBAS broadcast PRN such as 129 (`"S29"`), or
/// `None` outside the SBAS range.
pub fn sbas_prn_to_sat(broadcast_prn: u16) -> (r: Option<String>)
    ensures
        match sbas_sat_of_prn(broadcast_prn) {
            Some(id) => r matches Some(t) && t@ == satellite_token_text(id),
            None => r is None,
        },
{
    match core_sbas_prn_to_sat(broadcast_prn) {
        Some(id) => Some(satellite_token(id)),
        None => None,
    }
}

/// The broadcast PRN of an SBAS satellite token such as `"S29"` (129), or
/// `None` for other satellites; an unreadable token is a `TypeError`.
pub fn sat_to_sbas_prn(sat: &str) -> (r: Result<Option<u16>, BindingError>)
    ensures
        match satellite_of_token(sat@) {
            Some(id) => r matches Ok(p) && p == sbas_prn_of_sat(id),
            None => r matches Err(e) && e.kind == ErrorKind::Type,
        },
{
    let id = parse_sat(sat)?;
    Ok(core_sat_to_sbas_prn(id))
}

/// A broadcast PRN in the SBAS range maps to a slot that maps back to it,
/// and an SBAS slot with a broadcast PRN maps to a PRN that maps back.
pub proof fn lemma_sbas_prn_roundtrip(prn: u16, sat: SatelliteId)
    ensures
        sbas_sat_of_prn(prn) matches Some(id) ==> sbas_prn_of_sat(id) == Some(prn),
        sbas_prn_of_sat(sat) matches Some(p) ==> sbas_sat_of_prn(p) == Some(sat),
{
}

} // verus!
