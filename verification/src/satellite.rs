//! Satellite identity tokens (`G01`, `S29`, ...) and the SBAS broadcast
//! PRN mapping.
use vstd::prelude::*;

use vstd::string::*;

use crate::batch::push_str;
use crate::error::{invalid_label_message, invalid_label_text, type_error, BindingError, ErrorKind};
use crate::format::chars_to_string;
use crate::gnss::{rinex_letter, system_from_core, system_to_core, Constellation};
use sidereon_core::GnssSatelliteId as CoreSatelliteId;

verus! {

/// A satellite: its constellation and its number within it.
#[derive(Clone, Copy, Debug, PartialEq, Eq, Structural)]
pub struct SatelliteId {
    pub system: Constellation,
    pub prn: u8,
}

/// The decimal digit character for `d` in `0..=9`.
pub open spec fn digit_char(d: int) -> char {
    (48 + d) as char
}

/// A satellite number written with at least two digits.
pub open spec fn padded_prn_text(prn: u8) -> Seq<char> {
    if prn < 100 {
        seq![digit_char(prn as int / 10), digit_char(prn as int % 10)]
    } else {
        seq![digit_char(prn as int / 100), digit_char((prn as int / 10) % 10), digit_char(prn as int % 10)]
    }
}

/// The canonical token of a satellite: its RINEX letter and its padded
/// number, as in `G01`.
pub open spec fn satellite_token_text(id: SatelliteId) -> Seq<char> {
    rinex_letter(id.system) + padded_prn_text(id.prn)
}

/// The satellite the engine's token parser reads from a token, if any.
pub uninterp spec fn satellite_of_token(token: Seq<char>) -> Option<SatelliteId>;

/// Calls `<sidereon_core::GnssSatelliteId as FromStr>::from_str`. The
/// source trims the token, takes a constellation letter and one or two
/// digits, and accepts numbers 1 through 99; a canonical token reads back
/// as the satellite it names. A refusal comes back as the text of the
/// engine's `ParseSatelliteIdError`; nothing is stated of that text.
#[verifier::external_body]
pub(crate) fn core_parse_satellite(token: &str) -> (r: Result<SatelliteId, String>)
    ensures
        r is Ok <==> satellite_of_token(token@) is Some,
        r matches Ok(id) ==> satellite_of_token(token@) == Some(id),
        r matches Ok(id) ==> 1 <= id.prn <= 99,
        r matches Ok(id) ==> satellite_of_token(satellite_token_text(id)) == Some(id),
{
    match token.parse::<CoreSatelliteId>() {
        Ok(id) => Ok(SatelliteId { system: system_from_core(id.system), prn: id.prn }),
        Err(e) => Err(e.to_string()),
    }
}

/// Parses a satellite token; an unreadable token is a `TypeError` whose
/// message quotes the token and gives the engine's reason:
/// `invalid satellite token "<token>": <reason>`.
pub fn parse_sat(token: &str) -> (r: Result<SatelliteId, BindingError>)
    ensures
        match satellite_of_token(token@) {
            Some(id) => r matches Ok(v) && v == id,
            None => r matches Err(e) && e.kind == ErrorKind::Type,
        },
        r matches Err(e) ==> exists|reason: Seq<char>|
            e.message@ == #[trigger] invalid_label_text("satellite token"@, token@, ": "@ + reason),
        r matches Ok(id) ==> 1 <= id.prn <= 99,
        r matches Ok(id) ==> satellite_of_token(satellite_token_text(id)) == Some(id),
{
    match core_parse_satellite(token) {
        Ok(id) => Ok(id),
        Err(reason) => {
            let mut tail: Vec<char> = Vec::new();
            push_str(&mut tail, ": ");
            push_str(&mut tail, reason.as_str());
            let tail = chars_to_string(tail);
            let message = invalid_label_message("satellite token", token, tail.as_str());
            assert(message@ == invalid_label_text("satellite token"@, token@, ": "@ + reason@));
            Err(type_error(message))
        },
    }
}

/// Calls `<sidereon_core::GnssSatelliteId as Display>::fmt`, which writes the
/// constellation letter and the number padded to two digits.
#[verifier::external_body]
fn core_satellite_token(id: SatelliteId) -> (r: String)
    ensures
        r@ == satellite_token_text(id),
{
    CoreSatelliteId { system: system_to_core(id.system), prn: id.prn }.to_string()
}

/// The canonical token of a satellite.
pub fn satellite_token(id: SatelliteId) -> (r: String)
    ensures
        r@ == satellite_token_text(id),
{
    core_satellite_token(id)
}

} // verus!
