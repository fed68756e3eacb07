//! RINEX clock products: strict and lossy parsing of clock text into the
//! engine's satellite clock-bias series.
use vstd::prelude::*;

use crate::error::{engine_message_error, BindingError, ErrorKind};
use crate::text::utf8_text;
use vstd::utf8::{decode_utf8, valid_utf8};
use sidereon_core::rinex::clock::RinexClock as CoreRinexClock;

verus! {

/// The engine's parsed RINEX clock product, carried opaquely.
#[verifier::external_type_specification]
#[verifier::external_body]
pub struct ExCoreRinexClock(CoreRinexClock);

/// What `sidereon_core::rinex::clock::RinexClock::parse` reads from a text, or `None` where it returns an error.
pub uninterp spec fn rinex_clock_of_text(text: Seq<char>) -> Option<CoreRinexClock>;

/// Calls `sidereon_core::rinex::clock::RinexClock::parse`, a function of the text alone; on failure, the error's
/// text.
#[verifier::external_body]
fn core_parse_rinex_clock(text: &str) -> (r: Result<CoreRinexClock, String>)
    ensures
        r is Ok <==> rinex_clock_of_text(text@) is Some,
        r matches Ok(v) ==> rinex_clock_of_text(text@) == Some(v),
{
    CoreRinexClock::parse(text).map_err(|e| e.to_string())
}

/// Strictly parses RINEX clock text given as UTF-8 bytes: malformed UTF-8 is a `TypeError`; otherwise the engine's result,
/// or an engine `Error` where it refuses the text.
pub fn parse_rinex_clock(bytes: &[u8]) -> (r: Result<CoreRinexClock, BindingError>)
    ensures
        !valid_utf8(bytes@) ==> (r matches Err(e) && e.kind == ErrorKind::Type),
        valid_utf8(bytes@) ==> (r is Ok <==> rinex_clock_of_text(decode_utf8(bytes@)) is Some),
        valid_utf8(bytes@) && r is Err ==> (r matches Err(e) && e.kind == ErrorKind::Engine),
        r matches Ok(v) ==> valid_utf8(bytes@) && rinex_clock_of_text(decode_utf8(bytes@)) == Some(v),
{
    let text = utf8_text(bytes, "RINEX clock source")?;
    match core_parse_rinex_clock(text.as_str()) {
        Ok(v) => Ok(v),
        Err(message) => Err(engine_message_error(message)),
    }
}

/// Parses RINEX clock bytes read from a file; the same as
/// `parse_rinex_clock`.
pub fn load_rinex_clock(bytes: &[u8]) -> (r: Result<CoreRinexClock, BindingError>)
    ensures
        !valid_utf8(bytes@) ==> (r matches Err(e) && e.kind == ErrorKind::Type),
        valid_utf8(bytes@) ==> (r is Ok <==> rinex_clock_of_text(decode_utf8(bytes@)) is Some),
        valid_utf8(bytes@) && r is Err ==> (r matches Err(e) && e.kind == ErrorKind::Engine),
        r matches Ok(v) ==> valid_utf8(bytes@) && rinex_clock_of_text(decode_utf8(bytes@)) == Some(v),
{
    parse_rinex_clock(bytes)
}

/// What `sidereon_core::rinex::clock::RinexClock::parse_lossy` reads from a
/// text, skipping malformed and non-`AS` rows.
pub uninterp spec fn rinex_clock_lossy_of_text(text: Seq<char>) -> CoreRinexClock;

/// Calls `sidereon_core::rinex::clock::RinexClock::parse_lossy`, a function
/// of the text alone that never fails.
#[verifier::external_body]
fn core_parse_rinex_clock_lossy(text: &str) -> (r: CoreRinexClock)
    ensures
        r == rinex_clock_lossy_of_text(text@),
{
    CoreRinexClock::parse_lossy(text)
}

/// Parses RINEX clock bytes, skipping malformed and non-`AS` rows: only
/// malformed UTF-8 fails, as a `TypeError`.
pub fn parse_rinex_clock_lossy(bytes: &[u8]) -> (r: Result<CoreRinexClock, BindingError>)
    ensures
        r is Ok <==> valid_utf8(bytes@),
        r matches Ok(v) ==> v == rinex_clock_lossy_of_text(decode_utf8(bytes@)),
        r matches Err(e) ==> e.kind == ErrorKind::Type,
{
    let text = utf8_text(bytes, "RINEX clock source")?;
    Ok(core_parse_rinex_clock_lossy(text.as_str()))
}

/// Lossy parse of RINEX clock bytes read from a file; the same as
/// `parse_rinex_clock_lossy`.
pub fn load_rinex_clock_lossy(bytes: &[u8]) -> (r: Result<CoreRinexClock, BindingError>)
    ensures
        r is Ok <==> valid_utf8(bytes@),
        r matches Ok(v) ==> v == rinex_clock_lossy_of_text(decode_utf8(bytes@)),
        r matches Err(e) ==> e.kind == ErrorKind::Type,
{
    parse_rinex_clock_lossy(bytes)
}

} // verus!
