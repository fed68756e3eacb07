//! RINEX observation vocabulary and epoch-index checks.
use vstd::prelude::*;
use crate::batch::{count_text, push_str};
use crate::error::{engine_message_error, range_error, BindingError, ErrorKind};
use crate::text::utf8_text;
use vstd::utf8::{decode_utf8, valid_utf8};
use sidereon_core::rinex::observations::RinexObs as CoreRinexObs;
use crate::format::{chars_to_string, push_decimal};

verus! {

/// Kind of a RINEX observation code (its leading letter).
#[derive(Clone, Copy, Debug, PartialEq, Eq, Structural)]
pub enum ObservationKind {
    Pseudorange,
    CarrierPhase,
    Doppler,
    SignalStrength,
    Unknown,
}

/// The label of a RINEX observation kind.
pub open spec fn observation_kind_text(v: ObservationKind) -> Seq<char> {
    match v {
        ObservationKind::Pseudorange => "pseudorange"@,
        ObservationKind::CarrierPhase => "carrier_phase"@,
        ObservationKind::Doppler => "doppler"@,
        ObservationKind::SignalStrength => "signal_strength"@,
        ObservationKind::Unknown => "unknown"@,
    }
}

/// Each `ObservationKind` has its own fixed label: Pseudorange is "pseudorange", CarrierPhase is "carrier_phase", Doppler is "doppler", SignalStrength is "signal_strength", Unknown is "unknown".
pub proof fn law_observation_kind_text_literals(v: ObservationKind)
    ensures
        v is Pseudorange ==> observation_kind_text(v) == "pseudorange"@,
        v is CarrierPhase ==> observation_kind_text(v) == "carrier_phase"@,
        v is Doppler ==> observation_kind_text(v) == "doppler"@,
        v is SignalStrength ==> observation_kind_text(v) == "signal_strength"@,
        v is Unknown ==> observation_kind_text(v) == "unknown"@,
{
}

/// The label of a RINEX observation kind.
pub fn observation_kind_label(v: ObservationKind) -> (r: String)
    ensures
        r@ == observation_kind_text(v),
        v is Pseudorange ==> r@ == "pseudorange"@,
        v is CarrierPhase ==> r@ == "carrier_phase"@,
        v is Doppler ==> r@ == "doppler"@,
        v is SignalStrength ==> r@ == "signal_strength"@,
        v is Unknown ==> r@ == "unknown"@,
{
    match v {
        ObservationKind::Pseudorange => "pseudorange".to_owned(),
        ObservationKind::CarrierPhase => "carrier_phase".to_owned(),
        ObservationKind::Doppler => "doppler".to_owned(),
        ObservationKind::SignalStrength => "signal_strength".to_owned(),
        ObservationKind::Unknown => "unknown".to_owned(),
    }
}

/// Distinct values have distinct labels.
pub proof fn lemma_observation_kind_text_injective(a: ObservationKind, b: ObservationKind)
    ensures
        observation_kind_text(a) == observation_kind_text(b) ==> a == b,
{
    reveal_strlit("pseudorange");
    reveal_strlit("carrier_phase");
    reveal_strlit("doppler");
    reveal_strlit("signal_strength");
    reveal_strlit("unknown");
    assert("pseudorange"@.len() == 11 && "carrier_phase"@.len() == 13 && "doppler"@.len() == 7);
    assert("signal_strength"@.len() == 15 && "unknown"@.len() == 7);
    assert("doppler"@[0] != "unknown"@[0]);
}

/// Message for an epoch index past the end of a file.
pub open spec fn epoch_out_of_range_text(epoch_index: usize, epoch_count: usize) -> Seq<char> {
    "epoch index "@ + count_text(epoch_index) + " out of range for "@ + count_text(epoch_count)
        + " epochs"@
}

/// Checks an epoch index against the number of epochs of a file; an index
/// past the end is a `RangeError` naming both numbers.
pub fn check_epoch(epoch_index: usize, epoch_count: usize) -> (r: Result<usize, BindingError>)
    ensures
        epoch_index < epoch_count ==> r == Ok::<usize, BindingError>(epoch_index),
        epoch_index >= epoch_count ==> (r matches Err(e) && e.kind == ErrorKind::Range
            && e.message@ == epoch_out_of_range_text(epoch_index, epoch_count)),
{
    if epoch_index < epoch_count {
        Ok(epoch_index)
    } else {
        let mut out: Vec<char> = Vec::new();
        push_str(&mut out, "epoch index ");
        push_decimal(&mut out, epoch_index as u64);
        push_str(&mut out, " out of range for ");
        push_decimal(&mut out, epoch_count as u64);
        push_str(&mut out, " epochs");
        assert(out@ =~= epoch_out_of_range_text(epoch_index, epoch_count));
        Err(range_error(chars_to_string(out)))
    }
}

/// The engine's parsed RINEX observation file, carried opaquely.
#[verifier::external_type_specification]
#[verifier::external_body]
pub struct ExCoreRinexObs(CoreRinexObs);

/// What `sidereon_core::rinex::observations::RinexObs::parse` reads from a text, or `None` where it returns an error.
pub uninterp spec fn rinex_obs_of_text(text: Seq<char>) -> Option<CoreRinexObs>;

/// Calls `sidereon_core::rinex::observations::RinexObs::parse`, a function of the text alone; on failure, the error's
/// text.
#[verifier::external_body]
fn core_parse_rinex_obs(text: &str) -> (r: Result<CoreRinexObs, String>)
    ensures
        r is Ok <==> rinex_obs_of_text(text@) is Some,
        r matches Ok(v) ==> rinex_obs_of_text(text@) == Some(v),
{
    CoreRinexObs::parse(text).map_err(|e| e.to_string())
}

/// Parses RINEX observation text given as UTF-8 bytes: malformed UTF-8 is a `TypeError`; otherwise the engine's result,
/// or an engine `Error` where it refuses the text.
pub fn parse_rinex_obs(bytes: &[u8]) -> (r: Result<CoreRinexObs, BindingError>)
    ensures
        !valid_utf8(bytes@) ==> (r matches Err(e) && e.kind == ErrorKind::Type),
        valid_utf8(bytes@) ==> (r is Ok <==> rinex_obs_of_text(decode_utf8(bytes@)) is Some),
        valid_utf8(bytes@) && r is Err ==> (r matches Err(e) && e.kind == ErrorKind::Engine),
        r matches Ok(v) ==> valid_utf8(bytes@) && rinex_obs_of_text(decode_utf8(bytes@)) == Some(v),
{
    let text = utf8_text(bytes, "RINEX OBS source")?;
    match core_parse_rinex_obs(text.as_str()) {
        Ok(v) => Ok(v),
        Err(message) => Err(engine_message_error(message)),
    }
}

/// Parses RINEX observation bytes read from a file; the same as
/// `parse_rinex_obs`.
pub fn load_rinex_obs(bytes: &[u8]) -> (r: Result<CoreRinexObs, BindingError>)
    ensures
        !valid_utf8(bytes@) ==> (r matches Err(e) && e.kind == ErrorKind::Type),
        valid_utf8(bytes@) ==> (r is Ok <==> rinex_obs_of_text(decode_utf8(bytes@)) is Some),
        valid_utf8(bytes@) && r is Err ==> (r matches Err(e) && e.kind == ErrorKind::Engine),
        r matches Ok(v) ==> valid_utf8(bytes@) && rinex_obs_of_text(decode_utf8(bytes@)) == Some(v),
{
    parse_rinex_obs(bytes)
}

} // verus!
