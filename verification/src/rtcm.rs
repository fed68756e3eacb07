//! RTCM 3 helpers: message-kind and constellation vocabularies, MSM lock-time
//! and loss-of-lock derivation, message numbers, frame decoding and the
//! forgiving frame scanner. The codec itself lives in `sidereon-core`.
use vstd::prelude::*;
use vstd::arithmetic::power2::pow2;

use crate::error::{
    engine_error, invalid_label_message, invalid_label_text, type_error, BindingError, ErrorKind,
};
use crate::gnss::{display_label, lower_label, system_display_label, system_to_core, Constellation};
use crate::text::str_eq;
use sidereon_core::rtcm::MsmKind as K;

verus! {

/// The kind of an RTCM multiple-signal message.
#[derive(Clone, Copy, Debug, PartialEq, Eq, Structural)]
pub enum MsmKind {
    Msm1,
    Msm2,
    Msm3,
    Msm4,
    Msm5,
    Msm6,
    Msm7,
}

/// The label of an MSM kind: `"msm1"` through `"msm7"`.
pub open spec fn msm_kind_text(kind: MsmKind) -> Seq<char> {
    match kind {
        MsmKind::Msm1 => "msm1"@,
        MsmKind::Msm2 => "msm2"@,
        MsmKind::Msm3 => "msm3"@,
        MsmKind::Msm4 => "msm4"@,
        MsmKind::Msm5 => "msm5"@,
        MsmKind::Msm6 => "msm6"@,
        MsmKind::Msm7 => "msm7"@,
    }
}

/// Each `MsmKind` has its own fixed label: Msm1 is "msm1", Msm2 is "msm2", Msm3 is "msm3", Msm4 is "msm4", Msm5 is "msm5", Msm6 is "msm6", Msm7 is "msm7".
pub proof fn law_msm_kind_text_literals(kind: MsmKind)
    ensures
        kind is Msm1 ==> msm_kind_text(kind) == "msm1"@,
        kind is Msm2 ==> msm_kind_text(kind) == "msm2"@,
        kind is Msm3 ==> msm_kind_text(kind) == "msm3"@,
        kind is Msm4 ==> msm_kind_text(kind) == "msm4"@,
        kind is Msm5 ==> msm_kind_text(kind) == "msm5"@,
        kind is Msm6 ==> msm_kind_text(kind) == "msm6"@,
        kind is Msm7 ==> msm_kind_text(kind) == "msm7"@,
{
}

/// The MSM kind a label names, if any.
pub open spec fn msm_kind_of_label(t: Seq<char>) -> Option<MsmKind> {
    if t == "msm1"@ {
        Some(MsmKind::Msm1)
    } else if t == "msm2"@ {
        Some(MsmKind::Msm2)
    } else if t == "msm3"@ {
        Some(MsmKind::Msm3)
    } else if t == "msm4"@ {
        Some(MsmKind::Msm4)
    } else if t == "msm5"@ {
        Some(MsmKind::Msm5)
    } else if t == "msm6"@ {
        Some(MsmKind::Msm6)
    } else if t == "msm7"@ {
        Some(MsmKind::Msm7)
    } else {
        None
    }
}

/// Each label names a fixed `MsmKind`: "msm1" names Msm1, "msm2" names Msm2, "msm3" names Msm3, "msm4" names Msm4, "msm5" names Msm5, "msm6" names Msm6, "msm7" names Msm7; no other text names one.
pub proof fn law_msm_kind_of_label_literals(t: Seq<char>)
    ensures
        msm_kind_of_label("msm1"@) == Some(MsmKind::Msm1),
        msm_kind_of_label("msm2"@) == Some(MsmKind::Msm2),
        msm_kind_of_label("msm3"@) == Some(MsmKind::Msm3),
        msm_kind_of_label("msm4"@) == Some(MsmKind::Msm4),
        msm_kind_of_label("msm5"@) == Some(MsmKind::Msm5),
        msm_kind_of_label("msm6"@) == Some(MsmKind::Msm6),
        msm_kind_of_label("msm7"@) == Some(MsmKind::Msm7),
        msm_kind_of_label(t) is Some ==> (t == "msm1"@ || t == "msm2"@ || t == "msm3"@ || t == "msm4"@ || t == "msm5"@ || t == "msm6"@ || t == "msm7"@),
{
    reveal_strlit("msm1");
    reveal_strlit("msm2");
    reveal_strlit("msm3");
    reveal_strlit("msm4");
    reveal_strlit("msm5");
    reveal_strlit("msm6");
    reveal_strlit("msm7");
    assert("msm1"@.len() == 4);
    assert("msm2"@.len() == 4);
    assert("msm3"@.len() == 4);
    assert("msm4"@.len() == 4);
    assert("msm5"@.len() == 4);
    assert("msm6"@.len() == 4);
    assert("msm7"@.len() == 4);
    assert("msm1"@[3] != "msm2"@[3]);
    assert("msm1"@[3] != "msm3"@[3]);
    assert("msm1"@[3] != "msm4"@[3]);
    assert("msm1"@[3] != "msm5"@[3]);
    assert("msm1"@[3] != "msm6"@[3]);
    assert("msm1"@[3] != "msm7"@[3]);
    assert("msm2"@[3] != "msm3"@[3]);
    assert("msm2"@[3] != "msm4"@[3]);
    assert("msm2"@[3] != "msm5"@[3]);
    assert("msm2"@[3] != "msm6"@[3]);
    assert("msm2"@[3] != "msm7"@[3]);
    assert("msm3"@[3] != "msm4"@[3]);
    assert("msm3"@[3] != "msm5"@[3]);
    assert("msm3"@[3] != "msm6"@[3]);
    assert("msm3"@[3] != "msm7"@[3]);
    assert("msm4"@[3] != "msm5"@[3]);
    assert("msm4"@[3] != "msm6"@[3]);
    assert("msm4"@[3] != "msm7"@[3]);
    assert("msm5"@[3] != "msm6"@[3]);
    assert("msm5"@[3] != "msm7"@[3]);
    assert("msm6"@[3] != "msm7"@[3]);
}

/// The label of an MSM kind.
pub fn msm_kind_label(kind: MsmKind) -> (r: &'static str)
    ensures
        r@ == msm_kind_text(kind),
        kind is Msm1 ==> r@ == "msm1"@,
        kind is Msm2 ==> r@ == "msm2"@,
        kind is Msm3 ==> r@ == "msm3"@,
        kind is Msm4 ==> r@ == "msm4"@,
        kind is Msm5 ==> r@ == "msm5"@,
        kind is Msm6 ==> r@ == "msm6"@,
        kind is Msm7 ==> r@ == "msm7"@,
{
    match kind {
        MsmKind::Msm1 => "msm1",
        MsmKind::Msm2 => "msm2",
        MsmKind::Msm3 => "msm3",
        MsmKind::Msm4 => "msm4",
        MsmKind::Msm5 => "msm5",
        MsmKind::Msm6 => "msm6",
        MsmKind::Msm7 => "msm7",
    }
}

/// Parses an MSM kind label; an unknown label is a `TypeError`.
pub fn msm_kind_from_label(label: &str) -> (r: Result<MsmKind, BindingError>)
    ensures
        label@ == "msm1"@ ==> (r matches Ok(x) && x == MsmKind::Msm1),
        label@ == "msm2"@ ==> (r matches Ok(x) && x == MsmKind::Msm2),
        label@ == "msm3"@ ==> (r matches Ok(x) && x == MsmKind::Msm3),
        label@ == "msm4"@ ==> (r matches Ok(x) && x == MsmKind::Msm4),
        label@ == "msm5"@ ==> (r matches Ok(x) && x == MsmKind::Msm5),
        label@ == "msm6"@ ==> (r matches Ok(x) && x == MsmKind::Msm6),
        label@ == "msm7"@ ==> (r matches Ok(x) && x == MsmKind::Msm7),
        r matches Err(e) ==> e.message@ == invalid_label_text("MSM kind label"@, label@, ": expected \"msm1\" through \"msm7\""@),
        match msm_kind_of_label(label@) {
            Some(k) => r matches Ok(v) && v == k,
            None => r matches Err(e) && e.kind == ErrorKind::Type,
        },
{
    proof {
        law_msm_kind_of_label_literals(Seq::empty());
    }
    if str_eq(label, "msm1") {
        Ok(MsmKind::Msm1)
    } else if str_eq(label, "msm2") {
        Ok(MsmKind::Msm2)
    } else if str_eq(label, "msm3") {
        Ok(MsmKind::Msm3)
    } else if str_eq(label, "msm4") {
        Ok(MsmKind::Msm4)
    } else if str_eq(label, "msm5") {
        Ok(MsmKind::Msm5)
    } else if str_eq(label, "msm6") {
        Ok(MsmKind::Msm6)
    } else if str_eq(label, "msm7") {
        Ok(MsmKind::Msm7)
    } else {
        Err(type_error(invalid_label_message("MSM kind label", label, ": expected \"msm1\" through \"msm7\"")))
    }
}

/// Every MSM kind label parses back to the kind it names.
pub proof fn lemma_msm_kind_label_roundtrip(kind: MsmKind)
    ensures
        msm_kind_of_label(msm_kind_text(kind)) == Some(kind),
{
    reveal_strlit("msm1");
    reveal_strlit("msm2");
    reveal_strlit("msm3");
    reveal_strlit("msm4");
    reveal_strlit("msm5");
    reveal_strlit("msm6");
    reveal_strlit("msm7");
    assert("msm1"@[3] == '1' && "msm2"@[3] == '2' && "msm3"@[3] == '3' && "msm4"@[3] == '4');
    assert("msm5"@[3] == '5' && "msm6"@[3] == '6' && "msm7"@[3] == '7');
}

/// The family of an RTCM state-space-representation message.
#[derive(Clone, Copy, Debug, PartialEq, Eq, Structural)]
pub enum SsrKind {
    Orbit,
    Clock,
    CombinedOrbitClock,
    CodeBias,
    PhaseBias,
    Ura,
    HighRateClock,
}

/// The label of an SSR message family.
pub open spec fn ssr_kind_text(kind: SsrKind) -> Seq<char> {
    match kind {
        SsrKind::Orbit => "orbit"@,
        SsrKind::Clock => "clock"@,
        SsrKind::CombinedOrbitClock => "combinedOrbitClock"@,
        SsrKind::CodeBias => "codeBias"@,
        SsrKind::PhaseBias => "phaseBias"@,
        SsrKind::Ura => "ura"@,
        SsrKind::HighRateClock => "highRateClock"@,
    }
}

/// Each `SsrKind` has its own fixed label: Orbit is "orbit", Clock is "clock", CombinedOrbitClock is "combinedOrbitClock", CodeBias is "codeBias", PhaseBias is "phaseBias", Ura is "ura", HighRateClock is "highRateClock".
pub proof fn law_ssr_kind_text_literals(kind: SsrKind)
    ensures
        kind is Orbit ==> ssr_kind_text(kind) == "orbit"@,
        kind is Clock ==> ssr_kind_text(kind) == "clock"@,
        kind is CombinedOrbitClock ==> ssr_kind_text(kind) == "combinedOrbitClock"@,
        kind is CodeBias ==> ssr_kind_text(kind) == "codeBias"@,
        kind is PhaseBias ==> ssr_kind_text(kind) == "phaseBias"@,
        kind is Ura ==> ssr_kind_text(kind) == "ura"@,
        kind is HighRateClock ==> ssr_kind_text(kind) == "highRateClock"@,
{
}

/// The label of an SSR message family.
pub fn ssr_kind_label(kind: SsrKind) -> (r: &'static str)
    ensures
        r@ == ssr_kind_text(kind),
        kind is Orbit ==> r@ == "orbit"@,
        kind is Clock ==> r@ == "clock"@,
        kind is CombinedOrbitClock ==> r@ == "combinedOrbitClock"@,
        kind is CodeBias ==> r@ == "codeBias"@,
        kind is PhaseBias ==> r@ == "phaseBias"@,
        kind is Ura ==> r@ == "ura"@,
        kind is HighRateClock ==> r@ == "highRateClock"@,
{
    match kind {
        SsrKind::Orbit => "orbit",
        SsrKind::Clock => "clock",
        SsrKind::CombinedOrbitClock => "combinedOrbitClock",
        SsrKind::CodeBias => "codeBias",
        SsrKind::PhaseBias => "phaseBias",
        SsrKind::Ura => "ura",
        SsrKind::HighRateClock => "highRateClock",
    }
}

/// Distinct SSR families have distinct labels.
pub proof fn lemma_ssr_kind_label_injective(a: SsrKind, b: SsrKind)
    ensures
        ssr_kind_text(a) == ssr_kind_text(b) ==> a == b,
{
    reveal_strlit("orbit");
    reveal_strlit("clock");
    reveal_strlit("combinedOrbitClock");
    reveal_strlit("codeBias");
    reveal_strlit("phaseBias");
    reveal_strlit("ura");
    reveal_strlit("highRateClock");
    assert("orbit"@.len() == 5 && "clock"@.len() == 5 && "combinedOrbitClock"@.len() == 18);
    assert("codeBias"@.len() == 8 && "phaseBias"@.len() == 9 && "ura"@.len() == 3);
    assert("highRateClock"@.len() == 13);
    assert("orbit"@[0] != "clock"@[0]);
}

/// The display label of a constellation in decoded RTCM objects.
pub fn gnss_system_label(system: Constellation) -> (r: &'static str)
    ensures
        r@ == display_label(system),
        system is Gps ==> r@ == "GPS"@,
        system is Glonass ==> r@ == "GLONASS"@,
        system is Galileo ==> r@ == "Galileo"@,
        system is BeiDou ==> r@ == "BeiDou"@,
        system is Qzss ==> r@ == "QZSS"@,
        system is Navic ==> r@ == "NavIC"@,
        system is Sbas ==> r@ == "SBAS"@,
{
    system_display_label(system)
}

/// The constellation a lower-case RTCM label names, if any.
pub open spec fn system_of_lower_label(t: Seq<char>) -> Option<Constellation> {
    if t == "gps"@ {
        Some(Constellation::Gps)
    } else if t == "glonass"@ {
        Some(Constellation::Glonass)
    } else if t == "galileo"@ {
        Some(Constellation::Galileo)
    } else if t == "beidou"@ {
        Some(Constellation::BeiDou)
    } else if t == "qzss"@ {
        Some(Constellation::Qzss)
    } else if t == "navic"@ {
        Some(Constellation::Navic)
    } else if t == "sbas"@ {
        Some(Constellation::Sbas)
    } else {
        None
    }
}

/// Each label names a fixed `Constellation`: "gps" names Gps, "glonass" names Glonass, "galileo" names Galileo, "beidou" names BeiDou, "qzss" names Qzss, "navic" names Navic, "sbas" names Sbas; no other text names one.
pub proof fn law_system_of_lower_label_literals(t: Seq<char>)
    ensures
        system_of_lower_label("gps"@) == Some(Constellation::Gps),
        system_of_lower_label("glonass"@) == Some(Constellation::Glonass),
        system_of_lower_label("galileo"@) == Some(Constellation::Galileo),
        system_of_lower_label("beidou"@) == Some(Constellation::BeiDou),
        system_of_lower_label("qzss"@) == Some(Constellation::Qzss),
        system_of_lower_label("navic"@) == Some(Constellation::Navic),
        system_of_lower_label("sbas"@) == Some(Constellation::Sbas),
        system_of_lower_label(t) is Some ==> (t == "gps"@ || t == "glonass"@ || t == "galileo"@ || t == "beidou"@ || t == "qzss"@ || t == "navic"@ || t == "sbas"@),
{
    reveal_strlit("gps");
    reveal_strlit("glonass");
    reveal_strlit("galileo");
    reveal_strlit("beidou");
    reveal_strlit("qzss");
    reveal_strlit("navic");
    reveal_strlit("sbas");
    assert("gps"@.len() == 3);
    assert("glonass"@.len() == 7);
    assert("galileo"@.len() == 7);
    assert("beidou"@.len() == 6);
    assert("qzss"@.len() == 4);
    assert("navic"@.len() == 5);
    assert("sbas"@.len() == 4);
    assert("glonass"@[1] != "galileo"@[1]);
    assert("qzss"@[0] != "sbas"@[0]);
}

/// Parses a lower-case constellation label; an unknown label is a `TypeError`.
pub fn gnss_system_from_label(label: &str) -> (r: Result<Constellation, BindingError>)
    ensures
        label@ == "gps"@ ==> (r matches Ok(x) && x == Constellation::Gps),
        label@ == "glonass"@ ==> (r matches Ok(x) && x == Constellation::Glonass),
        label@ == "galileo"@ ==> (r matches Ok(x) && x == Constellation::Galileo),
        label@ == "beidou"@ ==> (r matches Ok(x) && x == Constellation::BeiDou),
        label@ == "qzss"@ ==> (r matches Ok(x) && x == Constellation::Qzss),
        label@ == "navic"@ ==> (r matches Ok(x) && x == Constellation::Navic),
        label@ == "sbas"@ ==> (r matches Ok(x) && x == Constellation::Sbas),
        r matches Err(e) ==> e.message@ == invalid_label_text("GNSS system label"@, label@, ""@),
        match system_of_lower_label(label@) {
            Some(s) => r matches Ok(v) && v == s,
            None => r matches Err(e) && e.kind == ErrorKind::Type,
        },
{
    proof {
        law_system_of_lower_label_literals(Seq::empty());
    }
    if str_eq(label, "gps") {
        Ok(Constellation::Gps)
    } else if str_eq(label, "glonass") {
        Ok(Constellation::Glonass)
    } else if str_eq(label, "galileo") {
        Ok(Constellation::Galileo)
    } else if str_eq(label, "beidou") {
        Ok(Constellation::BeiDou)
    } else if str_eq(label, "qzss") {
        Ok(Constellation::Qzss)
    } else if str_eq(label, "navic") {
        Ok(Constellation::Navic)
    } else if str_eq(label, "sbas") {
        Ok(Constellation::Sbas)
    } else {
        Err(type_error(invalid_label_message("GNSS system label", label, "")))
    }
}

/// Every lower-case constellation label parses back to its constellation.
pub proof fn lemma_lower_label_roundtrip(s: Constellation)
    ensures
        system_of_lower_label(lower_label(s)) == Some(s),
{
    reveal_strlit("gps");
    reveal_strlit("glonass");
    reveal_strlit("galileo");
    reveal_strlit("beidou");
    reveal_strlit("qzss");
    reveal_strlit("navic");
    reveal_strlit("sbas");
    assert("gps"@.len() == 3 && "glonass"@.len() == 7 && "galileo"@.len() == 7);
    assert("beidou"@.len() == 6 && "qzss"@.len() == 4 && "navic"@.len() == 5 && "sbas"@.len() == 4);
    assert("glonass"@[2] != "galileo"@[2]);
    assert("qzss"@[0] != "sbas"@[0]);
}


/// The RINEX loss-of-lock-indicator bits the MSM helpers set.
#[derive(Clone, Copy, Debug, PartialEq, Eq, Structural)]
pub struct LliBits {
    pub loss_of_lock: u8,
    pub half_cycle: u8,
}

/// Reads `sidereon_core::rtcm::LLI_LOSS_OF_LOCK` and `LLI_HALF_CYCLE`, which
/// the engine defines as bit 0 and bit 1.
#[verifier::external_body]
fn core_lli_bits() -> (r: (u8, u8))
    ensures
        r == (1u8, 2u8),
{
    (sidereon_core::rtcm::LLI_LOSS_OF_LOCK, sidereon_core::rtcm::LLI_HALF_CYCLE)
}

/// The RINEX LLI bit constants used by the MSM LLI helpers.
pub fn rtcm_lli_bits() -> (r: LliBits)
    ensures
        r.loss_of_lock == 1,
        r.half_cycle == 2,
{
    let (loss_of_lock, half_cycle) = core_lli_bits();
    LliBits { loss_of_lock, half_cycle }
}

/// Minimum lock time of a DF402 (MSM2 to MSM5) indicator, milliseconds.
pub open spec fn df402_lock_time_ms(indicator: u16) -> Option<u32> {
    if indicator == 0 {
        Some(0u32)
    } else if indicator <= 15 {
        Some(pow2((indicator + 4) as nat) as u32)
    } else {
        None
    }
}

/// Minimum lock time of a DF407 (MSM6 and MSM7) indicator, milliseconds:
/// exact up to 63, then 20 segments of 32 indicators whose step doubles each
/// segment, then the single top value at 704; 705 and above are reserved.
pub open spec fn df407_lock_time_ms(indicator: u16) -> Option<u32> {
    let n = indicator as int;
    if n <= 63 {
        Some(indicator as u32)
    } else if n <= 703 {
        let segment = (n - 64) / 32;
        Some((pow2((segment + 1) as nat) * (n - 32 * (segment + 1))) as u32)
    } else if n == 704 {
        Some(67_108_864u32)
    } else {
        None
    }
}

/// Minimum continuous lock time an MSM lock-time indicator encodes.
pub open spec fn minimum_lock_time(kind: MsmKind, indicator: u16) -> Option<u32> {
    match kind {
        MsmKind::Msm1 => None,
        MsmKind::Msm2 | MsmKind::Msm3 | MsmKind::Msm4 | MsmKind::Msm5 => df402_lock_time_ms(indicator),
        MsmKind::Msm6 | MsmKind::Msm7 => df407_lock_time_ms(indicator),
    }
}

/// Calls `sidereon_core::rtcm::minimum_lock_time_ms`, whose source computes
/// the DF402/DF407 tables stated by `minimum_lock_time`.
#[verifier::external_body]
fn core_minimum_lock_time_ms(kind: MsmKind, indicator: u16) -> (r: Option<u32>)
    ensures
        r == minimum_lock_time(kind, indicator),
{
    let core_kind = match kind {
        MsmKind::Msm1 => K::Msm1,
        MsmKind::Msm2 => K::Msm2,
        MsmKind::Msm3 => K::Msm3,
        MsmKind::Msm4 => K::Msm4,
        MsmKind::Msm5 => K::Msm5,
        MsmKind::Msm6 => K::Msm6,
        MsmKind::Msm7 => K::Msm7,
    };
    sidereon_core::rtcm::minimum_lock_time_ms(core_kind, indicator)
}

/// Minimum continuous-lock time encoded by an MSM lock-time indicator for the
/// MSM kind `kind` names; `None` for reserved or out-of-range indicators.
pub fn rtcm_minimum_lock_time_ms(kind: &str, indicator: u16) -> (r: Result<Option<u32>, BindingError>)
    ensures
        match msm_kind_of_label(kind@) {
            Some(k) => r matches Ok(v) && v == minimum_lock_time(k, indicator),
            None => r matches Err(e) && e.kind == ErrorKind::Type,
        },
{
    let k = msm_kind_from_label(kind)?;
    Ok(core_minimum_lock_time_ms(k, indicator))
}

/// The tracked previous observation of one MSM signal cell.
#[derive(Clone, Copy, Debug, PartialEq, Eq, Structural)]
pub struct PreviousLock {
    /// Previous minimum lock time, `None` when that indicator was reserved.
    pub min_lock_time_ms: Option<u32>,
    /// Milliseconds between the previous and the current observation.
    pub elapsed_ms: u64,
}

/// Whether loss of lock is possible between the previous and current
/// observation of a cell: the lock time went down, or it does not cover the
/// elapsed time, or the current indicator is reserved.
pub open spec fn loss_of_lock_possible(previous: Option<PreviousLock>, current: Option<u32>) -> bool {
    match previous {
        None => false,
        Some(p) => match current {
            None => true,
            Some(c) => (p.min_lock_time_ms matches Some(m) && c < m) || (c as int) < p.elapsed_ms,
        },
    }
}

/// The RINEX LLI digit: bit 0 for possible loss of lock, bit 1 for the
/// half-cycle ambiguity flag.
pub open spec fn derived_lli(previous: Option<PreviousLock>, current: Option<u32>, half_cycle: bool) -> u8 {
    ((if loss_of_lock_possible(previous, current) { 1int } else { 0int }) + (if half_cycle {
        2int
    } else {
        0int
    })) as u8
}

/// Calls `sidereon_core::rtcm::derive_lli`, whose source sets bit 1 from the
/// half-cycle flag and bit 0 exactly when `loss_of_lock_possible` holds.
#[verifier::external_body]
fn core_derive_lli(previous: Option<PreviousLock>, current: Option<u32>, half_cycle: bool) -> (r: u8)
    ensures
        r == derived_lli(previous, current, half_cycle),
{
    let previous = match previous {
        Some(p) => Some(sidereon_core::rtcm::PreviousLock {
            min_lock_time_ms: p.min_lock_time_ms,
            elapsed_ms: p.elapsed_ms,
        }),
        None => None,
    };
    sidereon_core::rtcm::derive_lli(previous, current, half_cycle)
}

/// Derives the RINEX LLI value for one MSM signal cell.
pub fn rtcm_derive_lli(
    previous: Option<PreviousLock>,
    current_min_lock_time_ms: Option<u32>,
    half_cycle_ambiguity: bool,
) -> (r: u8)
    ensures
        r == derived_lli(previous, current_min_lock_time_ms, half_cycle_ambiguity),
{
    core_derive_lli(previous, current_min_lock_time_ms, half_cycle_ambiguity)
}

/// Milliseconds in a week, and in a day.
pub open spec fn week_ms() -> int {
    604_800_000
}

pub open spec fn day_ms() -> int {
    86_400_000
}

/// Time from `previous` to `current` on a clock that wraps at `modulus`.
pub open spec fn modulo_elapsed(previous: int, current: int, modulus: int) -> int {
    (current + modulus - previous % modulus) % modulus
}

/// Elapsed milliseconds between two raw MSM epoch fields: millisecond of week,
/// or for GLONASS a 3-bit day of week above a 27-bit millisecond of day (day 7
/// meaning unknown, when only the time of day is compared).
pub open spec fn msm_epoch_dt(system: Constellation, previous: u32, current: u32) -> int {
    if system == Constellation::Glonass {
        let prev_day = previous as int / 134_217_728;
        let now_day = current as int / 134_217_728;
        let prev_ms = previous as int % 134_217_728;
        let now_ms = current as int % 134_217_728;
        if prev_day == 7 || now_day == 7 {
            modulo_elapsed(prev_ms, now_ms, day_ms())
        } else {
            modulo_elapsed(prev_day * day_ms() + prev_ms, now_day * day_ms() + now_ms, week_ms())
        }
    } else {
        modulo_elapsed(previous as int, current as int, week_ms())
    }
}

/// Calls `sidereon_core::rtcm::msm_epoch_dt_ms`, whose source computes the
/// wrapped difference stated by `msm_epoch_dt`.
#[verifier::external_body]
fn core_msm_epoch_dt_ms(system: Constellation, previous: u32, current: u32) -> (r: u64)
    ensures
        r == msm_epoch_dt(system, previous, current),
{
    sidereon_core::rtcm::msm_epoch_dt_ms(system_to_core(system), previous, current)
}

/// Elapsed milliseconds between two raw MSM epoch-time fields of the
/// constellation `system` names.
pub fn rtcm_msm_epoch_dt_ms(system: &str, previous_epoch_time: u32, current_epoch_time: u32) -> (r: Result<u64, BindingError>)
    ensures
        match system_of_lower_label(system@) {
            Some(s) => r matches Ok(v) && v == msm_epoch_dt(s, previous_epoch_time, current_epoch_time),
            None => r matches Err(e) && e.kind == ErrorKind::Type,
        },
{
    let s = gnss_system_from_label(system)?;
    Ok(core_msm_epoch_dt_ms(s, previous_epoch_time, current_epoch_time))
}

/// The RINEX 3 observation-code suffix the engine's signal table gives an MSM
/// signal id of a constellation.
pub uninterp spec fn msm_signal_code(system: Constellation, signal_id: u8) -> Option<Seq<char>>;

/// Calls `sidereon_core::rtcm::msm_signal_rinex_code`: a lookup in a 33-entry
/// table per constellation whose entry 0 is empty and whose codes are two
/// characters long.
#[verifier::external_body]
fn core_msm_signal_rinex_code(system: Constellation, signal_id: u8) -> (r: Option<&'static str>)
    ensures
        match r {
            Some(code) => msm_signal_code(system, signal_id) == Some(code@) && code@.len() == 2,
            None => msm_signal_code(system, signal_id) is None,
        },
        signal_id == 0 || signal_id >= 33 ==> r is None,
{
    sidereon_core::rtcm::msm_signal_rinex_code(system_to_core(system), signal_id)
}

/// The RINEX 3 observation-code suffix for an MSM signal id, `None` for
/// reserved ids.
pub fn rtcm_msm_signal_rinex_code(system: &str, signal_id: u8) -> (r: Result<Option<&'static str>, BindingError>)
    ensures
        match system_of_lower_label(system@) {
            Some(s) => r matches Ok(v) && match v {
                Some(code) => msm_signal_code(s, signal_id) == Some(code@) && code@.len() == 2,
                None => msm_signal_code(s, signal_id) is None,
            },
            None => r matches Err(e) && e.kind == ErrorKind::Type,
        },
        (signal_id == 0 || signal_id >= 33) && r is Ok ==> (r matches Ok(v) && v is None),
{
    let s = gnss_system_from_label(system)?;
    Ok(core_msm_signal_rinex_code(s, signal_id))
}

/// The 12-bit message number at the start of an RTCM body.
pub open spec fn body_message_number(body: Seq<u8>) -> int {
    body[0] * 16 + body[1] / 16
}

/// Calls `sidereon_core::rtcm::message_number`, which reads the first 12
/// bits of the body most significant first and fails on a body shorter than
/// 12 bits.
#[verifier::external_body]
fn core_message_number(body: &[u8]) -> (r: Result<u16, sidereon_core::Error>)
    ensures
        r is Ok <==> body@.len() >= 2,
        r matches Ok(n) ==> n == body_message_number(body@),
{
    sidereon_core::rtcm::message_number(body)
}

/// Reads the 12-bit RTCM message number from a message body.
pub fn rtcm_message_number(body: &[u8]) -> (r: Result<u16, BindingError>)
    ensures
        body@.len() >= 2 ==> (r matches Ok(n) && n == body_message_number(body@)),
        body@.len() < 2 ==> (r matches Err(e) && e.kind == ErrorKind::Engine),
{
    match core_message_number(body) {
        Ok(n) => Ok(n),
        Err(e) => Err(engine_error(&e)),
    }
}


/// The engine's decoded RTCM message, carried opaquely.
#[verifier::external_type_specification]
#[verifier::external_body]
pub struct ExRtcmMessage(sidereon_core::rtcm::Message);

/// The engine's MSM lock-time history, carried opaquely.
#[verifier::external_type_specification]
#[verifier::external_body]
pub struct ExLockTimeTracker(sidereon_core::rtcm::LockTimeTracker);

/// The body length a frame header declares: the low two bits of byte 1 and
/// all of byte 2.
pub open spec fn declared_body_len(bytes: Seq<u8>) -> int {
    (bytes[1] % 4) * 256 + bytes[2]
}

/// A buffer opens with the preamble and holds the whole frame its header
/// declares.
pub open spec fn frame_shape_ok(bytes: Seq<u8>) -> bool {
    &&& bytes.len() >= 6
    &&& bytes[0] == 0xD3
    &&& bytes.len() >= declared_body_len(bytes) + 6
}

/// Whether the CRC-24Q the engine computes over the header and body of the
/// frame at the start of `bytes` equals the three CRC bytes that follow.
pub uninterp spec fn frame_crc_matches(bytes: Seq<u8>) -> bool;

/// A complete RTCM 3 frame: the header declares exactly the rest of the
/// buffer and the CRC verifies.
pub open spec fn is_complete_frame(bytes: Seq<u8>) -> bool {
    &&& frame_shape_ok(bytes)
    &&& bytes.len() == declared_body_len(bytes) + 6
    &&& frame_crc_matches(bytes)
}

/// Calls `sidereon_core::rtcm::decode_frame`, which checks length, preamble,
/// declared length and CRC-24Q, and returns the body with the frame size.
#[verifier::external_body]
fn core_decode_frame(bytes: &[u8]) -> (r: Result<OwnedFrame, sidereon_core::Error>)
    ensures
        r is Ok <==> (frame_shape_ok(bytes@) && frame_crc_matches(bytes@)),
        r matches Ok(f) ==> f.body@ == bytes@.subrange(3, 3 + declared_body_len(bytes@)) && f.frame_len == declared_body_len(bytes@) + 6,
{
    match sidereon_core::rtcm::decode_frame(bytes) {
        Ok(frame) => Ok(OwnedFrame { body: frame.body.to_vec(), frame_len: frame.frame_len }),
        Err(e) => Err(e),
    }
}

/// The message `sidereon_core::rtcm::Message::decode` reads from a body, or
/// `None` where it returns an error.
pub uninterp spec fn message_decoding(body: Seq<u8>) -> Option<sidereon_core::rtcm::Message>;

/// Calls `sidereon_core::rtcm::Message::decode`, a function of the body
/// alone; the engine reads the 12-bit message number first, so a decoded
/// body has at least two bytes.
#[verifier::external_body]
fn core_decode_message(body: &[u8]) -> (r: Result<sidereon_core::rtcm::Message, sidereon_core::Error>)
    ensures
        r is Ok <==> message_decoding(body@) is Some,
        r matches Ok(m) ==> message_decoding(body@) == Some(m),
        r is Ok ==> body@.len() >= 2,
{
    sidereon_core::rtcm::Message::decode(body)
}

/// The body bytes `sidereon_core::rtcm::Message::encode` writes for a
/// message, or `None` where it returns an error.
pub uninterp spec fn message_encoding(message: sidereon_core::rtcm::Message) -> Option<Seq<u8>>;

/// Calls `sidereon_core::rtcm::Message::encode`, a function of the message
/// alone.
#[verifier::external_body]
fn core_encode_message(message: &sidereon_core::rtcm::Message) -> (r: Result<Vec<u8>, sidereon_core::Error>)
    ensures
        r is Ok <==> message_encoding(*message) is Some,
        r matches Ok(b) ==> message_encoding(*message) == Some(b@),
{
    message.encode()
}

/// The largest body a transport frame can carry (its 10-bit length field).
pub open spec fn max_frame_body_len() -> int {
    1023
}

/// `frame` is the transport frame of `message`: the message encodes, its
/// body fits a frame, and `frame` is a complete frame carrying exactly that
/// body.
pub open spec fn is_frame_of(message: sidereon_core::rtcm::Message, frame: Seq<u8>) -> bool {
    &&& message_encoding(message) matches Some(body)
    &&& body.len() <= max_frame_body_len()
    &&& is_complete_frame(frame)
    &&& frame.len() == body.len() + 6
    &&& frame.subrange(3, frame.len() - 3) == body
}

/// Calls `sidereon_core::rtcm::Message::to_frame`, which encodes the body,
/// refuses one longer than 1023 bytes, and wraps it with the preamble, its
/// length and a freshly computed CRC-24Q.
#[verifier::external_body]
fn core_message_to_frame(message: &sidereon_core::rtcm::Message) -> (r: Result<Vec<u8>, sidereon_core::Error>)
    ensures
        r is Ok <==> (message_encoding(*message) matches Some(body) && body.len() <= max_frame_body_len()),
        r matches Ok(frame) ==> is_frame_of(*message, frame@),
{
    message.to_frame()
}

/// Decodes a single RTCM 3 message body without its transport frame: the
/// engine's message where it decodes one, an engine `Error` otherwise.
pub fn decode_rtcm_message(body: &[u8]) -> (r: Result<sidereon_core::rtcm::Message, BindingError>)
    ensures
        r is Ok <==> message_decoding(body@) is Some,
        r matches Ok(m) ==> message_decoding(body@) == Some(m),
        r is Ok ==> body@.len() >= 2,
        r matches Err(e) ==> e.kind == ErrorKind::Engine,
{
    match core_decode_message(body) {
        Ok(m) => Ok(m),
        Err(e) => Err(engine_error(&e)),
    }
}

/// A decoded frame: its message and the bytes the frame took.
#[derive(Debug)]
pub struct DecodedRtcmFrame {
    pub message: sidereon_core::rtcm::Message,
    pub frame_len: u32,
}

/// What decoding the frame at the start of `bytes` gives: `None` unless the
/// preamble, declared length and CRC hold and the body decodes; otherwise
/// the body's message and the frame's size.
pub open spec fn frame_decoding(bytes: Seq<u8>) -> Option<(sidereon_core::rtcm::Message, int)> {
    if frame_shape_ok(bytes) && frame_crc_matches(bytes) {
        match message_decoding(bytes.subrange(3, 3 + declared_body_len(bytes))) {
            Some(m) => Some((m, declared_body_len(bytes) + 6)),
            None => None,
        }
    } else {
        None
    }
}

/// Decodes the single RTCM 3 frame that begins at the start of `bytes`:
/// the preamble, declared length and CRC must hold and the body must decode.
pub fn decode_rtcm_frame(bytes: &[u8]) -> (r: Result<DecodedRtcmFrame, BindingError>)
    ensures
        r is Ok <==> frame_decoding(bytes@) is Some,
        r matches Ok(f) ==> frame_decoding(bytes@) == Some((f.message, f.frame_len as int)),
        r is Ok ==> frame_shape_ok(bytes@) && frame_crc_matches(bytes@),
        r matches Ok(f) ==> f.frame_len == declared_body_len(bytes@) + 6,
        !(frame_shape_ok(bytes@) && frame_crc_matches(bytes@)) ==> (r matches Err(e) && e.kind
            == ErrorKind::Engine),
        r matches Err(e) ==> e.kind == ErrorKind::Engine,
{
    let frame = match core_decode_frame(bytes) {
        Ok(f) => f,
        Err(e) => return Err(engine_error(&e)),
    };
    let frame_len = frame.frame_len;
    let message = match core_decode_message(frame.body.as_slice()) {
        Ok(m) => m,
        Err(e) => return Err(engine_error(&e)),
    };
    Ok(DecodedRtcmFrame { message, frame_len: frame_len as u32 })
}

/// Encodes a message body (without the transport frame): the engine's
/// encoding where it has one, an engine `Error` otherwise.
pub fn encode_rtcm(message: &sidereon_core::rtcm::Message) -> (r: Result<Vec<u8>, BindingError>)
    ensures
        r is Ok <==> message_encoding(*message) is Some,
        r matches Ok(b) ==> message_encoding(*message) == Some(b@),
        r matches Err(e) ==> e.kind == ErrorKind::Engine,
{
    match core_encode_message(message) {
        Ok(v) => Ok(v),
        Err(e) => Err(engine_error(&e)),
    }
}

/// Encodes a message and wraps it in a complete transport frame whose body
/// is the message's encoding; a message that does not encode, or whose body
/// is longer than 1023 bytes, is an engine `Error`.
pub fn encode_rtcm_frame(message: &sidereon_core::rtcm::Message) -> (r: Result<Vec<u8>, BindingError>)
    ensures
        r is Ok <==> (message_encoding(*message) matches Some(body) && body.len() <= max_frame_body_len()),
        r matches Ok(frame) ==> is_frame_of(*message, frame@),
        r matches Ok(frame) ==> is_complete_frame(frame@),
        r matches Err(e) ==> e.kind == ErrorKind::Engine,
{
    match core_message_to_frame(message) {
        Ok(v) => Ok(v),
        Err(e) => Err(engine_error(&e)),
    }
}

/// A complete frame decodes as a frame of exactly its own length, so every
/// frame `encode_rtcm_frame` writes is accepted by `decode_rtcm_frame` up to
/// the message body's own decoding.
pub proof fn lemma_complete_frame_decodes(frame: Seq<u8>)
    requires
        is_complete_frame(frame),
    ensures
        frame_shape_ok(frame),
        frame_crc_matches(frame),
        declared_body_len(frame) + 6 == frame.len(),
{
}

/// A frame written for a message decodes as what the message's own
/// encoding decodes to, with the frame's whole length: `decode_rtcm_frame`
/// on the output of `encode_rtcm_frame` agrees with `decode_rtcm_message`
/// on the output of `encode_rtcm`.
pub proof fn lemma_encoded_frame_decodes(message: sidereon_core::rtcm::Message, frame: Seq<u8>)
    requires
        is_frame_of(message, frame),
    ensures
        frame_decoding(frame) == (match message_decoding(message_encoding(message)->0) {
            Some(m) => Some((m, frame.len() as int)),
            None => None::<(sidereon_core::rtcm::Message, int)>,
        }),
{
    let body = message_encoding(message)->0;
    assert(frame.subrange(3, 3 + declared_body_len(frame)) =~= body);
}

/// One CRC-valid frame found by the scanner: its body and full frame size.
#[derive(Clone, Debug)]
pub struct OwnedFrame {
    pub body: Vec<u8>,
    pub frame_len: usize,
}

/// The (body, frame size) pairs of a sequence of frames.
pub open spec fn frames_view(frames: Seq<OwnedFrame>) -> Seq<(Seq<u8>, nat)> {
    Seq::new(frames.len(), |i: int| (frames[i].body@, frames[i].frame_len as nat))
}

/// The frames the engine's forgiving scanner yields for a buffer, in order.
pub uninterp spec fn scanned_frames(bytes: Seq<u8>) -> Seq<(Seq<u8>, nat)>;

/// A CRC-valid frame starts at `offset` of `bytes` and carries `body`: the
/// rest of the buffer from there opens with the preamble, declares the
/// body's length, holds the whole frame and passes the CRC check.
pub open spec fn valid_frame_at(bytes: Seq<u8>, offset: int, body: Seq<u8>) -> bool {
    let rest = bytes.subrange(offset, bytes.len() as int);
    &&& 0 <= offset <= bytes.len()
    &&& frame_shape_ok(rest)
    &&& frame_crc_matches(rest)
    &&& declared_body_len(rest) == body.len()
    &&& body == bytes.subrange(offset + 3, offset + 3 + body.len())
}

/// Whether a scanned frame is a CRC-valid frame somewhere in `bytes`.
pub open spec fn found_in(bytes: Seq<u8>, frame: (Seq<u8>, nat)) -> bool {
    &&& frame.1 == frame.0.len() + 6
    &&& exists|offset: int| valid_frame_at(bytes, offset, frame.0)
}

/// A CRC-valid frame starts at `offset`: the rest of the buffer from there
/// opens with the preamble, holds the frame it declares and passes the CRC.
pub open spec fn frame_starts_at(bytes: Seq<u8>, offset: int) -> bool {
    &&& 0 <= offset < bytes.len()
    &&& frame_shape_ok(bytes.subrange(offset, bytes.len() as int))
    &&& frame_crc_matches(bytes.subrange(offset, bytes.len() as int))
}

/// Where the `i`-th of `frames`, found at `offsets`, ends; zero before the
/// first.
pub open spec fn end_before(frames: Seq<(Seq<u8>, nat)>, offsets: Seq<int>, i: int) -> int {
    if i == 0 { 0 } else { offsets[i - 1] + frames[i - 1].1 }
}

/// `frames` are the CRC-valid frames of `bytes` in stream order, as a
/// receiver resynchronizing byte by byte finds them: each lies at its
/// offset, begins at or after the end of the one before, and is the first
/// frame start from there on; after the last one no frame starts.
pub open spec fn frames_in_stream_order(bytes: Seq<u8>, frames: Seq<(Seq<u8>, nat)>, offsets: Seq<int>) -> bool {
    &&& offsets.len() == frames.len()
    &&& forall|i: int| 0 <= i < frames.len() ==> valid_frame_at(bytes, #[trigger] offsets[i], frames[i].0)
    &&& forall|i: int| 0 <= i < frames.len() ==> end_before(frames, offsets, i) <= #[trigger] offsets[i]
    &&& forall|i: int, k: int| #![trigger offsets[i], frame_starts_at(bytes, k)]
        0 <= i < frames.len() && end_before(frames, offsets, i) <= k < offsets[i] ==> !frame_starts_at(bytes, k)
    &&& forall|k: int| end_before(frames, offsets, frames.len() as int) <= k < bytes.len()
        ==> !(#[trigger] frame_starts_at(bytes, k))
}

/// Runs `sidereon_core::rtcm::FrameScanner` over the buffer to completion;
/// every yielded frame is what `decode_frame` accepted at some position of
/// the buffer, so it is a CRC-valid frame found there, its size is its body
/// plus six bytes and its body is at most 1023 bytes. The scanner starts at
/// offset 0, steps one byte past any position where no frame starts, and
/// past the whole frame where one does, so the frames come in stream order
/// and a buffer that is exactly one complete frame is yielded whole.
#[verifier::external_body]
fn core_scan_frames(bytes: &[u8]) -> (r: Vec<OwnedFrame>)
    ensures
        frames_view(r@) == scanned_frames(bytes@),
        exists|offsets: Seq<int>| frames_in_stream_order(bytes@, frames_view(r@), offsets),
        forall|i: int| 0 <= i < r@.len() ==> r@[i].frame_len == r@[i].body@.len() + 6 && r@[i].body@.len() <= 1023,
        forall|i: int| 0 <= i < r@.len() ==> found_in(bytes@, frames_view(r@)[i]),
        is_complete_frame(bytes@) ==> frames_view(r@) == seq![
            (bytes@.subrange(3, bytes@.len() - 3), bytes@.len() as nat),
        ],
{
    sidereon_core::rtcm::FrameScanner::new(bytes)
        .map(|f| OwnedFrame { body: f.body.to_vec(), frame_len: f.frame_len })
        .collect()
}

/// A copy of a byte vector.
pub fn copy_bytes(v: &Vec<u8>) -> (r: Vec<u8>)
    ensures
        r@ == v@,
{
    let mut r: Vec<u8> = Vec::new();
    let mut i: usize = 0;
    while i < v.len()
        invariant
            i <= v@.len(),
            r@ == v@.subrange(0, i as int),
        decreases v@.len() - i,
    {
        r.push(v[i]);
        i = i + 1;
    }
    r
}

/// Walks the CRC-valid frames of a byte buffer one at a time.
pub struct FrameScanner {
    frames: Vec<OwnedFrame>,
    cursor: usize,
}

impl FrameScanner {
    #[verifier::type_invariant]
    spec fn cursor_in_range(&self) -> bool {
        self.cursor <= self.frames@.len()
    }

    /// The frames found, in order.
    pub closed spec fn frames(&self) -> Seq<(Seq<u8>, nat)> {
        frames_view(self.frames@)
    }

    /// How many frames `next` has handed out.
    pub closed spec fn position(&self) -> nat {
        self.cursor as nat
    }

    /// Scans `bytes` from the start; every frame found is a CRC-valid frame
    /// of `bytes`, and a buffer that is one complete frame yields exactly
    /// that frame.
    pub fn new(bytes: &[u8]) -> (s: Self)
        ensures
            s.frames() == scanned_frames(bytes@),
            exists|offsets: Seq<int>| frames_in_stream_order(bytes@, s.frames(), offsets),
            s.position() == 0,
            forall|i: int| 0 <= i < s.frames().len() ==> found_in(bytes@, #[trigger] s.frames()[i]),
            is_complete_frame(bytes@) ==> s.frames() == seq![
                (bytes@.subrange(3, bytes@.len() - 3), bytes@.len() as nat),
            ],
    {
        let frames = core_scan_frames(bytes);
        proof {
            let offsets = choose|offsets: Seq<int>| frames_in_stream_order(bytes@, frames_view(frames@), offsets);
            assert(frames_in_stream_order(bytes@, frames_view(frames@), offsets));
        }
        FrameScanner { frames, cursor: 0 }
    }

    /// The number of CRC-valid frames found.
    pub fn length(&self) -> (n: usize)
        ensures
            n == self.frames().len(),
    {
        self.frames.len()
    }

    /// The next frame, or `None` once every frame has been handed out.
    pub fn next(&mut self) -> (r: Option<OwnedFrame>)
        ensures
            final(self).frames() == old(self).frames(),
            old(self).position() < old(self).frames().len() ==> (r matches Some(f) && (f.body@,
                f.frame_len as nat) == old(self).frames()[old(self).position() as int]
                && final(self).position() == old(self).position() + 1),
            old(self).position() >= old(self).frames().len() ==> (r is None && final(self).position()
                == old(self).position()),
    {
        proof {
            use_type_invariant(&*self);
        }
        if self.cursor < self.frames.len() {
            let frame = &self.frames[self.cursor];
            let out = OwnedFrame { body: copy_bytes(&frame.body), frame_len: frame.frame_len };
            self.cursor = self.cursor + 1;
            Some(out)
        } else {
            None
        }
    }
}

/// The derived LLI of one MSM signal cell.
#[derive(Clone, Copy, Debug, PartialEq, Eq, Structural)]
pub struct CellLli {
    pub satellite_id: u8,
    pub signal_id: u8,
    pub lli: u8,
    pub min_lock_time_ms: Option<u32>,
}

/// What a lock-time tracker holds: per (system, satellite, signal) cell, the
/// raw MSM epoch time and minimum lock time last stored.
pub uninterp spec fn tracked_cells(tracker: sidereon_core::rtcm::LockTimeTracker) -> Map<(Constellation, u8, u8), (u32, Option<u32>)>;

/// What observing a message does to a tracker's cells: `None` when the
/// message is not MSM; otherwise the rows
/// `sidereon_core::rtcm::LockTimeTracker::observe` returns and the cells
/// afterwards.
pub uninterp spec fn tracker_observation(
    cells: Map<(Constellation, u8, u8), (u32, Option<u32>)>,
    message: sidereon_core::rtcm::Message,
) -> Option<(Seq<CellLli>, Map<(Constellation, u8, u8), (u32, Option<u32>)>)>;

/// Whether a message is the engine's `Message::Msm` variant.
pub uninterp spec fn message_is_msm(message: sidereon_core::rtcm::Message) -> bool;

/// Calls `sidereon_core::rtcm::LockTimeTracker::new`, which builds a tracker
/// with no cells.
#[verifier::external_body]
fn core_tracker_new() -> (r: sidereon_core::rtcm::LockTimeTracker)
    ensures
        tracked_cells(r).dom().is_empty(),
{
    sidereon_core::rtcm::LockTimeTracker::new()
}

/// Calls `sidereon_core::rtcm::LockTimeTracker::reset`, which clears the
/// cells.
#[verifier::external_body]
fn core_tracker_reset(tracker: &mut sidereon_core::rtcm::LockTimeTracker)
    ensures
        tracked_cells(*final(tracker)).dom().is_empty(),
{
    tracker.reset()
}

/// Calls `sidereon_core::rtcm::LockTimeTracker::observe` on an MSM message,
/// which it always accepts, and leaves the tracker untouched for any other
/// message; the rows and the
/// cells afterwards depend on the cells before and the message alone. Each
/// row's LLI comes from `derive_lli`, so only bits 0 and 1 can be set.
#[verifier::external_body]
fn core_tracker_observe(
    tracker: &mut sidereon_core::rtcm::LockTimeTracker,
    message: &sidereon_core::rtcm::Message,
) -> (r: Option<Vec<CellLli>>)
    ensures
        tracker_observation(tracked_cells(*old(tracker)), *message) is None ==> (r is None && *final(tracker) == *old(tracker)),
        tracker_observation(tracked_cells(*old(tracker)), *message) matches Some(o) ==> (r matches Some(rows)
            && rows@ == o.0 && tracked_cells(*final(tracker)) == o.1),
        r matches Some(rows) ==> forall|i: int| 0 <= i < rows@.len() ==> rows@[i].lli < 4,
        r is Some <==> message_is_msm(*message),
{
    match message {
        sidereon_core::rtcm::Message::Msm(msm) => Some(tracker.observe(msm).iter().map(|c| CellLli {
            satellite_id: c.satellite_id,
            signal_id: c.signal_id,
            lli: c.lli,
            min_lock_time_ms: c.min_lock_time_ms,
        }).collect()),
        _ => None,
    }
}

/// Stateful MSM lock-time tracker that derives RINEX LLI continuity bits.
pub struct RtcmLockTimeTracker {
    inner: sidereon_core::rtcm::LockTimeTracker,
}

impl RtcmLockTimeTracker {
    /// The per-cell lock history held.
    pub closed spec fn cells(&self) -> Map<(Constellation, u8, u8), (u32, Option<u32>)> {
        tracked_cells(self.inner)
    }

    /// An empty tracker.
    pub fn new() -> (t: Self)
        ensures
            t.cells().dom().is_empty(),
    {
        RtcmLockTimeTracker { inner: core_tracker_new() }
    }

    /// Drops all per-cell lock history.
    pub fn reset(&mut self)
        ensures
            final(self).cells().dom().is_empty(),
    {
        core_tracker_reset(&mut self.inner)
    }

    /// Derives LLI rows for one decoded MSM message and advances the history;
    /// any other message is a `TypeError` and leaves the tracker unchanged.
    pub fn observe(&mut self, message: &sidereon_core::rtcm::Message) -> (r: Result<Vec<CellLli>, BindingError>)
        ensures
            r is Ok <==> message_is_msm(*message),
            tracker_observation(old(self).cells(), *message) is None ==> (r matches Err(e)
                && e.kind == ErrorKind::Type && *final(self) == *old(self)
                && e.message@ == "RtcmLockTimeTracker.observe expects an MSM message"@),
            tracker_observation(old(self).cells(), *message) matches Some(o) ==> (r matches Ok(rows)
                && rows@ == o.0 && final(self).cells() == o.1),
            r matches Err(e) ==> e.kind == ErrorKind::Type && *final(self) == *old(self)
                && e.message@ == "RtcmLockTimeTracker.observe expects an MSM message"@,
            r matches Ok(rows) ==> forall|i: int| 0 <= i < rows@.len() ==> rows@[i].lli < 4,
    {
        match core_tracker_observe(&mut self.inner, message) {
            Some(rows) => Ok(rows),
            None => Err(type_error("RtcmLockTimeTracker.observe expects an MSM message".to_owned())),
        }
    }
}

/// The engine's decoded stream with its diagnostics, carried opaquely.
#[verifier::external_type_specification]
#[verifier::external_body]
pub struct ExRtcmStream(sidereon_core::rtcm::RtcmStream);

/// What `sidereon_core::rtcm::decode_stream` returns for a byte buffer.
pub uninterp spec fn decoded_stream(bytes: Seq<u8>) -> sidereon_core::rtcm::RtcmStream;

/// The `messages` field of a decoded stream.
pub uninterp spec fn stream_messages(stream: sidereon_core::rtcm::RtcmStream) -> Seq<sidereon_core::rtcm::Message>;

/// Calls `sidereon_core::rtcm::decode_stream`, a function of the bytes
/// alone.
#[verifier::external_body]
fn core_decode_stream(bytes: &[u8]) -> (r: sidereon_core::rtcm::RtcmStream)
    ensures
        r == decoded_stream(bytes@),
{
    sidereon_core::rtcm::decode_stream(bytes)
}

/// Takes the `messages` field of a decoded stream: every message decoded
/// from a CRC-valid frame, in stream order, with damaged frames and stray
/// bytes skipped.
#[verifier::external_body]
fn core_stream_messages(stream: sidereon_core::rtcm::RtcmStream) -> (r: Vec<sidereon_core::rtcm::Message>)
    ensures
        r@ == stream_messages(stream),
{
    stream.messages
}

/// Decodes every CRC-valid frame of a byte buffer into messages, skipping
/// frames whose CRC fails or whose body does not decode and resynchronizing
/// on the next preamble.
pub fn decode_rtcm(bytes: &[u8]) -> (r: Vec<sidereon_core::rtcm::Message>)
    ensures
        r@ == stream_messages(decoded_stream(bytes@)),
{
    core_stream_messages(core_decode_stream(bytes))
}

/// Decodes an RTCM byte stream into messages plus skip diagnostics.
pub fn decode_rtcm_stream(bytes: &[u8]) -> (r: sidereon_core::rtcm::RtcmStream)
    ensures
        r == decoded_stream(bytes@),
{
    core_decode_stream(bytes)
}

} // verus!
