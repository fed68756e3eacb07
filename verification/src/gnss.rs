//! GNSS constellation identity shared by the RTCM, RTK-arc, RINEX-QC and
//! orbit-determination bindings.
use vstd::prelude::*;

verus! {

/// A GNSS constellation.
#[derive(Clone, Copy, Debug, PartialEq, Eq, Structural)]
pub enum Constellation {
    Gps,
    Glonass,
    Galileo,
    BeiDou,
    Qzss,
    Navic,
    Sbas,
}

/// The canonical display label of a constellation, as the engine prints it.
pub open spec fn display_label(s: Constellation) -> Seq<char> {
    match s {
        Constellation::Gps => "GPS"@,
        Constellation::Glonass => "GLONASS"@,
        Constellation::Galileo => "Galileo"@,
        Constellation::BeiDou => "BeiDou"@,
        Constellation::Qzss => "QZSS"@,
        Constellation::Navic => "NavIC"@,
        Constellation::Sbas => "SBAS"@,
    }
}

/// Each `Constellation` has its own fixed label: Gps is "GPS", Glonass is "GLONASS", Galileo is "Galileo", BeiDou is "BeiDou", Qzss is "QZSS", Navic is "NavIC", Sbas is "SBAS".
pub proof fn law_display_label_literals(s: Constellation)
    ensures
        s is Gps ==> display_label(s) == "GPS"@,
        s is Glonass ==> display_label(s) == "GLONASS"@,
        s is Galileo ==> display_label(s) == "Galileo"@,
        s is BeiDou ==> display_label(s) == "BeiDou"@,
        s is Qzss ==> display_label(s) == "QZSS"@,
        s is Navic ==> display_label(s) == "NavIC"@,
        s is Sbas ==> display_label(s) == "SBAS"@,
{
}

/// The canonical display label of `s` (GPS, GLONASS, Galileo, BeiDou, QZSS,
/// NavIC, SBAS).
pub fn system_display_label(s: Constellation) -> (r: &'static str)
    ensures
        r@ == display_label(s),
        s is Gps ==> r@ == "GPS"@,
        s is Glonass ==> r@ == "GLONASS"@,
        s is Galileo ==> r@ == "Galileo"@,
        s is BeiDou ==> r@ == "BeiDou"@,
        s is Qzss ==> r@ == "QZSS"@,
        s is Navic ==> r@ == "NavIC"@,
        s is Sbas ==> r@ == "SBAS"@,
{
    match s {
        Constellation::Gps => "GPS",
        Constellation::Glonass => "GLONASS",
        Constellation::Galileo => "Galileo",
        Constellation::BeiDou => "BeiDou",
        Constellation::Qzss => "QZSS",
        Constellation::Navic => "NavIC",
        Constellation::Sbas => "SBAS",
    }
}

/// The lower-case label used by the RTCM helpers.
pub open spec fn lower_label(s: Constellation) -> Seq<char> {
    match s {
        Constellation::Gps => "gps"@,
        Constellation::Glonass => "glonass"@,
        Constellation::Galileo => "galileo"@,
        Constellation::BeiDou => "beidou"@,
        Constellation::Qzss => "qzss"@,
        Constellation::Navic => "navic"@,
        Constellation::Sbas => "sbas"@,
    }
}

/// Each `Constellation` has its own fixed label: Gps is "gps", Glonass is "glonass", Galileo is "galileo", BeiDou is "beidou", Qzss is "qzss", Navic is "navic", Sbas is "sbas".
pub proof fn law_lower_label_literals(s: Constellation)
    ensures
        s is Gps ==> lower_label(s) == "gps"@,
        s is Glonass ==> lower_label(s) == "glonass"@,
        s is Galileo ==> lower_label(s) == "galileo"@,
        s is BeiDou ==> lower_label(s) == "beidou"@,
        s is Qzss ==> lower_label(s) == "qzss"@,
        s is Navic ==> lower_label(s) == "navic"@,
        s is Sbas ==> lower_label(s) == "sbas"@,
{
}

/// The RINEX single-letter system identifier.
pub open spec fn rinex_letter(s: Constellation) -> Seq<char> {
    match s {
        Constellation::Gps => "G"@,
        Constellation::Glonass => "R"@,
        Constellation::Galileo => "E"@,
        Constellation::BeiDou => "C"@,
        Constellation::Qzss => "J"@,
        Constellation::Navic => "I"@,
        Constellation::Sbas => "S"@,
    }
}

/// Each `Constellation` has its own fixed label: Gps is "G", Glonass is "R", Galileo is "E", BeiDou is "C", Qzss is "J", Navic is "I", Sbas is "S".
pub proof fn law_rinex_letter_literals(s: Constellation)
    ensures
        s is Gps ==> rinex_letter(s) == "G"@,
        s is Glonass ==> rinex_letter(s) == "R"@,
        s is Galileo ==> rinex_letter(s) == "E"@,
        s is BeiDou ==> rinex_letter(s) == "C"@,
        s is Qzss ==> rinex_letter(s) == "J"@,
        s is Navic ==> rinex_letter(s) == "I"@,
        s is Sbas ==> rinex_letter(s) == "S"@,
{
}

/// Converts the engine's constellation into this crate's.
#[verifier::external_body]
pub(crate) fn system_from_core(s: sidereon_core::GnssSystem) -> Constellation {
    match s {
        sidereon_core::GnssSystem::Gps => Constellation::Gps,
        sidereon_core::GnssSystem::Glonass => Constellation::Glonass,
        sidereon_core::GnssSystem::Galileo => Constellation::Galileo,
        sidereon_core::GnssSystem::BeiDou => Constellation::BeiDou,
        sidereon_core::GnssSystem::Qzss => Constellation::Qzss,
        sidereon_core::GnssSystem::Navic => Constellation::Navic,
        sidereon_core::GnssSystem::Sbas => Constellation::Sbas,
    }
}

/// Converts this crate's constellation into the engine's.
#[verifier::external_body]
pub(crate) fn system_to_core(s: Constellation) -> sidereon_core::GnssSystem {
    match s {
        Constellation::Gps => sidereon_core::GnssSystem::Gps,
        Constellation::Glonass => sidereon_core::GnssSystem::Glonass,
        Constellation::Galileo => sidereon_core::GnssSystem::Galileo,
        Constellation::BeiDou => sidereon_core::GnssSystem::BeiDou,
        Constellation::Qzss => sidereon_core::GnssSystem::Qzss,
        Constellation::Navic => sidereon_core::GnssSystem::Navic,
        Constellation::Sbas => sidereon_core::GnssSystem::Sbas,
    }
}

/// The engine's constellation type, carried opaquely.
#[verifier::external_type_specification]
#[verifier::external_body]
pub struct ExCoreGnssSystem(sidereon_core::GnssSystem);

} // verus!
