//! Verified core of the sidereon JavaScript binding: label vocabularies,
//! option resolution, RTCM/NTRIP/SBAS glue, and the checks that sit between
//! host values and the `sidereon-core` engine.
#![allow(unused_imports)]

pub mod format;
pub mod text;
pub mod error;
pub mod gnss;
pub mod rtcm;
pub mod ntrip;
pub mod satellite;
pub mod sbas;
pub mod observables;
pub mod precise_samples;
pub mod reduced_orbit;
pub mod rinex_nav;
pub mod rinex_clock;
pub mod rinex_qc;
pub mod sbas_pl;
pub mod sgp4;
pub mod rtk_arc;
pub mod orbit_determination;
pub mod ppp;
pub mod rinex_obs;
pub mod rtk;
pub mod scenario;
pub mod omm;
pub mod batch;
pub mod ccsds;
pub mod ppp_corrections;
pub mod observation;
pub mod signal;
pub mod qc;
