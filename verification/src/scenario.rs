//! Deterministic scenario simulator constants and seed formatting.
use vstd::prelude::*;
use crate::format::{chars_to_string, hex_digits, push_hex};

verus! {

/// `0x` followed by the 16 lower-case hexadecimal digits of `v`, most
/// significant first.
pub open spec fn hex_u64_text(v: u64) -> Seq<char> {
    seq!['0', 'x'] + hex_digits(v as nat, 16)
}

/// Formats `v` as `0x` and 16 zero-padded lower-case hexadecimal digits.
pub fn hex_u64(value: u64) -> (r: String)
    ensures
        r@ == hex_u64_text(value),
{
    let mut out: Vec<char> = Vec::new();
    out.push('0');
    out.push('x');
    push_hex(&mut out, value, 16);
    assert(out@ =~= hex_u64_text(value));
    chars_to_string(out)
}

/// Reads `sidereon_core::scenario::SCENARIO_SCHEMA_VERSION`, which the
/// engine defines as 1.
#[verifier::external_body]
fn core_scenario_schema_version() -> (r: u32)
    ensures
        r == 1,
{
    sidereon_core::scenario::SCENARIO_SCHEMA_VERSION
}

/// Reads `sidereon_core::scenario::DEFAULT_SCENARIO_SEED`, which the engine
/// defines as `0x515c_1e7e_0b5e_a11d`.
#[verifier::external_body]
fn core_default_scenario_seed() -> (r: u64)
    ensures
        r == 0x515c_1e7e_0b5e_a11du64,
{
    sidereon_core::scenario::DEFAULT_SCENARIO_SEED
}

/// Reads `sidereon_core::scenario::SCENARIO_ENGINE_VERSION`, which the
/// engine defines as its package version (3.0.6 in the version this crate
/// builds against) followed by `:scenario-observables-v1`.
#[verifier::external_body]
fn core_scenario_engine_version() -> (r: String)
    ensures
        r@ == "3.0.6:scenario-observables-v1"@,
{
    sidereon_core::scenario::SCENARIO_ENGINE_VERSION.to_string()
}

/// The scenario schema version the binding accepts.
pub fn scenario_schema_version() -> (r: u32)
    ensures
        r == 1,
{
    core_scenario_schema_version()
}

/// The engine version string used in deterministic outputs.
pub fn scenario_engine_version() -> (r: String)
    ensures
        r@ == "3.0.6:scenario-observables-v1"@,
{
    core_scenario_engine_version()
}

/// The default scenario seed as a hexadecimal string.
pub fn default_scenario_seed_hex() -> (r: String)
    ensures
        r@ == hex_u64_text(0x515c_1e7e_0b5e_a11du64),
{
    hex_u64(core_default_scenario_seed())
}

} // verus!
