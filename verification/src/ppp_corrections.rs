//! Shape rules of the PPP correction inputs: an ocean-loading BLQ block is
//! three component rows (radial, east-west, north-south) of one value per
//! tidal constituent.
use vstd::prelude::*;

use crate::batch::{count_text, push_str};
use vstd::string::*;

use crate::error::{type_error, BindingError, ErrorKind};
use crate::format::{chars_to_string, push_decimal};
use crate::gnss::Constellation;
use crate::rtcm::{gnss_system_from_label, system_of_lower_label};
use crate::satellite::{core_parse_satellite, satellite_of_token, SatelliteId};

verus! {

/// Reads `sidereon_core::ppp_corrections::NUM_OCEAN_CONSTITUENTS`, the
/// number of tidal constituents of a BLQ row, which the engine defines as 11.
#[verifier::external_body]
pub(crate) fn ocean_constituents() -> (n: usize)
    ensures
        n == 11,
{
    sidereon_core::ppp_corrections::NUM_OCEAN_CONSTITUENTS
}

/// Message for a BLQ block without exactly three rows.
pub open spec fn blq_row_count_text(name: Seq<char>, n_rows: usize) -> Seq<char> {
    name + " must have 3 component rows (radial, EW, NS), got "@ + count_text(n_rows)
}

/// Message for a BLQ row without one value per constituent.
pub open spec fn blq_row_length_text(name: Seq<char>, index: usize, len: usize) -> Seq<char> {
    name + " row "@ + count_text(index) + " must have 11 constituents, got "@ + count_text(len)
}

/// A BLQ block has three component rows; another count is a `TypeError`
/// naming the block and the count.
pub fn check_blq_row_count(name: &str, n_rows: usize) -> (r: Result<(), BindingError>)
    ensures
        r is Ok <==> n_rows == 3,
        r matches Err(e) ==> e.kind == ErrorKind::Type && e.message@ == blq_row_count_text(
            name@,
            n_rows,
        ),
{
    if n_rows != 3 {
        let mut out: Vec<char> = Vec::new();
        push_str(&mut out, name);
        push_str(&mut out, " must have 3 component rows (radial, EW, NS), got ");
        push_decimal(&mut out, n_rows as u64);
        assert(out@ =~= blq_row_count_text(name@, n_rows));
        return Err(type_error(chars_to_string(out)));
    }
    Ok(())
}

/// Row `index` of a BLQ block holds one value per tidal constituent;
/// another length is a `TypeError` naming the block, the row and the length.
pub fn check_blq_row(name: &str, index: usize, len: usize) -> (r: Result<(), BindingError>)
    ensures
        r is Ok <==> len == 11,
        r matches Err(e) ==> e.kind == ErrorKind::Type && e.message@ == blq_row_length_text(
            name@,
            index,
            len,
        ),
{
    let expected = ocean_constituents();
    if len != expected {
        let mut out: Vec<char> = Vec::new();
        push_str(&mut out, name);
        push_str(&mut out, " row ");
        push_decimal(&mut out, index as u64);
        push_str(&mut out, " must have ");
        push_decimal(&mut out, expected as u64);
        push_str(&mut out, " constituents, got ");
        push_decimal(&mut out, len as u64);
        proof {
            reveal_with_fuel(crate::format::decimal_digits, 3);
            assert(crate::format::decimal_digits(11) =~= "11"@) by {
                reveal_strlit("11");
            }
        }
        assert(out@ =~= blq_row_length_text(name@, index, len)) by {
            reveal_strlit(" must have ");
            reveal_strlit(" must have 11 constituents, got ");
            reveal_strlit(" constituents, got ");
            reveal_strlit("11");
        }
        return Err(type_error(chars_to_string(out)));
    }
    Ok(())
}

/// A satellite with the observable pair its code biases use.
#[derive(Clone, Debug)]
pub struct SatObservablePair {
    pub sat: SatelliteId,
    pub obs1: String,
    pub obs2: String,
}

/// A constellation with the observable pair its code biases use.
#[derive(Clone, Debug)]
pub struct SystemObservablePair {
    pub system: Constellation,
    pub obs1: String,
    pub obs2: String,
}

/// The code-bias observable selection: per-satellite pairs, per-system
/// defaults, and the clock-reference pair of each system.
#[derive(Clone, Debug)]
pub struct CodeBiasSelection {
    pub per_sat: Vec<SatObservablePair>,
    pub defaults: Vec<SystemObservablePair>,
    pub clock_reference: Vec<SystemObservablePair>,
}

/// Every entry's first field is a satellite token the engine reads.
pub open spec fn sat_tokens_parse(v: Seq<(String, String, String)>) -> bool {
    forall|i: int| 0 <= i < v.len() ==> (#[trigger] satellite_of_token(v[i].0@)) is Some
}

/// Every entry's first field is one of the seven lower-case system labels.
pub open spec fn system_labels_parse(v: Seq<(String, String, String)>) -> bool {
    forall|i: int| 0 <= i < v.len() ==> (#[trigger] system_of_lower_label(v[i].0@)) is Some
}

/// `out` is `v` with each token read as its satellite, in order.
pub open spec fn sat_pairs_of(v: Seq<(String, String, String)>, out: Seq<SatObservablePair>) -> bool {
    &&& out.len() == v.len()
    &&& forall|i: int| 0 <= i < v.len() ==> {
        &&& Some((#[trigger] out[i]).sat) == satellite_of_token(v[i].0@)
        &&& out[i].obs1@ == v[i].1@
        &&& out[i].obs2@ == v[i].2@
    }
}

/// `out` is `v` with each label read as its constellation, in order.
pub open spec fn system_pairs_of(v: Seq<(String, String, String)>, out: Seq<SystemObservablePair>) -> bool {
    &&& out.len() == v.len()
    &&& forall|i: int| 0 <= i < v.len() ==> {
        &&& Some((#[trigger] out[i]).system) == system_of_lower_label(v[i].0@)
        &&& out[i].obs1@ == v[i].1@
        &&& out[i].obs2@ == v[i].2@
    }
}

/// Reads (satellite token, observable, observable) entries in order; an
/// unreadable token is a `TypeError` naming it.
pub fn sat_observable_pairs(v: &Vec<(String, String, String)>) -> (r: Result<Vec<SatObservablePair>, BindingError>)
    ensures
        r is Ok <==> sat_tokens_parse(v@),
        r matches Ok(out) ==> sat_pairs_of(v@, out@),
        r matches Err(e) ==> e.kind == ErrorKind::Type,
{
    let mut out: Vec<SatObservablePair> = Vec::new();
    let mut i: usize = 0;
    while i < v.len()
        invariant
            i <= v@.len(),
            out@.len() == i,
            forall|j: int| 0 <= j < i ==> (#[trigger] satellite_of_token(v@[j].0@)) is Some,
            forall|j: int| 0 <= j < i ==> {
                &&& Some((#[trigger] out@[j]).sat) == satellite_of_token(v@[j].0@)
                &&& out@[j].obs1@ == v@[j].1@
                &&& out@[j].obs2@ == v@[j].2@
            },
        decreases v@.len() - i,
    {
        let entry = &v[i];
        match core_parse_satellite(entry.0.as_str()) {
            Ok(sat) => {
                out.push(SatObservablePair { sat, obs1: entry.1.clone(), obs2: entry.2.clone() });
            },
            Err(_) => {
                let mut message: Vec<char> = Vec::new();
                push_str(&mut message, "invalid satellite token: ");
                push_str(&mut message, entry.0.as_str());
                assert(!sat_tokens_parse(v@) && satellite_of_token(v@[i as int].0@) is None);
                return Err(type_error(chars_to_string(message)));
            },
        }
        i = i + 1;
    }
    Ok(out)
}

/// Reads (system label, observable, observable) entries in order; an
/// unknown label is a `TypeError` naming it.
pub fn system_observable_pairs(v: &Vec<(String, String, String)>) -> (r: Result<Vec<SystemObservablePair>, BindingError>)
    ensures
        r is Ok <==> system_labels_parse(v@),
        r matches Ok(out) ==> system_pairs_of(v@, out@),
        r matches Err(e) ==> e.kind == ErrorKind::Type,
{
    let mut out: Vec<SystemObservablePair> = Vec::new();
    let mut i: usize = 0;
    while i < v.len()
        invariant
            i <= v@.len(),
            out@.len() == i,
            forall|j: int| 0 <= j < i ==> (#[trigger] system_of_lower_label(v@[j].0@)) is Some,
            forall|j: int| 0 <= j < i ==> {
                &&& Some((#[trigger] out@[j]).system) == system_of_lower_label(v@[j].0@)
                &&& out@[j].obs1@ == v@[j].1@
                &&& out@[j].obs2@ == v@[j].2@
            },
        decreases v@.len() - i,
    {
        let entry = &v[i];
        match gnss_system_from_label(entry.0.as_str()) {
            Ok(system) => {
                out.push(SystemObservablePair { system, obs1: entry.1.clone(), obs2: entry.2.clone() });
            },
            Err(e) => {
                assert(!system_labels_parse(v@) && system_of_lower_label(v@[i as int].0@) is None);
                return Err(e);
            },
        }
        i = i + 1;
    }
    Ok(out)
}

/// The code-bias observable selection of the PPP corrections: every token
/// and system label must parse, each list keeps its input order, and the
/// first entry that does not parse is a `TypeError`.
pub fn code_bias_selection(
    per_sat: Vec<(String, String, String)>,
    defaults: Vec<(String, String, String)>,
    clock_reference: Vec<(String, String, String)>,
) -> (r: Result<CodeBiasSelection, BindingError>)
    ensures
        r is Ok <==> (sat_tokens_parse(per_sat@) && system_labels_parse(defaults@) && system_labels_parse(clock_reference@)),
        r matches Ok(c) ==> {
            &&& sat_pairs_of(per_sat@, c.per_sat@)
            &&& system_pairs_of(defaults@, c.defaults@)
            &&& system_pairs_of(clock_reference@, c.clock_reference@)
        },
        r matches Err(e) ==> e.kind == ErrorKind::Type,
{
    let per_sat = sat_observable_pairs(&per_sat)?;
    let defaults = system_observable_pairs(&defaults)?;
    let clock_reference = system_observable_pairs(&clock_reference)?;
    Ok(CodeBiasSelection { per_sat, defaults, clock_reference })
}

} // verus!
