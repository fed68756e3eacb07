//! Orbit-determination report vocabulary.
use vstd::prelude::*;
use crate::error::{invalid_label_message, invalid_label_text, type_error, BindingError, ErrorKind};
use crate::gnss::{display_label, system_display_label, Constellation};
use crate::text::str_eq;

verus! {

/// The label of a constellation in residual ledgers: its display label.
pub fn system_label(system: Constellation) -> (r: &'static str)
    ensures
        r@ == display_label(system),
        system is Gps ==> r@ == "GPS"@,
        system is Glonass ==> r@ == "GLONASS"@,
        system is Galileo ==> r@ == "Galileo"@,
        system is BeiDou ==> r@ == "BeiDou"@,
        system is Qzss ==> r@ == "QZSS"@,
        system is Navic ==> r@ == "NavIC"@,
        system is Sbas ==> r@ == "SBAS"@,
{
    system_display_label(system)
}

/// The dense linear solver of the trust-region step.
#[derive(Clone, Copy, Debug, PartialEq, Eq, Structural)]
pub enum LinearSolve {
    NalgebraLu,
    OwnedGaussianFirstTie,
}

/// The solver a label names, if any; each has a camel-case and a
/// snake-case spelling.
pub open spec fn linear_solve_of_label(t: Seq<char>) -> Option<LinearSolve> {
    if t == "nalgebraLu"@ || t == "nalgebra_lu"@ {
        Some(LinearSolve::NalgebraLu)
    } else if t == "ownedGaussianFirstTie"@ || t == "owned_gaussian_first_tie"@ {
        Some(LinearSolve::OwnedGaussianFirstTie)
    } else {
        None
    }
}

/// Each label names a fixed `LinearSolve`: "nalgebraLu" names NalgebraLu, "nalgebra_lu" names NalgebraLu, "ownedGaussianFirstTie" names OwnedGaussianFirstTie, "owned_gaussian_first_tie" names OwnedGaussianFirstTie; no other text names one.
pub proof fn law_linear_solve_of_label_literals(t: Seq<char>)
    ensures
        linear_solve_of_label("nalgebraLu"@) == Some(LinearSolve::NalgebraLu),
        linear_solve_of_label("nalgebra_lu"@) == Some(LinearSolve::NalgebraLu),
        linear_solve_of_label("ownedGaussianFirstTie"@) == Some(LinearSolve::OwnedGaussianFirstTie),
        linear_solve_of_label("owned_gaussian_first_tie"@) == Some(LinearSolve::OwnedGaussianFirstTie),
        linear_solve_of_label(t) is Some ==> (t == "nalgebraLu"@ || t == "nalgebra_lu"@ || t == "ownedGaussianFirstTie"@ || t == "owned_gaussian_first_tie"@),
{
    reveal_strlit("nalgebraLu");
    reveal_strlit("nalgebra_lu");
    reveal_strlit("ownedGaussianFirstTie");
    reveal_strlit("owned_gaussian_first_tie");
    assert("nalgebraLu"@.len() == 10);
    assert("nalgebra_lu"@.len() == 11);
    assert("ownedGaussianFirstTie"@.len() == 21);
    assert("owned_gaussian_first_tie"@.len() == 24);
}

/// Parses the optional `linearSolve` option; absent means the owned
/// Gaussian elimination, an unknown label is a `TypeError`.
pub fn linear_solve(label: Option<String>) -> (r: Result<LinearSolve, BindingError>)
    ensures
        (label matches Some(s) && s@ == "nalgebraLu"@) ==> (r matches Ok(x) && x == LinearSolve::NalgebraLu),
        (label matches Some(s) && s@ == "nalgebra_lu"@) ==> (r matches Ok(x) && x == LinearSolve::NalgebraLu),
        (label matches Some(s) && s@ == "ownedGaussianFirstTie"@) ==> (r matches Ok(x) && x == LinearSolve::OwnedGaussianFirstTie),
        (label matches Some(s) && s@ == "owned_gaussian_first_tie"@) ==> (r matches Ok(x) && x == LinearSolve::OwnedGaussianFirstTie),
        r matches Err(e) ==> (label matches Some(l) && e.message@ == invalid_label_text("orbit linearSolve"@, l@, ": expected \"nalgebraLu\" or \"ownedGaussianFirstTie\""@)),
        match label {
            None => r matches Ok(w) && w == LinearSolve::OwnedGaussianFirstTie,
            Some(l) => match linear_solve_of_label(l@) {
                Some(v) => r matches Ok(w) && w == v,
                None => r matches Err(e) && e.kind == ErrorKind::Type,
            },
        },
{
    proof {
        law_linear_solve_of_label_literals(Seq::empty());
    }
    match label {
        None => Ok(LinearSolve::OwnedGaussianFirstTie),
        Some(l) => {
            let t = l.as_str();
            if str_eq(t, "nalgebraLu") || str_eq(t, "nalgebra_lu") {
                Ok(LinearSolve::NalgebraLu)
            } else if str_eq(t, "ownedGaussianFirstTie") || str_eq(t, "owned_gaussian_first_tie") {
                Ok(LinearSolve::OwnedGaussianFirstTie)
            } else {
                Err(
                    type_error(
                        invalid_label_message(
                            "orbit linearSolve",
                            t,
                            ": expected \"nalgebraLu\" or \"ownedGaussianFirstTie\"",
                        ),
                    ),
                )
            }
        },
    }
}

/// The two spellings of each solver name it and nothing else.
pub proof fn lemma_linear_solve_spellings()
    ensures
        linear_solve_of_label("nalgebraLu"@) == Some(LinearSolve::NalgebraLu),
        linear_solve_of_label("nalgebra_lu"@) == Some(LinearSolve::NalgebraLu),
        linear_solve_of_label("ownedGaussianFirstTie"@) == Some(LinearSolve::OwnedGaussianFirstTie),
        linear_solve_of_label("owned_gaussian_first_tie"@) == Some(LinearSolve::OwnedGaussianFirstTie),
{
    reveal_strlit("nalgebraLu");
    reveal_strlit("nalgebra_lu");
    reveal_strlit("ownedGaussianFirstTie");
    reveal_strlit("owned_gaussian_first_tie");
    assert("nalgebraLu"@.len() == 10 && "nalgebra_lu"@.len() == 11);
    assert("ownedGaussianFirstTie"@.len() == 21 && "owned_gaussian_first_tie"@.len() == 24);
}

} // verus!
