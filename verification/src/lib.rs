//! Verified core of a virtual-host configuration generator.
//!
//! A list of site records is validated against structural rules, then each
//! site is rendered into the text of one server-configuration file. File
//! writing and input parsing live with the caller; this crate provides the
//! validation gate, the rendering engine with its two value filters, and the
//! decision logic for reporting the first failure of a generation run.

use vstd::prelude::*;

pub mod domain;
pub mod filters;
pub mod model;
pub mod numeral;
pub mod render;
pub mod validate;

use crate::model::{Site, UnverifiedConfig};
use crate::render::{spec_render_site, OutputFile};
use crate::validate::{spec_violations, ValidationError, Violation};

verus! {

/// Validates the raw site list and, when it passes, renders every site.
/// On success the caller receives one output file per site, in input
/// order; on failure it receives every violation found, and nothing is
/// rendered.
pub fn run(config: UnverifiedConfig) -> (r: Result<Vec<OutputFile>, ValidationError>)
    ensures
        match r {
            Ok(files) => {
                &&& spec_violations(config.sites@) == Seq::<Violation>::empty()
                &&& files@.len() == config.sites@.len()
                &&& forall|i: int|
                    0 <= i < files@.len() ==> {
                        &&& (#[trigger] files@[i]).name@ == config.sites@[i].domain@ + ".conf"@
                        &&& files@[i].content@ == spec_render_site(config.sites@[i])
                    }
            },
            Err(e) => {
                &&& e.violations@ == spec_violations(config.sites@)
                &&& e.violations@.len() > 0
            },
        },
{
    match config.validate() {
        Ok(verified) => Ok(verified.generate()),
        Err(e) => Err(e),
    }
}

/// The first error among the outcomes of the per-site units of work, or
/// `None` when every unit succeeded.
pub open spec fn spec_first_error(outcomes: Seq<Result<(), String>>) -> Option<String>
    decreases outcomes.len(),
{
    if outcomes.len() == 0 {
        None
    } else if outcomes[0] is Err {
        Some(outcomes[0]->Err_0)
    } else {
        spec_first_error(outcomes.drop_first())
    }
}

/// Joins the outcomes of a generation run: every unit of work is allowed
/// to finish, and the first error in input order becomes the run's error.
pub fn first_error(outcomes: &Vec<Result<(), String>>) -> (r: Option<String>)
    ensures
        r == spec_first_error(outcomes@),
{
    let mut i: usize = 0;
    proof {
        assert(outcomes@.skip(0) =~= outcomes@);
    }
    while i < outcomes.len()
        invariant
            0 <= i <= outcomes@.len(),
            spec_first_error(outcomes@) == spec_first_error(outcomes@.skip(i as int)),
        decreases outcomes@.len() - i,
    {
        match &outcomes[i] {
            Ok(_) => {
                proof {
                    assert(outcomes@.skip(i as int)[0] == outcomes@[i as int]);
                    assert(outcomes@.skip(i as int).drop_first() =~= outcomes@.skip(i + 1));
                }
                i = i + 1;
            },
            Err(message) => {
                proof {
                    assert(outcomes@.skip(i as int)[0] == outcomes@[i as int]);
                }
                return Some(message.clone());
            },
        }
    }
    proof {
        assert(outcomes@.skip(outcomes@.len() as int) =~= Seq::<Result<(), String>>::empty());
    }
    None
}

/// A run over an empty site list owes success: the empty list breaks no
/// rule, so validation passes and generation yields no files — existing
/// output files are never part of the plan and so never touched.
pub proof fn lemma_empty_run_is_noop()
    ensures
        spec_violations(Seq::<Site>::empty()) == Seq::<Violation>::empty(),
{
}

} // verus!
