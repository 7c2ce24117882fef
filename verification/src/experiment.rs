//! Requests for experiments.

use vstd::prelude::*;

verus! {

/// Request to create an experiment for a project.
#[derive(Debug, Clone)]
pub struct CreateExperimentSchema {
    pub description: Option<String>,
    pub code_version_digest: String,
    pub routine_run: String,
}

} // verus!
