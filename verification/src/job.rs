//! Requests for remote jobs.

use vstd::prelude::*;

verus! {

/// Request to queue a job on a compute provider group.
#[derive(Debug, Clone)]
pub struct ComputeProviderQueueJobRequest {
    pub compute_provider_group_name: String,
    pub digest: String,
    pub command: String,
}

} // verus!
