//! Requests and responses for projects and their published code.

use std::collections::HashMap;

use vstd::prelude::*;

verus! {

/// A function registered with a published code version.
#[derive(Debug, Clone)]
pub struct RegisteredFunctionRequest {
    pub mod_path: String,
    pub fn_name: String,
    pub proc_type: String,
    pub code: String,
    pub routine: String,
}

/// The metadata of a published code version: its registered functions.
#[derive(Debug, Clone)]
pub struct BurnCentralCodeMetadataRequest {
    pub functions: Vec<RegisteredFunctionRequest>,
}

/// A project of a user or an organization.
#[derive(Debug, Clone)]
pub struct ProjectResponse {
    pub project_name: String,
    pub namespace_name: String,
    pub namespace_type: String,
    pub description: String,
    pub created_by: String,
}

/// Answer to publishing a code version: its id, digest, and an upload URL per
/// crate when uploads are owed.
#[derive(Debug, Clone)]
pub struct CodeUploadUrlsResponse {
    pub id: String,
    pub digest: String,
    pub urls: Option<HashMap<String, String>>,
}

} // verus!
