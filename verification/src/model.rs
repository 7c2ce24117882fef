//! Responses for models and their versions.

use vstd::prelude::*;

verus! {

/// The user a model or version was created by.
#[derive(Debug, Clone)]
pub struct CreatedByUserResponse {
    pub id: i32,
    pub username: String,
    pub namespace: String,
}

/// The experiment a model version came from.
#[derive(Debug, Clone)]
pub struct ExperimentSourceResponse {
    pub id: i32,
    pub experiment_num: i32,
}

/// A model of a project.
#[derive(Debug, Clone)]
pub struct ModelResponse {
    pub id: String,
    pub project_id: i32,
    pub name: String,
    pub description: Option<String>,
    pub created_by: CreatedByUserResponse,
    pub created_at: String,
    pub version_count: u64,
}

/// Answer to presigning a model download: a URL per file.
#[derive(Debug, Clone)]
pub struct ModelDownloadResponse {
    pub files: Vec<PresignedModelFileUrlResponse>,
}

/// One presigned download URL of a model file.
#[derive(Debug, Clone)]
pub struct PresignedModelFileUrlResponse {
    pub rel_path: String,
    pub url: String,
}

} // verus!
