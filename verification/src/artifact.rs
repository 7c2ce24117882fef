//! Requests and responses for experiment artifacts.

use vstd::prelude::*;

verus! {

/// One file of an artifact, as announced to the service.
#[derive(Debug, Clone)]
pub struct ArtifactFileSpecRequest {
    /// Path of the file relative to the artifact root.
    pub rel_path: String,
    /// Size of the file in bytes.
    pub size_bytes: u64,
    /// Checksum of the file's contents.
    pub checksum: String,
}

/// Request to create an artifact with its files.
#[derive(Debug, Clone)]
pub struct CreateArtifactRequest {
    pub name: String,
    pub kind: String,
    pub files: Vec<ArtifactFileSpecRequest>,
}

/// Request to add files to an existing artifact.
#[derive(Debug, Clone)]
pub struct AddFilesToArtifactRequest {
    pub files: Vec<ArtifactFileSpecRequest>,
}

/// Request to complete an artifact upload; `None` marks every file complete.
#[derive(Debug, Clone)]
pub struct CompleteUploadRequest {
    pub file_names: Option<Vec<String>>,
}

/// A multipart upload and the presigned URL of each of its parts.
#[derive(Debug, Clone)]
pub struct MultipartUploadResponse {
    pub id: String,
    pub parts: Vec<PresignedUploadUrlResponse>,
}

/// One presigned upload URL of a multipart upload.
#[derive(Debug, Clone)]
pub struct PresignedUploadUrlResponse {
    pub part: u32,
    pub url: String,
    pub size_bytes: u64,
}

/// The upload URLs granted for one artifact file.
#[derive(Debug, Clone)]
pub struct PresignedArtifactFileUploadUrlsResponse {
    pub rel_path: String,
    pub urls: MultipartUploadResponse,
}

/// Answer to creating an artifact: its id and the upload URLs of its files.
#[derive(Debug, Clone)]
pub struct ArtifactCreationResponse {
    pub id: String,
    pub files: Vec<PresignedArtifactFileUploadUrlsResponse>,
}

/// Answer to adding files to an artifact: the upload URLs of the new files.
#[derive(Debug, Clone)]
pub struct ArtifactAddFileResponse {
    pub files: Vec<PresignedArtifactFileUploadUrlsResponse>,
}

/// One presigned download URL of an artifact file.
#[derive(Debug, Clone)]
pub struct PresignedArtifactFileUrlResponse {
    pub rel_path: String,
    pub url: String,
}

/// Answer to presigning an artifact download: a URL per file.
#[derive(Debug, Clone)]
pub struct ArtifactDownloadResponse {
    pub files: Vec<PresignedArtifactFileUrlResponse>,
}

/// The experiment an artifact came from.
#[derive(Debug, Clone)]
pub struct ArtifactSourceResponse {
    pub id: i32,
    pub experiment_num: i32,
}

} // verus!
