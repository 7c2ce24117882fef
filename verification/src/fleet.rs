//! Requests and responses for fleet devices.

use std::collections::HashMap;

use vstd::prelude::*;

verus! {

/// Request to download the model assigned to a fleet device.
#[derive(Debug, Clone)]
pub struct DownloadModelRequest {
    /// Fleet registration token provided by the fleet administrator.
    pub registration_token: String,
    /// Unique identity key for the device (stable across runs).
    pub identity_key: String,
}

/// Optional metadata attached to a metric name.
#[derive(Debug, Clone)]
pub struct MetricDescriptorIngestionEvent {
    pub name: String,
    pub kind: String,
    pub unit: Option<String>,
    pub description: Option<String>,
}

/// A log line to ingest.
#[derive(Debug, Clone)]
pub struct LogIngestionEvent {
    pub timestamp_ms: i64,
    pub level: String,
    pub message: String,
    /// Attribute names and values attached to the line.
    pub attributes: HashMap<String, String>,
}

/// One presigned download URL of a fleet model file.
#[derive(Debug, Clone)]
pub struct FleetPresignedModelFileUrlResponse {
    /// Path relative to the model root.
    pub rel_path: String,
    /// Presigned URL from which to download file bytes.
    pub url: String,
    /// Expected file size in bytes.
    pub size_bytes: u64,
    /// Expected checksum.
    pub checksum: String,
}

/// Answer to a fleet model download: the version and a URL per file.
#[derive(Debug, Clone)]
pub struct FleetModelDownloadResponse {
    /// The model version identifier.
    pub model_version_id: String,
    /// List of presigned URLs for each model file.
    pub files: Vec<FleetPresignedModelFileUrlResponse>,
}

} // verus!
