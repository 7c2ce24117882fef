//! The wire records stay plain data: construct a few and read them back.

use std::collections::HashMap;

use burn_central_client::artifact::{ArtifactFileSpecRequest, CreateArtifactRequest};
use burn_central_client::experiment::CreateExperimentSchema;
use burn_central_client::fleet::{FleetModelDownloadResponse, FleetPresignedModelFileUrlResponse, LogIngestionEvent};
use burn_central_client::job::ComputeProviderQueueJobRequest;
use burn_central_client::model::{CreatedByUserResponse, ModelResponse};
use burn_central_client::project::CodeUploadUrlsResponse;
use burn_central_client::user::{GetUserOrganizationsResponse, OrganizationResponse, UserResponseSchema};

#[test]
fn artifact_request_holds_its_files() {
    let req = CreateArtifactRequest {
        name: "weights".to_string(),
        kind: "checkpoint".to_string(),
        files: vec![ArtifactFileSpecRequest {
            rel_path: "model.bin".to_string(),
            size_bytes: 1024,
            checksum: "abc123".to_string(),
        }],
    };
    assert_eq!(req.files.len(), 1);
    assert_eq!(req.files[0].rel_path, "model.bin");
    assert_eq!(req.files[0].size_bytes, 1024);
}

#[test]
fn experiment_schema_keeps_the_routine() {
    let schema = CreateExperimentSchema {
        description: None,
        code_version_digest: "deadbeef".to_string(),
        routine_run: "train".to_string(),
    };
    assert!(schema.description.is_none());
    assert_eq!(schema.routine_run, "train");
}

#[test]
fn job_request_names_the_provider_group() {
    let req = ComputeProviderQueueJobRequest {
        compute_provider_group_name: "gpu-a".to_string(),
        digest: "d".to_string(),
        command: "run".to_string(),
    };
    assert_eq!(req.compute_provider_group_name, "gpu-a");
}

#[test]
fn model_response_counts_versions() {
    let model = ModelResponse {
        id: "m1".to_string(),
        project_id: 4,
        name: "classifier".to_string(),
        description: Some("test".to_string()),
        created_by: CreatedByUserResponse {
            id: 9,
            username: "ada".to_string(),
            namespace: "ada".to_string(),
        },
        created_at: "2024-01-01".to_string(),
        version_count: 3,
    };
    assert_eq!(model.version_count, 3);
    assert_eq!(model.created_by.username, "ada");
}

#[test]
fn code_upload_urls_may_be_absent() {
    let done = CodeUploadUrlsResponse {
        id: "c1".to_string(),
        digest: "d".to_string(),
        urls: None,
    };
    assert!(done.urls.is_none());
    let mut urls = HashMap::new();
    urls.insert("crate-a".to_string(), "https://upload/a".to_string());
    let owed = CodeUploadUrlsResponse {
        id: "c2".to_string(),
        digest: "d".to_string(),
        urls: Some(urls),
    };
    assert_eq!(owed.urls.unwrap().len(), 1);
}

#[test]
fn fleet_download_lists_files() {
    let resp = FleetModelDownloadResponse {
        model_version_id: "v7".to_string(),
        files: vec![FleetPresignedModelFileUrlResponse {
            rel_path: "model.bin".to_string(),
            url: "https://dl/model.bin".to_string(),
            size_bytes: 2048,
            checksum: "sha".to_string(),
        }],
    };
    assert_eq!(resp.files[0].size_bytes, 2048);
}

#[test]
fn log_event_carries_attributes() {
    let mut attributes = HashMap::new();
    attributes.insert("device".to_string(), "edge-1".to_string());
    let event = LogIngestionEvent {
        timestamp_ms: 1700000000000,
        level: "info".to_string(),
        message: "synced".to_string(),
        attributes,
    };
    assert_eq!(event.attributes["device"], "edge-1");
}

#[test]
fn organizations_list_their_namespaces() {
    let orgs = GetUserOrganizationsResponse {
        organizations: vec![OrganizationResponse {
            name: "Lab".to_string(),
            namespace: "lab".to_string(),
        }],
    };
    assert_eq!(orgs.organizations[0].namespace, "lab");
    let user = UserResponseSchema {
        _id: 1,
        username: "ada".to_string(),
        email: "ada@example.com".to_string(),
        namespace: "ada".to_string(),
    };
    assert_eq!(user.username, "ada");
}
