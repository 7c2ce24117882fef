//! Responses for users and their organizations.

use vstd::prelude::*;

verus! {

/// The user a session belongs to.
#[derive(Debug, Clone)]
pub struct UserResponseSchema {
    pub _id: i32,
    pub username: String,
    pub email: String,
    pub namespace: String,
}

/// The organizations a user belongs to.
#[derive(Debug, Clone)]
pub struct GetUserOrganizationsResponse {
    pub organizations: Vec<OrganizationResponse>,
}

/// One organization.
#[derive(Debug, Clone)]
pub struct OrganizationResponse {
    pub name: String,
    pub namespace: String,
}

} // verus!
