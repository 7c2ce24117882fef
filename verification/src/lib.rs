//! Client-side building blocks for the Burn Central service: the verified
//! connection manager for the realtime experiment stream, the endpoint and
//! URL computations behind the HTTP and websocket clients, the mapping of
//! HTTP statuses to client errors, and the plain request/response records
//! that travel over the wire.

pub mod artifact;
pub mod endpoint;
pub mod errors;
pub mod experiment;
pub mod fleet;
pub mod http;
pub mod job;
pub mod model;
pub mod project;
pub mod user;
pub mod websocket;
