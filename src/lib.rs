//! Client-side core of a resource watch against a Kubernetes-compatible API:
//! the resource-version cursor, the framing of the streamed response body,
//! the classification of watch responses and the preparation of requests.
//! Beside it, the command lines of a cluster test harness that drives the
//! cluster through `kubectl`.

pub mod resource_version;
pub mod decoder;
pub mod api_watcher;
pub mod client;
pub mod namespace;
pub mod custom_resource_file;
pub mod test_pod;
pub mod framework;
