//! A typed client for a version-control hosting service's REST API.
//!
//! The crate turns strongly-typed operations (list pull requests, create a
//! comment) into authenticated HTTP requests and decodes the JSON responses
//! back into typed records.  The request pipeline, the JSON codec and the
//! resource-path construction are verified; the network transport is an
//! interface that callers supply.

pub mod codec;
pub mod commit_comments;
pub mod commits;
pub mod errors;
pub mod events;
pub mod github_client;
pub mod gittm;
pub mod issue_comments;
pub mod json;
pub mod json_laws;
pub mod pull_requests;
pub mod repos;
pub mod text;
pub mod types;
pub mod users;

pub use commit_comments::CommitCommenter;
pub use github_client::{GithubClient, Method, SimpleClient, TransportClient};
pub use issue_comments::IssueCommenter;
pub use pull_requests::PullRequester;
pub use repos::Repoer;
