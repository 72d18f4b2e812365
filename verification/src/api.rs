//! Clients of the two services' HTTP APIs, as descriptions of the requests
//! to send and readings of the answers.

pub mod github_client;
pub mod github_proto;
pub mod http;
pub mod gitlab_client;
pub mod models;
