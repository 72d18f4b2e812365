//! Mirrors pull requests that come from forks on one code-hosting service
//! into branches on another, and relays commands written as pull-request
//! comments to the second service's pipelines.

pub mod api;
pub mod cache;
pub mod commands;
pub mod config;
pub mod encoding;
pub mod errors;
pub mod github;
pub mod handle;
pub mod relay;
pub mod service;
pub mod text;
pub mod worker;
