//! The parts of the services' JSON payloads that the bot reads.

pub mod github;
pub mod gitlab;
