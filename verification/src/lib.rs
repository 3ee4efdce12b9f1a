//! A metadata-driven wizard core for assembling a project-scaffolding
//! invocation: schema categories fetched from a metadata service are
//! normalized into uniform choice lists with resolved defaults, a fixed
//! sequence of prompt steps collects an answer set, and the answer set is
//! compiled into an exact argument vector for the external scaffolding tool.

pub mod command;
pub mod engine;
pub mod errors;
pub mod report;
pub mod resolve;
pub mod schema;
pub mod text;
