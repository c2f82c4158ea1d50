//! Access-control analysis of named-pipe endpoints: parsing of access-control
//! lists, the writable verdict with its tie-break rule, compact rendering of
//! permission masks, a run-scoped principal-name cache and report assembly.
pub mod text;
pub mod mask;
pub mod sid;
pub mod acl;
pub mod analyze;
pub mod cache;
pub mod report;
pub mod render;
pub mod args;

