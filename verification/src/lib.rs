//! BACO scanner core: the verified pipeline table, scheduling decisions,
//! finding aggregation and the data types shared by the scan phases.

pub mod phase;
pub mod text;
pub mod graph;
pub mod finding;
pub mod dedup;
pub mod json;
pub mod digest;
pub mod snippet;
pub mod semgrep;
pub mod gate;
pub mod orchestration;
pub mod types;
pub mod staging;
pub mod git_url;
pub mod scan;
pub mod checkpoint;
pub mod verification;
pub mod budget;
pub mod static_analysis;
pub mod discovery;
pub mod agent;
