//! Monitoring probe core for an LSF compute cluster: translates per-host
//! status bitmasks into symbolic names and pass/fail verdicts, resolves
//! reported host names through a configured mapping and prefix, builds the
//! per-host status records (with a synthetic record when the cluster is
//! unreachable), aggregates the records into a process exit signal, and
//! renders the report as a single JSON line.

pub mod status;
pub mod hostname;
pub mod json;
pub mod report;
pub mod strutil;

pub use status::to_status_str;
