//! Counts AWS ELB access-log records by day, client IPv4 address and the `system` parameter of
//! the request URL. Workers tally the lines of the files they are handed; a controller hands out
//! the files and merges the workers' aggregates.

pub mod aggregation_control;
pub mod file_handling;
pub mod merge_laws;
pub mod record_handling;
pub mod record_parsing;

pub use aggregation_control::FileAggregation;
pub use record_handling::ELBRecordAggregation;
