//! Health evaluation for a cluster-coordination service: aggregation of
//! health checks, threshold verdicts and monitoring-plugin reports.
pub mod text;
pub mod model;
pub mod evaluate;
pub mod aggregate;
pub mod report;
pub mod mode;
