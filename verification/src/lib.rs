//! Activity statistics for a PostgreSQL cluster: the classification of sampled
//! sessions by wait event, the aggregation behind the active session history
//! graphs, the statistics of the graphed series, the bookkeeping of cumulative
//! counters, and the scheduling of archives.

pub mod activity;
pub mod archive;
pub mod ash;
pub mod breakdown_laws;
pub mod config;
pub mod delta;
pub mod links;
pub mod queries;
pub mod sample_laws;
pub mod series;
pub mod text;
pub mod wait_types;
pub mod web;
pub mod xid;
