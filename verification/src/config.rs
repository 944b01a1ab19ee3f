use vstd::prelude::*;

verus! {

/// The command line options of the collector.
///
/// `interval` is the sampling interval in seconds, `history` the number of
/// samples kept, `archiver_interval` the span of one archive file in minutes,
/// `graph_width` and `graph_height` the size of the graphs in pixels, `read`
/// a comma separated list of archive files to load in place of sampling.
#[derive(Debug, Clone)]
pub struct Opts {
    pub interval: u64,
    pub history: usize,
    pub webserver: bool,
    pub webserver_port: u64,
    pub archiver: bool,
    pub archiver_interval: i64,
    pub graph_width: u32,
    pub graph_height: u32,
    pub read: Option<String>,
    pub connection_string: String,
}

} // verus!
