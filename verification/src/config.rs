//! Run configuration: the store endpoint, collection names, filter token,
//! page sizes, aggregation options, and the writer concurrency limit, as an
//! explicit structure instead of global constants, so one core can run
//! against different source/target pairs.
use vstd::prelude::*;

verus! {

/// Everything one migration invocation is parameterized over.
pub struct MigrationConfig {
    /// The store endpoint, host and port.
    pub uri: String,
    /// The application name announced to the store.
    pub app_name: String,
    /// The database holding both collections.
    pub db: String,
    /// The source collection of heterogeneous product documents.
    pub source: String,
    /// The target collection of normalized records.
    pub target: String,
    /// The provenance token matched as a whole word against `creator`.
    pub filter_token: String,
    /// The connect timeout, in seconds.
    pub connect_timeout_secs: u64,
    /// The cursor page size of the find-based read.
    pub find_batch_size: u32,
    /// The cursor page size of the aggregation-based read.
    pub agg_batch_size: u32,
    /// The bound on server-side aggregation time, in seconds.
    pub agg_max_time_secs: u64,
    /// Whether the aggregation may spill intermediate results to disk,
    /// needed because unwinding can materialize a row per array element.
    pub agg_allow_disk_use: bool,
    /// The cap on simultaneously in-flight writes.
    pub writer_limit: usize,
}

impl MigrationConfig {
    /// A usable configuration: a nonempty word token and at least one
    /// writer.
    pub open spec fn wf(self) -> bool {
        self.filter_token@.len() >= 1 && self.writer_limit >= 1
    }
}

/// The reference configuration: local store, database `off`, source
/// `products`, target `usda`, token `usda`, a sixty-second connect timeout,
/// find pages of one thousand documents, aggregation pages of one hundred
/// with a six-minute server-side bound and disk use allowed, and eight
/// concurrent writers.
pub fn default_config() -> (c: MigrationConfig)
    ensures
        c.uri@ == "mongodb://localhost:27017"@,
        c.app_name@ == "Rust Demo"@,
        c.db@ == "off"@,
        c.source@ == "products"@,
        c.target@ == "usda"@,
        c.filter_token@ == "usda"@,
        c.filter_token@.len() == 4,
        c.connect_timeout_secs == 60,
        c.find_batch_size == 1000,
        c.agg_batch_size == 100,
        c.agg_max_time_secs == 360,
        c.agg_allow_disk_use == true,
        c.writer_limit == 8,
        c.wf(),
{
    proof {
        reveal_strlit("usda");
    }
    MigrationConfig {
        uri: "mongodb://localhost:27017".to_owned(),
        app_name: "Rust Demo".to_owned(),
        db: "off".to_owned(),
        source: "products".to_owned(),
        target: "usda".to_owned(),
        filter_token: "usda".to_owned(),
        connect_timeout_secs: 60,
        find_batch_size: 1000,
        agg_batch_size: 100,
        agg_max_time_secs: 360,
        agg_allow_disk_use: true,
        writer_limit: 8,
    }
}

} // verus!
