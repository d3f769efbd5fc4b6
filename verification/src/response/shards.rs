use vstd::prelude::*;

verus! {

/// One row of the answer of `/_cat/shards`.
#[derive(Debug)]
pub struct ShardResponse {
    /// The index that the shard belongs to.
    pub index: String,
    /// The number of documents in the shard, as text; absent for a shard
    /// that is not assigned.
    pub docs: Option<String>,
}

} // verus!
