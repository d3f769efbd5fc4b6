use vstd::prelude::*;
use vstd::string::*;

use crate::client::{query, str_params_view, params_view, Query};
use crate::config::Conf;
use crate::gauge::{desc_view, strs_view, GaugeDesc, GaugeDescView};
use crate::response::shards::ShardResponse;

verus! {

/// The endpoint that lists the shards of the cluster.
pub const ENDPOINT: &'static str = "/_cat/shards";

/// The gauge of documents per index: `docs`, by `index`.
pub open spec fn spec_docs_gauge() -> GaugeDescView {
    desc_view(Seq::empty(), "docs"@, "The docs number in target index"@, seq!["index"@])
}

/// An index whose name starts with a dot: a system index.
pub open spec fn is_hidden_index(index: Seq<char>) -> bool {
    index.len() > 0 && index[0] == '.'
}

/// What a shard adds to the document gauges: the documents it holds, as
/// text, under the label of its index.
pub struct ShardSample {
    pub index: String,
    pub docs: Option<String>,
}

/// A shard sample as plain text.
pub open spec fn sample_view(s: ShardSample) -> (Seq<char>, Option<Seq<char>>) {
    (
        s.index@,
        match s.docs {
            Some(d) => Some(d@),
            None => None,
        },
    )
}

/// The samples of the shards of `resp` that belong to indices that are not
/// hidden, in order.
pub open spec fn spec_shard_samples(resp: Seq<ShardResponse>) -> Seq<(Seq<char>, Option<Seq<char>>)>
    decreases resp.len(),
{
    if resp.len() == 0 {
        Seq::empty()
    } else {
        let last = resp.last();
        let before = spec_shard_samples(resp.drop_last());
        if is_hidden_index(last.index@) {
            before
        } else {
            before.push(
                (
                    last.index@,
                    match last.docs {
                        Some(d) => Some(d@),
                        None => None,
                    },
                ),
            )
        }
    }
}

/// No shard of a hidden index is counted, and every other shard is: each
/// sample names an index that is not hidden, and comes from a shard of the
/// answer; each shard of an index that is not hidden yields a sample.
pub proof fn lemma_shard_samples(resp: Seq<ShardResponse>)
    ensures
        forall|j: int|
            0 <= j < spec_shard_samples(resp).len() ==> !is_hidden_index(
                #[trigger] spec_shard_samples(resp)[j].0,
            ) && exists|i: int|
                0 <= i < resp.len() && resp[i].index@ == spec_shard_samples(resp)[j].0,
        forall|i: int|
            0 <= i < resp.len() && !is_hidden_index(#[trigger] resp[i].index@) ==> exists|j: int|
                0 <= j < spec_shard_samples(resp).len() && spec_shard_samples(resp)[j].0
                    == resp[i].index@,
    decreases resp.len(),
{
    if resp.len() > 0 {
        let p = resp.drop_last();
        lemma_shard_samples(p);
        let sp = spec_shard_samples(p);
        let sr = spec_shard_samples(resp);
        assert forall|j: int| 0 <= j < sr.len() implies !is_hidden_index(#[trigger] sr[j].0)
            && exists|i: int| 0 <= i < resp.len() && resp[i].index@ == sr[j].0 by {
            if j < sp.len() {
                assert(sr[j] == sp[j]);
                let i = choose|i: int| 0 <= i < p.len() && p[i].index@ == sp[j].0;
                assert(resp[i] == p[i]);
            } else {
                assert(resp[resp.len() - 1] == resp.last());
            }
        }
        assert forall|i: int| 0 <= i < resp.len() && !is_hidden_index(#[trigger] resp[i].index@)
            implies exists|j: int| 0 <= j < sr.len() && sr[j].0 == resp[i].index@ by {
            if i < p.len() {
                assert(p[i] == resp[i]);
                let j = choose|j: int| 0 <= j < sp.len() && sp[j].0 == p[i].index@;
                assert(sr[j] == sp[j]);
            } else {
                assert(resp[i] == resp.last());
                assert(sr[sp.len() as int].0 == resp[i].index@);
            }
        }
    }
}

/// The rows of a shard listing that count: those of indices that are not
/// hidden, in the order of the listing, each as often as it is listed.
pub open spec fn counted_rows(resp: Seq<ShardResponse>) -> Seq<ShardResponse> {
    resp.filter(|r: ShardResponse| !is_hidden_index(r.index@))
}

/// A row of a shard listing as plain text: its index and its documents.
pub open spec fn row_view(r: ShardResponse) -> (Seq<char>, Option<Seq<char>>) {
    (
        r.index@,
        match r.docs {
            Some(d) => Some(d@),
            None => None,
        },
    )
}

/// Every row of an index that is not hidden adds its documents, and no other
/// row does: the samples are exactly those rows, in order, each with its
/// index and documents, so that an index listed on several rows (primary
/// and replicas, or several shards) adds the documents of every one of them.
pub proof fn lemma_samples_are_counted_rows(resp: Seq<ShardResponse>)
    ensures
        spec_shard_samples(resp) == counted_rows(resp).map_values(|r: ShardResponse| row_view(r)),
        spec_shard_samples(resp).len() == counted_rows(resp).len(),
        forall|k: int|
            0 <= k < spec_shard_samples(resp).len() ==> #[trigger] spec_shard_samples(resp)[k]
                == row_view(counted_rows(resp)[k]),
    decreases resp.len(),
{
    reveal_with_fuel(Seq::filter, 1);
    if resp.len() > 0 {
        lemma_samples_are_counted_rows(resp.drop_last());
        let pred = |r: ShardResponse| !is_hidden_index(r.index@);
        assert(counted_rows(resp.drop_last()) == resp.drop_last().filter(pred));
        assert(counted_rows(resp) == resp.filter(pred));
        if pred(resp.last()) {
            assert(counted_rows(resp) == counted_rows(resp.drop_last()).push(resp.last()));
            assert(counted_rows(resp).map_values(|r: ShardResponse| row_view(r)) =~= counted_rows(
                resp.drop_last(),
            ).map_values(|r: ShardResponse| row_view(r)).push(row_view(resp.last())));
        } else {
            assert(counted_rows(resp) == counted_rows(resp.drop_last()));
        }
    } else {
        assert(counted_rows(resp) =~= Seq::<ShardResponse>::empty());
        assert(spec_shard_samples(resp) =~= Seq::<(Seq<char>, Option<Seq<char>>)>::empty());
    }
    assert(spec_shard_samples(resp) =~= counted_rows(resp).map_values(
        |r: ShardResponse| row_view(r),
    ));
}

/// Counts the documents of each index.
pub struct Shards {
    pub metrics: Vec<GaugeDesc>,
}

impl Shards {
    pub fn new() -> (r: Shards)
        ensures
            r.metrics@.len() == 1,
            r.metrics@[0]@ == spec_docs_gauge(),
    {
        let default_labels = ["index"];
        let docs = GaugeDesc::new("", "docs", "The docs number in target index", &default_labels);
        proof {
            reveal_strlit("");
            assert(""@ =~= Seq::<char>::empty());
            assert(strs_view(default_labels@) =~= seq!["index"@]);
        }
        let mut metrics: Vec<GaugeDesc> = Vec::new();
        metrics.push(docs);
        Shards { metrics }
    }

    /// The request that lists the shards of the node at `conf.addr`, in JSON.
    pub fn query(&self, conf: &Conf) -> (r: Query)
        ensures
            r.url@ == conf.addr@ + ENDPOINT@,
            params_view(r.params@) == seq![("format"@, "json"@)],
    {
        let params = [("format", "json")];
        let r = query(conf.addr.as_str(), ENDPOINT, &params);
        proof {
            assert(str_params_view(params@) =~= seq![("format"@, "json"@)]);
        }
        r
    }

    /// The samples that the shards of an answer yield: one per shard of an
    /// index that is not hidden, in the order of the answer.
    pub fn samples(&self, resp: &Vec<ShardResponse>) -> (r: Vec<ShardSample>)
        ensures
            r@.map_values(|s: ShardSample| sample_view(s)) == spec_shard_samples(resp@),
            r@.map_values(|s: ShardSample| sample_view(s)) == counted_rows(resp@).map_values(
                |x: ShardResponse| row_view(x),
            ),
            r@.len() == counted_rows(resp@).len(),
    {
        let mut out: Vec<ShardSample> = Vec::new();
        let mut i: usize = 0;
        while i < resp.len()
            invariant
                0 <= i <= resp@.len(),
                out@.map_values(|s: ShardSample| sample_view(s)) == spec_shard_samples(
                    resp@.take(i as int),
                ),
            decreases resp@.len() - i,
        {
            let r = &resp[i];
            let index = r.index.as_str();
            let hidden = index.unicode_len() > 0 && index.get_char(0) == '.';
            let ghost before = out@;
            proof {
                assert(resp@.take(i as int + 1).drop_last() =~= resp@.take(i as int));
                assert(resp@.take(i as int + 1).last() == resp@[i as int]);
            }
            if !hidden {
                let docs = match &r.docs {
                    Some(d) => Some(d.clone()),
                    None => None,
                };
                let sample = ShardSample { index: r.index.clone(), docs };
                out.push(sample);
                proof {
                    assert(out@.map_values(|s: ShardSample| sample_view(s)) =~= before.map_values(
                        |s: ShardSample| sample_view(s),
                    ).push(sample_view(sample)));
                }
            }
            i = i + 1;
        }
        assert(resp@.take(resp@.len() as int) =~= resp@);
        proof {
            lemma_samples_are_counted_rows(resp@);
            assert(out@.len() == out@.map_values(|s: ShardSample| sample_view(s)).len());
        }
        out
    }
}

} // verus!
