//! The exporters of each Elasticsearch endpoint, and the scrape that
//! combines them.

pub mod cluster_health;
pub mod nodes;
pub mod ping;
pub mod shards;

use vstd::prelude::*;

use crate::config::{Conf, Mode};
use crate::gauge::{
    desc_view, is_valid_gauge, is_valid_label_name, is_valid_metric_name, spec_fq_name, GaugeDesc,
    GaugeDescView, GaugeValue,
};
use cluster_health::{spec_status_gauge, ClusterHealth};
use ping::Ping;
use shards::{spec_docs_gauge, Shards};

verus! {

/// The gauge that tells whether the last scrape succeeded: `node_status`,
/// without labels.
pub open spec fn spec_up_gauge() -> GaugeDescView {
    desc_view(
        Seq::empty(),
        "node_status"@,
        "Was the last scrape of rabbitmq successful."@,
        Seq::empty(),
    )
}

/// An endpoint that a scrape reads.
#[derive(PartialEq, Eq, Structural, Clone, Copy, Debug)]
pub enum Source {
    ClusterHealth,
    Shards,
    Ping,
}

/// The endpoints that a scrape in `mode` reads, in order: cluster health
/// and shards in the standard mode, a ping in the simple one.
pub open spec fn spec_sources(mode: Mode) -> Seq<Source> {
    match mode {
        Mode::Standard => seq![Source::ClusterHealth, Source::Shards],
        Mode::Simple => seq![Source::Ping],
    }
}

/// What a scrape does next.
#[derive(PartialEq, Eq, Structural, Clone, Copy, Debug)]
pub enum ScrapeStep {
    /// Read this endpoint.
    Read(Source),
    /// Stop: the scrape succeeded (`true`) or failed (`false`).
    Finish(bool),
}

/// The next step of a scrape in `mode` that has had `answered` endpoints
/// answer, `failed` telling whether the last endpoint read failed: a failure
/// ends the scrape at once, unsuccessfully; otherwise the endpoints of the
/// mode are read in order, and the scrape succeeds once all have answered.
pub open spec fn spec_scrape_step(mode: Mode, answered: int, failed: bool) -> ScrapeStep {
    if failed {
        ScrapeStep::Finish(false)
    } else if 0 <= answered < spec_sources(mode).len() {
        ScrapeStep::Read(spec_sources(mode)[answered])
    } else {
        ScrapeStep::Finish(true)
    }
}

/// Whether a scrape in `mode`, driven step after step by
/// [`spec_scrape_step`] from `answered` endpoints on, succeeds when the
/// endpoints answer as `answers` tells (`answers[i]`: the endpoint read
/// `i`-th answered). An endpoint that does not answer ends the scrape
/// unsuccessfully, as `spec_scrape_step` with `failed` set says.
pub open spec fn spec_scrape_succeeds(mode: Mode, answers: Seq<bool>, answered: int) -> bool
    decreases spec_sources(mode).len() - answered,
{
    match spec_scrape_step(mode, answered, false) {
        ScrapeStep::Finish(ok) => ok,
        ScrapeStep::Read(_) => {
            answered_at(answers, answered) && spec_scrape_succeeds(mode, answers, answered + 1)
        },
    }
}

/// The families of a scrape, paired with the number of gauges each holds,
/// without those that hold none.
pub open spec fn nonempty_families<F>(s: Seq<(F, usize)>) -> Seq<F>
    decreases s.len(),
{
    if s.len() == 0 {
        Seq::empty()
    } else if s.last().1 > 0 {
        nonempty_families(s.drop_last()).push(s.last().0)
    } else {
        nonempty_families(s.drop_last())
    }
}

/// What a scrape exports: when it failed, only the families of the
/// scrape-status gauge; otherwise its families that hold a gauge, followed
/// by those of the scrape-status gauge.
pub open spec fn spec_report<F>(scraped: Option<Seq<(F, usize)>>, up: Seq<F>) -> Seq<F> {
    match scraped {
        None => up,
        Some(s) => nonempty_families(s) + up,
    }
}

/// Collects all metrics of a scrape, from the endpoints its mode names.
pub struct Collect {
    pub config: Conf,
    pub cluster_health: ClusterHealth,
    pub ping: Ping,
    pub shards: Shards,
    pub up: GaugeDesc,
}

impl Collect {
    /// The exporters for the node that `config` names.
    pub fn new(config: Conf) -> (r: Collect)
        ensures
            r.config == config,
            r.cluster_health.status_metric@ == spec_status_gauge(),
            r.shards.metrics@.len() == 1,
            r.shards.metrics@[0]@ == spec_docs_gauge(),
            r.up@ == spec_up_gauge(),
    {
        let no_labels: [&str; 0] = [];
        let up = GaugeDesc::new("", "node_status", "Was the last scrape of rabbitmq successful.", &no_labels);
        proof {
            reveal_strlit("");
            assert(""@ =~= Seq::<char>::empty());
            assert(up@.labels =~= Seq::<Seq<char>>::empty());
        }
        Collect {
            cluster_health: ClusterHealth::new(),
            shards: Shards::new(),
            ping: Ping::new(),
            up,
            config,
        }
    }

    /// The mode of a scrape: the one the request names, else the configured one.
    pub fn mode(&self, explicit: &Option<Mode>) -> (r: Mode)
        ensures
            r == match *explicit {
                Some(m) => m,
                None => self.config.exporter_mode,
            },
    {
        match explicit {
            Some(m) => *m,
            None => self.config.exporter_mode,
        }
    }

    /// The endpoints a scrape in `mode` reads, in order.
    pub fn sources(&self, mode: Mode) -> (r: Vec<Source>)
        ensures
            r@ == spec_sources(mode),
            mode == Mode::Standard ==> r@ == seq![Source::ClusterHealth, Source::Shards],
            mode == Mode::Simple ==> r@ == seq![Source::Ping],
    {
        let mut r: Vec<Source> = Vec::new();
        match mode {
            Mode::Standard => {
                r.push(Source::ClusterHealth);
                r.push(Source::Shards);
            },
            Mode::Simple => {
                r.push(Source::Ping);
            },
        }
        assert(r@ =~= spec_sources(mode));
        r
    }

    /// The next step of a scrape in `mode` after `answered` endpoints have
    /// answered, `failed` telling whether the last endpoint read failed.
    pub fn scrape_step(&self, mode: Mode, answered: usize, failed: bool) -> (r: ScrapeStep)
        ensures
            r == spec_scrape_step(mode, answered as int, failed),
            failed ==> r == ScrapeStep::Finish(false),
            !failed && answered < spec_sources(mode).len() ==> r == ScrapeStep::Read(
                spec_sources(mode)[answered as int],
            ),
            !failed && answered >= spec_sources(mode).len() ==> r == ScrapeStep::Finish(true),
    {
        if failed {
            return ScrapeStep::Finish(false);
        }
        let sources = self.sources(mode);
        if answered < sources.len() {
            ScrapeStep::Read(sources[answered])
        } else {
            ScrapeStep::Finish(true)
        }
    }

    /// The reading of the scrape-status gauge: set exactly when every
    /// endpoint of the scrape answered.
    pub fn up_value(&self, scraped: bool) -> (r: GaugeValue)
        ensures
            r == GaugeValue::Flag(scraped),
    {
        GaugeValue::Flag(scraped)
    }

    /// The families that a scrape exports, from the families it read (each
    /// with the number of gauges it holds), `None` when it failed, and the
    /// families of the scrape-status gauge.
    pub fn report<F>(&self, scraped: Option<Vec<(F, usize)>>, up: Vec<F>) -> (r: Vec<F>)
        ensures
            r@ == spec_report(
                match scraped {
                    Some(v) => Some(v@),
                    None => None,
                },
                up@,
            ),
    {
        match scraped {
            None => up,
            Some(families) => {
                let ghost all = families@;
                let total: usize = families.len();
                let mut rest = families;
                let mut out: Vec<F> = Vec::new();
                let mut k: usize = 0;
                while rest.len() > 0
                    invariant
                        0 <= k <= all.len(),
                        rest@ == all.skip(k as int),
                        rest@.len() == all.len() - k,
                        all.len() == total,
                        out@ == nonempty_families(all.take(k as int)),
                    decreases rest@.len(),
                {
                    let (family, size) = rest.remove(0);
                    proof {
                        assert(all.take(k as int + 1).drop_last() =~= all.take(k as int));
                        assert(all.take(k as int + 1).last() == all[k as int]);
                    }
                    if size > 0 {
                        out.push(family);
                    }
                    k = k + 1;
                    assert(rest@ =~= all.skip(k as int));
                }
                assert(all.take(k as int) =~= all);
                let mut up = up;
                out.append(&mut up);
                out
            },
        }
    }
}

/// The endpoint read `i`-th answered.
pub open spec fn answered_at(answers: Seq<bool>, i: int) -> bool {
    0 <= i < answers.len() && answers[i]
}

/// Every endpoint of a scrape in `mode`, from the `k`-th on, answers.
pub open spec fn all_answer_from(mode: Mode, answers: Seq<bool>, k: int) -> bool {
    forall|i: int| k <= i < spec_sources(mode).len() ==> #[trigger] answered_at(answers, i)
}

/// What a step of a scrape can be: once an endpoint has failed, the scrape
/// ends unsuccessfully, whatever the mode and however many endpoints had
/// answered before; it ends successfully only when no endpoint failed and
/// every endpoint of the mode has answered; otherwise it reads the next
/// endpoint of the mode.
pub proof fn lemma_scrape_step_outcomes(mode: Mode, answered: int, failed: bool)
    requires
        0 <= answered,
    ensures
        failed ==> spec_scrape_step(mode, answered, failed) == ScrapeStep::Finish(false),
        spec_scrape_step(mode, answered, failed) == ScrapeStep::Finish(true) <==> (!failed
            && answered >= spec_sources(mode).len()),
        !failed && answered < spec_sources(mode).len() ==> spec_scrape_step(mode, answered, failed)
            == ScrapeStep::Read(spec_sources(mode)[answered]),
{
}

/// A scrape driven by [`Collect::scrape_step`] succeeds exactly when every
/// endpoint of its mode answers; it stops at the first that does not.
pub proof fn lemma_scrape_succeeds(mode: Mode, answers: Seq<bool>)
    ensures
        spec_scrape_succeeds(mode, answers, 0) == all_answer_from(mode, answers, 0),
{
    lemma_scrape_succeeds_from(mode, answers, 0);
}

#[verifier::spinoff_prover]
proof fn lemma_scrape_succeeds_from(mode: Mode, answers: Seq<bool>, k: int)
    requires
        0 <= k <= spec_sources(mode).len(),
    ensures
        spec_scrape_succeeds(mode, answers, k) == all_answer_from(mode, answers, k),
    decreases spec_sources(mode).len() - k,
{
    let n = spec_sources(mode).len();
    if k < n {
        lemma_scrape_succeeds_from(mode, answers, k + 1);
        if answered_at(answers, k) {
            if all_answer_from(mode, answers, k + 1) {
                assert forall|i: int| k <= i < n implies #[trigger] answered_at(answers, i) by {
                    if i > k {
                        assert(k + 1 <= i < n);
                    }
                }
            }
        } else {
            assert(!all_answer_from(mode, answers, k));
        }
    }
}

/// What a scrape exports, as the exporter documents it: a failed scrape
/// exports the scrape-status families alone; a successful one exports them
/// last, after every family it read that holds a gauge, and after no other.
#[verifier::spinoff_prover]
pub proof fn lemma_report<F>(scraped: Seq<(F, usize)>, up: Seq<F>)
    ensures
        spec_report(None, up) == up,
        spec_report(Some(scraped), up) == nonempty_families(scraped) + up,
        forall|j: int|
            0 <= j < nonempty_families(scraped).len() ==> exists|i: int|
                0 <= i < scraped.len() && scraped[i].1 > 0 && #[trigger] nonempty_families(
                    scraped,
                )[j] == scraped[i].0,
        forall|i: int|
            0 <= i < scraped.len() && #[trigger] scraped[i].1 > 0 ==> exists|j: int|
                0 <= j < nonempty_families(scraped).len() && nonempty_families(scraped)[j]
                    == scraped[i].0,
{
    lemma_nonempty_families(scraped);
}

proof fn lemma_nonempty_families<F>(s: Seq<(F, usize)>)
    ensures
        forall|j: int|
            0 <= j < nonempty_families(s).len() ==> exists|i: int|
                0 <= i < s.len() && s[i].1 > 0 && #[trigger] nonempty_families(s)[j] == s[i].0,
        forall|i: int|
            0 <= i < s.len() && #[trigger] s[i].1 > 0 ==> exists|j: int|
                0 <= j < nonempty_families(s).len() && nonempty_families(s)[j] == s[i].0,
    decreases s.len(),
{
    if s.len() > 0 {
        let p = s.drop_last();
        lemma_nonempty_families(p);
        let kp = nonempty_families(p);
        let k = nonempty_families(s);
        assert forall|j: int| 0 <= j < k.len() implies exists|i: int|
            0 <= i < s.len() && s[i].1 > 0 && #[trigger] k[j] == s[i].0 by {
            if j < kp.len() {
                assert(k[j] == kp[j]);
                let i = choose|i: int| 0 <= i < p.len() && p[i].1 > 0 && kp[j] == p[i].0;
                assert(s[i] == p[i]);
            } else {
                assert(k[j] == s.last().0);
                assert(s[s.len() - 1] == s.last());
            }
        }
        assert forall|i: int| 0 <= i < s.len() && #[trigger] s[i].1 > 0 implies exists|j: int|
            0 <= j < k.len() && k[j] == s[i].0 by {
            if i < p.len() {
                assert(p[i] == s[i]);
                let j = choose|j: int| 0 <= j < kp.len() && kp[j] == p[i].0;
                assert(k[j] == kp[j]);
            } else {
                assert(k[kp.len() as int] == s[i].0);
            }
        }
    }
}

/// The families of a list of families paired with their gauge counts.
pub open spec fn family_names<F>(sized: Seq<(F, usize)>) -> Seq<F> {
    sized.map_values(|p: (F, usize)| p.0)
}

/// `f` is one of the families of `sized` that hold a gauge.
pub open spec fn holds_gauge<F>(sized: Seq<(F, usize)>, f: F) -> bool {
    exists|i: int| 0 <= i < sized.len() && sized[i].1 > 0 && #[trigger] sized[i].0 == f
}

/// What a scrape exports is never empty, holds only families that hold a
/// gauge, and ends with the scrape-status gauge, as long as the families of
/// the scrape-status gauge each hold one (a gauge without labels always
/// holds itself).
#[verifier::spinoff_prover]
pub proof fn lemma_report_holds_gauges<F>(scraped: Option<Seq<(F, usize)>>, up: Seq<(F, usize)>)
    requires
        up.len() > 0,
        forall|i: int| 0 <= i < up.len() ==> #[trigger] up[i].1 > 0,
    ensures
        ({
            let read = match scraped {
                Some(s) => s,
                None => Seq::empty(),
            };
            let r = spec_report(scraped, family_names(up));
            &&& r.len() > 0
            &&& r.last() == up.last().0
            &&& forall|j: int| 0 <= j < r.len() ==> holds_gauge(read + up, #[trigger] r[j])
        }),
{
    let read = match scraped {
        Some(s) => s,
        None => Seq::empty(),
    };
    let names = family_names(up);
    let r = spec_report(scraped, names);
    lemma_nonempty_families(read);
    let kept = nonempty_families(read);
    assert(scraped is None ==> kept =~= Seq::<F>::empty());
    assert(r =~= kept + names);
    assert forall|j: int| 0 <= j < r.len() implies holds_gauge(read + up, #[trigger] r[j]) by {
        if j < kept.len() {
            assert(r[j] == kept[j]);
            let i = choose|i: int| 0 <= i < read.len() && read[i].1 > 0 && kept[j] == read[i].0;
            assert((read + up)[i] == read[i]);
        } else {
            let u = j - kept.len();
            assert(r[j] == names[u]);
            assert((read + up)[read.len() + u] == up[u]);
            assert(up[u].1 > 0);
        }
    }
}

/// Every gauge family that [`Collect::new`] declares is one that Prometheus
/// accepts: the cluster status, the documents per index and the scrape
/// status.
pub proof fn lemma_collect_gauges_valid()
    ensures
        is_valid_gauge(spec_status_gauge()),
        is_valid_gauge(spec_docs_gauge()),
        is_valid_gauge(spec_up_gauge()),
{
    reveal_strlit("cluster_health");
    reveal_strlit("ok");
    reveal_strlit("Elasticsearch cluster status is green (1 if green, 0 otherwise)");
    reveal_strlit("docs");
    reveal_strlit("The docs number in target index");
    reveal_strlit("index");
    reveal_strlit("node_status");
    reveal_strlit("Was the last scrape of rabbitmq successful.");
    let s = spec_status_gauge();
    assert(is_valid_metric_name(spec_fq_name(s.subsystem, s.name)));
    assert(s.labels.no_duplicates());
    let d = spec_docs_gauge();
    assert(is_valid_metric_name(spec_fq_name(d.subsystem, d.name)));
    assert(is_valid_label_name(d.labels[0]));
    assert(d.labels.no_duplicates());
    let u = spec_up_gauge();
    assert(is_valid_metric_name(spec_fq_name(u.subsystem, u.name)));
    assert(u.labels.no_duplicates());
}

} // verus!
