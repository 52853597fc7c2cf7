use vstd::prelude::*;
use crate::monitor::{next_action, Job, MonitorConfig, PollResult, WebsiteStatus};
use crate::words::texts;

verus! {

broadcast use vstd::seq_lib::group_seq_properties;

/// The URLs of a list of records, in order.
pub open spec fn record_urls(rs: Seq<WebsiteStatus>) -> Seq<Seq<char>> {
    rs.map_values(|r: WebsiteStatus| r.url@)
}

/// The URLs of a list of jobs, in order.
pub open spec fn job_urls(js: Seq<Job>) -> Seq<Seq<char>> {
    js.map_values(|j: Job| j.url@)
}

/// Whether `s` equals one of the entries of `v`.
fn contains_text(v: &Vec<String>, s: &String) -> (r: bool)
    ensures
        r == texts(v@).contains(s@),
{
    let mut i: usize = 0;
    while i < v.len()
        invariant
            i <= v.len(),
            forall|j: int| 0 <= j < i ==> texts(v@)[j] != s@,
        decreases v.len() - i,
    {
        if v[i] == *s {
            assert(texts(v@)[i as int] == s@);
            return true;
        }
        i = i + 1;
    }
    false
}

/// The distinct entries of `urls`, each once.
pub fn distinct_urls(urls: &Vec<String>) -> (r: Vec<String>)
    ensures
        texts(r@).no_duplicates(),
        forall|u: Seq<char>| texts(r@).contains(u) <==> texts(urls@).contains(u),
{
    let mut out: Vec<String> = Vec::new();
    let mut i: usize = 0;
    while i < urls.len()
        invariant
            i <= urls.len(),
            texts(out@).no_duplicates(),
            forall|j: int| 0 <= j < i ==> texts(out@).contains(#[trigger] texts(urls@)[j]),
            forall|k: int| 0 <= k < out.len() ==> texts(urls@).contains(#[trigger] texts(out@)[k]),
        decreases urls.len() - i,
    {
        let seen = contains_text(&out, &urls[i]);
        if !seen {
            let ghost before = texts(out@);
            out.push(urls[i].clone());
            proof {
                assert(texts(out@) =~= before.push(urls@[i as int]@));
                assert(texts(urls@)[i as int] == urls@[i as int]@);
                assert forall|k: int| 0 <= k < out.len() implies texts(urls@).contains(
                    #[trigger] texts(out@)[k],
                ) by {
                    if k == out.len() - 1 {
                        assert(texts(urls@)[i as int] == texts(out@)[k]);
                    } else {
                        assert(texts(out@)[k] == before[k]);
                    }
                }
                assert forall|j: int| 0 <= j <= i implies texts(out@).contains(
                    #[trigger] texts(urls@)[j],
                ) by {
                    if j < i {
                        let k = choose|k: int| 0 <= k < before.len() && before[k] == texts(urls@)[j];
                        assert(texts(out@)[k] == before[k]);
                    } else {
                        assert(texts(out@)[out.len() - 1] == texts(urls@)[j]);
                    }
                }
            }
        }
        i = i + 1;
    }
    proof {
        assert forall|u: Seq<char>| texts(urls@).contains(u) implies texts(out@).contains(u) by {
            let j = choose|j: int| 0 <= j < urls.len() && texts(urls@)[j] == u;
        }
        assert forall|u: Seq<char>| texts(out@).contains(u) implies texts(urls@).contains(u) by {
            let k = choose|k: int| 0 <= k < out.len() && texts(out@)[k] == u;
        }
    }
    out
}

/// Gathers the records of a run: at most one per URL of the run, the first
/// one offered for it.
pub struct Collector {
    expected: Vec<String>,
    records: Vec<WebsiteStatus>,
}

impl Collector {
    /// The distinct URLs of the run.
    pub closed spec fn expected(&self) -> Seq<Seq<char>> {
        texts(self.expected@)
    }

    /// The records accepted so far, in order of arrival.
    pub closed spec fn records(&self) -> Seq<WebsiteStatus> {
        self.records@
    }

    /// The URLs of the run are distinct, and the accepted records belong to
    /// distinct URLs of the run.
    pub closed spec fn wf(&self) -> bool {
        &&& self.expected().no_duplicates()
        &&& record_urls(self.records()).no_duplicates()
        &&& forall|k: int|
            0 <= k < self.records().len() ==> self.expected().contains(
                #[trigger] record_urls(self.records())[k],
            )
    }

    /// A collector for a run over `urls`, with no record yet.
    pub fn new(urls: &Vec<String>) -> (r: Self)
        ensures
            r.wf(),
            r.records().len() == 0,
            forall|u: Seq<char>| r.expected().contains(u) <==> texts(urls@).contains(u),
    {
        let expected = distinct_urls(urls);
        let r = Collector { expected, records: Vec::new() };
        assert(record_urls(r.records()) =~= Seq::<Seq<char>>::empty());
        r
    }

    /// Whether a record for `url` has been accepted.
    fn has_record(&self, url: &String) -> (r: bool)
        ensures
            r == record_urls(self.records()).contains(url@),
    {
        let mut i: usize = 0;
        while i < self.records.len()
            invariant
                i <= self.records.len(),
                forall|j: int| 0 <= j < i ==> record_urls(self.records@)[j] != url@,
            decreases self.records.len() - i,
        {
            if self.records[i].url == *url {
                assert(record_urls(self.records@)[i as int] == url@);
                return true;
            }
            i = i + 1;
        }
        false
    }

    /// Offers a record. It is kept, and `true` returned, exactly when its URL
    /// belongs to the run and has no record yet; otherwise it is dropped.
    pub fn offer(&mut self, rec: WebsiteStatus) -> (accepted: bool)
        requires
            old(self).wf(),
        ensures
            final(self).wf(),
            final(self).expected() == old(self).expected(),
            accepted == (old(self).expected().contains(rec.url@) && !record_urls(
                old(self).records(),
            ).contains(rec.url@)),
            final(self).records() == if accepted {
                old(self).records().push(rec)
            } else {
                old(self).records()
            },
    {
        let wanted = contains_text(&self.expected, &rec.url);
        if !wanted {
            return false;
        }
        let seen = self.has_record(&rec.url);
        if seen {
            return false;
        }
        let ghost before = record_urls(self.records@);
        let ghost u = rec.url@;
        self.records.push(rec);
        proof {
            assert(record_urls(self.records@) =~= before.push(u));
            assert forall|k: int|
                0 <= k < self.records().len() implies self.expected().contains(
                #[trigger] record_urls(self.records())[k],
            ) by {
                if k < before.len() {
                    assert(record_urls(self.records())[k] == before[k]);
                }
            }
        }
        true
    }

    /// Whether every URL of the run has its record.
    pub fn is_complete(&self) -> (r: bool)
        requires
            self.wf(),
        ensures
            r == (self.records().len() == self.expected().len()),
    {
        self.records.len() == self.expected.len()
    }

    /// The number of distinct URLs of the run.
    pub fn expected_len(&self) -> (r: usize)
        ensures
            r == self.expected().len(),
    {
        self.expected.len()
    }

    /// Takes what the result stream gave: a record, or `None` once the stream
    /// has closed. A record is offered as by `offer`. Returns whether the
    /// collector is done: every URL has its record, or the stream closed.
    pub fn receive(&mut self, received: Option<WebsiteStatus>) -> (done: bool)
        requires
            old(self).wf(),
        ensures
            final(self).wf(),
            final(self).expected() == old(self).expected(),
            match received {
                Some(rec) => {
                    let accepted = old(self).expected().contains(rec.url@) && !record_urls(
                        old(self).records(),
                    ).contains(rec.url@);
                    &&& final(self).records() == if accepted {
                        old(self).records().push(rec)
                    } else {
                        old(self).records()
                    }
                    &&& done == (final(self).records().len() == final(self).expected().len())
                },
                None => final(self).records() == old(self).records() && done,
            },
    {
        match received {
            Some(rec) => {
                self.offer(rec);
                self.is_complete()
            },
            None => true,
        }
    }

    /// The accepted records, in order of arrival.
    pub fn into_records(self) -> (r: Vec<WebsiteStatus>)
        ensures
            r@ == self.records(),
    {
        self.records
    }
}

/// A complete collector holds exactly one record for each URL of the run,
/// and no other: as many records as distinct URLs, with distinct URLs, and
/// the URLs of the records are those of the run.
pub proof fn lemma_complete_collector_has_each_url_once(c: &Collector)
    requires
        c.wf(),
        c.records().len() == c.expected().len(),
    ensures
        record_urls(c.records()).len() == c.expected().len(),
        record_urls(c.records()).no_duplicates(),
        forall|u: Seq<char>| record_urls(c.records()).contains(u) <==> c.expected().contains(u),
{
    let got = record_urls(c.records());
    let want = c.expected();
    got.unique_seq_to_set();
    want.unique_seq_to_set();
    assert(got.to_set().subset_of(want.to_set())) by {
        assert forall|u: Seq<char>| got.to_set().contains(u) implies want.to_set().contains(u) by {
            let k = choose|k: int| 0 <= k < got.len() && got[k] == u;
        }
    }
    vstd::set_lib::lemma_subset_equality(got.to_set(), want.to_set());
    assert forall|u: Seq<char>| got.contains(u) <==> want.contains(u) by {
        assert(got.to_set().contains(u) == want.to_set().contains(u));
    }
}

/// A token set before any worker has dequeued a job stops every worker at
/// its first polling step, whatever a dequeue would give, so no record reaches
/// the collector: a run over at least one URL then holds fewer records than
/// URLs. (`Collector::receive` ends the collection once the workers are gone
/// and the result stream has closed.)
pub proof fn lemma_cancel_before_dequeue(c: &Collector, polled: PollResult)
    requires
        c.wf(),
        c.records().len() == 0,
        c.expected().len() > 0,
    ensures
        next_action(true, polled) is Stop,
        c.records().len() < c.expected().len(),
{
}

/// The number of workers a run over `distinct` URLs uses when `configured`
/// are asked for: none for no URLs, otherwise `configured` raised to one and
/// lowered to `distinct`.
pub open spec fn effective_workers(configured: usize, distinct: usize) -> usize {
    if distinct == 0 {
        0
    } else if configured == 0 {
        1
    } else if configured > distinct {
        distinct
    } else {
        configured
    }
}

/// Normalizes the configured number of workers for a run over `distinct`
/// URLs: zero becomes one, and more than `distinct` becomes `distinct`.
pub fn worker_count(configured: usize, distinct: usize) -> (r: usize)
    ensures
        r == effective_workers(configured, distinct),
        distinct > 0 ==> 1 <= r <= distinct,
{
    if distinct == 0 {
        0
    } else if configured == 0 {
        1
    } else if configured > distinct {
        distinct
    } else {
        configured
    }
}

/// What a run starts from: the first job of each distinct URL, the number
/// of workers, and an empty collector for those URLs.
pub struct RunPlan {
    pub jobs: Vec<Job>,
    pub workers: usize,
    pub collector: Collector,
}

/// Plans a run over `urls`: one job at attempt zero per distinct URL, the
/// normalized number of workers, and a collector that waits for those URLs.
pub fn plan_run(urls: &Vec<String>, config: &MonitorConfig) -> (p: RunPlan)
    ensures
        p.collector.wf(),
        p.collector.records().len() == 0,
        forall|u: Seq<char>| p.collector.expected().contains(u) <==> texts(urls@).contains(u),
        job_urls(p.jobs@).no_duplicates(),
        forall|u: Seq<char>| job_urls(p.jobs@).contains(u) <==> texts(urls@).contains(u),
        forall|i: int| 0 <= i < p.jobs.len() ==> (#[trigger] p.jobs@[i]).attempt == 0,
        p.jobs.len() == p.collector.expected().len(),
        p.workers == effective_workers(config.worker_threads, p.jobs.len()),
{
    let distinct = distinct_urls(urls);
    let collector = Collector::new(&distinct);
    let mut jobs: Vec<Job> = Vec::new();
    let mut i: usize = 0;
    while i < distinct.len()
        invariant
            i <= distinct.len(),
            jobs.len() == i,
            forall|k: int| 0 <= k < i ==> (#[trigger] jobs@[k]).url@ == distinct@[k]@,
            forall|k: int| 0 <= k < i ==> (#[trigger] jobs@[k]).attempt == 0,
        decreases distinct.len() - i,
    {
        jobs.push(Job { url: distinct[i].clone(), attempt: 0 });
        i = i + 1;
    }
    proof {
        assert(job_urls(jobs@) =~= texts(distinct@));
        texts(distinct@).unique_seq_to_set();
        collector.expected().unique_seq_to_set();
        assert(texts(distinct@).to_set() =~= collector.expected().to_set());
    }
    let workers = worker_count(config.worker_threads, jobs.len());
    RunPlan { jobs, workers, collector }
}

} // verus!
