//! The run-wide result aggregate and the decisions of one company's
//! pipeline. The fetches themselves are I/O and live outside the library;
//! what to do with each fetch's outcome is decided here.

use vstd::prelude::*;
use vstd::string::*;
use crate::announce::MeetingAnnounce;
use crate::disclosure::InfoDisclosure;
use crate::overview::CompanyInfo;
use crate::plan::ItemDetail;

verus! {

/// The outcomes of one run: the companies processed whole, and the names of
/// those that failed, kept for a manual follow-up list. Insertion order
/// carries no meaning.
#[derive(Debug)]
pub struct SseQuery {
    pub companies: Vec<ItemDetail>,
    pub failed_logs: Vec<String>,
}

/// What adding one outcome does to the aggregate.
pub open spec fn spec_add_outcome(
    companies: Seq<ItemDetail>,
    failed: Seq<Seq<char>>,
    outcome: Result<ItemDetail, Seq<char>>,
) -> (Seq<ItemDetail>, Seq<Seq<char>>) {
    match outcome {
        Ok(item) => (companies.push(item), failed),
        Err(name) => (companies, failed.push(name)),
    }
}

/// An exec outcome, lifted to the spec level.
pub open spec fn spec_outcome_of(r: Result<ItemDetail, String>) -> Result<ItemDetail, Seq<char>> {
    match r {
        Ok(item) => Ok(item),
        Err(name) => Err(name@),
    }
}

impl SseQuery {
    pub fn new() -> (r: SseQuery)
        ensures
            r.companies@ == Seq::<ItemDetail>::empty(),
            r.failed_logs@ == Seq::<String>::empty(),
    {
        SseQuery { companies: Vec::new(), failed_logs: Vec::new() }
    }

    /// Records one company's outcome: a success joins the item collection, a
    /// failure adds the company's name to the follow-up list.
    pub fn add(&mut self, company: Result<ItemDetail, String>)
        ensures
            (final(self).companies@, final(self).failed_logs.deep_view()) == spec_add_outcome(
                old(self).companies@,
                old(self).failed_logs.deep_view(),
                spec_outcome_of(company),
            ),
    {
        let ghost prev_failed = self.failed_logs.deep_view();
        match company {
            Ok(info) => self.companies.push(info),
            Err(name) => {
                let ghost nm = name@;
                self.failed_logs.push(name);
                proof {
                    assert(self.failed_logs.deep_view() =~= prev_failed.push(nm));
                }
            },
        }
    }
}

/// The assembly decision: an `ItemDetail` exists only when the overview,
/// the disclosure listing and the announcement listing all arrived; any
/// hole fails the company by name, and nothing partial survives.
pub open spec fn spec_assemble(
    name: Seq<char>,
    overview: Option<CompanyInfo>,
    disclosure: Option<InfoDisclosure>,
    announce: Option<MeetingAnnounce>,
) -> Result<ItemDetail, Seq<char>> {
    match (overview, disclosure, announce) {
        (Some(o), Some(d), Some(a)) => Ok(ItemDetail { overview: o, disclosure: d, announce: a }),
        _ => Err(name),
    }
}

pub fn assemble_item(
    name: &str,
    overview: Option<CompanyInfo>,
    disclosure: Option<InfoDisclosure>,
    announce: Option<MeetingAnnounce>,
) -> (r: Result<ItemDetail, String>)
    ensures
        spec_outcome_of(r) == spec_assemble(name@, overview, disclosure, announce),
{
    match (overview, disclosure, announce) {
        (Some(o), Some(d), Some(a)) => Ok(
            ItemDetail { overview: o, disclosure: d, announce: a },
        ),
        _ => Err(name.to_owned()),
    }
}

/// The accounting decision after the download phase: downloads are part of
/// processing a company, so a failed download fails the company even though
/// its parsing succeeded. The failure message carries the underlying error
/// followed by the company's name.
pub fn download_outcome(name: &str, item: ItemDetail, download_error: Option<&str>) -> (r: Result<
    ItemDetail,
    String,
>)
    ensures
        match download_error {
            None => r matches Ok(i) && i == item,
            Some(e) => r matches Err(s) && s@ == e@ + name@,
        },
{
    match download_error {
        None => Ok(item),
        Some(e) => {
            let mut msg = e.to_owned();
            msg.append(name);
            Err(msg)
        },
    }
}

/// The failure-containment law: when the overview arrived but the
/// disclosure listing did not, the company's outcome is a failure under its
/// own name, and recording it leaves the successes untouched — only the
/// follow-up list grows.
pub proof fn lemma_failed_fetch_only_logged(
    name: Seq<char>,
    overview: CompanyInfo,
    announce: Option<MeetingAnnounce>,
    companies: Seq<ItemDetail>,
    failed: Seq<Seq<char>>,
)
    ensures
        spec_assemble(name, Some(overview), None, announce) == Err::<ItemDetail, Seq<char>>(name),
        spec_add_outcome(companies, failed, spec_assemble(name, Some(overview), None, announce))
            == (companies, failed.push(name)),
{
}

/// Splits the indices `0 .. n` into consecutive batches of at most `batch`
/// companies: the scheduler runs one batch at a time, so never more than
/// `batch` pipelines are in flight. Every index lands in exactly one batch,
/// in order, and only the last batch may be short.
pub fn batch_indices(n: usize, batch: usize) -> (r: Vec<Vec<usize>>)
    requires
        1 <= batch,
    ensures
        (n == 0) <==> (r@.len() == 0),
        forall|j: int| 0 <= j < r@.len() ==> 0 < (#[trigger] r@[j])@.len() <= batch,
        forall|j: int| 0 <= j < r@.len() - 1 ==> (#[trigger] r@[j])@.len() == batch,
        forall|j: int, t: int|
            0 <= j < r@.len() && 0 <= t < r@[j]@.len() ==> (#[trigger] r@[j]@[t]) == j * batch + t,
        r@.len() > 0 ==> (r@.len() - 1) * batch + r@[r@.len() - 1]@.len() == n,
{
    let mut out: Vec<Vec<usize>> = Vec::new();
    let mut i: usize = 0;
    while i < n
        invariant
            i <= n,
            1 <= batch,
            out@.len() == 0 ==> i == 0,
            out@.len() > 0 ==> i == (out@.len() - 1) * batch + out@[out@.len() - 1]@.len(),
            i < n ==> i == out@.len() * batch,
            forall|j: int| 0 <= j < out@.len() ==> 0 < (#[trigger] out@[j])@.len() <= batch,
            forall|j: int| 0 <= j < out@.len() - 1 ==> (#[trigger] out@[j])@.len() == batch,
            forall|j: int, t: int|
                0 <= j < out@.len() && 0 <= t < out@[j]@.len() ==> (#[trigger] out@[j]@[t]) == j
                    * batch + t,
        decreases n - i,
    {
        let ghost start = i as int;
        let ghost len0 = out@.len();
        proof {
            assert(start == len0 * batch);
            if len0 > 0 {
                assert(len0 * batch == (len0 - 1) * batch + batch) by (nonlinear_arith);
                assert(out@[len0 - 1]@.len() == batch);
            }
        }
        let mut chunk: Vec<usize> = Vec::new();
        let mut t: usize = 0;
        while t < batch && i < n
            invariant
                t <= batch,
                i <= n,
                i == start + t,
                chunk@.len() == t,
                forall|u: int| 0 <= u < t ==> (#[trigger] chunk@[u]) == start + u,
            decreases batch - t,
        {
            chunk.push(i);
            i = i + 1;
            t = t + 1;
        }
        proof {
            assert(t == batch || i == n);
            assert(t > 0);
        }
        let ghost chunk_view = chunk@;
        out.push(chunk);
        proof {
            assert(out@.len() == len0 + 1);
            assert(out@[len0 as int]@ == chunk_view);
            assert forall|j: int, u: int|
                0 <= j < out@.len() && 0 <= u < out@[j]@.len() implies (#[trigger] out@[j]@[u]) == j
                * batch + u by {
                if j == len0 {
                    assert(out@[j]@[u] == start + u);
                }
            }
            if i < n {
                assert(t == batch);
                assert(i == len0 * batch + batch);
                assert((len0 + 1) * batch == len0 * batch + batch) by (nonlinear_arith);
            }
        }
    }
    proof {
        if n > 0 {
            assert(out@.len() > 0);
        }
    }
    out
}

} // verus!
