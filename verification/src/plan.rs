//! Flattening a company's buckets into one ordered download plan, and
//! deciding which entries still need fetching.

use vstd::prelude::*;
use vstd::string::*;
use crate::announce::MeetingAnnounce;
use crate::disclosure::InfoDisclosure;
use crate::files::{DocKind, DocStage, QueryReply, QueryReplyView, UploadFile, UploadFileView};
use crate::folders::{FolderNames, FolderNamesView};
use crate::overview::CompanyInfo;
use crate::paths::{folder_path, spec_folder_path};

verus! {

/// Everything parsed for one company. Assembled only after all three
/// fetches succeeded; never kept partially.
#[derive(Debug, Clone)]
pub struct ItemDetail {
    pub overview: CompanyInfo,
    pub disclosure: InfoDisclosure,
    pub announce: MeetingAnnounce,
}

/// One download to perform: fetch `url`, write to `path`.
#[derive(Debug, Clone)]
pub struct DownloadTask {
    pub url: String,
    pub path: String,
}

pub struct DownloadTaskView {
    pub url: Seq<char>,
    pub path: Seq<char>,
}

impl View for DownloadTask {
    type V = DownloadTaskView;

    open spec fn view(&self) -> DownloadTaskView {
        DownloadTaskView { url: self.url@, path: self.path@ }
    }
}

impl DeepView for DownloadTask {
    type V = DownloadTaskView;

    open spec fn deep_view(&self) -> DownloadTaskView {
        self.view()
    }
}

pub open spec fn spec_task_of(f: UploadFileView) -> DownloadTaskView {
    DownloadTaskView { url: f.url, path: f.path }
}

pub open spec fn spec_tasks_of(files: Seq<UploadFileView>) -> Seq<DownloadTaskView> {
    files.map_values(|f: UploadFileView| spec_task_of(f))
}

pub open spec fn spec_reply_tasks(rs: Seq<QueryReplyView>) -> Seq<DownloadTaskView> {
    rs.map_values(|r: QueryReplyView| spec_task_of(r.file))
}

/// The whole plan of one company, in the planner's fixed bucket order:
/// the six staged categories (each declaration, meeting, registration),
/// then query-and-reply, then registration results, then announcements.
pub open spec fn spec_plan(item: ItemDetail) -> Seq<DownloadTaskView> {
    spec_tasks_of(item.disclosure.staged(DocKind::Prospectus, DocStage::Declare)) + spec_tasks_of(
        item.disclosure.staged(DocKind::Prospectus, DocStage::Meeting),
    ) + spec_tasks_of(item.disclosure.staged(DocKind::Prospectus, DocStage::Register))
        + spec_tasks_of(item.disclosure.staged(DocKind::PublishSponsor, DocStage::Declare))
        + spec_tasks_of(item.disclosure.staged(DocKind::PublishSponsor, DocStage::Meeting))
        + spec_tasks_of(item.disclosure.staged(DocKind::PublishSponsor, DocStage::Register))
        + spec_tasks_of(item.disclosure.staged(DocKind::ListSponsor, DocStage::Declare))
        + spec_tasks_of(item.disclosure.staged(DocKind::ListSponsor, DocStage::Meeting))
        + spec_tasks_of(item.disclosure.staged(DocKind::ListSponsor, DocStage::Register))
        + spec_tasks_of(item.disclosure.staged(DocKind::AuditReport, DocStage::Declare))
        + spec_tasks_of(item.disclosure.staged(DocKind::AuditReport, DocStage::Meeting))
        + spec_tasks_of(item.disclosure.staged(DocKind::AuditReport, DocStage::Register))
        + spec_tasks_of(item.disclosure.staged(DocKind::LegalOpinion, DocStage::Declare))
        + spec_tasks_of(item.disclosure.staged(DocKind::LegalOpinion, DocStage::Meeting))
        + spec_tasks_of(item.disclosure.staged(DocKind::LegalOpinion, DocStage::Register))
        + spec_tasks_of(item.disclosure.staged(DocKind::Others, DocStage::Declare))
        + spec_tasks_of(item.disclosure.staged(DocKind::Others, DocStage::Meeting))
        + spec_tasks_of(item.disclosure.staged(DocKind::Others, DocStage::Register))
        + spec_reply_tasks(item.disclosure.replies()) + spec_tasks_of(item.disclosure.results())
        + spec_tasks_of(item.announce.announcements.deep_view())
}

fn push_file_tasks(out: &mut Vec<DownloadTask>, files: &Vec<UploadFile>)
    ensures
        final(out).deep_view() == old(out).deep_view() + spec_tasks_of(files.deep_view()),
{
    let ghost base = out.deep_view();
    let n = files.len();
    let mut i: usize = 0;
    while i < n
        invariant
            n == files@.len(),
            i <= n,
            out.deep_view() == base + spec_tasks_of(files.deep_view().take(i as int)),
        decreases n - i,
    {
        let ghost prev = out.deep_view();
        let f = &files[i];
        out.push(DownloadTask { url: f.url.clone(), path: f.path.clone() });
        proof {
            assert(out.deep_view() =~= prev.push(spec_task_of(files.deep_view()[i as int])));
            assert(spec_tasks_of(files.deep_view().take(i + 1)) =~= spec_tasks_of(
                files.deep_view().take(i as int),
            ).push(spec_task_of(files.deep_view()[i as int])));
            assert(out.deep_view() =~= base + spec_tasks_of(files.deep_view().take(i + 1)));
        }
        i = i + 1;
    }
    proof {
        assert(files.deep_view().take(n as int) =~= files.deep_view());
    }
}

fn push_reply_tasks(out: &mut Vec<DownloadTask>, rs: &Vec<QueryReply>)
    ensures
        final(out).deep_view() == old(out).deep_view() + spec_reply_tasks(rs.deep_view()),
{
    let ghost base = out.deep_view();
    let n = rs.len();
    let mut i: usize = 0;
    while i < n
        invariant
            n == rs@.len(),
            i <= n,
            out.deep_view() == base + spec_reply_tasks(rs.deep_view().take(i as int)),
        decreases n - i,
    {
        let ghost prev = out.deep_view();
        let f = match &rs[i] {
            QueryReply::Sponsor(f) => f,
            QueryReply::Accountant(f) => f,
            QueryReply::Lawyer(f) => f,
            QueryReply::Other(f) => f,
        };
        out.push(DownloadTask { url: f.url.clone(), path: f.path.clone() });
        proof {
            assert(out.deep_view() =~= prev.push(spec_task_of(rs.deep_view()[i as int].file)));
            assert(spec_reply_tasks(rs.deep_view().take(i + 1)) =~= spec_reply_tasks(
                rs.deep_view().take(i as int),
            ).push(spec_task_of(rs.deep_view()[i as int].file)));
            assert(out.deep_view() =~= base + spec_reply_tasks(rs.deep_view().take(i + 1)));
        }
        i = i + 1;
    }
    proof {
        assert(rs.deep_view().take(n as int) =~= rs.deep_view());
    }
}

/// Flattens every bucket of one company into a single ordered task list, in
/// the planner's fixed bucket order. The order is deterministic so runs are
/// reproducible; it carries no other meaning.
pub fn plan_downloads(item: &ItemDetail) -> (r: Vec<DownloadTask>)
    ensures
        r.deep_view() == spec_plan(*item),
{
    let mut out: Vec<DownloadTask> = Vec::new();
    proof {
        assert(out.deep_view() =~= Seq::<DownloadTaskView>::empty());
    }
    push_file_tasks(&mut out, &item.disclosure.prospectuses.declare);
    push_file_tasks(&mut out, &item.disclosure.prospectuses.meeting);
    push_file_tasks(&mut out, &item.disclosure.prospectuses.register);
    push_file_tasks(&mut out, &item.disclosure.publish_sponsor.declare);
    push_file_tasks(&mut out, &item.disclosure.publish_sponsor.meeting);
    push_file_tasks(&mut out, &item.disclosure.publish_sponsor.register);
    push_file_tasks(&mut out, &item.disclosure.list_sponsor.declare);
    push_file_tasks(&mut out, &item.disclosure.list_sponsor.meeting);
    push_file_tasks(&mut out, &item.disclosure.list_sponsor.register);
    push_file_tasks(&mut out, &item.disclosure.audit_report.declare);
    push_file_tasks(&mut out, &item.disclosure.audit_report.meeting);
    push_file_tasks(&mut out, &item.disclosure.audit_report.register);
    push_file_tasks(&mut out, &item.disclosure.legal_opinion.declare);
    push_file_tasks(&mut out, &item.disclosure.legal_opinion.meeting);
    push_file_tasks(&mut out, &item.disclosure.legal_opinion.register);
    push_file_tasks(&mut out, &item.disclosure.others.declare);
    push_file_tasks(&mut out, &item.disclosure.others.meeting);
    push_file_tasks(&mut out, &item.disclosure.others.register);
    push_reply_tasks(&mut out, &item.disclosure.query_and_reply);
    push_file_tasks(&mut out, &item.disclosure.register_result_or_audit_terminated);
    push_file_tasks(&mut out, &item.announce.announcements);
    proof {
        assert(Seq::<DownloadTaskView>::empty() + spec_tasks_of(
            item.disclosure.staged(DocKind::Prospectus, DocStage::Declare),
        ) =~= spec_tasks_of(item.disclosure.staged(DocKind::Prospectus, DocStage::Declare)));
    }
    out
}

/// The tasks whose destination does not exist yet, in plan order.
pub open spec fn spec_pending(ts: Seq<DownloadTaskView>, existing: Seq<bool>) -> Seq<
    DownloadTaskView,
>
    recommends
        ts.len() == existing.len(),
    decreases ts.len(),
{
    if ts.len() == 0 {
        Seq::empty()
    } else {
        let rest = spec_pending(ts.drop_last(), existing.drop_last());
        if ts.len() <= existing.len() && existing[ts.len() - 1] {
            rest
        } else {
            rest.push(ts.last())
        }
    }
}

/// Keeps the tasks whose destination file does not exist yet. Re-runs are
/// idempotent: what is already on disk is never fetched again.
pub fn pending_downloads(tasks: &Vec<DownloadTask>, existing: &Vec<bool>) -> (r: Vec<DownloadTask>)
    requires
        tasks@.len() == existing@.len(),
    ensures
        r.deep_view() == spec_pending(tasks.deep_view(), existing@),
{
    let mut out: Vec<DownloadTask> = Vec::new();
    proof {
        assert(out.deep_view() =~= Seq::<DownloadTaskView>::empty());
        assert(tasks.deep_view().take(0) =~= Seq::<DownloadTaskView>::empty());
        assert(spec_pending(tasks.deep_view().take(0), existing@.take(0)) =~= Seq::<
            DownloadTaskView,
        >::empty());
    }
    let n = tasks.len();
    let mut i: usize = 0;
    while i < n
        invariant
            n == tasks@.len(),
            n == existing@.len(),
            i <= n,
            out.deep_view() == spec_pending(tasks.deep_view().take(i as int), existing@.take(i as int)),
        decreases n - i,
    {
        let ghost prev = out.deep_view();
        if !existing[i] {
            let t = &tasks[i];
            out.push(DownloadTask { url: t.url.clone(), path: t.path.clone() });
            proof {
                assert(out.deep_view() =~= prev.push(tasks.deep_view()[i as int]));
            }
        }
        proof {
            assert(tasks.deep_view().take(i + 1).drop_last() =~= tasks.deep_view().take(i as int));
            assert(existing@.take(i + 1).drop_last() =~= existing@.take(i as int));
            assert(tasks.deep_view().take(i + 1).last() == tasks.deep_view()[i as int]);
            assert(existing@.take(i + 1)[i as int] == existing@[i as int]);
        }
        i = i + 1;
    }
    proof {
        assert(tasks.deep_view().take(n as int) =~= tasks.deep_view());
        assert(existing@.take(n as int) =~= existing@);
    }
    out
}

/// The idempotence law: against a destination where every file already
/// exists, the second run has nothing left to fetch.
pub proof fn lemma_plan_idempotent(ts: Seq<DownloadTaskView>, existing: Seq<bool>)
    requires
        ts.len() == existing.len(),
        forall|i: int| 0 <= i < existing.len() ==> existing[i],
    ensures
        spec_pending(ts, existing).len() == 0,
    decreases ts.len(),
{
    if ts.len() > 0 {
        assert(forall|i: int|
            0 <= i < existing.len() - 1 ==> #[trigger] existing.drop_last()[i] == existing[i]);
        lemma_plan_idempotent(ts.drop_last(), existing.drop_last());
    }
}

/// The category folders to create under `Download/<company>/` before the
/// downloads start, in a fixed order.
pub open spec fn spec_required_folders(company: Seq<char>, names: FolderNamesView) -> Seq<
    Seq<char>,
> {
    seq![
        spec_folder_path(company, names.declare),
        spec_folder_path(company, names.register),
        spec_folder_path(company, names.meeting),
        spec_folder_path(company, names.sponsor),
        spec_folder_path(company, names.accountant),
        spec_folder_path(company, names.lawyer),
        spec_folder_path(company, names.result_folder),
        spec_folder_path(company, names.unclassified),
    ]
}

/// The folders the downloads of one company expect, ready for idempotent
/// create-if-absent calls.
pub fn required_folders(company: &str, names: &FolderNames) -> (r: Vec<String>)
    ensures
        r.deep_view() == spec_required_folders(company@, names@),
{
    let mut out: Vec<String> = Vec::new();
    out.push(folder_path(company, names.declare.as_str()));
    out.push(folder_path(company, names.register.as_str()));
    out.push(folder_path(company, names.meeting.as_str()));
    out.push(folder_path(company, names.sponsor.as_str()));
    out.push(folder_path(company, names.accountant.as_str()));
    out.push(folder_path(company, names.lawyer.as_str()));
    out.push(folder_path(company, names.result_folder.as_str()));
    out.push(folder_path(company, names.unclassified.as_str()));
    proof {
        assert(out.deep_view() =~= spec_required_folders(company@, names@));
    }
    out
}

} // verus!
