//! The disclosure set of one company: every file of the disclosure listing,
//! routed through the classification table into its bucket.

use vstd::prelude::*;
use vstd::string::*;
use crate::error::SseError;
use crate::extract::{
    file_descriptors_from_json, result_array, spec_descriptors_of, spec_payload,
    spec_result_records, unwrap_and_parse,
};
use crate::folders::{FolderNames, FolderNamesView};
use crate::files::{
    build_plain_file, build_staged_file, classify_file, make_reply, spec_classify_desc,
    spec_plain_file, spec_reply_sub, spec_staged_file, DocKind, DocStage, FileClass,
    FileDescriptor, FileDescriptorView, QueryReply, QueryReplyView, ReplyKind, UploadFile,
    UploadFileView,
};

verus! {

/// The three revision-stage buckets of one staged document category. Each
/// bucket is a list: later revisions may put several files in one slot.
#[derive(Debug, Clone)]
pub struct StageLists {
    pub declare: Vec<UploadFile>,
    pub meeting: Vec<UploadFile>,
    pub register: Vec<UploadFile>,
}

impl StageLists {
    pub open spec fn stage(self, st: DocStage) -> Seq<UploadFileView> {
        match st {
            DocStage::Declare => self.declare.deep_view(),
            DocStage::Meeting => self.meeting.deep_view(),
            DocStage::Register => self.register.deep_view(),
        }
    }

    fn new_empty() -> (r: StageLists)
        ensures
            forall|st: DocStage| r.stage(st) == Seq::<UploadFileView>::empty(),
    {
        let r = StageLists { declare: Vec::new(), meeting: Vec::new(), register: Vec::new() };
        proof {
            assert forall|st: DocStage| r.stage(st) == Seq::<UploadFileView>::empty() by {
                assert(r.stage(st) =~= Seq::<UploadFileView>::empty());
            }
        }
        r
    }

    fn push_stage(&mut self, st: DocStage, f: UploadFile)
        ensures
            final(self).stage(st) == old(self).stage(st).push(f@),
            forall|s2: DocStage| s2 != st ==> final(self).stage(s2) == old(self).stage(s2),
    {
        match st {
            DocStage::Declare => {
                self.declare.push(f);
                proof {
                    assert(self.declare.deep_view() =~= old(self).declare.deep_view().push(f@));
                }
            },
            DocStage::Meeting => {
                self.meeting.push(f);
                proof {
                    assert(self.meeting.deep_view() =~= old(self).meeting.deep_view().push(f@));
                }
            },
            DocStage::Register => {
                self.register.push(f);
                proof {
                    assert(self.register.deep_view() =~= old(self).register.deep_view().push(f@));
                }
            },
        }
    }
}

/// The disclosure documents of one company: six staged categories of three
/// buckets each, the query-and-reply correspondence, and the registration
/// results and termination notices.
#[derive(Debug, Clone)]
pub struct InfoDisclosure {
    pub prospectuses: StageLists,
    pub publish_sponsor: StageLists,
    pub list_sponsor: StageLists,
    pub audit_report: StageLists,
    pub legal_opinion: StageLists,
    pub others: StageLists,
    pub query_and_reply: Vec<QueryReply>,
    pub register_result_or_audit_terminated: Vec<UploadFile>,
}

impl InfoDisclosure {
    pub open spec fn kind_lists(self, k: DocKind) -> StageLists {
        match k {
            DocKind::Prospectus => self.prospectuses,
            DocKind::PublishSponsor => self.publish_sponsor,
            DocKind::ListSponsor => self.list_sponsor,
            DocKind::AuditReport => self.audit_report,
            DocKind::LegalOpinion => self.legal_opinion,
            DocKind::Others => self.others,
        }
    }

    /// The bucket of category `k`, stage `st`.
    pub open spec fn staged(self, k: DocKind, st: DocStage) -> Seq<UploadFileView> {
        self.kind_lists(k).stage(st)
    }

    pub open spec fn replies(self) -> Seq<QueryReplyView> {
        self.query_and_reply.deep_view()
    }

    pub open spec fn results(self) -> Seq<UploadFileView> {
        self.register_result_or_audit_terminated.deep_view()
    }
}

/// The files that the descriptors up for classification put into the bucket
/// of category `k`, stage `st`, in listing order.
pub open spec fn spec_staged_bucket(
    ds: Seq<FileDescriptorView>,
    names: FolderNamesView,
    k: DocKind,
    st: DocStage,
) -> Seq<UploadFileView>
    decreases ds.len(),
{
    if ds.len() == 0 {
        Seq::empty()
    } else {
        let rest = spec_staged_bucket(ds.drop_last(), names, k, st);
        if spec_classify_desc(ds.last()) == Some(FileClass::Staged(k, st)) {
            rest.push(spec_staged_file(ds.last(), names, st))
        } else {
            rest
        }
    }
}

/// The query-and-reply documents of the descriptors, each under its owner's
/// tag, in listing order.
pub open spec fn spec_reply_list(ds: Seq<FileDescriptorView>, names: FolderNamesView) -> Seq<
    QueryReplyView,
>
    decreases ds.len(),
{
    if ds.len() == 0 {
        Seq::empty()
    } else {
        let rest = spec_reply_list(ds.drop_last(), names);
        match spec_classify_desc(ds.last()) {
            Some(FileClass::Reply(kind)) => rest.push(
                QueryReplyView {
                    kind,
                    file: spec_plain_file(ds.last(), spec_reply_sub(names, kind)),
                },
            ),
            _ => rest,
        }
    }
}

/// The registration-result and termination-notice documents of the
/// descriptors, in listing order.
pub open spec fn spec_result_list(ds: Seq<FileDescriptorView>, names: FolderNamesView) -> Seq<
    UploadFileView,
>
    decreases ds.len(),
{
    if ds.len() == 0 {
        Seq::empty()
    } else {
        let rest = spec_result_list(ds.drop_last(), names);
        if spec_classify_desc(ds.last()) == Some(FileClass::ResultDoc) {
            rest.push(spec_plain_file(ds.last(), names.result_folder))
        } else {
            rest
        }
    }
}

fn new_empty_disclosure() -> (r: InfoDisclosure)
    ensures
        forall|k: DocKind, st: DocStage| r.staged(k, st) == Seq::<UploadFileView>::empty(),
        r.replies() == Seq::<QueryReplyView>::empty(),
        r.results() == Seq::<UploadFileView>::empty(),
{
    let r = InfoDisclosure {
        prospectuses: StageLists::new_empty(),
        publish_sponsor: StageLists::new_empty(),
        list_sponsor: StageLists::new_empty(),
        audit_report: StageLists::new_empty(),
        legal_opinion: StageLists::new_empty(),
        others: StageLists::new_empty(),
        query_and_reply: Vec::new(),
        register_result_or_audit_terminated: Vec::new(),
    };
    proof {
        assert(r.replies() =~= Seq::<QueryReplyView>::empty());
        assert(r.results() =~= Seq::<UploadFileView>::empty());
    }
    r
}

/// Classifies every descriptor and fills the buckets, in listing order.
/// The first descriptor that the table does not know aborts the whole parse
/// with `UnknownFileType`: an unrecognized code means either a new document
/// category or malformed input, and both should surface loudly.
pub fn disclosure_from_descriptors(descs: &Vec<FileDescriptor>, names: &FolderNames) -> (r: Result<
    InfoDisclosure,
    SseError,
>)
    ensures
        r is Ok <==> (forall|t: int|
            0 <= t < descs.deep_view().len() ==> spec_classify_desc(
                descs.deep_view()[t],
            ) is Some),
        r matches Err(e) ==> e == SseError::UnknownFileType,
        r matches Ok(dis) ==> {
            &&& forall|k: DocKind, st: DocStage|
                dis.staged(k, st) == spec_staged_bucket(descs.deep_view(), names@, k, st)
            &&& dis.replies() == spec_reply_list(descs.deep_view(), names@)
            &&& dis.results() == spec_result_list(descs.deep_view(), names@)
        },
{
    let ghost dv = descs.deep_view();
    let mut dis = new_empty_disclosure();
    proof {
        assert forall|k: DocKind, st: DocStage|
            dis.staged(k, st) == spec_staged_bucket(dv.take(0), names@, k, st) by {
            assert(dv.take(0).len() == 0);
        }
        assert(dv.take(0).len() == 0);
    }
    let n = descs.len();
    let mut i: usize = 0;
    while i < n
        invariant
            n == descs@.len(),
            dv == descs.deep_view(),
            dv.len() == n,
            i <= n,
            forall|t: int| 0 <= t < i ==> spec_classify_desc(dv[t]) is Some,
            forall|k: DocKind, st: DocStage|
                dis.staged(k, st) == spec_staged_bucket(dv.take(i as int), names@, k, st),
            dis.replies() == spec_reply_list(dv.take(i as int), names@),
            dis.results() == spec_result_list(dv.take(i as int), names@),
        decreases n - i,
    {
        let d = &descs[i];
        assert(*d == descs@[i as int]);
        assert(d@ == dv[i as int]);
        let class = match classify_file(d) {
            Ok(c) => c,
            Err(e) => {
                assert(spec_classify_desc(dv[i as int]) is None);
                return Err(e);
            },
        };
        let ghost prev = dis;
        match class {
            FileClass::Staged(k, st) => {
                let f = build_staged_file(d, names, st);
                match k {
                    DocKind::Prospectus => dis.prospectuses.push_stage(st, f),
                    DocKind::PublishSponsor => dis.publish_sponsor.push_stage(st, f),
                    DocKind::ListSponsor => dis.list_sponsor.push_stage(st, f),
                    DocKind::AuditReport => dis.audit_report.push_stage(st, f),
                    DocKind::LegalOpinion => dis.legal_opinion.push_stage(st, f),
                    DocKind::Others => dis.others.push_stage(st, f),
                }
            },
            FileClass::Reply(kind) => {
                let sub = match kind {
                    ReplyKind::Sponsor => names.sponsor.as_str(),
                    ReplyKind::Accountant => names.accountant.as_str(),
                    ReplyKind::Lawyer => names.lawyer.as_str(),
                    ReplyKind::Other => names.unclassified.as_str(),
                };
                let f = build_plain_file(d, sub);
                let reply = make_reply(kind, f);
                dis.query_and_reply.push(reply);
                proof {
                    assert(dis.replies() =~= prev.replies().push(reply@));
                }
            },
            FileClass::ResultDoc => {
                let f = build_plain_file(d, names.result_folder.as_str());
                dis.register_result_or_audit_terminated.push(f);
                proof {
                    assert(dis.results() =~= prev.results().push(f@));
                }
            },
        }
        proof {
            assert(dv.take(i + 1).drop_last() =~= dv.take(i as int));
            assert(dv.take(i + 1).last() == dv[i as int]);
            assert forall|k: DocKind, st: DocStage|
                dis.staged(k, st) == spec_staged_bucket(dv.take(i + 1), names@, k, st) by {
                assert(prev.staged(k, st) == spec_staged_bucket(dv.take(i as int), names@, k, st));
                assert(spec_staged_bucket(dv.take(i + 1), names@, k, st) == if spec_classify_desc(
                    dv[i as int],
                ) == Some(FileClass::Staged(k, st)) {
                    spec_staged_bucket(dv.take(i as int), names@, k, st).push(
                        spec_staged_file(dv[i as int], names@, st),
                    )
                } else {
                    spec_staged_bucket(dv.take(i as int), names@, k, st)
                });
                match class {
                    FileClass::Staged(k0, st0) => {
                        if k == k0 && st == st0 {
                            assert(dis.staged(k, st) == prev.staged(k, st).push(
                                spec_staged_file(dv[i as int], names@, st),
                            ));
                        } else {
                            assert(dis.staged(k, st) == prev.staged(k, st));
                        }
                    },
                    _ => {
                        assert(dis.staged(k, st) == prev.staged(k, st));
                    },
                }
            }
        }
        i = i + 1;
    }
    proof {
        assert(dv.take(n as int) =~= dv);
    }
    Ok(dis)
}

/// What a raw disclosure response yields before bucketing: the descriptor
/// fields of every record under `result`, when the envelope, the payload,
/// every record and every classification are good — else the first error
/// on the way.
pub open spec fn spec_disclosure_descriptors(resp: Seq<char>) -> Result<
    Seq<FileDescriptorView>,
    SseError,
> {
    match spec_payload(resp) {
        None => Err(SseError::MalformedEnvelope),
        Some(body) => match spec_result_records(body) {
            None => Err(SseError::MissingField),
            Some(records) => match spec_descriptors_of(records) {
                Err(e) => Err(e),
                Ok(ds) => if forall|t: int| 0 <= t < ds.len() ==> spec_classify_desc(
                    ds[t],
                ) is Some {
                    Ok(ds)
                } else {
                    Err(SseError::UnknownFileType)
                },
            },
        },
    }
}

impl InfoDisclosure {
    /// Parses a raw disclosure response: JSONP unwrapped, payload parsed,
    /// every descriptor under `result` read and routed through the
    /// classification table. Succeeds exactly when
    /// `spec_disclosure_descriptors` does, with the buckets holding exactly
    /// those descriptors' files; fails with exactly its error.
    pub fn from_response(resp: &str, names: &FolderNames) -> (r: Result<InfoDisclosure, SseError>)
        ensures
            match r {
                Ok(dis) => spec_disclosure_descriptors(resp@) matches Ok(ds) && {
                    &&& forall|k: DocKind, st: DocStage|
                        dis.staged(k, st) == spec_staged_bucket(ds, names@, k, st)
                    &&& dis.replies() == spec_reply_list(ds, names@)
                    &&& dis.results() == spec_result_list(ds, names@)
                },
                Err(e) => spec_disclosure_descriptors(resp@) == Err::<
                    Seq<FileDescriptorView>,
                    SseError,
                >(e),
            },
    {
        let body = match unwrap_and_parse(resp) {
            Ok(v) => v,
            Err(e) => {
                return Err(e);
            },
        };
        let records = match result_array(&body) {
            Ok(arr) => arr,
            Err(e) => {
                return Err(e);
            },
        };
        let descs = match file_descriptors_from_json(records) {
            Ok(ds) => ds,
            Err(e) => {
                return Err(e);
            },
        };
        disclosure_from_descriptors(&descs, names)
    }
}

/// How many files a disclosure set holds over all its buckets.
pub open spec fn spec_total_files(dis: InfoDisclosure) -> nat {
    dis.staged(DocKind::Prospectus, DocStage::Declare).len() + dis.staged(
        DocKind::Prospectus,
        DocStage::Meeting,
    ).len() + dis.staged(DocKind::Prospectus, DocStage::Register).len() + dis.staged(
        DocKind::PublishSponsor,
        DocStage::Declare,
    ).len() + dis.staged(DocKind::PublishSponsor, DocStage::Meeting).len() + dis.staged(
        DocKind::PublishSponsor,
        DocStage::Register,
    ).len() + dis.staged(DocKind::ListSponsor, DocStage::Declare).len() + dis.staged(
        DocKind::ListSponsor,
        DocStage::Meeting,
    ).len() + dis.staged(DocKind::ListSponsor, DocStage::Register).len() + dis.staged(
        DocKind::AuditReport,
        DocStage::Declare,
    ).len() + dis.staged(DocKind::AuditReport, DocStage::Meeting).len() + dis.staged(
        DocKind::AuditReport,
        DocStage::Register,
    ).len() + dis.staged(DocKind::LegalOpinion, DocStage::Declare).len() + dis.staged(
        DocKind::LegalOpinion,
        DocStage::Meeting,
    ).len() + dis.staged(DocKind::LegalOpinion, DocStage::Register).len() + dis.staged(
        DocKind::Others,
        DocStage::Declare,
    ).len() + dis.staged(DocKind::Others, DocStage::Meeting).len() + dis.staged(
        DocKind::Others,
        DocStage::Register,
    ).len() + dis.replies().len() + dis.results().len()
}

/// The round-trip law: a disclosure set built from classifiable descriptors
/// holds exactly one file per descriptor over all its buckets — none lost,
/// none duplicated. Its hypotheses are exactly what
/// `disclosure_from_descriptors` ensures of a successful parse.
pub proof fn lemma_no_file_lost(
    ds: Seq<FileDescriptorView>,
    names: FolderNamesView,
    dis: InfoDisclosure,
)
    requires
        forall|t: int| 0 <= t < ds.len() ==> spec_classify_desc(ds[t]) is Some,
        forall|k: DocKind, st: DocStage| dis.staged(k, st) == spec_staged_bucket(ds, names, k, st),
        dis.replies() == spec_reply_list(ds, names),
        dis.results() == spec_result_list(ds, names),
    ensures
        spec_total_files(dis) == ds.len(),
{
    lemma_classification_partitions(ds, names);
}

/// How many files the descriptors put into all buckets together.
pub open spec fn spec_bucket_total(ds: Seq<FileDescriptorView>, names: FolderNamesView) -> nat {
    spec_staged_bucket(ds, names, DocKind::Prospectus, DocStage::Declare).len() + spec_staged_bucket(
        ds,
        names,
        DocKind::Prospectus,
        DocStage::Meeting,
    ).len() + spec_staged_bucket(ds, names, DocKind::Prospectus, DocStage::Register).len()
        + spec_staged_bucket(ds, names, DocKind::PublishSponsor, DocStage::Declare).len()
        + spec_staged_bucket(ds, names, DocKind::PublishSponsor, DocStage::Meeting).len()
        + spec_staged_bucket(ds, names, DocKind::PublishSponsor, DocStage::Register).len()
        + spec_staged_bucket(ds, names, DocKind::ListSponsor, DocStage::Declare).len()
        + spec_staged_bucket(ds, names, DocKind::ListSponsor, DocStage::Meeting).len()
        + spec_staged_bucket(ds, names, DocKind::ListSponsor, DocStage::Register).len()
        + spec_staged_bucket(ds, names, DocKind::AuditReport, DocStage::Declare).len()
        + spec_staged_bucket(ds, names, DocKind::AuditReport, DocStage::Meeting).len()
        + spec_staged_bucket(ds, names, DocKind::AuditReport, DocStage::Register).len()
        + spec_staged_bucket(ds, names, DocKind::LegalOpinion, DocStage::Declare).len()
        + spec_staged_bucket(ds, names, DocKind::LegalOpinion, DocStage::Meeting).len()
        + spec_staged_bucket(ds, names, DocKind::LegalOpinion, DocStage::Register).len()
        + spec_staged_bucket(ds, names, DocKind::Others, DocStage::Declare).len()
        + spec_staged_bucket(ds, names, DocKind::Others, DocStage::Meeting).len()
        + spec_staged_bucket(ds, names, DocKind::Others, DocStage::Register).len()
        + spec_reply_list(ds, names).len() + spec_result_list(ds, names).len()
}

/// The partition law: when every descriptor is classifiable, the buckets
/// together hold exactly one file per descriptor — none lost, none
/// duplicated.
pub proof fn lemma_classification_partitions(ds: Seq<FileDescriptorView>, names: FolderNamesView)
    requires
        forall|t: int| 0 <= t < ds.len() ==> spec_classify_desc(ds[t]) is Some,
    ensures
        spec_bucket_total(ds, names) == ds.len(),
    decreases ds.len(),
{
    if ds.len() > 0 {
        let rest = ds.drop_last();
        assert(forall|t: int| 0 <= t < rest.len() ==> rest[t] == ds[t]);
        lemma_classification_partitions(rest, names);
        assert(spec_classify_desc(ds.last()) is Some);
    }
}

} // verus!
