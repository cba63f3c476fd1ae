//! Meeting announcements and results, with the owning company resolved
//! through the roster embedded in each descriptor.

use vstd::prelude::*;
use vstd::string::*;
use crate::error::SseError;
use crate::extract::{
    announce_descriptors_from_json, result_array, spec_announce_descriptors_of, spec_payload,
    spec_result_records, unwrap_and_parse,
};
use crate::files::{UploadFile, UploadFileView};
use crate::folders::{FolderNames, FolderNamesView};
use crate::paths::{dest_path, file_url, spec_dest_path, spec_file_url};
use crate::text::{spec_trim, trim_str};

verus! {

/// One entry of the company roster of an announcement: an audit id and a
/// company name, either of which the response may omit or mistype.
#[derive(Debug, Clone)]
pub struct RosterEntry {
    pub audit_id: Option<u32>,
    pub company_full_name: Option<String>,
}

pub struct RosterEntryView {
    pub audit_id: Option<u32>,
    pub company_full_name: Option<Seq<char>>,
}

impl View for RosterEntry {
    type V = RosterEntryView;

    open spec fn view(&self) -> RosterEntryView {
        RosterEntryView {
            audit_id: self.audit_id,
            company_full_name: match self.company_full_name {
                Some(ref s) => Some(s@),
                None => None,
            },
        }
    }
}

impl DeepView for RosterEntry {
    type V = RosterEntryView;

    open spec fn deep_view(&self) -> RosterEntryView {
        self.view()
    }
}

/// The plain fields of one announcement descriptor. One announcement can
/// cover several concurrently reviewed companies, hence the roster.
#[derive(Debug, Clone)]
pub struct AnnounceDescriptor {
    pub file_title: String,
    pub file_path: String,
    pub roster: Vec<RosterEntry>,
}

pub struct AnnounceDescriptorView {
    pub file_title: Seq<char>,
    pub file_path: Seq<char>,
    pub roster: Seq<RosterEntryView>,
}

impl View for AnnounceDescriptor {
    type V = AnnounceDescriptorView;

    open spec fn view(&self) -> AnnounceDescriptorView {
        AnnounceDescriptorView {
            file_title: self.file_title@,
            file_path: self.file_path@,
            roster: self.roster.deep_view(),
        }
    }
}

impl DeepView for AnnounceDescriptor {
    type V = AnnounceDescriptorView;

    open spec fn deep_view(&self) -> AnnounceDescriptorView {
        self.view()
    }
}

/// The meeting announcements and result documents of one company.
#[derive(Debug, Clone)]
pub struct MeetingAnnounce {
    pub announcements: Vec<UploadFile>,
}

/// The index of the first roster entry whose audit id is `id`.
pub open spec fn spec_first_match(roster: Seq<RosterEntryView>, id: u32) -> Option<int>
    decreases roster.len(),
{
    if roster.len() == 0 {
        None
    } else if roster[0].audit_id == Some(id) {
        Some(0)
    } else {
        match spec_first_match(roster.drop_first(), id) {
            Some(j) => Some(j + 1),
            None => None,
        }
    }
}

proof fn lemma_first_match_at(roster: Seq<RosterEntryView>, id: u32, i: int)
    requires
        0 <= i < roster.len(),
        forall|k: int| 0 <= k < i ==> roster[k].audit_id != Some(id),
        roster[i].audit_id == Some(id),
    ensures
        spec_first_match(roster, id) == Some(i),
    decreases roster.len(),
{
    if i > 0 {
        let t = roster.drop_first();
        assert(forall|k: int| 0 <= k < i - 1 ==> #[trigger] t[k].audit_id == roster[k
            + 1].audit_id);
        lemma_first_match_at(t, id, i - 1);
    }
}

proof fn lemma_no_match(roster: Seq<RosterEntryView>, id: u32)
    requires
        forall|k: int| 0 <= k < roster.len() ==> roster[k].audit_id != Some(id),
    ensures
        spec_first_match(roster, id) is None,
    decreases roster.len(),
{
    if roster.len() > 0 {
        let t = roster.drop_first();
        assert(forall|k: int| 0 <= k < t.len() ==> #[trigger] t[k].audit_id == roster[k
            + 1].audit_id);
        lemma_no_match(t, id);
    }
}

/// Scans the roster for the entry whose audit id equals the id being
/// queried and yields that entry's trimmed company name. Taking the first
/// roster entry unconditionally would be wrong: roster order need not match
/// the query context. Fails with `CompanyNameNotFound` when nothing matches.
pub fn resolve_company_name(roster: &Vec<RosterEntry>, id: u32) -> (r: Result<String, SseError>)
    ensures
        match spec_first_match(roster.deep_view(), id) {
            None => r == Err::<String, SseError>(SseError::CompanyNameNotFound),
            Some(j) => match roster.deep_view()[j].company_full_name {
                Some(nm) => r matches Ok(s) && s@ == spec_trim(nm),
                None => r == Err::<String, SseError>(SseError::MissingField),
            },
        },
{
    let n = roster.len();
    let mut i: usize = 0;
    while i < n
        invariant
            n == roster@.len(),
            i <= n,
            forall|k: int| 0 <= k < i ==> roster.deep_view()[k].audit_id != Some(id),
        decreases n - i,
    {
        assert(roster.deep_view()[i as int] == roster@[i as int]@);
        let matches_id = match roster[i].audit_id {
            Some(a) => a == id,
            None => false,
        };
        if matches_id {
            proof {
                lemma_first_match_at(roster.deep_view(), id, i as int);
            }
            return match &roster[i].company_full_name {
                Some(nm) => Ok(trim_str(nm.as_str())),
                None => Err(SseError::MissingField),
            };
        }
        i = i + 1;
    }
    proof {
        lemma_no_match(roster.deep_view(), id);
    }
    Err(SseError::CompanyNameNotFound)
}

/// What one announcement descriptor yields for the company with audit id
/// `id`: its download entry, or the error its roster forces.
pub open spec fn spec_announce_outcome(
    d: AnnounceDescriptorView,
    id: u32,
    names: FolderNamesView,
) -> Result<UploadFileView, SseError> {
    match spec_first_match(d.roster, id) {
        None => Err(SseError::CompanyNameNotFound),
        Some(j) => match d.roster[j].company_full_name {
            None => Err(SseError::MissingField),
            Some(nm) => Ok(
                UploadFileView {
                    filename: d.file_title,
                    url: spec_file_url(d.file_path),
                    path: spec_dest_path(spec_trim(nm), names.result_folder, d.file_title),
                },
            ),
        },
    }
}

/// What a listing of announcement descriptors yields for one company: the
/// download entries in listing order, or the first descriptor's error.
pub open spec fn spec_collect_announcements(
    ds: Seq<AnnounceDescriptorView>,
    id: u32,
    names: FolderNamesView,
) -> Result<Seq<UploadFileView>, SseError>
    decreases ds.len(),
{
    if ds.len() == 0 {
        Ok(Seq::empty())
    } else {
        match (
            spec_collect_announcements(ds.drop_last(), id, names),
            spec_announce_outcome(ds.last(), id, names),
        ) {
            (Ok(rest), Ok(f)) => Ok(rest.push(f)),
            (Err(e), _) => Err(e),
            (Ok(_), Err(e)) => Err(e),
        }
    }
}

/// The error of the first failing descriptor decides the whole listing.
proof fn lemma_collect_first_error(
    ds: Seq<AnnounceDescriptorView>,
    id: u32,
    names: FolderNamesView,
    i: int,
    e: SseError,
)
    requires
        0 <= i < ds.len(),
        spec_collect_announcements(ds.take(i), id, names) is Ok,
        spec_announce_outcome(ds[i], id, names) == Err::<UploadFileView, SseError>(e),
    ensures
        spec_collect_announcements(ds, id, names) == Err::<Seq<UploadFileView>, SseError>(e),
    decreases ds.len(),
{
    if i < ds.len() - 1 {
        let t = ds.drop_last();
        assert(t[i] == ds[i]);
        assert(t.take(i) =~= ds.take(i));
        lemma_collect_first_error(t, id, names, i, e);
    } else {
        assert(ds.drop_last() =~= ds.take(i));
    }
}

/// Builds the announcement set: one download entry per descriptor, each
/// under the resolved company's result folder, exactly as
/// `spec_collect_announcements` says.
pub fn announce_from_descriptors(
    descs: &Vec<AnnounceDescriptor>,
    id: u32,
    names: &FolderNames,
) -> (r: Result<MeetingAnnounce, SseError>)
    ensures
        match r {
            Ok(ma) => spec_collect_announcements(descs.deep_view(), id, names@) == Ok::<
                Seq<UploadFileView>,
                SseError,
            >(ma.announcements.deep_view()),
            Err(e) => spec_collect_announcements(descs.deep_view(), id, names@) == Err::<
                Seq<UploadFileView>,
                SseError,
            >(e),
        },
{
    let mut files: Vec<UploadFile> = Vec::new();
    proof {
        assert(files.deep_view() =~= Seq::<UploadFileView>::empty());
        assert(descs.deep_view().take(0).len() == 0);
    }
    let n = descs.len();
    let mut i: usize = 0;
    while i < n
        invariant
            n == descs@.len(),
            i <= n,
            spec_collect_announcements(descs.deep_view().take(i as int), id, names@) == Ok::<
                Seq<UploadFileView>,
                SseError,
            >(files.deep_view()),
        decreases n - i,
    {
        let d = &descs[i];
        assert(d@ == descs.deep_view()[i as int]);
        let company = match resolve_company_name(&d.roster, id) {
            Ok(c) => c,
            Err(e) => {
                proof {
                    assert(spec_announce_outcome(descs.deep_view()[i as int], id, names@) == Err::<
                        UploadFileView,
                        SseError,
                    >(e));
                    lemma_collect_first_error(descs.deep_view(), id, names@, i as int, e);
                }
                return Err(e);
            },
        };
        let path = dest_path(company.as_str(), names.result_folder.as_str(), d.file_title.as_str());
        let url = file_url(d.file_path.as_str());
        let f = UploadFile { filename: d.file_title.clone(), url, path };
        let ghost prev = files.deep_view();
        files.push(f);
        proof {
            assert(files.deep_view() =~= prev.push(f@));
            assert(descs.deep_view().take(i + 1).drop_last() =~= descs.deep_view().take(i as int));
            assert(descs.deep_view().take(i + 1).last() == descs.deep_view()[i as int]);
            assert(spec_announce_outcome(descs.deep_view()[i as int], id, names@) matches Ok(fv)
                && fv == f@);
        }
        i = i + 1;
    }
    proof {
        assert(descs.deep_view().take(n as int) =~= descs.deep_view());
    }
    Ok(MeetingAnnounce { announcements: files })
}

/// What a raw announcement response yields for audit id `id`: the
/// download entries, or the first error on the way — no envelope, no
/// `result` array, a defective record, or a roster that does not resolve.
pub open spec fn spec_announce_response(
    resp: Seq<char>,
    id: u32,
    names: FolderNamesView,
) -> Result<Seq<UploadFileView>, SseError> {
    match spec_payload(resp) {
        None => Err(SseError::MalformedEnvelope),
        Some(body) => match spec_result_records(body) {
            None => Err(SseError::MissingField),
            Some(records) => match spec_announce_descriptors_of(records) {
                Err(e) => Err(e),
                Ok(ds) => spec_collect_announcements(ds, id, names),
            },
        },
    }
}

impl MeetingAnnounce {
    /// Parses a raw announcement response for the company with audit id
    /// `id`, exactly as `spec_announce_response` says: JSONP unwrapped,
    /// payload parsed, every descriptor under `result` resolved against its
    /// roster.
    pub fn from_response(resp: &str, id: u32, names: &FolderNames) -> (r: Result<
        MeetingAnnounce,
        SseError,
    >)
        ensures
            match r {
                Ok(ma) => spec_announce_response(resp@, id, names@) == Ok::<
                    Seq<UploadFileView>,
                    SseError,
                >(ma.announcements.deep_view()),
                Err(e) => spec_announce_response(resp@, id, names@) == Err::<
                    Seq<UploadFileView>,
                    SseError,
                >(e),
            },
    {
        let body = match unwrap_and_parse(resp) {
            Ok(v) => v,
            Err(e) => {
                return Err(e);
            },
        };
        let records = match result_array(&body) {
            Ok(arr) => arr,
            Err(e) => {
                return Err(e);
            },
        };
        let descs = match announce_descriptors_from_json(records) {
            Ok(ds) => ds,
            Err(e) => {
                return Err(e);
            },
        };
        announce_from_descriptors(&descs, id, names)
    }
}

} // verus!
