//! Disclosure-file descriptors, the classification table, and the
//! construction of download entries.

use vstd::prelude::*;
use vstd::string::*;
use crate::error::SseError;
use crate::folders::{FolderNames, FolderNamesView};
use crate::paths::{dest_path, file_url, spec_dest_path, spec_file_url};
use crate::text::{spec_trim, trim_str};

verus! {

/// One file to download: its display name, its absolute source URL and its
/// destination path. Constructed once during parsing, never recomputed.
#[derive(Debug, Clone)]
pub struct UploadFile {
    pub filename: String,
    pub url: String,
    pub path: String,
}

pub struct UploadFileView {
    pub filename: Seq<char>,
    pub url: Seq<char>,
    pub path: Seq<char>,
}

impl View for UploadFile {
    type V = UploadFileView;

    open spec fn view(&self) -> UploadFileView {
        UploadFileView { filename: self.filename@, url: self.url@, path: self.path@ }
    }
}

impl DeepView for UploadFile {
    type V = UploadFileView;

    open spec fn deep_view(&self) -> UploadFileView {
        self.view()
    }
}

/// Who a query-and-reply document belongs to, read off its filename prefix.
#[derive(Debug, Clone, Copy, PartialEq, Eq, Structural)]
pub enum ReplyKind {
    Sponsor,
    Accountant,
    Lawyer,
    Other,
}

/// A query-and-reply document together with its owner.
#[derive(Debug, Clone)]
pub enum QueryReply {
    Sponsor(UploadFile),
    Accountant(UploadFile),
    Lawyer(UploadFile),
    Other(UploadFile),
}

pub struct QueryReplyView {
    pub kind: ReplyKind,
    pub file: UploadFileView,
}

impl View for QueryReply {
    type V = QueryReplyView;

    open spec fn view(&self) -> QueryReplyView {
        match self {
            QueryReply::Sponsor(f) => QueryReplyView { kind: ReplyKind::Sponsor, file: f@ },
            QueryReply::Accountant(f) => QueryReplyView { kind: ReplyKind::Accountant, file: f@ },
            QueryReply::Lawyer(f) => QueryReplyView { kind: ReplyKind::Lawyer, file: f@ },
            QueryReply::Other(f) => QueryReplyView { kind: ReplyKind::Other, file: f@ },
        }
    }
}

impl DeepView for QueryReply {
    type V = QueryReplyView;

    open spec fn deep_view(&self) -> QueryReplyView {
        self.view()
    }
}

/// The three successive revision stages of a staged disclosure document.
#[derive(Debug, Clone, Copy, PartialEq, Eq, Structural)]
pub enum DocStage {
    Declare,
    Meeting,
    Register,
}

/// The six staged document categories.
#[derive(Debug, Clone, Copy, PartialEq, Eq, Structural)]
pub enum DocKind {
    Prospectus,
    PublishSponsor,
    ListSponsor,
    AuditReport,
    LegalOpinion,
    Others,
}

/// Where the classification table routes one descriptor.
#[derive(Debug, Clone, Copy, PartialEq, Eq, Structural)]
pub enum FileClass {
    Staged(DocKind, DocStage),
    Reply(ReplyKind),
    ResultDoc,
}

/// The plain fields of one file descriptor of a disclosure response.
#[derive(Debug, Clone)]
pub struct FileDescriptor {
    pub file_title: String,
    pub file_path: String,
    pub publish_date: String,
    pub company_full_name: String,
    pub file_type: Option<u64>,
    pub file_version: Option<u64>,
}

pub struct FileDescriptorView {
    pub file_title: Seq<char>,
    pub file_path: Seq<char>,
    pub publish_date: Seq<char>,
    pub company_full_name: Seq<char>,
    pub file_type: Option<u64>,
    pub file_version: Option<u64>,
}

impl View for FileDescriptor {
    type V = FileDescriptorView;

    open spec fn view(&self) -> FileDescriptorView {
        FileDescriptorView {
            file_title: self.file_title@,
            file_path: self.file_path@,
            publish_date: self.publish_date@,
            company_full_name: self.company_full_name@,
            file_type: self.file_type,
            file_version: self.file_version,
        }
    }
}

impl DeepView for FileDescriptor {
    type V = FileDescriptorView;

    open spec fn deep_view(&self) -> FileDescriptorView {
        self.view()
    }
}

/// `title` starts with `8-<c>`.
pub open spec fn spec_prefix_8(title: Seq<char>, c: char) -> bool {
    title.len() >= 3 && title[0] == '8' && title[1] == '-' && title[2] == c
}

/// Query-and-reply sub-routing over the observed filename convention.
pub open spec fn spec_reply_kind(title: Seq<char>) -> ReplyKind {
    if spec_prefix_8(title, '1') {
        ReplyKind::Sponsor
    } else if spec_prefix_8(title, '2') {
        ReplyKind::Accountant
    } else if spec_prefix_8(title, '3') {
        ReplyKind::Lawyer
    } else {
        ReplyKind::Other
    }
}

/// The staged document category of a `fileType` code.
pub open spec fn spec_doc_kind(t: u64) -> Option<DocKind> {
    if t == 30 {
        Some(DocKind::Prospectus)
    } else if t == 36 {
        Some(DocKind::PublishSponsor)
    } else if t == 37 {
        Some(DocKind::ListSponsor)
    } else if t == 32 {
        Some(DocKind::AuditReport)
    } else if t == 33 {
        Some(DocKind::LegalOpinion)
    } else if t == 34 {
        Some(DocKind::Others)
    } else {
        None
    }
}

/// The revision stage of a `fileVersion` code; versions 3 and 4 are both
/// registration-stage revisions.
pub open spec fn spec_doc_stage(v: u64) -> Option<DocStage> {
    if v == 1 {
        Some(DocStage::Declare)
    } else if v == 2 {
        Some(DocStage::Meeting)
    } else if v == 3 || v == 4 {
        Some(DocStage::Register)
    } else {
        None
    }
}

/// The classification table: `(fileType, fileVersion, title)` to destination.
/// Types 5 and 6 (query-and-reply) and 35 and 38 (registration result or
/// termination notice) ignore the version; every other pair must name a
/// staged category and stage, else the descriptor is unclassifiable.
pub open spec fn spec_classify(ft: Option<u64>, fv: Option<u64>, title: Seq<char>) -> Option<
    FileClass,
> {
    if ft == Some(5u64) || ft == Some(6u64) {
        Some(FileClass::Reply(spec_reply_kind(title)))
    } else if ft == Some(35u64) || ft == Some(38u64) {
        Some(FileClass::ResultDoc)
    } else {
        match (ft, fv) {
            (Some(t), Some(v)) => match (spec_doc_kind(t), spec_doc_stage(v)) {
                (Some(k), Some(st)) => Some(FileClass::Staged(k, st)),
                _ => None,
            },
            _ => None,
        }
    }
}

pub open spec fn spec_classify_desc(d: FileDescriptorView) -> Option<FileClass> {
    spec_classify(d.file_type, d.file_version, d.file_title)
}

fn prefix_8(title: &str, c: char) -> (r: bool)
    ensures
        r == spec_prefix_8(title@, c),
{
    title.unicode_len() >= 3 && title.get_char(0) == '8' && title.get_char(1) == '-'
        && title.get_char(2) == c
}

fn reply_kind_of(title: &str) -> (r: ReplyKind)
    ensures
        r == spec_reply_kind(title@),
{
    if prefix_8(title, '1') {
        ReplyKind::Sponsor
    } else if prefix_8(title, '2') {
        ReplyKind::Accountant
    } else if prefix_8(title, '3') {
        ReplyKind::Lawyer
    } else {
        ReplyKind::Other
    }
}

fn doc_kind_of(t: u64) -> (r: Option<DocKind>)
    ensures
        r == spec_doc_kind(t),
{
    if t == 30 {
        Some(DocKind::Prospectus)
    } else if t == 36 {
        Some(DocKind::PublishSponsor)
    } else if t == 37 {
        Some(DocKind::ListSponsor)
    } else if t == 32 {
        Some(DocKind::AuditReport)
    } else if t == 33 {
        Some(DocKind::LegalOpinion)
    } else if t == 34 {
        Some(DocKind::Others)
    } else {
        None
    }
}

fn doc_stage_of(v: u64) -> (r: Option<DocStage>)
    ensures
        r == spec_doc_stage(v),
{
    if v == 1 {
        Some(DocStage::Declare)
    } else if v == 2 {
        Some(DocStage::Meeting)
    } else if v == 3 || v == 4 {
        Some(DocStage::Register)
    } else {
        None
    }
}

/// Routes one descriptor through the classification table. An unknown
/// `(fileType, fileVersion)` pair fails with `UnknownFileType`.
pub fn classify_file(d: &FileDescriptor) -> (r: Result<FileClass, SseError>)
    ensures
        match spec_classify_desc(d@) {
            Some(c) => r == Ok::<FileClass, SseError>(c),
            None => r == Err::<FileClass, SseError>(SseError::UnknownFileType),
        },
{
    match d.file_type {
        Some(5u64) | Some(6u64) => Ok(FileClass::Reply(reply_kind_of(d.file_title.as_str()))),
        Some(35u64) | Some(38u64) => Ok(FileClass::ResultDoc),
        Some(t) => match d.file_version {
            Some(v) => match (doc_kind_of(t), doc_stage_of(v)) {
                (Some(k), Some(st)) => Ok(FileClass::Staged(k, st)),
                _ => Err(SseError::UnknownFileType),
            },
            None => Err(SseError::UnknownFileType),
        },
        None => Err(SseError::UnknownFileType),
    }
}

/// The subfolder a stage's documents land in.
pub open spec fn spec_stage_sub(names: FolderNamesView, st: DocStage) -> Seq<char> {
    match st {
        DocStage::Declare => names.declare,
        DocStage::Meeting => names.meeting,
        DocStage::Register => names.register,
    }
}

/// The subfolder a query-and-reply owner's documents land in.
pub open spec fn spec_reply_sub(names: FolderNamesView, k: ReplyKind) -> Seq<char> {
    match k {
        ReplyKind::Sponsor => names.sponsor,
        ReplyKind::Accountant => names.accountant,
        ReplyKind::Lawyer => names.lawyer,
        ReplyKind::Other => names.unclassified,
    }
}

/// The download entry of a staged document: the publish date is appended to
/// the display name, so distinct revisions sharing one classification slot
/// never overwrite each other.
pub open spec fn spec_staged_file(
    d: FileDescriptorView,
    names: FolderNamesView,
    st: DocStage,
) -> UploadFileView {
    let fname = d.file_title + d.publish_date;
    UploadFileView {
        filename: fname,
        url: spec_file_url(d.file_path),
        path: spec_dest_path(spec_trim(d.company_full_name), spec_stage_sub(names, st), fname),
    }
}

/// The download entry of an unstaged document (query-and-reply, result
/// notice): the display name is kept as it stands.
pub open spec fn spec_plain_file(d: FileDescriptorView, sub: Seq<char>) -> UploadFileView {
    UploadFileView {
        filename: d.file_title,
        url: spec_file_url(d.file_path),
        path: spec_dest_path(spec_trim(d.company_full_name), sub, d.file_title),
    }
}

pub fn build_staged_file(d: &FileDescriptor, names: &FolderNames, st: DocStage) -> (r: UploadFile)
    ensures
        r@ == spec_staged_file(d@, names@, st),
{
    let mut fname = d.file_title.clone();
    fname.append(d.publish_date.as_str());
    let company = trim_str(d.company_full_name.as_str());
    let sub = match st {
        DocStage::Declare => names.declare.as_str(),
        DocStage::Meeting => names.meeting.as_str(),
        DocStage::Register => names.register.as_str(),
    };
    let path = dest_path(company.as_str(), sub, fname.as_str());
    let url = file_url(d.file_path.as_str());
    UploadFile { filename: fname, url, path }
}

pub fn build_plain_file(d: &FileDescriptor, sub: &str) -> (r: UploadFile)
    ensures
        r@ == spec_plain_file(d@, sub@),
{
    let company = trim_str(d.company_full_name.as_str());
    let path = dest_path(company.as_str(), sub, d.file_title.as_str());
    let url = file_url(d.file_path.as_str());
    UploadFile { filename: d.file_title.clone(), url, path }
}

/// Wraps a query-and-reply file under its owner's tag.
pub fn make_reply(kind: ReplyKind, f: UploadFile) -> (r: QueryReply)
    ensures
        r@ == (QueryReplyView { kind, file: f@ }),
{
    match kind {
        ReplyKind::Sponsor => QueryReply::Sponsor(f),
        ReplyKind::Accountant => QueryReply::Accountant(f),
        ReplyKind::Lawyer => QueryReply::Lawyer(f),
        ReplyKind::Other => QueryReply::Other(f),
    }
}

} // verus!
