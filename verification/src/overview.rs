//! The company-overview record: name, audit id, review status and dates.

use vstd::prelude::*;
use vstd::string::*;
use crate::dates::{spec_parse_datetime, parse_date_from_sse, Date, DateTime};
use crate::error::SseError;
use crate::extract::{
    get_str, get_u64, result_array, spec_get_str, spec_get_u64, spec_payload, spec_result_records,
    unwrap_and_parse,
};
use crate::json::{arr_of, get_of, json_as_array, json_get};
use crate::text::{parse_u32, spec_parse_u32, spec_trim, trim_str};

verus! {

/// How a registered application ended.
#[derive(Debug, Clone, Copy, PartialEq, Eq, Structural)]
pub enum RegisterResult {
    RegisterEffective(Date),
    RegisterTerminated(Date),
}

/// The review status of an application. The date always comes from the
/// record's update timestamp.
#[derive(Debug, Clone, Copy, PartialEq, Eq, Structural)]
pub enum AuditStatus {
    Accepted(Date),
    Queried(Date),
    Discussed(Date),
    Submitted(Date),
    Registered(RegisterResult),
    /// A status and result pair the table does not know, kept raw.
    Unsupported(u64, u64),
    Unknown,
}

pub open spec fn status_wf(s: AuditStatus) -> bool {
    match s {
        AuditStatus::Accepted(d) => d.wf(),
        AuditStatus::Queried(d) => d.wf(),
        AuditStatus::Discussed(d) => d.wf(),
        AuditStatus::Submitted(d) => d.wf(),
        AuditStatus::Registered(RegisterResult::RegisterEffective(d)) => d.wf(),
        AuditStatus::Registered(RegisterResult::RegisterTerminated(d)) => d.wf(),
        AuditStatus::Unsupported(_, _) => true,
        AuditStatus::Unknown => true,
    }
}

/// The overview of one company's application, immutable once parsed.
#[derive(Debug, Clone)]
pub struct CompanyInfo {
    /// The issuer's full legal name, trimmed.
    pub stock_audit_name: String,
    /// The audit id the exchange assigned to the application.
    pub stock_audit_number: u32,
    pub curr_status: AuditStatus,
    pub apply_date: DateTime,
    pub update_date: DateTime,
}

pub struct CompanyInfoView {
    pub stock_audit_name: Seq<char>,
    pub stock_audit_number: u32,
    pub curr_status: AuditStatus,
    pub apply_date: DateTime,
    pub update_date: DateTime,
}

impl View for CompanyInfo {
    type V = CompanyInfoView;

    open spec fn view(&self) -> CompanyInfoView {
        CompanyInfoView {
            stock_audit_name: self.stock_audit_name@,
            stock_audit_number: self.stock_audit_number,
            curr_status: self.curr_status,
            apply_date: self.apply_date,
            update_date: self.update_date,
        }
    }
}

impl CompanyInfo {
    pub open spec fn wf(self) -> bool {
        &&& self.apply_date.wf()
        &&& self.update_date.wf()
        &&& status_wf(self.curr_status)
    }
}

/// The status table over the response's `currStatus` and `registeResult`
/// codes. Status 5 splits on the result code; 1 through 4 ignore it; any
/// other present pair is kept raw; everything else is unknown.
pub open spec fn spec_resolve_status(status: Option<u64>, result: Option<u64>, d: Date) -> AuditStatus {
    if status == Some(5u64) && result == Some(1u64) {
        AuditStatus::Registered(RegisterResult::RegisterEffective(d))
    } else if status == Some(5u64) && result == Some(3u64) {
        AuditStatus::Registered(RegisterResult::RegisterTerminated(d))
    } else if status == Some(4u64) {
        AuditStatus::Submitted(d)
    } else if status == Some(3u64) {
        AuditStatus::Discussed(d)
    } else if status == Some(2u64) {
        AuditStatus::Queried(d)
    } else if status == Some(1u64) {
        AuditStatus::Accepted(d)
    } else {
        match (status, result) {
            (Some(s), Some(r)) => AuditStatus::Unsupported(s, r),
            _ => AuditStatus::Unknown,
        }
    }
}

pub fn resolve_status(status: Option<u64>, result: Option<u64>, d: Date) -> (r: AuditStatus)
    ensures
        r == spec_resolve_status(status, result, d),
{
    match (status, result) {
        (Some(5u64), Some(1u64)) => AuditStatus::Registered(RegisterResult::RegisterEffective(d)),
        (Some(5u64), Some(3u64)) => AuditStatus::Registered(RegisterResult::RegisterTerminated(d)),
        (Some(4u64), _) => AuditStatus::Submitted(d),
        (Some(3u64), _) => AuditStatus::Discussed(d),
        (Some(2u64), _) => AuditStatus::Queried(d),
        (Some(1u64), _) => AuditStatus::Accepted(d),
        (Some(s), Some(r)) => AuditStatus::Unsupported(s, r),
        (_, _) => AuditStatus::Unknown,
    }
}

/// The raw overview fields as the response carries them, each possibly
/// absent or mistyped.
#[derive(Debug, Clone)]
pub struct OverviewFields {
    /// The issuer list's full legal name, not the top-level audit name:
    /// the latter sometimes omits the registered suffix.
    pub company_full_name: Option<String>,
    /// The audit id, string-typed in the response.
    pub audit_number: Option<String>,
    pub curr_status: Option<u64>,
    pub registe_result: Option<u64>,
    pub apply_date: Option<String>,
    pub update_date: Option<String>,
}

pub struct OverviewFieldsView {
    pub company_full_name: Option<Seq<char>>,
    pub audit_number: Option<Seq<char>>,
    pub curr_status: Option<u64>,
    pub registe_result: Option<u64>,
    pub apply_date: Option<Seq<char>>,
    pub update_date: Option<Seq<char>>,
}

impl View for OverviewFields {
    type V = OverviewFieldsView;

    open spec fn view(&self) -> OverviewFieldsView {
        OverviewFieldsView {
            company_full_name: match self.company_full_name {
                Some(ref s) => Some(s@),
                None => None,
            },
            audit_number: match self.audit_number {
                Some(ref s) => Some(s@),
                None => None,
            },
            curr_status: self.curr_status,
            registe_result: self.registe_result,
            apply_date: match self.apply_date {
                Some(ref s) => Some(s@),
                None => None,
            },
            update_date: match self.update_date {
                Some(ref s) => Some(s@),
                None => None,
            },
        }
    }
}

/// What the raw fields yield: the overview record — name trimmed, audit id
/// and both timestamps parsed, status resolved over the update date — or
/// `MissingField` when any required field is absent or malformed.
pub open spec fn spec_overview_record(f: OverviewFieldsView) -> Result<CompanyInfoView, SseError> {
    match (f.company_full_name, f.audit_number, f.update_date, f.apply_date) {
        (Some(nm), Some(num), Some(u), Some(a)) => match (
            spec_parse_u32(num),
            spec_parse_datetime(u),
            spec_parse_datetime(a),
        ) {
            (Some(n), Some(ud), Some(ad)) => Ok(
                CompanyInfoView {
                    stock_audit_name: spec_trim(nm),
                    stock_audit_number: n,
                    curr_status: spec_resolve_status(f.curr_status, f.registe_result, ud.date),
                    apply_date: ad,
                    update_date: ud,
                },
            ),
            _ => Err(SseError::MissingField),
        },
        _ => Err(SseError::MissingField),
    }
}

/// Builds the overview record from its raw fields, exactly as
/// `spec_overview_record` says.
pub fn overview_from_fields(f: &OverviewFields) -> (r: Result<CompanyInfo, SseError>)
    ensures
        match r {
            Ok(c) => spec_overview_record(f@) == Ok::<CompanyInfoView, SseError>(c@) && c.wf(),
            Err(e) => spec_overview_record(f@) == Err::<CompanyInfoView, SseError>(e),
        },
{
    let name = match &f.company_full_name {
        Some(nm) => trim_str(nm.as_str()),
        None => {
            return Err(SseError::MissingField);
        },
    };
    let number = match &f.audit_number {
        Some(num) => match parse_u32(num.as_str()) {
            Some(n) => n,
            None => {
                return Err(SseError::MissingField);
            },
        },
        None => {
            return Err(SseError::MissingField);
        },
    };
    let update_date = match &f.update_date {
        Some(u) => match parse_date_from_sse(u.as_str()) {
            Some(dt) => dt,
            None => {
                return Err(SseError::MissingField);
            },
        },
        None => {
            return Err(SseError::MissingField);
        },
    };
    let apply_date = match &f.apply_date {
        Some(a) => match parse_date_from_sse(a.as_str()) {
            Some(dt) => dt,
            None => {
                return Err(SseError::MissingField);
            },
        },
        None => {
            return Err(SseError::MissingField);
        },
    };
    let curr_status = resolve_status(f.curr_status, f.registe_result, update_date.date);
    Ok(
        CompanyInfo {
            stock_audit_name: name,
            stock_audit_number: number,
            curr_status,
            apply_date,
            update_date,
        },
    )
}

/// What the first record of the `result` array carries, read through the
/// named accessor results. What the tree does not hold stays `None`.
pub open spec fn spec_overview_fields_of(rec: serde_json::Value) -> OverviewFieldsView {
    OverviewFieldsView {
        company_full_name: match get_of(rec, "stockIssuer"@) {
            Some(x) => match arr_of(x) {
                Some(a) => if a.len() > 0 {
                    spec_get_str(a[0], "s_issueCompanyFullName"@)
                } else {
                    None
                },
                None => None,
            },
            None => None,
        },
        audit_number: spec_get_str(rec, "stockAuditNum"@),
        curr_status: spec_get_u64(rec, "currStatus"@),
        registe_result: spec_get_u64(rec, "registeResult"@),
        apply_date: spec_get_str(rec, "auditApplyDate"@),
        update_date: spec_get_str(rec, "updateDate"@),
    }
}

/// Reads the raw overview fields out of one record, exactly as
/// `spec_overview_fields_of` says.
fn overview_fields_from_json(rec: &serde_json::Value) -> (r: OverviewFields)
    ensures
        r@ == spec_overview_fields_of(*rec),
{
    let company_full_name = match json_get(rec, "stockIssuer") {
        Some(issuers) => match json_as_array(issuers) {
            Some(arr) => {
                if arr.len() > 0 {
                    let first = &arr[0];
                    assert(*first == arr@[0]);
                    get_str(first, "s_issueCompanyFullName")
                } else {
                    None
                }
            },
            None => None,
        },
        None => None,
    };
    OverviewFields {
        company_full_name,
        audit_number: get_str(rec, "stockAuditNum"),
        curr_status: get_u64(rec, "currStatus"),
        registe_result: get_u64(rec, "registeResult"),
        apply_date: get_str(rec, "auditApplyDate"),
        update_date: get_str(rec, "updateDate"),
    }
}

/// What the records under `result` yield: `EmptyResult` for an empty array
/// — the exchange does not know the company — and otherwise the first
/// record's overview.
pub open spec fn spec_overview_from_records(records: Seq<serde_json::Value>) -> Result<
    CompanyInfoView,
    SseError,
> {
    if records.len() == 0 {
        Err(SseError::EmptyResult)
    } else {
        spec_overview_record(spec_overview_fields_of(records[0]))
    }
}

/// Builds the overview from the records under `result`, exactly as
/// `spec_overview_from_records` says. An empty array — the exchange does
/// not know the company — fails with `EmptyResult`, and with nothing else.
pub fn overview_from_result(records: &Vec<serde_json::Value>) -> (r: Result<CompanyInfo, SseError>)
    ensures
        match r {
            Ok(c) => spec_overview_from_records(records@) == Ok::<CompanyInfoView, SseError>(c@)
                && c.wf(),
            Err(e) => spec_overview_from_records(records@) == Err::<CompanyInfoView, SseError>(e),
        },
        records@.len() == 0 <==> r == Err::<CompanyInfo, SseError>(SseError::EmptyResult),
{
    if records.len() == 0 {
        return Err(SseError::EmptyResult);
    }
    let first = &records[0];
    assert(*first == records@[0]);
    let fields = overview_fields_from_json(first);
    overview_from_fields(&fields)
}

/// What a raw overview response yields: the overview record, or the first
/// error on the way — no envelope or payload, no `result` array, an
/// unknown company, or a defective record.
pub open spec fn spec_overview_outcome(resp: Seq<char>) -> Result<CompanyInfoView, SseError> {
    match spec_payload(resp) {
        None => Err(SseError::MalformedEnvelope),
        Some(body) => match spec_result_records(body) {
            None => Err(SseError::MissingField),
            Some(records) => spec_overview_from_records(records),
        },
    }
}

impl CompanyInfo {
    /// Parses a raw overview response, exactly as `spec_overview_outcome`
    /// says: JSONP unwrapped, payload parsed, `result` read, the first
    /// record turned into the overview.
    pub fn from_response(resp: &str) -> (r: Result<CompanyInfo, SseError>)
        ensures
            match r {
                Ok(c) => spec_overview_outcome(resp@) == Ok::<CompanyInfoView, SseError>(c@)
                    && c.wf(),
                Err(e) => spec_overview_outcome(resp@) == Err::<CompanyInfoView, SseError>(e),
            },
    {
        let body = match unwrap_and_parse(resp) {
            Ok(v) => v,
            Err(e) => {
                return Err(e);
            },
        };
        let records = match result_array(&body) {
            Ok(arr) => arr,
            Err(e) => {
                return Err(e);
            },
        };
        overview_from_result(records)
    }
}

} // verus!
