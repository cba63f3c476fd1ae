//! Verified navigation over parsed JSON trees: pulling plain values out of
//! the opaque `serde_json::Value` and shaping them into the library's
//! descriptor records. Every function here is exact over the named results
//! of the serde_json accessors, so callers can say precisely what a
//! successful parse extracted and which defect produced which error.

use vstd::prelude::*;
use crate::announce::{AnnounceDescriptor, AnnounceDescriptorView, RosterEntry, RosterEntryView};
use crate::error::SseError;
use crate::envelope::{lemma_unwrap_wrapped_payload, spec_unwrap_jsonp, unwrap_jsonp};
use crate::files::{FileDescriptor, FileDescriptorView};
use crate::json::{
    arr_of, get_of, json_as_array, json_as_str, json_as_u64, json_get, json_of, json_parse, str_of,
    u64_of,
};
use crate::text::{parse_u32, spec_parse_u32};

verus! {

/// The text under `key` of `v`, where `v` is an object holding a string
/// there.
pub open spec fn spec_get_str(v: serde_json::Value, key: Seq<char>) -> Option<Seq<char>> {
    match get_of(v, key) {
        Some(x) => str_of(x),
        None => None,
    }
}

/// The number under `key` of `v`, where `v` is an object holding an
/// unsigned integer there.
pub open spec fn spec_get_u64(v: serde_json::Value, key: Seq<char>) -> Option<u64> {
    match get_of(v, key) {
        Some(x) => u64_of(x),
        None => None,
    }
}

pub(crate) fn get_str(v: &serde_json::Value, key: &str) -> (r: Option<String>)
    ensures
        match r {
            Some(s) => spec_get_str(*v, key@) == Some(s@),
            None => spec_get_str(*v, key@) is None,
        },
{
    match json_get(v, key) {
        Some(x) => json_as_str(x),
        None => None,
    }
}

pub(crate) fn get_u64(v: &serde_json::Value, key: &str) -> (r: Option<u64>)
    ensures
        r == spec_get_u64(*v, key@),
{
    match json_get(v, key) {
        Some(x) => json_as_u64(x),
        None => None,
    }
}

/// What a raw response's payload parses to: the JSON tree of the text
/// between the first `(` and the last `)`, where both exist.
pub open spec fn spec_payload(resp: Seq<char>) -> Option<serde_json::Value> {
    match spec_unwrap_jsonp(resp) {
        Some(inner) => json_of(inner),
        None => None,
    }
}

/// Strips the JSONP wrapper and parses the payload. Fails with
/// `MalformedEnvelope` exactly when no envelope frames the response or its
/// payload is not JSON.
pub fn unwrap_and_parse(resp: &str) -> (r: Result<serde_json::Value, SseError>)
    ensures
        match r {
            Ok(v) => spec_payload(resp@) == Some(v),
            Err(e) => e == SseError::MalformedEnvelope && spec_payload(resp@) is None,
        },
{
    let inner = match unwrap_jsonp(resp) {
        Ok(t) => t,
        Err(e) => {
            return Err(e);
        },
    };
    match json_parse(inner.as_str()) {
        Some(v) => Ok(v),
        None => Err(SseError::MalformedEnvelope),
    }
}

/// The payload law, composed: wrapping a payload in any parenthesis-free
/// callback identifier changes nothing about what it parses to — whatever
/// `(` or `)` the payload itself holds, inside string values or anywhere
/// else.
pub proof fn lemma_payload_of_wrapped(callback: Seq<char>, payload: Seq<char>)
    requires
        forall|k: int| 0 <= k < callback.len() ==> callback[k] != '(',
        forall|k: int| 0 <= k < callback.len() ==> callback[k] != ')',
    ensures
        spec_payload(callback + seq!['('] + payload + seq![')']) == json_of(payload),
{
    lemma_unwrap_wrapped_payload(callback, payload);
}

/// The records under the payload's `result` key, where that key holds an
/// array.
pub open spec fn spec_result_records(v: serde_json::Value) -> Option<Seq<serde_json::Value>> {
    match get_of(v, "result"@) {
        Some(x) => arr_of(x),
        None => None,
    }
}

/// The array under the payload's `result` key, where every endpoint puts
/// its data. Fails with `MissingField` exactly when the key is absent or
/// holds no array.
pub fn result_array<'a>(v: &'a serde_json::Value) -> (r: Result<&'a Vec<serde_json::Value>, SseError>)
    ensures
        match r {
            Ok(arr) => spec_result_records(*v) == Some(arr@),
            Err(e) => e == SseError::MissingField && spec_result_records(*v) is None,
        },
{
    match json_get(v, "result") {
        Some(x) => match json_as_array(x) {
            Some(arr) => Ok(arr),
            None => Err(SseError::MissingField),
        },
        None => Err(SseError::MissingField),
    }
}

/// What one disclosure descriptor's record yields: its plain fields, or
/// `MissingField` when the title, path, publish date or company name is
/// absent or mistyped. The type and version codes stay optional for the
/// classifier to judge.
pub open spec fn spec_descriptor_of(v: serde_json::Value) -> Result<FileDescriptorView, SseError> {
    match (
        spec_get_str(v, "publishDate"@),
        spec_get_str(v, "fileTitle"@),
        spec_get_str(v, "filePath"@),
        spec_get_str(v, "companyFullName"@),
    ) {
        (Some(pd), Some(ft), Some(fp), Some(cn)) => Ok(
            FileDescriptorView {
                file_title: ft,
                file_path: fp,
                publish_date: pd,
                company_full_name: cn,
                file_type: spec_get_u64(v, "fileType"@),
                file_version: spec_get_u64(v, "fileVersion"@),
            },
        ),
        _ => Err(SseError::MissingField),
    }
}

/// Reads the plain fields of one disclosure descriptor, exactly as
/// `spec_descriptor_of` says.
pub fn file_descriptor_from_json(v: &serde_json::Value) -> (r: Result<FileDescriptor, SseError>)
    ensures
        match r {
            Ok(d) => spec_descriptor_of(*v) == Ok::<FileDescriptorView, SseError>(d@),
            Err(e) => spec_descriptor_of(*v) == Err::<FileDescriptorView, SseError>(e),
        },
{
    let publish_date = match get_str(v, "publishDate") {
        Some(s) => s,
        None => {
            return Err(SseError::MissingField);
        },
    };
    let file_title = match get_str(v, "fileTitle") {
        Some(s) => s,
        None => {
            return Err(SseError::MissingField);
        },
    };
    let file_path = match get_str(v, "filePath") {
        Some(s) => s,
        None => {
            return Err(SseError::MissingField);
        },
    };
    let company_full_name = match get_str(v, "companyFullName") {
        Some(s) => s,
        None => {
            return Err(SseError::MissingField);
        },
    };
    Ok(
        FileDescriptor {
            file_title,
            file_path,
            publish_date,
            company_full_name,
            file_type: get_u64(v, "fileType"),
            file_version: get_u64(v, "fileVersion"),
        },
    )
}

/// What a `result` array of disclosure records yields: every descriptor's
/// fields in order, or `MissingField` when any record is defective.
pub open spec fn spec_descriptors_of(vs: Seq<serde_json::Value>) -> Result<
    Seq<FileDescriptorView>,
    SseError,
>
    decreases vs.len(),
{
    if vs.len() == 0 {
        Ok(Seq::empty())
    } else {
        match (spec_descriptors_of(vs.drop_last()), spec_descriptor_of(vs.last())) {
            (Ok(rest), Ok(d)) => Ok(rest.push(d)),
            _ => Err(SseError::MissingField),
        }
    }
}

/// One defective record anywhere spoils the whole extraction.
proof fn lemma_descriptor_error(vs: Seq<serde_json::Value>, i: int)
    requires
        0 <= i < vs.len(),
        spec_descriptor_of(vs[i]) is Err,
    ensures
        spec_descriptors_of(vs) == Err::<Seq<FileDescriptorView>, SseError>(SseError::MissingField),
    decreases vs.len(),
{
    if i < vs.len() - 1 {
        assert(vs.drop_last()[i] == vs[i]);
        lemma_descriptor_error(vs.drop_last(), i);
    }
}

/// Reads every disclosure descriptor of the `result` array, in order,
/// exactly as `spec_descriptors_of` says.
pub fn file_descriptors_from_json(arr: &Vec<serde_json::Value>) -> (r: Result<
    Vec<FileDescriptor>,
    SseError,
>)
    ensures
        match r {
            Ok(ds) => spec_descriptors_of(arr@) == Ok::<Seq<FileDescriptorView>, SseError>(
                ds.deep_view(),
            ),
            Err(e) => spec_descriptors_of(arr@) == Err::<Seq<FileDescriptorView>, SseError>(e),
        },
{
    let mut out: Vec<FileDescriptor> = Vec::new();
    proof {
        assert(out.deep_view() =~= Seq::<FileDescriptorView>::empty());
        assert(arr@.take(0).len() == 0);
    }
    let n = arr.len();
    let mut i: usize = 0;
    while i < n
        invariant
            n == arr@.len(),
            i <= n,
            spec_descriptors_of(arr@.take(i as int)) == Ok::<Seq<FileDescriptorView>, SseError>(
                out.deep_view(),
            ),
        decreases n - i,
    {
        let ghost prev = out.deep_view();
        match file_descriptor_from_json(&arr[i]) {
            Ok(d) => {
                let ghost dv = d@;
                out.push(d);
                proof {
                    assert(out.deep_view() =~= prev.push(dv));
                }
            },
            Err(e) => {
                proof {
                    lemma_descriptor_error(arr@, i as int);
                }
                return Err(e);
            },
        }
        proof {
            assert(arr@.take(i + 1).drop_last() =~= arr@.take(i as int));
            assert(arr@.take(i + 1).last() == arr@[i as int]);
        }
        i = i + 1;
    }
    proof {
        assert(arr@.take(n as int) =~= arr@);
    }
    Ok(out)
}

/// What one roster record yields. An absent or non-numeric audit id, like
/// an absent name, stays `None`: whether that matters is the lookup's call.
pub open spec fn spec_roster_entry_of(v: serde_json::Value) -> RosterEntryView {
    RosterEntryView {
        audit_id: match spec_get_str(v, "auditId"@) {
            Some(s) => spec_parse_u32(s),
            None => None,
        },
        company_full_name: spec_get_str(v, "companyFullName"@),
    }
}

fn roster_entry_from_json(v: &serde_json::Value) -> (r: RosterEntry)
    ensures
        r@ == spec_roster_entry_of(*v),
{
    let audit_id = match get_str(v, "auditId") {
        Some(s) => parse_u32(s.as_str()),
        None => None,
    };
    RosterEntry { audit_id, company_full_name: get_str(v, "companyFullName") }
}

/// What one announcement record yields: title, path and roster, or
/// `MissingField` when the title or path is absent or mistyped, or the
/// roster is absent or no array.
pub open spec fn spec_announce_descriptor_of(v: serde_json::Value) -> Result<
    AnnounceDescriptorView,
    SseError,
> {
    match (
        spec_get_str(v, "fileTitle"@),
        spec_get_str(v, "filePath"@),
        get_of(v, "stockAudit"@),
    ) {
        (Some(ft), Some(fp), Some(x)) => match arr_of(x) {
            Some(entries) => Ok(
                AnnounceDescriptorView {
                    file_title: ft,
                    file_path: fp,
                    roster: entries.map_values(|e: serde_json::Value| spec_roster_entry_of(e)),
                },
            ),
            None => Err(SseError::MissingField),
        },
        _ => Err(SseError::MissingField),
    }
}

/// Reads one announcement descriptor, exactly as
/// `spec_announce_descriptor_of` says.
pub fn announce_descriptor_from_json(v: &serde_json::Value) -> (r: Result<
    AnnounceDescriptor,
    SseError,
>)
    ensures
        match r {
            Ok(d) => spec_announce_descriptor_of(*v) == Ok::<AnnounceDescriptorView, SseError>(d@),
            Err(e) => spec_announce_descriptor_of(*v) == Err::<AnnounceDescriptorView, SseError>(e),
        },
{
    let file_title = match get_str(v, "fileTitle") {
        Some(s) => s,
        None => {
            return Err(SseError::MissingField);
        },
    };
    let file_path = match get_str(v, "filePath") {
        Some(s) => s,
        None => {
            return Err(SseError::MissingField);
        },
    };
    let roster_values = match json_get(v, "stockAudit") {
        Some(x) => match json_as_array(x) {
            Some(arr) => arr,
            None => {
                return Err(SseError::MissingField);
            },
        },
        None => {
            return Err(SseError::MissingField);
        },
    };
    let mut roster: Vec<RosterEntry> = Vec::new();
    proof {
        assert(roster.deep_view() =~= roster_values@.take(0).map_values(
            |e: serde_json::Value| spec_roster_entry_of(e),
        ));
    }
    let n = roster_values.len();
    let mut i: usize = 0;
    while i < n
        invariant
            i <= n,
            n == roster_values@.len(),
            roster.deep_view() == roster_values@.take(i as int).map_values(
                |e: serde_json::Value| spec_roster_entry_of(e),
            ),
        decreases n - i,
    {
        let ghost prev = roster.deep_view();
        let entry = roster_entry_from_json(&roster_values[i]);
        let ghost ev = entry@;
        roster.push(entry);
        proof {
            assert(roster.deep_view() =~= prev.push(ev));
            assert(roster_values@.take(i + 1).map_values(
                |e: serde_json::Value| spec_roster_entry_of(e),
            ) =~= roster_values@.take(i as int).map_values(
                |e: serde_json::Value| spec_roster_entry_of(e),
            ).push(spec_roster_entry_of(roster_values@[i as int])));
        }
        i = i + 1;
    }
    proof {
        assert(roster_values@.take(n as int) =~= roster_values@);
    }
    Ok(AnnounceDescriptor { file_title, file_path, roster })
}

/// What a `result` array of announcement records yields: every
/// descriptor's fields in order, or `MissingField` when any record is
/// defective.
pub open spec fn spec_announce_descriptors_of(vs: Seq<serde_json::Value>) -> Result<
    Seq<AnnounceDescriptorView>,
    SseError,
>
    decreases vs.len(),
{
    if vs.len() == 0 {
        Ok(Seq::empty())
    } else {
        match (spec_announce_descriptors_of(vs.drop_last()), spec_announce_descriptor_of(vs.last())) {
            (Ok(rest), Ok(d)) => Ok(rest.push(d)),
            _ => Err(SseError::MissingField),
        }
    }
}

proof fn lemma_announce_descriptor_error(vs: Seq<serde_json::Value>, i: int)
    requires
        0 <= i < vs.len(),
        spec_announce_descriptor_of(vs[i]) is Err,
    ensures
        spec_announce_descriptors_of(vs) == Err::<Seq<AnnounceDescriptorView>, SseError>(
            SseError::MissingField,
        ),
    decreases vs.len(),
{
    if i < vs.len() - 1 {
        assert(vs.drop_last()[i] == vs[i]);
        lemma_announce_descriptor_error(vs.drop_last(), i);
    }
}

/// Reads every announcement descriptor of the `result` array, in order,
/// exactly as `spec_announce_descriptors_of` says.
pub fn announce_descriptors_from_json(arr: &Vec<serde_json::Value>) -> (r: Result<
    Vec<AnnounceDescriptor>,
    SseError,
>)
    ensures
        match r {
            Ok(ds) => spec_announce_descriptors_of(arr@) == Ok::<
                Seq<AnnounceDescriptorView>,
                SseError,
            >(ds.deep_view()),
            Err(e) => spec_announce_descriptors_of(arr@) == Err::<
                Seq<AnnounceDescriptorView>,
                SseError,
            >(e),
        },
{
    let mut out: Vec<AnnounceDescriptor> = Vec::new();
    proof {
        assert(out.deep_view() =~= Seq::<AnnounceDescriptorView>::empty());
        assert(arr@.take(0).len() == 0);
    }
    let n = arr.len();
    let mut i: usize = 0;
    while i < n
        invariant
            n == arr@.len(),
            i <= n,
            spec_announce_descriptors_of(arr@.take(i as int)) == Ok::<
                Seq<AnnounceDescriptorView>,
                SseError,
            >(out.deep_view()),
        decreases n - i,
    {
        let ghost prev = out.deep_view();
        match announce_descriptor_from_json(&arr[i]) {
            Ok(d) => {
                let ghost dv = d@;
                out.push(d);
                proof {
                    assert(out.deep_view() =~= prev.push(dv));
                }
            },
            Err(e) => {
                proof {
                    lemma_announce_descriptor_error(arr@, i as int);
                }
                return Err(e);
            },
        }
        proof {
            assert(arr@.take(i + 1).drop_last() =~= arr@.take(i as int));
            assert(arr@.take(i + 1).last() == arr@[i as int]);
        }
        i = i + 1;
    }
    proof {
        assert(arr@.take(n as int) =~= arr@);
    }
    Ok(out)
}

} // verus!
