use crate::jsonval::{get_i64, get_member, get_number_text, parse_json, value_data, parsed_json,
    JsonData};
use crate::model::{DirectionStats, DirectionStatsModel, IperfResult, IperfResultModel,
    ProbeError};
use vstd::prelude::*;

verus! {

/// The value of an object's integer member, when the member is present and a
/// number that the parser stored as an integer in `i64` range.
pub open spec fn int_member(m: Map<Seq<char>, JsonData>, key: Seq<char>) -> Option<i64> {
    if m.contains_key(key) {
        match m[key] {
            JsonData::Num { int_val, .. } => int_val,
            _ => None,
        }
    } else {
        None
    }
}

/// The decimal text of an object's numeric member, when the member is
/// present and a number of any kind.
pub open spec fn num_member(m: Map<Seq<char>, JsonData>, key: Seq<char>) -> Option<Seq<char>> {
    if m.contains_key(key) {
        match m[key] {
            JsonData::Num { text, .. } => Some(text),
            _ => None,
        }
    } else {
        None
    }
}

/// The model of one direction section, when the section is an object holding
/// all six required fields with the right kinds: integer byte and packet
/// counters, numeric rate, jitter and loss percentage. Nothing otherwise —
/// a section missing any field yields no model at all.
pub open spec fn direction_model(d: JsonData) -> Option<DirectionStatsModel> {
    match d {
        JsonData::Obj(m) => {
            if int_member(m, "bytes"@) is Some && num_member(m, "bits_per_second"@) is Some
                && num_member(m, "jitter_ms"@) is Some && int_member(m, "lost_packets"@) is Some
                && int_member(m, "packets"@) is Some && num_member(m, "lost_percent"@) is Some {
                Some(DirectionStatsModel {
                    bytes: int_member(m, "bytes"@).unwrap() as int,
                    bits_per_second: num_member(m, "bits_per_second"@).unwrap(),
                    jitter_ms: num_member(m, "jitter_ms"@).unwrap(),
                    lost_packets: int_member(m, "lost_packets"@).unwrap() as int,
                    packets: int_member(m, "packets"@).unwrap() as int,
                    lost_percent: num_member(m, "lost_percent"@).unwrap(),
                })
            } else {
                None
            }
        },
        _ => None,
    }
}

/// The model of a whole result document: an object whose `end` member is an
/// object holding conforming `sum_sent` and `sum_received` sections. Nothing
/// otherwise.
pub open spec fn document_model(d: JsonData) -> Option<IperfResultModel> {
    match d {
        JsonData::Obj(m) => {
            if m.contains_key("end"@) {
                match m["end"@] {
                    JsonData::Obj(e) => {
                        if e.contains_key("sum_sent"@) && e.contains_key("sum_received"@) {
                            match (direction_model(e["sum_sent"@]), direction_model(
                                e["sum_received"@])) {
                                (Some(sent), Some(received)) => Some(IperfResultModel {
                                    sent,
                                    received,
                                }),
                                _ => None,
                            }
                        } else {
                            None
                        }
                    },
                    _ => None,
                }
            } else {
                None
            }
        },
        _ => None,
    }
}

/// What a raw payload text yields: a full result model when the text is a
/// JSON document of the expected shape, nothing on any mismatch.
pub open spec fn payload_model(s: Seq<char>) -> Option<IperfResultModel> {
    match parsed_json(s) {
        Some(d) => document_model(d),
        None => None,
    }
}

/// The six field names a direction section must carry.
pub open spec fn required_direction_fields() -> Set<Seq<char>> {
    set![
        "bytes"@,
        "bits_per_second"@,
        "jitter_ms"@,
        "lost_packets"@,
        "packets"@,
        "lost_percent"@,
    ]
}

/// Parsing is all-or-nothing: a direction section missing any one of its six
/// required fields has no model at all, so a payload containing such a
/// section yields `MalformedResult` and never a partially populated result.
pub proof fn lemma_missing_field_has_no_model(d: JsonData, key: Seq<char>)
    requires
        required_direction_fields().contains(key),
        d matches JsonData::Obj(m) && !m.contains_key(key),
    ensures
        direction_model(d) is None,
{
}

/// Looks an integer field up in a section value.
fn field_i64(v: &serde_json::Value, key: &str) -> (r: Option<i64>)
    ensures
        (match value_data(*v) {
            JsonData::Obj(m) => r == int_member(m, key@),
            _ => r is None,
        }),
{
    match get_member(v, key) {
        Some(w) => get_i64(w),
        None => None,
    }
}

/// Looks a numeric field up in a section value, yielding its decimal text.
fn field_number_text(v: &serde_json::Value, key: &str) -> (r: Option<String>)
    ensures
        (match value_data(*v) {
            JsonData::Obj(m) => {
                &&& r is Some <==> num_member(m, key@) is Some
                &&& (r matches Some(t) ==> Some(t@) == num_member(m, key@))
            },
            _ => r is None,
        }),
{
    match get_member(v, key) {
        Some(w) => get_number_text(w),
        None => None,
    }
}

/// Parses one direction section. All six fields must be present with the
/// right kinds; otherwise no section value is produced at all.
fn parse_direction(v: &serde_json::Value) -> (r: Option<DirectionStats>)
    ensures
        (match direction_model(value_data(*v)) {
            Some(m) => r matches Some(d) && d@ == m,
            None => r is None,
        }),
{
    let bytes = field_i64(v, "bytes");
    let bits_per_second = field_number_text(v, "bits_per_second");
    let jitter_ms = field_number_text(v, "jitter_ms");
    let lost_packets = field_i64(v, "lost_packets");
    let packets = field_i64(v, "packets");
    let lost_percent = field_number_text(v, "lost_percent");
    match (bytes, bits_per_second, jitter_ms, lost_packets, packets, lost_percent) {
        (Some(bytes), Some(bits_per_second), Some(jitter_ms), Some(lost_packets), Some(packets),
            Some(lost_percent)) => Some(DirectionStats {
            bytes,
            bits_per_second,
            jitter_ms,
            lost_packets,
            packets,
            lost_percent,
        }),
        _ => None,
    }
}

/// Parses a whole result document value.
fn parse_document(doc: &serde_json::Value) -> (r: Option<IperfResult>)
    ensures
        (match document_model(value_data(*doc)) {
            Some(m) => r matches Some(x) && x@ == m,
            None => r is None,
        }),
{
    let end = match get_member(doc, "end") {
        Some(e) => e,
        None => {
            return None;
        },
    };
    let sent_v = match get_member(end, "sum_sent") {
        Some(x) => x,
        None => {
            return None;
        },
    };
    let received_v = match get_member(end, "sum_received") {
        Some(x) => x,
        None => {
            return None;
        },
    };
    let sent = match parse_direction(sent_v) {
        Some(s) => s,
        None => {
            return None;
        },
    };
    let received = match parse_direction(received_v) {
        Some(s) => s,
        None => {
            return None;
        },
    };
    Some(IperfResult { sent, received })
}

/// Parses a raw payload text into a result model. Parsing is all-or-nothing:
/// the result is `Ok` exactly when the text is a JSON document of the
/// expected two-section shape, and any structural mismatch — malformed
/// syntax, a missing field, a wrong kind — yields `MalformedResult` and no
/// partial model.
pub fn parse_payload(s: &str) -> (r: Result<IperfResult, ProbeError>)
    ensures
        (match payload_model(s@) {
            Some(m) => r matches Ok(x) && x@ == m,
            None => r matches Err(e) && e == ProbeError::MalformedResult,
        }),
{
    let doc = match parse_json(s) {
        Some(v) => v,
        None => {
            return Err(ProbeError::MalformedResult);
        },
    };
    match parse_document(&doc) {
        Some(x) => Ok(x),
        None => Err(ProbeError::MalformedResult),
    }
}

} // verus!
