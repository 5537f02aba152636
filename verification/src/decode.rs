//! Per-item decoding: wrapped-record JSON parsing, payload decoding, and
//! byte-to-text interpretation, each behind a trusted boundary.

use vstd::prelude::*;

use crate::records::{TelemetryRecord, TelemetryRecordView, WrappedRecord, WrappedRecordView};

verus! {

use vstd::utf8::{valid_utf8, decode_utf8};

/// What parsing a text as a wrapped record yields: the record's fields when
/// the text is a JSON object of the stdout-exporter shape, nothing otherwise.
pub uninterp spec fn wrapped_record_of(s: Seq<char>) -> Option<WrappedRecordView>;

/// What decoding a wrapped record's payload yields: the payload bytes after
/// base64 decoding, decompression and conversion, when all of them succeed.
pub uninterp spec fn decoded_payload_of(w: WrappedRecordView) -> Option<Seq<u8>>;

/// Relies on `serde_json::from_str::<otlp_stdout_span_exporter::ExporterOutput>`:
/// deserialization is a function of the input text alone, returns `Ok` exactly
/// when the text is a JSON object holding the exporter's required fields, and
/// never panics.
#[verifier::external_body]
fn parse_wrapped_record(s: &str) -> (r: Option<WrappedRecord>)
    ensures
        r matches Some(w) ==> wrapped_record_of(s@) == Some(w@),
        r is None ==> wrapped_record_of(s@) is None,
{
    match serde_json::from_str::<otlp_stdout_span_exporter::ExporterOutput>(s) {
        Ok(o) => Some(WrappedRecord {
            version: o.version, source: o.source, endpoint: o.endpoint, method: o.method,
            content_type: o.content_type, content_encoding: o.content_encoding,
            payload: o.payload, base64: o.base64,
        }),
        Err(_) => None,
    }
}

/// Relies on `serverless_otlp_forwarder_core::TelemetryData::from_log_record`:
/// decoding reads only the fields carried here, is a function of them alone,
/// never panics, and on success copies source and endpoint, sets the content
/// type to `application/x-protobuf`, and clears the content encoding because
/// decompression has already happened.
#[verifier::external_body]
fn decode_wrapped_record(w: WrappedRecord) -> (r: Option<TelemetryRecord>)
    ensures
        r is Some <==> decoded_payload_of(w@) is Some,
        r matches Some(t) ==> t@ == (TelemetryRecordView {
            source: w@.source,
            endpoint: w@.endpoint,
            payload: decoded_payload_of(w@)->Some_0,
            content_type: "application/x-protobuf"@,
            content_encoding: None,
        }),
{
    let record = otlp_stdout_span_exporter::ExporterOutput {
        version: w.version, source: w.source, endpoint: w.endpoint, method: w.method,
        content_type: w.content_type, content_encoding: w.content_encoding,
        payload: w.payload, base64: w.base64, headers: None, level: None,
    };
    match serverless_otlp_forwarder_core::TelemetryData::from_log_record(record) {
        Ok(t) => Some(TelemetryRecord {
            source: t.source, endpoint: t.endpoint, payload: t.payload,
            content_type: t.content_type, content_encoding: t.content_encoding,
        }),
        Err(_) => None,
    }
}

/// Relies on `str::from_utf8`: returns `Ok` exactly when the bytes are valid
/// UTF-8, the resulting string being their decoding; never panics.
#[verifier::external_body]
fn utf8_text(data: &[u8]) -> (r: Option<String>)
    ensures
        r is Some <==> valid_utf8(data@),
        r matches Some(s) ==> s@ == decode_utf8(data@),
{
    match std::str::from_utf8(data) {
        Ok(s) => Some(s.to_string()),
        Err(_) => None,
    }
}

/// The per-item outcome for one item text: the telemetry record when the text
/// parses as a wrapped record and its payload decodes, nothing otherwise.
pub open spec fn item_record_of_text(msg: Seq<char>) -> Option<TelemetryRecordView> {
    match wrapped_record_of(msg) {
        None => None,
        Some(w) => match decoded_payload_of(w) {
            None => None,
            Some(p) => Some(TelemetryRecordView {
                source: w.source,
                endpoint: w.endpoint,
                payload: p,
                content_type: "application/x-protobuf"@,
                content_encoding: None,
            }),
        },
    }
}

/// The per-item outcome for one item's binary payload: as for text, after the
/// bytes are interpreted as UTF-8; bytes that are not valid UTF-8 yield
/// nothing.
pub open spec fn item_record_of_bytes(data: Seq<u8>) -> Option<TelemetryRecordView> {
    if valid_utf8(data) {
        item_record_of_text(decode_utf8(data))
    } else {
        None
    }
}

/// Decodes one item text into a telemetry record, absorbing both parse and
/// decode failures into `None`.
pub fn decode_item_text(msg: &str) -> (r: Option<TelemetryRecord>)
    ensures
        r matches Some(t) ==> item_record_of_text(msg@) == Some(t@),
        r is None ==> item_record_of_text(msg@) is None,
{
    match parse_wrapped_record(msg) {
        None => None,
        Some(w) => decode_wrapped_record(w),
    }
}

/// Decodes one item's binary payload into a telemetry record, absorbing
/// UTF-8, parse and decode failures into `None`.
pub fn decode_item_bytes(data: &[u8]) -> (r: Option<TelemetryRecord>)
    ensures
        r matches Some(t) ==> item_record_of_bytes(data@) == Some(t@),
        r is None ==> item_record_of_bytes(data@) is None,
{
    match utf8_text(data) {
        None => None,
        Some(s) => decode_item_text(s.as_str()),
    }
}

} // verus!
