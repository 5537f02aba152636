//! The wrapped-record and telemetry-record data model.

use vstd::prelude::*;

verus! {

/// Mathematical view of a wrapped record: the fields of the stdout-exporter
/// JSON object that decoding reads.
pub ghost struct WrappedRecordView {
    pub version: Seq<char>,
    pub source: Seq<char>,
    pub endpoint: Seq<char>,
    pub method: Seq<char>,
    pub content_type: Seq<char>,
    pub content_encoding: Seq<char>,
    pub payload: Seq<char>,
    pub base64: bool,
}

/// One wrapped record: the JSON object embedded as text inside one envelope
/// item, following the stdout-exporter convention.
pub struct WrappedRecord {
    /// Format marker and exporter version.
    pub version: String,
    /// Source identifier (the emitting service).
    pub source: String,
    /// Target endpoint URL recorded by the exporter.
    pub endpoint: String,
    /// HTTP method recorded by the exporter.
    pub method: String,
    /// Content type of the payload before decoding.
    pub content_type: String,
    /// Content encoding of the payload before decoding.
    pub content_encoding: String,
    /// The payload text, base64-encoded when `base64` is true.
    pub payload: String,
    /// Whether `payload` is base64-encoded.
    pub base64: bool,
}

impl View for WrappedRecord {
    type V = WrappedRecordView;

    open spec fn view(&self) -> WrappedRecordView {
        WrappedRecordView {
            version: self.version@,
            source: self.source@,
            endpoint: self.endpoint@,
            method: self.method@,
            content_type: self.content_type@,
            content_encoding: self.content_encoding@,
            payload: self.payload@,
            base64: self.base64,
        }
    }
}

/// Mathematical view of a telemetry record.
pub ghost struct TelemetryRecordView {
    pub source: Seq<char>,
    pub endpoint: Seq<char>,
    pub payload: Seq<u8>,
    pub content_type: Seq<char>,
    pub content_encoding: Option<Seq<char>>,
}

/// The canonical telemetry record handed downstream: decoded, decompressed,
/// source-agnostic.
pub struct TelemetryRecord {
    /// Source identifier copied from the wrapped record.
    pub source: String,
    /// Target endpoint copied from the wrapped record.
    pub endpoint: String,
    /// The decoded payload bytes.
    pub payload: Vec<u8>,
    /// Content type of the payload.
    pub content_type: String,
    /// Content encoding of the payload; always absent after a successful
    /// decode, because decompression happens during decoding.
    pub content_encoding: Option<String>,
}

impl View for TelemetryRecord {
    type V = TelemetryRecordView;

    open spec fn view(&self) -> TelemetryRecordView {
        TelemetryRecordView {
            source: self.source@,
            endpoint: self.endpoint@,
            payload: self.payload@,
            content_type: self.content_type@,
            content_encoding: match self.content_encoding {
                Some(ref e) => Some(e@),
                None => None,
            },
        }
    }
}

impl DeepView for TelemetryRecord {
    type V = TelemetryRecordView;

    open spec fn deep_view(&self) -> TelemetryRecordView {
        self.view()
    }
}

/// An envelope-level parse failure.  Neither adapter produces one under the
/// host runtime's guarantees: item-level faults are absorbed, not surfaced.
#[derive(Debug)]
pub struct ParseError {
    /// Human-readable description of the failure.
    pub message: String,
}

} // verus!
