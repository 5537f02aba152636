//! Normalization of event-source envelopes that carry OpenTelemetry telemetry
//! wrapped by the stdout-exporter convention.
//!
//! Two event sources are supported: batches of log-subscription entries whose
//! messages each hold one wrapped record as JSON text, and batches of stream
//! records whose binary payloads each hold the UTF-8 JSON text of one wrapped
//! record.  Each adapter turns one envelope into an ordered sequence of
//! telemetry records, skipping malformed items one by one and never letting a
//! single bad item abort the batch.  Alongside parsing, each source has a
//! span-attribute extractor used to label the invocation's own trace span.

pub mod records;
pub mod envelopes;
pub mod decode;
pub mod parse;
pub mod split;
pub mod attributes;
