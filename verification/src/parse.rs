//! The two envelope adapters and the skip-and-continue fault-isolation
//! policy, with its laws.

use vstd::prelude::*;

use crate::decode::{
    decode_item_bytes, decode_item_text, item_record_of_bytes, item_record_of_text,
};
use crate::envelopes::{LogEntryView, LogsEnvelope, StreamEnvelope, StreamRecordView};
use crate::records::{ParseError, TelemetryRecord, TelemetryRecordView};

verus! {

/// The contribution of one item outcome to the output: one record on success,
/// none on failure.
pub open spec fn record_seq_of(o: Option<TelemetryRecordView>) -> Seq<TelemetryRecordView> {
    match o {
        Some(t) => seq![t],
        None => Seq::empty(),
    }
}

/// The records of a log-subscription envelope's entries: each entry's message
/// is decoded independently, failures contribute nothing, and successes keep
/// the entries' order.
pub open spec fn log_records_of(entries: Seq<LogEntryView>) -> Seq<TelemetryRecordView>
    decreases entries.len(),
{
    if entries.len() == 0 {
        Seq::empty()
    } else {
        log_records_of(entries.drop_last()) + record_seq_of(
            item_record_of_text(entries.last().message),
        )
    }
}

/// The records of a stream envelope's records: each record's binary payload
/// is decoded independently, failures contribute nothing, and successes keep
/// the records' order.
pub open spec fn stream_records_of(records: Seq<StreamRecordView>) -> Seq<TelemetryRecordView>
    decreases records.len(),
{
    if records.len() == 0 {
        Seq::empty()
    } else {
        stream_records_of(records.drop_last()) + record_seq_of(
            item_record_of_bytes(records.last().data),
        )
    }
}

/// The per-item contributions of a log-subscription envelope's entries, one
/// sequence per entry, in entry order.
pub open spec fn log_contributions(entries: Seq<LogEntryView>) -> Seq<Seq<TelemetryRecordView>>
    decreases entries.len(),
{
    if entries.len() == 0 {
        Seq::empty()
    } else {
        log_contributions(entries.drop_last()).push(
            record_seq_of(item_record_of_text(entries.last().message)),
        )
    }
}

/// The per-item contributions of a stream envelope's records, one sequence
/// per record, in record order.
pub open spec fn stream_contributions(records: Seq<StreamRecordView>) -> Seq<
    Seq<TelemetryRecordView>,
>
    decreases records.len(),
{
    if records.len() == 0 {
        Seq::empty()
    } else {
        stream_contributions(records.drop_last()).push(
            record_seq_of(item_record_of_bytes(records.last().data)),
        )
    }
}

/// How many entries of a log-subscription envelope fail to decode.
pub open spec fn failed_log_count(entries: Seq<LogEntryView>) -> nat
    decreases entries.len(),
{
    if entries.len() == 0 {
        0
    } else {
        failed_log_count(entries.drop_last()) + (if item_record_of_text(
            entries.last().message,
        ) is None {
            1nat
        } else {
            0nat
        })
    }
}

/// How many records of a stream envelope fail to decode.
pub open spec fn failed_stream_count(records: Seq<StreamRecordView>) -> nat
    decreases records.len(),
{
    if records.len() == 0 {
        0
    } else {
        failed_stream_count(records.drop_last()) + (if item_record_of_bytes(
            records.last().data,
        ) is None {
            1nat
        } else {
            0nat
        })
    }
}

/// Order preservation for the log-subscription adapter: the output is the
/// concatenation, in entry order, of each entry's contribution — one record
/// when its message decodes, none when it does not — so successfully decoded
/// items keep their relative input order.
pub proof fn lemma_log_order_preservation(entries: Seq<LogEntryView>)
    ensures
        log_records_of(entries) == log_contributions(entries).flatten(),
        log_contributions(entries).len() == entries.len(),
        forall|i: int|
            0 <= i < entries.len() ==> log_contributions(entries)[i] == record_seq_of(
                item_record_of_text(entries[i].message),
            ),
    decreases entries.len(),
{
    let s = log_contributions(entries);
    s.lemma_flatten_and_flatten_alt_are_equivalent();
    if entries.len() == 0 {
        assert(s.flatten_alt() =~= Seq::<TelemetryRecordView>::empty());
    } else {
        let prev = entries.drop_last();
        lemma_log_order_preservation(prev);
        log_contributions(prev).lemma_flatten_and_flatten_alt_are_equivalent();
        let c = record_seq_of(item_record_of_text(entries.last().message));
        assert(s == log_contributions(prev).push(c));
        assert(s.drop_last() =~= log_contributions(prev));
        assert(s.last() == c);
        assert(s.flatten_alt() == s.drop_last().flatten_alt() + s.last());
        assert(log_records_of(entries) == log_records_of(prev) + c);
        assert(forall|i: int|
            0 <= i < prev.len() ==> s[i] == #[trigger] log_contributions(prev)[i]);
        assert(forall|i: int|
            0 <= i < entries.len() ==> s[i] == record_seq_of(
                item_record_of_text(#[trigger] entries[i].message),
            )) by {
            assert(forall|i: int| 0 <= i < prev.len() ==> #[trigger] entries[i] == prev[i]);
            assert(entries[entries.len() - 1] == entries.last());
        }
    }
}

/// Order preservation for the stream adapter: the output is the
/// concatenation, in record order, of each record's contribution — one record
/// when its payload decodes, none when it does not — so successfully decoded
/// items keep their relative input order.
pub proof fn lemma_stream_order_preservation(records: Seq<StreamRecordView>)
    ensures
        stream_records_of(records) == stream_contributions(records).flatten(),
        stream_contributions(records).len() == records.len(),
        forall|i: int|
            0 <= i < records.len() ==> stream_contributions(records)[i] == record_seq_of(
                item_record_of_bytes(records[i].data),
            ),
    decreases records.len(),
{
    let s = stream_contributions(records);
    s.lemma_flatten_and_flatten_alt_are_equivalent();
    if records.len() == 0 {
        assert(s.flatten_alt() =~= Seq::<TelemetryRecordView>::empty());
    } else {
        let prev = records.drop_last();
        lemma_stream_order_preservation(prev);
        stream_contributions(prev).lemma_flatten_and_flatten_alt_are_equivalent();
        let c = record_seq_of(item_record_of_bytes(records.last().data));
        assert(s == stream_contributions(prev).push(c));
        assert(s.drop_last() =~= stream_contributions(prev));
        assert(s.last() == c);
        assert(s.flatten_alt() == s.drop_last().flatten_alt() + s.last());
        assert(stream_records_of(records) == stream_records_of(prev) + c);
        assert(forall|i: int|
            0 <= i < prev.len() ==> s[i] == #[trigger] stream_contributions(prev)[i]);
        assert(forall|i: int|
            0 <= i < records.len() ==> s[i] == record_seq_of(
                item_record_of_bytes(#[trigger] records[i].data),
            )) by {
            assert(forall|i: int| 0 <= i < prev.len() ==> #[trigger] records[i] == prev[i]);
            assert(records[records.len() - 1] == records.last());
        }
    }
}

/// Fault isolation for the log-subscription adapter: a batch of N entries of
/// which M fail yields exactly N − M records, wherever the failing entries
/// stand.
pub proof fn lemma_log_fault_isolation(entries: Seq<LogEntryView>)
    ensures
        log_records_of(entries).len() + failed_log_count(entries) == entries.len(),
    decreases entries.len(),
{
    if entries.len() > 0 {
        lemma_log_fault_isolation(entries.drop_last());
    }
}

/// Fault isolation for the stream adapter: a batch of N records of which M
/// fail yields exactly N − M records, wherever the failing records stand.
pub proof fn lemma_stream_fault_isolation(records: Seq<StreamRecordView>)
    ensures
        stream_records_of(records).len() + failed_stream_count(records) == records.len(),
    decreases records.len(),
{
    if records.len() > 0 {
        lemma_stream_fault_isolation(records.drop_last());
    }
}

/// Empty-input idempotence: an envelope with zero items yields an empty
/// output sequence, for either adapter.
pub proof fn lemma_empty_envelope(entries: Seq<LogEntryView>, records: Seq<StreamRecordView>)
    ensures
        entries.len() == 0 ==> log_records_of(entries) == Seq::<TelemetryRecordView>::empty(),
        records.len() == 0 ==> stream_records_of(records) == Seq::<TelemetryRecordView>::empty(),
{
}

/// Decoding invariant: every successfully produced record has no content
/// encoding, whatever the source wrapped record specified.
pub proof fn lemma_log_decoding_invariant(entries: Seq<LogEntryView>)
    ensures
        forall|i: int|
            0 <= i < log_records_of(entries).len() ==> (#[trigger] log_records_of(
                entries,
            )[i]).content_encoding is None,
    decreases entries.len(),
{
    if entries.len() > 0 {
        lemma_log_decoding_invariant(entries.drop_last());
    }
}

/// Decoding invariant: every successfully produced record has no content
/// encoding, whatever the source wrapped record specified.
pub proof fn lemma_stream_decoding_invariant(records: Seq<StreamRecordView>)
    ensures
        forall|i: int|
            0 <= i < stream_records_of(records).len() ==> (#[trigger] stream_records_of(
                records,
            )[i]).content_encoding is None,
    decreases records.len(),
{
    if records.len() > 0 {
        lemma_stream_decoding_invariant(records.drop_last());
    }
}

/// Envelope parser for batches of log-subscription entries.
pub struct CloudWatchLogsOtlpStdoutParser;

impl CloudWatchLogsOtlpStdoutParser {
    /// Parses one log-subscription envelope into the ordered sequence of
    /// telemetry records of its decodable entries.  Item-level faults are
    /// absorbed: the call never fails, and every produced record has its
    /// content encoding absent.
    pub fn parse(&self, event_payload: LogsEnvelope, _log_group: &str) -> (r: Result<
        Vec<TelemetryRecord>,
        ParseError,
    >)
        ensures
            r is Ok,
            r matches Ok(items) ==> items.deep_view() == log_records_of(event_payload@.log_events),
            r matches Ok(items) ==> forall|i: int|
                0 <= i < items.deep_view().len() ==> (#[trigger] items.deep_view()[i]).content_encoding is None,
    {
        let ghost entries = event_payload@.log_events;
        let mut items: Vec<TelemetryRecord> = Vec::new();
        let n = event_payload.log_events.len();
        let mut i: usize = 0;
        while i < n
            invariant
                i <= n,
                n == event_payload.log_events.len(),
                entries == event_payload@.log_events,
                entries.len() == n,
                items.deep_view() == log_records_of(entries.take(i as int)),
                forall|k: int|
                    0 <= k < items.deep_view().len() ==> (#[trigger] items.deep_view()[k]).content_encoding is None,
            decreases n - i,
        {
            let entry = &event_payload.log_events[i];
            proof {
                assert(entries.take(i + 1).drop_last() =~= entries.take(i as int));
                assert(entries.take(i + 1).last() == entries[i as int]);
            }
            match decode_item_text(entry.message.as_str()) {
                Some(t) => {
                    items.push(t);
                },
                None => {},
            }
            proof {
                assert(items.deep_view() =~= log_records_of(entries.take(i + 1)));
            }
            i = i + 1;
        }
        proof {
            assert(entries.take(n as int) =~= entries);
        }
        Ok(items)
    }
}

/// Envelope parser for batches of stream records.
pub struct KinesisOtlpStdoutParser;

impl KinesisOtlpStdoutParser {
    /// Parses one stream envelope into the ordered sequence of telemetry
    /// records of its decodable records.  Item-level faults — including
    /// payloads that are not valid UTF-8 — are absorbed: the call never
    /// fails, and every produced record has its content encoding absent.
    pub fn parse(&self, event_payload: StreamEnvelope, _stream_name: &str) -> (r: Result<
        Vec<TelemetryRecord>,
        ParseError,
    >)
        ensures
            r is Ok,
            r matches Ok(items) ==> items.deep_view() == stream_records_of(event_payload@.records),
            r matches Ok(items) ==> forall|i: int|
                0 <= i < items.deep_view().len() ==> (#[trigger] items.deep_view()[i]).content_encoding is None,
    {
        let ghost records = event_payload@.records;
        let mut items: Vec<TelemetryRecord> = Vec::new();
        let n = event_payload.records.len();
        let mut i: usize = 0;
        while i < n
            invariant
                i <= n,
                n == event_payload.records.len(),
                records == event_payload@.records,
                records.len() == n,
                items.deep_view() == stream_records_of(records.take(i as int)),
                forall|k: int|
                    0 <= k < items.deep_view().len() ==> (#[trigger] items.deep_view()[k]).content_encoding is None,
            decreases n - i,
        {
            let record = &event_payload.records[i];
            proof {
                assert(records.take(i + 1).drop_last() =~= records.take(i as int));
                assert(records.take(i + 1).last() == records[i as int]);
            }
            match decode_item_bytes(record.data.as_slice()) {
                Some(t) => {
                    items.push(t);
                },
                None => {},
            }
            proof {
                assert(items.deep_view() =~= stream_records_of(records.take(i + 1)));
            }
            i = i + 1;
        }
        proof {
            assert(records.take(n as int) =~= records);
        }
        Ok(items)
    }
}

} // verus!
