//! The two raw envelope shapes delivered by the host runtime, modelled with
//! plain values.

use vstd::prelude::*;

verus! {

/// View of one log entry.
pub ghost struct LogEntryView {
    pub id: Seq<char>,
    pub timestamp: i64,
    pub message: Seq<char>,
}

/// One entry of a log-subscription envelope.
pub struct LogEntry {
    /// Unique identifier of the entry.
    pub id: String,
    /// Timestamp in milliseconds.
    pub timestamp: i64,
    /// The message text; expected to hold one wrapped record as JSON.
    pub message: String,
}

impl View for LogEntry {
    type V = LogEntryView;

    open spec fn view(&self) -> LogEntryView {
        LogEntryView { id: self.id@, timestamp: self.timestamp, message: self.message@ }
    }
}

impl DeepView for LogEntry {
    type V = LogEntryView;

    open spec fn deep_view(&self) -> LogEntryView {
        self.view()
    }
}

/// View of a log-subscription envelope.
pub ghost struct LogsEnvelopeView {
    pub owner: Seq<char>,
    pub log_group: Seq<char>,
    pub log_stream: Seq<char>,
    pub message_type: Seq<char>,
    pub subscription_filters: Seq<Seq<char>>,
    pub log_events: Seq<LogEntryView>,
}

/// A log-subscription envelope: one delivered batch of log entries, tagged
/// with group, stream and owner metadata.
pub struct LogsEnvelope {
    /// Owner identifier of the log group.
    pub owner: String,
    /// Name of the log group.
    pub log_group: String,
    /// Name of the log stream.
    pub log_stream: String,
    /// Message-type discriminator set by the host runtime.
    pub message_type: String,
    /// Names of the subscription filters that matched.
    pub subscription_filters: Vec<String>,
    /// The ordered entries of the batch.
    pub log_events: Vec<LogEntry>,
}

impl View for LogsEnvelope {
    type V = LogsEnvelopeView;

    open spec fn view(&self) -> LogsEnvelopeView {
        LogsEnvelopeView {
            owner: self.owner@,
            log_group: self.log_group@,
            log_stream: self.log_stream@,
            message_type: self.message_type@,
            subscription_filters: self.subscription_filters.deep_view(),
            log_events: self.log_events.deep_view(),
        }
    }
}

/// View of one stream record.
pub ghost struct StreamRecordView {
    pub sequence_number: Seq<char>,
    pub partition_key: Seq<char>,
    pub data: Seq<u8>,
    pub event_id: Option<Seq<char>>,
    pub event_source_arn: Option<Seq<char>>,
    pub event_source: Option<Seq<char>>,
    pub aws_region: Option<Seq<char>>,
    pub invoke_identity_arn: Option<Seq<char>>,
}

/// One record of a stream envelope.
pub struct StreamRecord {
    /// Sequence number within the shard.
    pub sequence_number: String,
    /// Partition key of the record.
    pub partition_key: String,
    /// The opaque binary payload; expected to hold the UTF-8 JSON text of one
    /// wrapped record.
    pub data: Vec<u8>,
    /// Identifier of the delivery event, when present.
    pub event_id: Option<String>,
    /// ARN of the source stream, when present.
    pub event_source_arn: Option<String>,
    /// Name of the event source, when present.
    pub event_source: Option<String>,
    /// Region of the source stream, when present.
    pub aws_region: Option<String>,
    /// ARN of the invoking identity, when present.
    pub invoke_identity_arn: Option<String>,
}

impl View for StreamRecord {
    type V = StreamRecordView;

    open spec fn view(&self) -> StreamRecordView {
        StreamRecordView {
            sequence_number: self.sequence_number@,
            partition_key: self.partition_key@,
            data: self.data@,
            event_id: match self.event_id {
                Some(ref s) => Some(s@),
                None => None,
            },
            event_source_arn: match self.event_source_arn {
                Some(ref s) => Some(s@),
                None => None,
            },
            event_source: match self.event_source {
                Some(ref s) => Some(s@),
                None => None,
            },
            aws_region: match self.aws_region {
                Some(ref s) => Some(s@),
                None => None,
            },
            invoke_identity_arn: match self.invoke_identity_arn {
                Some(ref s) => Some(s@),
                None => None,
            },
        }
    }
}

impl DeepView for StreamRecord {
    type V = StreamRecordView;

    open spec fn deep_view(&self) -> StreamRecordView {
        self.view()
    }
}

/// View of a stream envelope.
pub ghost struct StreamEnvelopeView {
    pub records: Seq<StreamRecordView>,
}

/// A stream envelope: one delivered batch of stream records.
pub struct StreamEnvelope {
    /// The ordered records of the batch.
    pub records: Vec<StreamRecord>,
}

impl View for StreamEnvelope {
    type V = StreamEnvelopeView;

    open spec fn view(&self) -> StreamEnvelopeView {
        StreamEnvelopeView { records: self.records.deep_view() }
    }
}

} // verus!
