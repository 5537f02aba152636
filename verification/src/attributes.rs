//! Span-attribute extraction: the envelope-scoped labels used by the
//! invocation's own observability, derived best-effort from envelope
//! metadata.

use vstd::prelude::*;

use crate::envelopes::{LogsEnvelope, LogsEnvelopeView, StreamEnvelope, StreamEnvelopeView,
    StreamRecordView};
use crate::split::{split_on, nth_segment, prefix_before};

verus! {

use vstd::string::*;

/// View of one attribute value.
pub ghost enum AttrValueView {
    /// A textual value.
    Text(Seq<char>),
    /// An integral value.
    Int(i64),
}

/// One attribute value: text or integer.
pub enum AttrValue {
    /// A textual value.
    Text(String),
    /// An integral value.
    Int(i64),
}

impl View for AttrValue {
    type V = AttrValueView;

    open spec fn view(&self) -> AttrValueView {
        match self {
            AttrValue::Text(s) => AttrValueView::Text(s@),
            AttrValue::Int(i) => AttrValueView::Int(*i),
        }
    }
}

/// View of one named attribute.
pub ghost struct AttrView {
    pub key: Seq<char>,
    pub value: AttrValueView,
}

/// One named attribute.
pub struct Attr {
    /// The attribute's name.
    pub key: String,
    /// The attribute's value.
    pub value: AttrValue,
}

impl View for Attr {
    type V = AttrView;

    open spec fn view(&self) -> AttrView {
        AttrView { key: self.key@, value: self.value@ }
    }
}

impl DeepView for Attr {
    type V = AttrView;

    open spec fn deep_view(&self) -> AttrView {
        self.view()
    }
}

/// View of the span attributes of one invocation.
pub ghost struct SpanAttributesView {
    pub span_name: Seq<char>,
    pub kind: Seq<char>,
    pub attributes: Seq<AttrView>,
}

/// The span attributes of one invocation: a span name, a kind tag, and named
/// attributes describing the envelope.
pub struct SpanAttributes {
    /// The name of the invocation's span.
    pub span_name: String,
    /// The span's kind tag.
    pub kind: String,
    /// The descriptive attributes, in the order they are derived.
    pub attributes: Vec<Attr>,
}

impl View for SpanAttributes {
    type V = SpanAttributesView;

    open spec fn view(&self) -> SpanAttributesView {
        SpanAttributesView {
            span_name: self.span_name@,
            kind: self.kind@,
            attributes: self.attributes.deep_view(),
        }
    }
}

/// The attributes derived from a log-subscription envelope: a fixed trigger
/// tag, the group, stream and owner identifiers, and the entry count.
pub open spec fn log_span_attrs(e: LogsEnvelopeView) -> Seq<AttrView> {
    seq![
        AttrView { key: "faas.trigger.type"@, value: AttrValueView::Text("cloudwatch_logs"@) },
        AttrView { key: "aws.cloudwatch.log_group"@, value: AttrValueView::Text(e.log_group) },
        AttrView { key: "aws.cloudwatch.log_stream"@, value: AttrValueView::Text(e.log_stream) },
        AttrView { key: "aws.cloudwatch.owner"@, value: AttrValueView::Text(e.owner) },
        AttrView {
            key: "aws.cloudwatch.events.count"@,
            value: AttrValueView::Int(e.log_events.len() as i64),
        },
    ]
}

/// The best-effort stream name held in a stream ARN: the resource-name
/// segment after the separator-split, when both splits have enough pieces.
pub open spec fn stream_name_of_arn(arn: Seq<char>) -> Option<Seq<char>> {
    let parts = split_on(arn, ':');
    if parts.len() > 5 {
        let sub = split_on(parts[5], '/');
        if sub.len() > 1 {
            Some(sub[1])
        } else {
            None
        }
    } else {
        None
    }
}

/// The attributes derived from the first record's source ARN, when present:
/// the parsed stream name (omitted when the ARN does not carry one), then the
/// full ARN.
pub open spec fn arn_attrs(r: StreamRecordView) -> Seq<AttrView> {
    match r.event_source_arn {
        None => Seq::empty(),
        Some(arn) => (match stream_name_of_arn(arn) {
            Some(name) => seq![
                AttrView { key: "aws.kinesis.stream_name"@, value: AttrValueView::Text(name) },
            ],
            None => Seq::empty(),
        }) + seq![
            AttrView { key: "aws.kinesis.event_source_arn"@, value: AttrValueView::Text(arn) },
        ],
    }
}

/// The attribute derived from the first record's event identifier, when
/// present: its prefix up to the first separator.
pub open spec fn event_id_attrs(r: StreamRecordView) -> Seq<AttrView> {
    match r.event_id {
        None => Seq::empty(),
        Some(id) => seq![
            AttrView {
                key: "aws.kinesis.event_id_prefix"@,
                value: AttrValueView::Text(split_on(id, ':')[0]),
            },
        ],
    }
}

/// The attributes derived from a stream envelope: a fixed trigger tag and the
/// record count, then — from the first record only, when the batch is not
/// empty — the source-ARN and event-identifier attributes.
pub open spec fn stream_span_attrs(e: StreamEnvelopeView) -> Seq<AttrView> {
    let base = seq![
        AttrView { key: "faas.trigger.type"@, value: AttrValueView::Text("aws_kinesis"@) },
        AttrView {
            key: "aws.kinesis.records.count"@,
            value: AttrValueView::Int(e.records.len() as i64),
        },
    ];
    if e.records.len() == 0 {
        base
    } else {
        base + arn_attrs(e.records[0]) + event_id_attrs(e.records[0])
    }
}

impl LogsEnvelope {
    /// Derives the span attributes of a log-subscription invocation.  The
    /// span name is the fixed prefix followed by the log-group name, the kind
    /// is the consumer tag, and the attributes are exactly those of
    /// [`log_span_attrs`].
    pub fn extract_span_attributes(&self) -> (r: SpanAttributes)
        ensures
            r@.span_name == "log "@ + self@.log_group,
            r@.kind == "consumer"@,
            r@.attributes == log_span_attrs(self@),
    {
        let mut span_name = String::from_str("log ");
        span_name.append(self.log_group.as_str());
        let mut attributes: Vec<Attr> = Vec::new();
        attributes.push(Attr {
            key: String::from_str("faas.trigger.type"),
            value: AttrValue::Text(String::from_str("cloudwatch_logs")),
        });
        attributes.push(Attr {
            key: String::from_str("aws.cloudwatch.log_group"),
            value: AttrValue::Text(self.log_group.clone()),
        });
        attributes.push(Attr {
            key: String::from_str("aws.cloudwatch.log_stream"),
            value: AttrValue::Text(self.log_stream.clone()),
        });
        attributes.push(Attr {
            key: String::from_str("aws.cloudwatch.owner"),
            value: AttrValue::Text(self.owner.clone()),
        });
        attributes.push(Attr {
            key: String::from_str("aws.cloudwatch.events.count"),
            value: AttrValue::Int(self.log_events.len() as i64),
        });
        proof {
            assert(attributes.deep_view() =~= log_span_attrs(self@));
        }
        SpanAttributes { span_name, kind: String::from_str("consumer"), attributes }
    }
}

impl StreamEnvelope {
    /// Derives the span attributes of a stream invocation.  The span name is
    /// a fixed constant, the kind is the consumer tag, and the attributes are
    /// exactly those of [`stream_span_attrs`]: absence of the first record or
    /// of its optional metadata omits attributes, never fails.
    pub fn extract_span_attributes(&self) -> (r: SpanAttributes)
        ensures
            r@.span_name == "kinesis_event_processor"@,
            r@.kind == "consumer"@,
            r@.attributes == stream_span_attrs(self@),
    {
        let mut attributes: Vec<Attr> = Vec::new();
        attributes.push(Attr {
            key: String::from_str("faas.trigger.type"),
            value: AttrValue::Text(String::from_str("aws_kinesis")),
        });
        attributes.push(Attr {
            key: String::from_str("aws.kinesis.records.count"),
            value: AttrValue::Int(self.records.len() as i64),
        });
        if self.records.len() > 0 {
            let first = &self.records[0];
            if let Some(arn) = &first.event_source_arn {
                match nth_segment(arn.as_str(), ':', 5) {
                    Some(segment) => {
                        match nth_segment(segment.as_str(), '/', 1) {
                            Some(name) => {
                                attributes.push(Attr {
                                    key: String::from_str("aws.kinesis.stream_name"),
                                    value: AttrValue::Text(name),
                                });
                            },
                            None => {},
                        }
                    },
                    None => {},
                }
                attributes.push(Attr {
                    key: String::from_str("aws.kinesis.event_source_arn"),
                    value: AttrValue::Text(arn.clone()),
                });
            }
            if let Some(id) = &first.event_id {
                let prefix = prefix_before(id.as_str(), ':');
                attributes.push(Attr {
                    key: String::from_str("aws.kinesis.event_id_prefix"),
                    value: AttrValue::Text(prefix),
                });
            }
            proof {
                assert(self@.records[0] == self.records@[0].deep_view());
                assert(attributes.deep_view() =~= stream_span_attrs(self@));
            }
        } else {
            proof {
                assert(attributes.deep_view() =~= stream_span_attrs(self@));
            }
        }
        SpanAttributes {
            span_name: String::from_str("kinesis_event_processor"),
            kind: String::from_str("consumer"),
            attributes,
        }
    }
}

/// The context label of a stream invocation: the first record's source ARN,
/// or a fixed placeholder when no record carries one.
pub open spec fn stream_source_identifier_spec(e: StreamEnvelopeView) -> Seq<char> {
    if e.records.len() > 0 && e.records[0].event_source_arn is Some {
        e.records[0].event_source_arn->0
    } else {
        "kinesis_stream_unknown"@
    }
}

impl StreamEnvelope {
    /// Derives the context label handed to the batch processor: the first
    /// record's source ARN, or the fixed placeholder.
    pub fn source_identifier(&self) -> (r: String)
        ensures
            r@ == stream_source_identifier_spec(self@),
    {
        if self.records.len() > 0 {
            proof {
                assert(self@.records[0] == self.records@[0].deep_view());
            }
            match &self.records[0].event_source_arn {
                Some(arn) => arn.clone(),
                None => String::from_str("kinesis_stream_unknown"),
            }
        } else {
            String::from_str("kinesis_stream_unknown")
        }
    }
}

} // verus!
