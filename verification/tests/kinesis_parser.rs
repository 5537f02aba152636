//! Tests of the stream-record adapter.

use otlp_forwarder::envelopes::{StreamEnvelope, StreamRecord};
use otlp_forwarder::parse::KinesisOtlpStdoutParser;

const VALID_TEST_PAYLOAD_STRING: &str = "H4sIAAAAAAAAAAMAAAAAAAAAAAA=";

fn create_test_exporter_output_json_string(source: &str) -> String {
    format!(
        "{{\"__otel_otlp_stdout\": \"otlp-stdout-span-exporter@0.2.2\", \
         \"source\": \"{}\", \
         \"endpoint\": \"http://original.collector/v1/traces\", \
         \"method\": \"POST\", \
         \"payload\": \"{}\", \
         \"headers\": {{\"content-type\": \"application/x-protobuf\"}}, \
         \"content-type\": \"application/x-protobuf\", \
         \"content-encoding\": \"gzip\", \
         \"base64\": true}}",
        source, VALID_TEST_PAYLOAD_STRING
    )
}

fn create_kinesis_event_record(data_string: String) -> StreamRecord {
    StreamRecord {
        sequence_number: "1234567890".to_string(),
        partition_key: "test_partition_key".to_string(),
        data: data_string.into_bytes(),
        event_id: Some("shardId-000000000000:12345".to_string()),
        event_source_arn: Some(
            "arn:aws:kinesis:us-east-1:123456789012:stream/test-stream".to_string(),
        ),
        event_source: Some("aws:kinesis".to_string()),
        aws_region: Some("us-east-1".to_string()),
        invoke_identity_arn: Some("arn:aws:iam::123456789012:role/lambda-role".to_string()),
    }
}

#[test]
fn test_kinesis_otlp_stdout_parser_success() {
    let parser = KinesisOtlpStdoutParser;
    let record_string1 = create_test_exporter_output_json_string("service-c");
    let record_string2 = create_test_exporter_output_json_string("service-d");

    let event = StreamEnvelope {
        records: vec![
            create_kinesis_event_record(record_string1),
            create_kinesis_event_record(record_string2),
        ],
    };

    let result = parser.parse(event, "test-stream").unwrap();
    assert_eq!(result.len(), 2);
    assert_eq!(result[0].source, "service-c");
    assert_eq!(result[1].source, "service-d");
    assert_eq!(result[0].content_type, "application/x-protobuf");
    assert_eq!(result[0].content_encoding, None);
}

#[test]
fn test_kinesis_otlp_stdout_parser_invalid_utf8_in_data() {
    let parser = KinesisOtlpStdoutParser;
    let invalid_utf8_data = vec![0x80];
    let valid_record_string = create_test_exporter_output_json_string("service-ok");

    let event_record_invalid_utf8 = StreamRecord {
        sequence_number: "seq_invalid_utf8".to_string(),
        partition_key: "pk_invalid_utf8".to_string(),
        data: invalid_utf8_data,
        event_id: Some("event_invalid_utf8_id".to_string()),
        event_source_arn: Some(
            "arn:aws:kinesis:us-east-1:000000000000:stream/minimal-stream-utf8".to_string(),
        ),
        event_source: Some("aws:kinesis".to_string()),
        aws_region: Some("us-east-1".to_string()),
        invoke_identity_arn: Some(
            "arn:aws:iam::000000000000:role/lambda-role-minimal".to_string(),
        ),
    };

    let event = StreamEnvelope {
        records: vec![
            event_record_invalid_utf8,
            create_kinesis_event_record(valid_record_string),
        ],
    };

    let result = parser.parse(event, "test-stream").unwrap();
    assert_eq!(result.len(), 1);
    assert_eq!(result[0].source, "service-ok");
}

#[test]
fn test_kinesis_otlp_stdout_parser_malformed_json_string() {
    let parser = KinesisOtlpStdoutParser;
    let malformed_json_string = "{\"invalid_json".to_string();
    let valid_record_string = create_test_exporter_output_json_string("service-fine");

    let event = StreamEnvelope {
        records: vec![
            create_kinesis_event_record(malformed_json_string),
            create_kinesis_event_record(valid_record_string),
        ],
    };

    let result = parser.parse(event, "test-stream").unwrap();
    assert_eq!(result.len(), 1);
    assert_eq!(result[0].source, "service-fine");
}

#[test]
fn test_kinesis_otlp_stdout_parser_invalid_item_between_valid_items() {
    let parser = KinesisOtlpStdoutParser;
    let event = StreamEnvelope {
        records: vec![
            create_kinesis_event_record(create_test_exporter_output_json_string("service-1")),
            create_kinesis_event_record("{\"invalid_json".to_string()),
            create_kinesis_event_record(create_test_exporter_output_json_string("service-2")),
        ],
    };

    let result = parser.parse(event, "test-stream").unwrap();
    assert_eq!(result.len(), 2);
    assert_eq!(result[0].source, "service-1");
    assert_eq!(result[1].source, "service-2");
}

#[test]
fn test_kinesis_otlp_stdout_parser_empty_records() {
    let parser = KinesisOtlpStdoutParser;
    let event = StreamEnvelope { records: vec![] };
    let result = parser.parse(event, "test-stream").unwrap();
    assert!(result.is_empty());
}
