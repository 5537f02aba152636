//! Tests of the log-subscription adapter.

use otlp_forwarder::envelopes::{LogEntry, LogsEnvelope};
use otlp_forwarder::parse::CloudWatchLogsOtlpStdoutParser;

// A valid base64-encoded, gzipped, minimal OTLP protobuf payload string,
// representing an empty trace-export request.
const VALID_TEST_PAYLOAD_STRING: &str = "H4sIAAAAAAAAAAMAAAAAAAAAAAA=";

// Builds a JSON string of the stdout-exporter output shape.
fn create_test_exporter_output_log_message(source: &str) -> String {
    format!(
        "{{\"__otel_otlp_stdout\": \"otlp-stdout-span-exporter@0.2.2\", \
         \"source\": \"{}\", \
         \"endpoint\": \"http://original.collector/v1/traces\", \
         \"method\": \"POST\", \
         \"payload\": \"{}\", \
         \"headers\": {{\"content-type\": \"application/x-protobuf\"}}, \
         \"content-type\": \"application/x-protobuf\", \
         \"content-encoding\": \"gzip\", \
         \"base64\": true}}",
        source, VALID_TEST_PAYLOAD_STRING
    )
}

fn create_logs_envelope(log_events: Vec<LogEntry>) -> LogsEnvelope {
    LogsEnvelope {
        owner: "123456789012".to_string(),
        log_group: "/aws/lambda/test-func".to_string(),
        log_stream: "stream1".to_string(),
        message_type: "DATA_MESSAGE".to_string(),
        subscription_filters: vec!["filter1".to_string()],
        log_events,
    }
}

#[test]
fn test_cloudwatch_logs_parser_success() {
    let parser = CloudWatchLogsOtlpStdoutParser;
    let log_message1 = create_test_exporter_output_log_message("service-a");
    let log_message2 = create_test_exporter_output_log_message("service-b");

    let event = create_logs_envelope(vec![
        LogEntry {
            id: "e1".to_string(),
            timestamp: 1000,
            message: log_message1,
        },
        LogEntry {
            id: "e2".to_string(),
            timestamp: 2000,
            message: log_message2,
        },
    ]);

    let result = parser.parse(event, "/aws/lambda/test-func").unwrap();
    assert_eq!(result.len(), 2);
    assert_eq!(result[0].source, "service-a");
    assert_eq!(result[1].source, "service-b");
    assert_eq!(result[0].content_type, "application/x-protobuf");
    assert_eq!(result[0].content_encoding, None);
}

#[test]
fn test_cloudwatch_logs_parser_malformed_json_in_log_entry() {
    let parser = CloudWatchLogsOtlpStdoutParser;
    let malformed_json_message = "{\"key\": \"value\" but not closed";
    let valid_json_message = create_test_exporter_output_log_message("service-ok");

    let event = create_logs_envelope(vec![
        LogEntry {
            id: "e1".to_string(),
            timestamp: 1000,
            message: malformed_json_message.to_string(),
        },
        LogEntry {
            id: "e2".to_string(),
            timestamp: 2000,
            message: valid_json_message,
        },
    ]);

    let result = parser.parse(event, "/aws/lambda/test-func").unwrap();
    assert_eq!(result.len(), 1);
    assert_eq!(result[0].source, "service-ok");
}

#[test]
fn test_cloudwatch_logs_parser_empty_log_events_list() {
    let parser = CloudWatchLogsOtlpStdoutParser;
    let event = create_logs_envelope(vec![]);

    let result = parser.parse(event, "/aws/lambda/test-func").unwrap();
    assert!(result.is_empty());
}

#[test]
fn test_cloudwatch_logs_parser_decodes_payload() {
    let parser = CloudWatchLogsOtlpStdoutParser;
    let event = create_logs_envelope(vec![LogEntry {
        id: "e1".to_string(),
        timestamp: 1000,
        message: create_test_exporter_output_log_message("service-a"),
    }]);

    let result = parser.parse(event, "/aws/lambda/test-func").unwrap();
    assert_eq!(result.len(), 1);
    // The wrapped payload is the gzipped, base64-encoded serialization of an
    // empty trace-export request, so the decoded payload is empty.
    assert_eq!(result[0].payload, Vec::<u8>::new());
    assert_eq!(result[0].endpoint, "http://original.collector/v1/traces");
}

#[test]
fn test_cloudwatch_logs_parser_skips_undecodable_payload() {
    let parser = CloudWatchLogsOtlpStdoutParser;
    // Well-formed wrapped record whose payload is not valid base64.
    let bad_payload_message = format!(
        "{{\"__otel_otlp_stdout\": \"otlp-stdout-span-exporter@0.2.2\", \
         \"source\": \"service-bad\", \
         \"endpoint\": \"http://original.collector/v1/traces\", \
         \"method\": \"POST\", \
         \"payload\": \"{}\", \
         \"content-type\": \"application/x-protobuf\", \
         \"content-encoding\": \"gzip\", \
         \"base64\": true}}",
        "!!!not-base64!!!"
    );
    let event = create_logs_envelope(vec![
        LogEntry {
            id: "e1".to_string(),
            timestamp: 1000,
            message: bad_payload_message,
        },
        LogEntry {
            id: "e2".to_string(),
            timestamp: 2000,
            message: create_test_exporter_output_log_message("service-good"),
        },
    ]);

    let result = parser.parse(event, "/aws/lambda/test-func").unwrap();
    assert_eq!(result.len(), 1);
    assert_eq!(result[0].source, "service-good");
}
