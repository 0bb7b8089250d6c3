use logquery::fetch::{build_filter_events_call, fetch_logs_outcome, normalize_filter};
use logquery::greet::greet;
use logquery::streams::{build_describe_streams_call, describe_streams_outcome, shape_stream};
use logquery::types::{
    DescribeStreamsRequest, FetchLogsRequest, FilterEventsCall, RawFetchPage, RawLogEvent,
    RawLogStream,
};

fn sample_request(filter_pattern: Option<String>) -> FetchLogsRequest {
    FetchLogsRequest {
        region: "us-east-1".to_string(),
        log_group: "/app/prod".to_string(),
        start_time: 1700000000000,
        end_time: 1700003600000,
        filter_pattern,
    }
}

fn calls_equal(a: &FilterEventsCall, b: &FilterEventsCall) -> bool {
    a.region == b.region
        && a.log_group == b.log_group
        && a.start_time == b.start_time
        && a.end_time == b.end_time
        && a.filter_pattern == b.filter_pattern
}

#[test]
fn filter_absent_means_no_filter() {
    assert_eq!(normalize_filter(None), None);
}

#[test]
fn filter_empty_means_no_filter() {
    assert_eq!(normalize_filter(Some(String::new())), None);
}

#[test]
fn filter_nonempty_forwarded_verbatim() {
    let pattern = "ERROR { $.level = \"fatal\" }".to_string();
    assert_eq!(normalize_filter(Some(pattern.clone())), Some(pattern));
}

#[test]
fn call_passes_range_through_unchanged() {
    let call = build_filter_events_call(sample_request(Some("ERROR".to_string())));
    assert_eq!(call.region, "us-east-1");
    assert_eq!(call.log_group, "/app/prod");
    assert_eq!(call.start_time, 1700000000000);
    assert_eq!(call.end_time, 1700003600000);
    assert_eq!(call.filter_pattern, Some("ERROR".to_string()));
}

#[test]
fn empty_result_shapes_to_empty_response() {
    let call = build_filter_events_call(sample_request(None));
    assert_eq!(call.filter_pattern, None);
    let outcome = Ok(RawFetchPage { events: Vec::new(), next_token: None });
    let resp = fetch_logs_outcome(outcome).unwrap();
    assert!(resp.events.is_empty());
    assert_eq!(resp.next_token, None);
    assert_eq!(resp.error, None);
}

#[test]
fn empty_filter_issues_identical_call() {
    let with_none = build_filter_events_call(sample_request(None));
    let with_empty = build_filter_events_call(sample_request(Some(String::new())));
    assert!(calls_equal(&with_none, &with_empty));
    assert_eq!(with_empty.filter_pattern, None);
}

#[test]
fn missing_message_defaults_to_empty_text() {
    let outcome = Ok(RawFetchPage {
        events: vec![
            RawLogEvent {
                timestamp: Some(1700000001000),
                message: Some("first line".to_string()),
                ingestion_time: Some(1700000002000),
            },
            RawLogEvent {
                timestamp: Some(1700000003000),
                message: None,
                ingestion_time: Some(1700000004000),
            },
        ],
        next_token: None,
    });
    let resp = fetch_logs_outcome(outcome).unwrap();
    assert_eq!(resp.events.len(), 2);
    assert_eq!(resp.events[0].timestamp, 1700000001000);
    assert_eq!(resp.events[0].message, "first line");
    assert_eq!(resp.events[0].ingestion_time, 1700000002000);
    assert_eq!(resp.events[1].timestamp, 1700000003000);
    assert_eq!(resp.events[1].message, "");
    assert_eq!(resp.events[1].ingestion_time, 1700000004000);
}

#[test]
fn missing_event_timestamps_default_to_zero() {
    let outcome = Ok(RawFetchPage {
        events: vec![RawLogEvent { timestamp: None, message: None, ingestion_time: None }],
        next_token: None,
    });
    let resp = fetch_logs_outcome(outcome).unwrap();
    assert_eq!(resp.events[0].timestamp, 0);
    assert_eq!(resp.events[0].message, "");
    assert_eq!(resp.events[0].ingestion_time, 0);
}

#[test]
fn events_keep_remote_order() {
    let outcome = Ok(RawFetchPage {
        events: vec![
            RawLogEvent {
                timestamp: Some(30),
                message: Some("c".to_string()),
                ingestion_time: Some(31),
            },
            RawLogEvent {
                timestamp: Some(10),
                message: Some("a".to_string()),
                ingestion_time: Some(11),
            },
            RawLogEvent {
                timestamp: Some(20),
                message: Some("b".to_string()),
                ingestion_time: Some(21),
            },
        ],
        next_token: None,
    });
    let resp = fetch_logs_outcome(outcome).unwrap();
    let order: Vec<i64> = resp.events.iter().map(|e| e.timestamp).collect();
    assert_eq!(order, vec![30, 10, 20]);
    let messages: Vec<String> = resp.events.iter().map(|e| e.message.clone()).collect();
    assert_eq!(messages, vec!["c", "a", "b"]);
}

#[test]
fn next_token_passes_through() {
    let outcome = Ok(RawFetchPage {
        events: Vec::new(),
        next_token: Some("opaque-cursor-123".to_string()),
    });
    let resp = fetch_logs_outcome(outcome).unwrap();
    assert_eq!(resp.next_token, Some("opaque-cursor-123".to_string()));
}

#[test]
fn remote_failure_becomes_nonempty_error() {
    let outcome: Result<RawFetchPage, String> =
        Err("User is not authorized to perform: logs:FilterLogEvents".to_string());
    let err = fetch_logs_outcome(outcome).unwrap_err();
    assert!(!err.is_empty());
    assert_eq!(
        err,
        "Failed to fetch logs: User is not authorized to perform: logs:FilterLogEvents"
    );
}

#[test]
fn describe_call_is_fixed_to_twenty_descending() {
    let call = build_describe_streams_call(DescribeStreamsRequest {
        region: "us-east-1".to_string(),
        log_group: "/app/prod".to_string(),
    });
    assert_eq!(call.region, "us-east-1");
    assert_eq!(call.log_group, "/app/prod");
    assert!(call.order_by_last_event_time);
    assert!(call.descending);
    assert_eq!(call.limit, 20);
}

#[test]
fn thirty_streams_cap_at_twenty_in_descending_order() {
    // With 30 streams available the remote service, asked for at most
    // 20 ordered by last event time descending, hands back the 20 most
    // recent; shaping must keep exactly those, in that order.
    let raw: Vec<RawLogStream> = (0..20)
        .map(|k: i64| RawLogStream {
            name: Some(format!("stream-{}", k)),
            creation_time: Some(1000 + k),
            first_event_timestamp: Some(2000 - k),
            last_event_timestamp: Some(3000 - k),
            last_ingestion_time: Some(4000 - k),
        })
        .collect();
    let resp = describe_streams_outcome(Ok(raw)).unwrap();
    assert_eq!(resp.streams.len(), 20);
    assert_eq!(resp.error, None);
    for k in 0..20usize {
        assert_eq!(resp.streams[k].name, format!("stream-{}", k));
        assert_eq!(resp.streams[k].last_event_time, Some(3000 - k as i64));
    }
    for k in 1..20usize {
        assert!(resp.streams[k - 1].last_event_time >= resp.streams[k].last_event_time);
    }
}

#[test]
fn stream_missing_fields_stay_absent() {
    let s = shape_stream(&RawLogStream {
        name: None,
        creation_time: None,
        first_event_timestamp: None,
        last_event_timestamp: None,
        last_ingestion_time: None,
    });
    assert_eq!(s.name, "");
    assert_eq!(s.creation_time, 0);
    assert_eq!(s.first_event_time, None);
    assert_eq!(s.last_event_time, None);
    assert_eq!(s.last_ingestion_time, None);
}

#[test]
fn stream_present_fields_pass_through() {
    let s = shape_stream(&RawLogStream {
        name: Some("api-server".to_string()),
        creation_time: Some(1690000000000),
        first_event_timestamp: Some(1690000001000),
        last_event_timestamp: Some(1700000000000),
        last_ingestion_time: Some(1700000000500),
    });
    assert_eq!(s.name, "api-server");
    assert_eq!(s.creation_time, 1690000000000);
    assert_eq!(s.first_event_time, Some(1690000001000));
    assert_eq!(s.last_event_time, Some(1700000000000));
    assert_eq!(s.last_ingestion_time, Some(1700000000500));
}

#[test]
fn describe_failure_becomes_nonempty_error() {
    let outcome: Result<Vec<RawLogStream>, String> = Err("AccessDeniedException".to_string());
    let err = describe_streams_outcome(outcome).unwrap_err();
    assert!(!err.is_empty());
    assert_eq!(err, "Failed to describe log streams: AccessDeniedException");
}

#[test]
fn greeting_wraps_the_name() {
    assert_eq!(greet("World"), "Hello, World! You've been greeted from Rust!");
}
