//! The data model of the facade: requests, responses, the records a
//! remote call hands back, and the parameters of the two remote calls.

use vstd::prelude::*;

verus! {

/// A single log event, produced only by the log-event query.
#[derive(Debug)]
pub struct LogEvent {
    /// Milliseconds since the epoch.
    pub timestamp: i64,
    pub message: String,
    /// Milliseconds since the epoch.
    pub ingestion_time: i64,
}

/// A request for one page of log events in a time window.
///
/// Ordering of `start_time` and `end_time` is the caller's business:
/// both pass through unchanged, and a backwards range means whatever
/// the remote service says it means.
#[derive(Debug)]
pub struct FetchLogsRequest {
    pub region: String,
    pub log_group: String,
    pub start_time: i64,
    pub end_time: i64,
    /// Forwarded verbatim when non-empty; an empty pattern is treated
    /// exactly like an absent one.
    pub filter_pattern: Option<String>,
}

/// One page of log events, with an opaque continuation token when more
/// results exist.
#[derive(Debug)]
pub struct FetchLogsResponse {
    pub events: Vec<LogEvent>,
    pub next_token: Option<String>,
    pub error: Option<String>,
}

/// Metadata of a single log stream. The optional timestamps are absent
/// when the provider has no recorded event for the stream; absence is
/// not the same as 0.
#[derive(Debug)]
pub struct LogStream {
    pub name: String,
    pub creation_time: i64,
    pub first_event_time: Option<i64>,
    pub last_event_time: Option<i64>,
    pub last_ingestion_time: Option<i64>,
}

/// A request for the streams of one log group.
#[derive(Debug)]
pub struct DescribeStreamsRequest {
    pub region: String,
    pub log_group: String,
}

/// The streams of a log group, as the remote service ordered them.
#[derive(Debug)]
pub struct DescribeStreamsResponse {
    pub streams: Vec<LogStream>,
    pub error: Option<String>,
}

/// A remote log-event record as the service hands it back: every field
/// optional.
#[derive(Debug)]
pub struct RawLogEvent {
    pub timestamp: Option<i64>,
    pub message: Option<String>,
    pub ingestion_time: Option<i64>,
}

/// A remote log-stream record: the name and every timestamp optional.
#[derive(Debug)]
pub struct RawLogStream {
    pub name: Option<String>,
    pub creation_time: Option<i64>,
    pub first_event_timestamp: Option<i64>,
    pub last_event_timestamp: Option<i64>,
    pub last_ingestion_time: Option<i64>,
}

/// What a successful remote filtered-event call hands back: one page of
/// raw records and the continuation token, if any.
#[derive(Debug)]
pub struct RawFetchPage {
    pub events: Vec<RawLogEvent>,
    pub next_token: Option<String>,
}

/// The parameters of the one remote filtered-event call a request
/// gives rise to. The host issues exactly this call, once.
#[derive(Debug)]
pub struct FilterEventsCall {
    pub region: String,
    pub log_group: String,
    pub start_time: i64,
    pub end_time: i64,
    /// `None` here means the call carries no filter expression at all.
    pub filter_pattern: Option<String>,
}

/// The parameters of the one remote describe-streams call a request
/// gives rise to.
#[derive(Debug)]
pub struct DescribeStreamsCall {
    pub region: String,
    pub log_group: String,
    /// The remote service is asked to order by last event time.
    pub order_by_last_event_time: bool,
    /// ... descending, most recent first.
    pub descending: bool,
    /// The fixed, non-configurable page limit.
    pub limit: i32,
}

/// The text of an optional string, seen as an optional sequence.
pub open spec fn opt_text(o: Option<String>) -> Option<Seq<char>> {
    match o {
        Option::Some(s) => Option::Some(s@),
        Option::None => Option::None,
    }
}

/// The text of an optional string, an absent one reading as empty.
pub open spec fn text_or_empty(o: Option<String>) -> Seq<char> {
    match o {
        Option::Some(s) => s@,
        Option::None => Seq::<char>::empty(),
    }
}

/// An optional time, an absent one reading as the default `d`.
pub open spec fn time_or(o: Option<i64>, d: i64) -> i64 {
    match o {
        Option::Some(t) => t,
        Option::None => d,
    }
}

} // verus!
