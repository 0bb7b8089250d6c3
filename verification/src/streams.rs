//! The stream-metadata query: describe the one remote describe-streams
//! call and shape the stream records it hands back.

use vstd::prelude::*;
use vstd::string::StringExecFns;

use crate::types::{
    DescribeStreamsCall, DescribeStreamsRequest, DescribeStreamsResponse, LogStream, RawLogStream,
    text_or_empty, time_or,
};

verus! {

/// The fixed, non-configurable page limit of a describe-streams call.
pub const STREAM_LIMIT: i32 = 20;

/// Describe the single remote describe-streams call for a request: the
/// log group passes through unchanged, and the call always asks for
/// streams ordered by last event time, descending, limited to 20.
pub fn build_describe_streams_call(req: DescribeStreamsRequest) -> (c: DescribeStreamsCall)
    ensures
        c.region@ == req.region@,
        c.log_group@ == req.log_group@,
        c.order_by_last_event_time,
        c.descending,
        c.limit == STREAM_LIMIT,
{
    DescribeStreamsCall {
        region: req.region,
        log_group: req.log_group,
        order_by_last_event_time: true,
        descending: true,
        limit: STREAM_LIMIT,
    }
}

/// What a shaped stream holds of the raw record it came from: a
/// missing name defaults to empty text and a missing creation time to
/// 0, while the three event timestamps stay optional — an absent one
/// stays absent, never a sentinel 0.
pub open spec fn stream_of_raw(s: LogStream, raw: RawLogStream) -> bool {
    &&& s.name@ == text_or_empty(raw.name)
    &&& s.creation_time == time_or(raw.creation_time, 0)
    &&& s.first_event_time == raw.first_event_timestamp
    &&& s.last_event_time == raw.last_event_timestamp
    &&& s.last_ingestion_time == raw.last_ingestion_time
}

/// Shape one raw stream record.
pub fn shape_stream(raw: &RawLogStream) -> (s: LogStream)
    ensures
        stream_of_raw(s, *raw),
{
    LogStream {
        name: match &raw.name {
            Option::Some(n) => n.clone(),
            Option::None => String::new(),
        },
        creation_time: match raw.creation_time {
            Option::Some(t) => t,
            Option::None => 0,
        },
        first_event_time: raw.first_event_timestamp,
        last_event_time: raw.last_event_timestamp,
        last_ingestion_time: raw.last_ingestion_time,
    }
}

/// Shape the raw stream records, keeping the remote service's order:
/// the result has the same length, and the stream at each index is the
/// shape of the raw record at that index.
pub fn shape_streams(raw: &Vec<RawLogStream>) -> (ss: Vec<LogStream>)
    ensures
        ss@.len() == raw@.len(),
        forall|i: int| 0 <= i < raw@.len() ==> stream_of_raw(ss@[i], raw@[i]),
{
    let mut ss: Vec<LogStream> = Vec::new();
    let mut k: usize = 0;
    while k < raw.len()
        invariant
            k <= raw@.len(),
            ss@.len() == k,
            forall|i: int| 0 <= i < k ==> stream_of_raw(ss@[i], raw@[i]),
        decreases raw@.len() - k,
    {
        let s = shape_stream(&raw[k]);
        ss.push(s);
        k = k + 1;
    }
    ss
}

/// Turn the outcome of the remote describe-streams call into the
/// caller's result: a successful listing is shaped in order with no
/// error; a remote failure becomes an error with a non-empty,
/// human-readable message, and no partial results beside it.
pub fn describe_streams_outcome(outcome: Result<Vec<RawLogStream>, String>) -> (r: Result<
    DescribeStreamsResponse,
    String,
>)
    ensures
        outcome matches Ok(raw) ==> (r matches Ok(resp) && {
            &&& resp.streams@.len() == raw@.len()
            &&& forall|i: int| 0 <= i < raw@.len() ==> stream_of_raw(resp.streams@[i], raw@[i])
            &&& resp.error is None
        }),
        outcome matches Err(m) ==> (r matches Err(e) && {
            &&& e@ == "Failed to describe log streams: "@ + m@
            &&& e@.len() > 0
        }),
{
    match outcome {
        Result::Ok(raw) => {
            let streams = shape_streams(&raw);
            Result::Ok(DescribeStreamsResponse { streams, error: Option::None })
        },
        Result::Err(m) => {
            proof {
                reveal_strlit("Failed to describe log streams: ");
            }
            let mut e = "Failed to describe log streams: ".to_owned();
            e.append(m.as_str());
            Result::Err(e)
        },
    }
}

/// Where a stream stands in the descending order by last event time: a
/// stream with no recorded event ranks below every recorded time.
pub open spec fn last_event_rank(t: Option<i64>) -> int {
    match t {
        Option::Some(v) => v as int,
        Option::None => i64::MIN - 1,
    }
}

/// The raw records are ordered by last event time, descending.
pub open spec fn raw_sorted_by_last_event_desc(raw: Seq<RawLogStream>) -> bool {
    forall|i: int, j: int|
        0 <= i < j < raw.len() ==> last_event_rank(raw[i].last_event_timestamp) >= last_event_rank(
            raw[j].last_event_timestamp,
        )
}

/// The shaped streams are ordered by last event time, descending.
pub open spec fn sorted_by_last_event_desc(ss: Seq<LogStream>) -> bool {
    forall|i: int, j: int|
        0 <= i < j < ss.len() ==> last_event_rank(ss[i].last_event_time) >= last_event_rank(
            ss[j].last_event_time,
        )
}

/// Law: a describe-streams response never holds more than the 20
/// streams the call asked for, and keeps the remote service's
/// descending order by last event time — shaping neither drops,
/// reorders nor re-sorts the records.
pub proof fn lemma_describe_response_capped_and_ordered(raw: Seq<RawLogStream>, ss: Seq<LogStream>)
    requires
        raw.len() <= STREAM_LIMIT,
        raw_sorted_by_last_event_desc(raw),
        ss.len() == raw.len(),
        forall|i: int| 0 <= i < raw.len() ==> stream_of_raw(ss[i], raw[i]),
    ensures
        ss.len() <= STREAM_LIMIT,
        sorted_by_last_event_desc(ss),
{
    assert forall|i: int, j: int| 0 <= i < j < ss.len() implies last_event_rank(
        ss[i].last_event_time,
    ) >= last_event_rank(ss[j].last_event_time) by {
        assert(stream_of_raw(ss[i], raw[i]));
        assert(stream_of_raw(ss[j], raw[j]));
    }
}

} // verus!
