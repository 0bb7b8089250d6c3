//! The log-event query: normalize the filter pattern, describe the one
//! remote filtered-event call, and shape whatever the call hands back.

use vstd::prelude::*;
use vstd::string::StringExecFns;

use crate::types::{
    FetchLogsRequest, FetchLogsResponse, FilterEventsCall, LogEvent, RawFetchPage, RawLogEvent,
    opt_text, text_or_empty, time_or,
};

verus! {

/// The filter expression the remote call carries for a given optional
/// pattern: an absent or empty pattern means no filter at all; a
/// non-empty pattern is forwarded verbatim.
pub open spec fn effective_filter(p: Option<Seq<char>>) -> Option<Seq<char>> {
    match p {
        Option::Some(s) => if s.len() == 0 {
            Option::None
        } else {
            Option::Some(s)
        },
        Option::None => Option::None,
    }
}

/// Normalize an optional filter pattern before the call is issued: an
/// empty pattern is treated exactly like an absent one.
pub fn normalize_filter(p: Option<String>) -> (r: Option<String>)
    ensures
        opt_text(r) == effective_filter(opt_text(p)),
{
    match p {
        Option::Some(s) => {
            if s.as_str().is_empty() {
                Option::None
            } else {
                Option::Some(s)
            }
        },
        Option::None => Option::None,
    }
}

/// Describe the single remote filtered-event call for a request: the
/// log group and both bounds of the time range pass through unchanged,
/// and the filter pattern is normalized.
pub fn build_filter_events_call(req: FetchLogsRequest) -> (c: FilterEventsCall)
    ensures
        c.region@ == req.region@,
        c.log_group@ == req.log_group@,
        c.start_time == req.start_time,
        c.end_time == req.end_time,
        opt_text(c.filter_pattern) == effective_filter(opt_text(req.filter_pattern)),
{
    FilterEventsCall {
        region: req.region,
        log_group: req.log_group,
        start_time: req.start_time,
        end_time: req.end_time,
        filter_pattern: normalize_filter(req.filter_pattern),
    }
}

/// Law: a request whose filter pattern is absent or empty gives rise
/// to a remote call that carries no filter expression at all — the two
/// forms are equivalent.
pub proof fn lemma_absent_or_empty_filter_means_no_filter(p: Option<Seq<char>>)
    requires
        p is None || (p matches Some(s) && s.len() == 0),
    ensures
        effective_filter(p) is None,
{
}

/// Law: a non-empty filter pattern is carried by the remote call
/// exactly as given, unmodified.
pub proof fn lemma_nonempty_filter_forwarded_verbatim(s: Seq<char>)
    requires
        s.len() > 0,
    ensures
        effective_filter(Option::Some(s)) == Option::Some(s),
{
}

/// What a shaped event holds of the raw record it came from: a missing
/// timestamp or ingestion time defaults to 0, a missing message to
/// empty text; present fields pass through unchanged.
pub open spec fn event_of_raw(ev: LogEvent, raw: RawLogEvent) -> bool {
    &&& ev.timestamp == time_or(raw.timestamp, 0)
    &&& ev.message@ == text_or_empty(raw.message)
    &&& ev.ingestion_time == time_or(raw.ingestion_time, 0)
}

/// Shape one raw event record; no record is ever rejected for a
/// missing optional field.
pub fn shape_event(raw: &RawLogEvent) -> (ev: LogEvent)
    ensures
        event_of_raw(ev, *raw),
{
    LogEvent {
        timestamp: match raw.timestamp {
            Option::Some(t) => t,
            Option::None => 0,
        },
        message: match &raw.message {
            Option::Some(m) => m.clone(),
            Option::None => String::new(),
        },
        ingestion_time: match raw.ingestion_time {
            Option::Some(t) => t,
            Option::None => 0,
        },
    }
}

/// Shape a page of raw event records, keeping the remote service's
/// order: the result has the same length, and the event at each index
/// is the shape of the raw record at that index.
pub fn shape_events(raw: &Vec<RawLogEvent>) -> (evs: Vec<LogEvent>)
    ensures
        evs@.len() == raw@.len(),
        forall|i: int| 0 <= i < raw@.len() ==> event_of_raw(evs@[i], raw@[i]),
{
    let mut evs: Vec<LogEvent> = Vec::new();
    let mut k: usize = 0;
    while k < raw.len()
        invariant
            k <= raw@.len(),
            evs@.len() == k,
            forall|i: int| 0 <= i < k ==> event_of_raw(evs@[i], raw@[i]),
        decreases raw@.len() - k,
    {
        let ev = shape_event(&raw[k]);
        evs.push(ev);
        k = k + 1;
    }
    evs
}

/// Turn the outcome of the remote filtered-event call into the
/// caller's result: a successful page is shaped in order with its
/// continuation token passed through and no error; a remote failure
/// becomes an error with a non-empty, human-readable message, and no
/// partial results beside it.
pub fn fetch_logs_outcome(outcome: Result<RawFetchPage, String>) -> (r: Result<
    FetchLogsResponse,
    String,
>)
    ensures
        outcome matches Ok(page) ==> (r matches Ok(resp) && {
            &&& resp.events@.len() == page.events@.len()
            &&& forall|i: int|
                0 <= i < page.events@.len() ==> event_of_raw(resp.events@[i], page.events@[i])
            &&& opt_text(resp.next_token) == opt_text(page.next_token)
            &&& resp.error is None
        }),
        outcome matches Err(m) ==> (r matches Err(e) && {
            &&& e@ == "Failed to fetch logs: "@ + m@
            &&& e@.len() > 0
        }),
{
    match outcome {
        Result::Ok(page) => {
            let events = shape_events(&page.events);
            Result::Ok(FetchLogsResponse { events, next_token: page.next_token, error: Option::None })
        },
        Result::Err(m) => {
            proof {
                reveal_strlit("Failed to fetch logs: ");
            }
            let mut e = "Failed to fetch logs: ".to_owned();
            e.append(m.as_str());
            Result::Err(e)
        },
    }
}

} // verus!
