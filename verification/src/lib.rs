//! A log-query facade for a remote log-aggregation service.
//!
//! Two stateless operations are modelled: a log-event query, which
//! normalizes its parameters, describes the one remote filtered-event
//! call to issue, and shapes the returned page; and a stream-metadata
//! query, which describes a describe-streams call (ordered by last
//! event time, descending, limited to 20 results) and shapes the
//! returned stream records. The network round-trips themselves are the
//! host application's business: this crate states and proves what is
//! sent and how every outcome is shaped.

pub mod fetch;
pub mod greet;
pub mod streams;
pub mod types;
