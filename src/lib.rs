//! Failover search over mirrors of an internet-radio station directory.
//!
//! `dispatch` decides, request by request, which mirror to ask next and when
//! a search ends; `laws` states and proves what a whole search does;
//! `station` holds the record with its per-field defaulting; `registry` the
//! ordered mirror list; `query` the blank-query test.

pub mod dispatch;
pub mod laws;
pub mod query;
pub mod registry;
pub mod station;
