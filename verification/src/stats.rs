//! The session statistics metrics table: names the counters of a stats
//! snapshot.

use vstd::prelude::*;

use crate::alerts::requests::binding_error;
use crate::error::Error;

verus! {

/// Whether a metric only ever increases or fluctuates.
#[derive(Clone, Copy, Debug, PartialEq, Eq, Hash, Structural)]
pub enum MetricKind {
    /// Monotonically increasing.
    Counter,
    /// Fluctuates up and down.
    Gauge,
}

/// libtorrent's code for a counter metric (`lt::metric_type_t::counter`).
pub const METRIC_COUNTER: i32 = 0;

impl MetricKind {
    /// The kind a raw `metric_type_t` stands for: a counter for its code,
    /// a gauge otherwise.
    pub fn from_raw(raw: i32) -> (r: MetricKind)
        ensures
            raw == METRIC_COUNTER ==> r == MetricKind::Counter,
            raw != METRIC_COUNTER ==> r == MetricKind::Gauge,
    {
        if raw == METRIC_COUNTER {
            MetricKind::Counter
        } else {
            MetricKind::Gauge
        }
    }
}

/// One entry of the stats metrics table.
#[derive(Clone, Debug)]
pub struct StatsMetric {
    /// The metric's name, e.g. `"net.recv_payload_bytes"`.
    pub name: String,
    /// Index into the counters array of a stats snapshot.
    pub value_index: i32,
    /// Counter or gauge.
    pub kind: MetricKind,
}

/// Checks a metric name before the lookup: it travels as a C string, so
/// it cannot contain NUL.
pub fn check_metric_name(name: &str) -> (r: Result<(), Error>)
    ensures
        !name@.contains('\0') ==> r is Ok,
        name@.contains('\0') ==> (r matches Err(e) && e@ == binding_error(
            "metric names cannot contain NUL bytes"@,
        )),
{
    let chars = crate::text::to_chars(name);
    if crate::text::chars_contain(chars.as_slice(), '\0') {
        Err(Error::binding("metric names cannot contain NUL bytes"))
    } else {
        Ok(())
    }
}

/// The lookup's answer: a counters-array index, or `None` when libtorrent
/// reports (with a negative index) that it has no such metric.
pub fn metric_index_from_reported(idx: i32) -> (r: Option<i32>)
    ensures
        idx >= 0 ==> r == Some(idx),
        idx < 0 ==> r is None,
{
    if idx >= 0 {
        Some(idx)
    } else {
        None
    }
}

} // verus!
