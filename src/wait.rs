//! The `wait` tool as a two-step exchange: the library records when a wait
//! begins; whoever runs it suspends for the requested seconds, racing its
//! cancellation scope, and reports back how the suspension ended.
use vstd::prelude::*;
use crate::clock::{is_known_zone, local_stamp, stamp_in_zone, MAX_TIMESTAMP, STAMP_PATTERN};
use crate::error::{cancelled, cancelled_error, text_result_view, ToolError, ToolErrorView};
use crate::numeral::{decimal, decimal_text};
use crate::params::{WaitParams, DEFAULT_TIMEZONE};

verus! {

/// A wait that has begun.
#[derive(Clone, Copy, Debug)]
pub struct PendingWait {
    /// How long to suspend, in seconds.
    pub seconds: u64,
    /// When the wait began, in seconds since the Unix epoch.
    pub started_at: i64,
}

/// How the suspension of a wait ended.
#[derive(Clone, Copy, Debug, PartialEq, Eq, Structural)]
pub enum WaitEvent {
    /// The requested seconds elapsed.
    Elapsed,
    /// The wait's cancellation scope fired first.
    Cancelled,
}

impl PendingWait {
    pub open spec fn wf(&self) -> bool {
        0 <= self.started_at <= MAX_TIMESTAMP
    }
}

/// The text of a completed wait.
pub open spec fn wait_text(start: Seq<char>, end: Seq<char>, seconds: u64) -> Seq<char> {
    "等待开始时间："@ + start + "\n等待结束时间："@ + end + "\n等待时长："@ + decimal(seconds as nat)
        + " 秒"@
}

/// What a wait answers when its suspension ended with `event` at the instant `now`.
pub open spec fn wait_outcome_spec(w: PendingWait, event: WaitEvent, now: i64) -> Result<
    Seq<char>,
    ToolErrorView,
> {
    match event {
        WaitEvent::Cancelled => Err(cancelled_error()),
        WaitEvent::Elapsed => Ok(
            wait_text(
                local_stamp(w.started_at, DEFAULT_TIMEZONE@, STAMP_PATTERN@),
                local_stamp(now, DEFAULT_TIMEZONE@, STAMP_PATTERN@),
                w.seconds,
            ),
        ),
    }
}

/// A wait of zero seconds that elapsed succeeds and reports a duration of `0`.
pub proof fn lemma_zero_wait_reports_zero(w: PendingWait, now: i64)
    requires
        w.seconds == 0,
    ensures
        wait_outcome_spec(w, WaitEvent::Elapsed, now) matches Ok(t) && t == wait_text(
            local_stamp(w.started_at, DEFAULT_TIMEZONE@, STAMP_PATTERN@),
            local_stamp(now, DEFAULT_TIMEZONE@, STAMP_PATTERN@),
            0,
        ),
        decimal(0) == seq!['0'],
{
}

/// The report of a completed wait, from its rendered start and end.
pub fn wait_report(start: &str, end: &str, seconds: u64) -> (r: String)
    ensures
        r@ == wait_text(start@, end@, seconds),
{
    let n = decimal_text(seconds);
    String::from_str("等待开始时间：").concat(start).concat("\n等待结束时间：").concat(end).concat(
        "\n等待时长：",
    ).concat(n.as_str()).concat(" 秒")
}

/// Begins a wait at the instant `now`.
pub fn begin_wait(params: &WaitParams, now: i64) -> (r: PendingWait)
    requires
        0 <= now <= MAX_TIMESTAMP,
    ensures
        r.wf(),
        r.seconds == params.seconds,
        r.started_at == now,
{
    PendingWait { seconds: params.seconds, started_at: now }
}

/// Ends a wait whose suspension ended with `event` at the instant `now`: the
/// start, end and requested duration, or `OperationCancelled`.
pub fn finish_wait(w: &PendingWait, event: WaitEvent, now: i64) -> (r: Result<String, ToolError>)
    requires
        w.wf(),
        0 <= now <= MAX_TIMESTAMP,
    ensures
        text_result_view(r) == wait_outcome_spec(*w, event, now),
{
    match event {
        WaitEvent::Cancelled => Err(cancelled()),
        WaitEvent::Elapsed => {
            // chrono-tz's table holds the default zone: this establishes what
            // rendering in it requires.
            let known = is_known_zone(DEFAULT_TIMEZONE);
            assert(known);
            let start = stamp_in_zone(w.started_at, DEFAULT_TIMEZONE);
            let end = stamp_in_zone(now, DEFAULT_TIMEZONE);
            Ok(wait_report(start.as_str(), end.as_str(), w.seconds))
        },
    }
}

} // verus!
