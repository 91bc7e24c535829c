//! Reading the clock in a named zone: the calls into chrono and chrono-tz, and
//! the reply of `get_time`.
use vstd::prelude::*;
use crate::catalog::TIMEZONE_FIELD;
use crate::error::{text_result_view, ErrorData, ErrorKind, ToolError, ToolErrorView};
use crate::params::{GetTimeParams, DEFAULT_TIMEZONE};

verus! {

/// The last second, counted from the Unix epoch, that chrono can represent
/// (the end of the year 262142).
pub const MAX_TIMESTAMP: i64 = 8210266876799;

/// How instants are written: date, time of day and the zone's abbreviation.
pub const STAMP_PATTERN: &'static str = "%Y-%m-%d %H:%M:%S %Z";

/// Whether `name` is an identifier of chrono-tz's zone table.
pub uninterp spec fn zone_known(name: Seq<char>) -> bool;

/// chrono's rendering with `pattern` of the instant `secs` seconds after the
/// Unix epoch, in the local time of the zone `zone`.
pub uninterp spec fn local_stamp(secs: i64, zone: Seq<char>, pattern: Seq<char>) -> Seq<char>;

/// Relies on `<chrono_tz::Tz as FromStr>::from_str`: an exact lookup of the
/// identifier in the crate's zone table, which holds "Asia/Shanghai".
#[verifier::external_body]
pub(crate) fn is_known_zone(name: &str) -> (r: bool)
    ensures
        r == zone_known(name@),
        name@ == DEFAULT_TIMEZONE@ ==> r,
{
    name.parse::<chrono_tz::Tz>().is_ok()
}

/// Relies on chrono: `DateTime::from_timestamp(secs, 0)`, which is `Some` for
/// every second up to `MAX_TIMESTAMP`, moved to the zone by `with_timezone` and
/// written by `format`, which cannot fail on `STAMP_PATTERN`.
#[verifier::external_body]
pub(crate) fn render_stamp(secs: i64, zone: &str, pattern: &str) -> (r: String)
    requires
        0 <= secs <= MAX_TIMESTAMP,
        zone_known(zone@),
        pattern@ == STAMP_PATTERN@,
    ensures
        r@ == local_stamp(secs, zone@, pattern@),
{
    let tz: chrono_tz::Tz = zone.parse().unwrap();
    let utc = chrono::DateTime::from_timestamp(secs, 0).unwrap();
    utc.with_timezone(&tz).format(pattern).to_string()
}

/// The text of a successful `get_time`.
pub open spec fn clock_text(zone: Seq<char>, stamp: Seq<char>) -> Seq<char> {
    "当前时间（"@ + zone + "）: "@ + stamp
}

/// The failure of `get_time` on an unknown zone: it echoes the zone under `timezone`.
pub open spec fn invalid_zone_error(zone: Seq<char>) -> ToolErrorView {
    ToolErrorView {
        kind: ErrorKind::InvalidParams,
        message: "无效的时区："@ + zone,
        data: Some((TIMEZONE_FIELD@, zone)),
    }
}

/// What `get_time` in `zone` answers at the instant `now`.
pub open spec fn clock_read_spec(zone: Seq<char>, now: i64) -> Result<Seq<char>, ToolErrorView> {
    if zone_known(zone) {
        Ok(clock_text(zone, local_stamp(now, zone, STAMP_PATTERN@)))
    } else {
        Err(invalid_zone_error(zone))
    }
}

/// `get_time` succeeds on every zone that chrono-tz knows, with one text that
/// names the zone and gives the time there.
pub proof fn lemma_known_zone_succeeds(zone: Seq<char>, now: i64)
    requires
        zone_known(zone),
    ensures
        clock_read_spec(zone, now) == Ok::<_, ToolErrorView>(
            clock_text(zone, local_stamp(now, zone, STAMP_PATTERN@)),
        ),
{
}

/// `get_time` on a zone that chrono-tz does not know fails with
/// `InvalidParams`, and its data carries the zone as it was given.
pub proof fn lemma_unknown_zone_echoed(zone: Seq<char>, now: i64)
    requires
        !zone_known(zone),
    ensures
        clock_read_spec(zone, now) matches Err(e) && e.kind == ErrorKind::InvalidParams && e.data
            == Some((TIMEZONE_FIELD@, zone)),
{
}

/// Writes an instant of the clock in a known zone.
pub fn stamp_in_zone(secs: i64, zone: &str) -> (r: String)
    requires
        0 <= secs <= MAX_TIMESTAMP,
        zone_known(zone@),
    ensures
        r@ == local_stamp(secs, zone@, STAMP_PATTERN@),
{
    render_stamp(secs, zone, STAMP_PATTERN)
}

/// The reply of `get_time` for `zone`, given the zone's rendered time, or
/// `None` where the zone is unknown.
pub fn clock_reply(zone: &str, stamp: Option<String>) -> (r: Result<String, ToolError>)
    ensures
        text_result_view(r) == match stamp {
            Some(s) => Ok(clock_text(zone@, s@)),
            None => Err(invalid_zone_error(zone@)),
        },
{
    match stamp {
        Some(s) => Ok(String::from_str("当前时间（").concat(zone).concat("）: ").concat(s.as_str())),
        None => Err(
            ToolError {
                kind: ErrorKind::InvalidParams,
                message: String::from_str("无效的时区：").concat(zone),
                data: Some(
                    ErrorData { field: String::from_str(TIMEZONE_FIELD), value: String::from_str(zone) },
                ),
            },
        ),
    }
}

/// `get_time` at the instant `now`: the current time in the requested zone,
/// or `InvalidParams` naming the zone where chrono-tz does not know it.
pub fn clock_read(params: &GetTimeParams, now: i64) -> (r: Result<String, ToolError>)
    requires
        0 <= now <= MAX_TIMESTAMP,
    ensures
        text_result_view(r) == clock_read_spec(params.timezone@, now),
        params.timezone@ == DEFAULT_TIMEZONE@ ==> r is Ok,
{
    let zone = params.timezone.as_str();
    if is_known_zone(zone) {
        clock_reply(zone, Some(stamp_in_zone(now, zone)))
    } else {
        clock_reply(zone, None)
    }
}

} // verus!
