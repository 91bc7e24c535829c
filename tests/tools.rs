use mcp_time::catalog::{lookup_tool, tool_catalog, ToolKind, ValueKind};
use mcp_time::clock::{clock_read, clock_reply, stamp_in_zone};
use mcp_time::error::ErrorKind;
use mcp_time::numeral::decimal_text;
use mcp_time::params::{default_timezone, find_arg, time_params, wait_params, Arg, ArgValue, GetTimeParams};
use mcp_time::service::{Dispatch, ServerInfo, TimeService, ToolCall};
use mcp_time::session::SessionManager;

fn text_arg(name: &str, value: &str) -> Arg {
    Arg { name: name.to_string(), value: ArgValue::Text(value.to_string()) }
}

fn uint_arg(name: &str, value: u64) -> Arg {
    Arg { name: name.to_string(), value: ArgValue::Unsigned(value) }
}

#[test]
fn catalog_holds_exactly_get_time_and_wait() {
    let tools = tool_catalog();
    assert_eq!(tools.len(), 2);
    assert_eq!(tools[0].name, "get_time");
    assert_eq!(tools[0].params.len(), 1);
    assert_eq!(tools[0].params[0].name, "timezone");
    assert_eq!(tools[0].params[0].kind, ValueKind::Text);
    assert!(!tools[0].params[0].required);
    assert_eq!(tools[0].params[0].default.as_deref(), Some("Asia/Shanghai"));
    assert_eq!(tools[1].params[0].default, None);
    assert_eq!(tools[1].name, "wait");
    assert_eq!(tools[1].params.len(), 1);
    assert_eq!(tools[1].params[0].name, "seconds");
    assert_eq!(tools[1].params[0].kind, ValueKind::Unsigned);
    assert!(tools[1].params[0].required);
}

#[test]
fn catalog_does_not_depend_on_open_sessions() {
    let service = TimeService::new();
    let mut sessions = SessionManager::new();
    let before: Vec<String> = service.list_tools().iter().map(|t| t.name.clone()).collect();
    for _ in 0..5 {
        assert!(sessions.open_session().is_some());
    }
    let after: Vec<String> = service.list_tools().iter().map(|t| t.name.clone()).collect();
    assert_eq!(before, after);
    assert_eq!(after, vec!["get_time".to_string(), "wait".to_string()]);
}

#[test]
fn lookup_resolves_names() {
    assert_eq!(lookup_tool("get_time"), Some(ToolKind::GetTime));
    assert_eq!(lookup_tool("wait"), Some(ToolKind::Wait));
    assert_eq!(lookup_tool("sleep"), None);
    assert_eq!(lookup_tool(""), None);
    assert_eq!(lookup_tool("Wait"), None);
}

#[test]
fn unknown_tool_is_tool_not_found() {
    let service = TimeService::new();
    let err = service.prepare_call("sleep", &vec![]).unwrap_err();
    assert_eq!(err.kind, ErrorKind::ToolNotFound);
    assert_eq!(err.message, "tool not found: sleep");
}

#[test]
fn missing_timezone_falls_back_to_default() {
    let service = TimeService::new();
    let without = service.prepare_call("get_time", &vec![]).unwrap();
    let with = service.prepare_call("get_time", &vec![text_arg("timezone", "Asia/Shanghai")]).unwrap();
    match (without, with) {
        (ToolCall::GetTime(a), ToolCall::GetTime(b)) => {
            assert_eq!(a.timezone, "Asia/Shanghai");
            assert_eq!(a.timezone, b.timezone);
        },
        _ => panic!("expected get_time calls"),
    }
    assert_eq!(default_timezone(), "Asia/Shanghai");
}

#[test]
fn missing_timezone_reads_the_same_clock_as_default() {
    let a = time_params(&vec![]).unwrap();
    let b = time_params(&vec![text_arg("timezone", "Asia/Shanghai")]).unwrap();
    assert_eq!(clock_read(&a, 1_700_000_000).unwrap(), clock_read(&b, 1_700_000_000).unwrap());
}

#[test]
fn timezone_of_wrong_type_is_invalid_params() {
    let err = time_params(&vec![uint_arg("timezone", 8)]).unwrap_err();
    assert_eq!(err.kind, ErrorKind::InvalidParams);
    assert_eq!(err.message, "invalid type for field `timezone`");
    let err = time_params(&vec![Arg { name: "timezone".to_string(), value: ArgValue::Other }]).unwrap_err();
    assert_eq!(err.kind, ErrorKind::InvalidParams);
}

#[test]
fn extra_arguments_are_ignored() {
    let p = time_params(&vec![uint_arg("other", 3), text_arg("timezone", "Europe/Paris")]).unwrap();
    assert_eq!(p.timezone, "Europe/Paris");
    assert_eq!(find_arg(&vec![uint_arg("other", 3), uint_arg("seconds", 4)], "seconds"), Some(1));
    assert_eq!(find_arg(&vec![uint_arg("other", 3)], "seconds"), None);
}

#[test]
fn first_of_equal_names_wins() {
    let p = wait_params(&vec![uint_arg("seconds", 4), uint_arg("seconds", 9)]).unwrap();
    assert_eq!(p.seconds, 4);
}

#[test]
fn seconds_is_required() {
    let err = wait_params(&vec![]).unwrap_err();
    assert_eq!(err.kind, ErrorKind::InvalidParams);
    assert_eq!(err.message, "missing field `seconds`");
    assert!(err.data.is_none());
    let service = TimeService::new();
    let err = service.prepare_call("wait", &vec![text_arg("seconds", "2")]).unwrap_err();
    assert_eq!(err.kind, ErrorKind::InvalidParams);
    assert_eq!(err.message, "invalid type for field `seconds`");
}

#[test]
fn wait_accepts_largest_seconds() {
    let service = TimeService::new();
    match service.prepare_call("wait", &vec![uint_arg("seconds", u64::MAX)]).unwrap() {
        ToolCall::Wait(p) => assert_eq!(p.seconds, u64::MAX),
        _ => panic!("expected a wait call"),
    }
}

#[test]
fn unknown_zone_is_invalid_params_echoing_it() {
    let params = GetTimeParams { timezone: "Not/AZone".to_string() };
    let err = clock_read(&params, 0).unwrap_err();
    assert_eq!(err.kind, ErrorKind::InvalidParams);
    assert_eq!(err.message, "无效的时区：Not/AZone");
    let data = err.data.unwrap();
    assert_eq!(data.field, "timezone");
    assert_eq!(data.value, "Not/AZone");
    let service = TimeService::new();
    let err = service.get_time(&params, 0).unwrap_err();
    assert_eq!(err.kind, ErrorKind::InvalidParams);
    assert_eq!(err.data.unwrap().value, "Not/AZone");
}

#[test]
fn clock_read_at_fixed_instants() {
    let utc = GetTimeParams { timezone: "UTC".to_string() };
    assert_eq!(clock_read(&utc, 0).unwrap(), "当前时间（UTC）: 1970-01-01 00:00:00 UTC");
    let shanghai = GetTimeParams { timezone: "Asia/Shanghai".to_string() };
    assert_eq!(clock_read(&shanghai, 0).unwrap(), "当前时间（Asia/Shanghai）: 1970-01-01 08:00:00 CST");
    let new_york = GetTimeParams { timezone: "America/New_York".to_string() };
    assert_eq!(
        clock_read(&new_york, 1_700_000_000).unwrap(),
        "当前时间（America/New_York）: 2023-11-14 17:13:20 EST"
    );
}

#[test]
fn zone_names_are_case_sensitive() {
    let params = GetTimeParams { timezone: "asia/shanghai".to_string() };
    assert_eq!(clock_read(&params, 0).unwrap_err().kind, ErrorKind::InvalidParams);
}

#[test]
fn stamp_renders_in_zone() {
    assert_eq!(stamp_in_zone(86_399, "UTC"), "1970-01-01 23:59:59 UTC");
    assert_eq!(stamp_in_zone(1_700_000_000, "Asia/Tokyo"), "2023-11-15 07:13:20 JST");
}

#[test]
fn clock_reply_builds_text_or_error() {
    assert_eq!(clock_reply("Z", Some("S".to_string())).unwrap(), "当前时间（Z）: S");
    let err = clock_reply("Z", None).unwrap_err();
    assert_eq!(err.kind, ErrorKind::InvalidParams);
    assert_eq!(err.data.unwrap().value, "Z");
}

#[test]
fn get_time_is_close_to_now() {
    let service = TimeService::new();
    for zone in ["Asia/Shanghai", "America/New_York", "UTC", "Europe/London"] {
        let params = GetTimeParams { timezone: zone.to_string() };
        let text = service.get_time(&params, chrono::Utc::now().timestamp()).unwrap();
        let prefix = format!("当前时间（{}）: ", zone);
        assert!(text.starts_with(&prefix));
        let stamp = &text[prefix.len()..];
        let local = &stamp[..19];
        let naive = chrono::NaiveDateTime::parse_from_str(local, "%Y-%m-%d %H:%M:%S").unwrap();
        let tz: chrono_tz::Tz = zone.parse().unwrap();
        let now = chrono::Utc::now().with_timezone(&tz).naive_local();
        let diff = (now - naive).num_seconds().abs();
        assert!(diff <= 2, "{} is {} s away from now", stamp, diff);
    }
}

#[test]
fn server_info_enables_tools() {
    let info: ServerInfo = TimeService::new().get_info();
    assert_eq!(info.protocol_version, "2024-11-05");
    assert!(info.tools_enabled);
    assert!(info.instructions.contains("get_time"));
    assert!(info.instructions.contains("wait"));
}

#[test]
fn decimal_text_renders_numbers() {
    assert_eq!(decimal_text(0), "0");
    assert_eq!(decimal_text(7), "7");
    assert_eq!(decimal_text(10), "10");
    assert_eq!(decimal_text(1234567890), "1234567890");
    assert_eq!(decimal_text(u64::MAX), "18446744073709551615");
}

#[test]
fn dispatch_replies_suspends_or_fails() {
    let service = TimeService::new();
    match service.dispatch("wait", &vec![uint_arg("seconds", 2)], 1_700_000_000) {
        Dispatch::Suspend(w) => {
            assert_eq!(w.seconds, 2);
            assert_eq!(w.started_at, 1_700_000_000);
        },
        _ => panic!("wait must suspend"),
    }
    match service.dispatch("get_time", &vec![text_arg("timezone", "UTC")], 0) {
        Dispatch::Reply(r) => assert_eq!(r.unwrap(), "当前时间（UTC）: 1970-01-01 00:00:00 UTC"),
        _ => panic!("get_time must reply"),
    }
    match service.dispatch("get_time", &vec![text_arg("timezone", "Not/AZone")], 0) {
        Dispatch::Reply(r) => assert_eq!(r.unwrap_err().kind, ErrorKind::InvalidParams),
        _ => panic!("get_time must reply"),
    }
    match service.dispatch("nope", &vec![], 0) {
        Dispatch::Reply(r) => assert_eq!(r.unwrap_err().kind, ErrorKind::ToolNotFound),
        _ => panic!("unknown tools must reply"),
    }
    match service.dispatch("wait", &vec![], 0) {
        Dispatch::Reply(r) => assert_eq!(r.unwrap_err().message, "missing field `seconds`"),
        _ => panic!("invalid waits must reply"),
    }
}

#[test]
fn get_time_without_zone_matches_default_zone() {
    let service = TimeService::new();
    let now = 1_700_000_000;
    let a = match service.dispatch("get_time", &vec![], now) {
        Dispatch::Reply(r) => r.unwrap(),
        _ => panic!("get_time must reply"),
    };
    let b = match service.dispatch("get_time", &vec![text_arg("timezone", "Asia/Shanghai")], now) {
        Dispatch::Reply(r) => r.unwrap(),
        _ => panic!("get_time must reply"),
    };
    assert_eq!(a, b);
    assert_eq!(a, "当前时间（Asia/Shanghai）: 2023-11-15 06:13:20 CST");
}
