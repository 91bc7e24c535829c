//! The catalog of tools that the service offers, and lookup by name.
use vstd::prelude::*;
use crate::params::{default_timezone, DEFAULT_TIMEZONE};

verus! {

pub const GET_TIME_NAME: &'static str = "get_time";

pub const WAIT_NAME: &'static str = "wait";

pub const GET_TIME_DESCRIPTION: &'static str = "获取指定时区的当前时间。如果未指定时区，默认返回上海时区的时间。";

pub const WAIT_DESCRIPTION: &'static str = "等待指定的秒数，然后返回等待的开始时间、结束时间和持续时间。";

pub const TIMEZONE_FIELD: &'static str = "timezone";

pub const TIMEZONE_DESCRIPTION: &'static str = "时区名称，例如 \"Asia/Shanghai\" 或 \"America/New_York\"，默认为 \"Asia/Shanghai\"";

pub const SECONDS_FIELD: &'static str = "seconds";

pub const SECONDS_DESCRIPTION: &'static str = "等待时间（单位：秒）";

/// The tools of the catalog.
#[derive(Clone, Copy, Debug, PartialEq, Eq, Structural)]
pub enum ToolKind {
    GetTime,
    Wait,
}

/// The primitive type that a parameter must have.
#[derive(Clone, Copy, Debug, PartialEq, Eq, Structural)]
pub enum ValueKind {
    /// A string.
    Text,
    /// A non-negative integer that fits in 64 bits.
    Unsigned,
}

/// One parameter of a tool.
#[derive(Clone, Debug)]
pub struct ParamSpec {
    pub name: String,
    pub description: String,
    pub kind: ValueKind,
    pub required: bool,
    /// The value used when a call leaves the parameter out.
    pub default: Option<String>,
}

/// A tool as it is advertised: its name, what it does, and its parameters.
#[derive(Clone, Debug)]
pub struct ToolDescriptor {
    pub name: String,
    pub description: String,
    pub params: Vec<ParamSpec>,
}

/// The tool registered under `name`, if any.
pub open spec fn tool_named(name: Seq<char>) -> Option<ToolKind> {
    if name == GET_TIME_NAME@ {
        Some(ToolKind::GetTime)
    } else if name == WAIT_NAME@ {
        Some(ToolKind::Wait)
    } else {
        None
    }
}

pub open spec fn param_is(
    p: ParamSpec,
    name: Seq<char>,
    description: Seq<char>,
    kind: ValueKind,
    required: bool,
) -> bool {
    &&& p.name@ == name
    &&& p.description@ == description
    &&& p.kind == kind
    &&& p.required == required
}

/// `d` advertises the tool `k` with its documented parameters.
pub open spec fn describes(d: ToolDescriptor, k: ToolKind) -> bool {
    match k {
        ToolKind::GetTime => {
            &&& d.name@ == GET_TIME_NAME@
            &&& d.description@ == GET_TIME_DESCRIPTION@
            &&& d.params@.len() == 1
            &&& param_is(d.params@[0], TIMEZONE_FIELD@, TIMEZONE_DESCRIPTION@, ValueKind::Text, false)
            &&& d.params@[0].default matches Some(z) && z@ == DEFAULT_TIMEZONE@
        },
        ToolKind::Wait => {
            &&& d.name@ == WAIT_NAME@
            &&& d.description@ == WAIT_DESCRIPTION@
            &&& d.params@.len() == 1
            &&& param_is(d.params@[0], SECONDS_FIELD@, SECONDS_DESCRIPTION@, ValueKind::Unsigned, true)
            &&& d.params@[0].default is None
        },
    }
}

/// The full catalog: `get_time`, then `wait`, and nothing else.
pub open spec fn is_catalog(tools: Seq<ToolDescriptor>) -> bool {
    &&& tools.len() == 2
    &&& describes(tools[0], ToolKind::GetTime)
    &&& describes(tools[1], ToolKind::Wait)
}

/// Each tool of the catalog resolves by its own name to itself, so no two
/// tools share a name.
pub proof fn lemma_catalog_resolves(tools: Seq<ToolDescriptor>)
    requires
        is_catalog(tools),
    ensures
        tool_named(tools[0].name@) == Some(ToolKind::GetTime),
        tool_named(tools[1].name@) == Some(ToolKind::Wait),
        tools[0].name@ != tools[1].name@,
{
    reveal_strlit("get_time");
    reveal_strlit("wait");
    assert(GET_TIME_NAME@[0] != WAIT_NAME@[0]);
}

/// Builds the catalog of tools.
pub fn tool_catalog() -> (r: Vec<ToolDescriptor>)
    ensures
        is_catalog(r@),
{
    let get_time = ToolDescriptor {
        name: String::from_str(GET_TIME_NAME),
        description: String::from_str(GET_TIME_DESCRIPTION),
        params: vec![
            ParamSpec {
                name: String::from_str(TIMEZONE_FIELD),
                description: String::from_str(TIMEZONE_DESCRIPTION),
                kind: ValueKind::Text,
                required: false,
                default: Some(default_timezone()),
            },
        ],
    };
    let wait = ToolDescriptor {
        name: String::from_str(WAIT_NAME),
        description: String::from_str(WAIT_DESCRIPTION),
        params: vec![
            ParamSpec {
                name: String::from_str(SECONDS_FIELD),
                description: String::from_str(SECONDS_DESCRIPTION),
                kind: ValueKind::Unsigned,
                required: true,
                default: None,
            },
        ],
    };
    vec![get_time, wait]
}

/// Resolves a tool name.
pub fn lookup_tool(name: &str) -> (r: Option<ToolKind>)
    ensures
        r == tool_named(name@),
{
    let key = String::from_str(name);
    if key == String::from_str(GET_TIME_NAME) {
        Some(ToolKind::GetTime)
    } else if key == String::from_str(WAIT_NAME) {
        Some(ToolKind::Wait)
    } else {
        None
    }
}

} // verus!
