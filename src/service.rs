//! The service: its catalog, what it tells a client at initialization, and the
//! dispatch of a call to its tool.
use vstd::prelude::*;
use crate::catalog::{
    is_catalog, lookup_tool, tool_catalog, tool_named, ToolDescriptor, ToolKind, GET_TIME_NAME,
    TIMEZONE_FIELD,
};
use crate::clock::{clock_read, clock_read_spec, MAX_TIMESTAMP};
use crate::error::{text_result_view, ErrorKind, ToolError, ToolErrorView};
use crate::params::{
    arg_lookup, time_params, time_params_spec, wait_params, wait_params_spec, Arg, ArgValue,
    GetTimeParams, WaitParams, DEFAULT_TIMEZONE,
};
use crate::wait::{begin_wait, finish_wait, wait_outcome_spec, PendingWait, WaitEvent};

verus! {

/// The protocol revision that the service speaks.
pub const PROTOCOL_VERSION: &'static str = "2024-11-05";

/// What the service tells a client at initialization.
pub const INSTRUCTIONS: &'static str = "此 MCP 服务提供时间相关的工具。\nTools:\n- get_time: 获取指定时区的当前时间，默认时区为上海 (Asia/Shanghai)\n- wait: 等待指定的秒数后返回等待信息";

/// What the service advertises when a session begins.
#[derive(Clone, Debug)]
pub struct ServerInfo {
    pub protocol_version: String,
    /// Whether clients may call tools.
    pub tools_enabled: bool,
    pub instructions: String,
}

/// A validated call, ready for its tool.
#[derive(Clone, Debug)]
pub enum ToolCall {
    GetTime(GetTimeParams),
    Wait(WaitParams),
}

/// A validated call, with its strings as character sequences.
pub enum ToolCallView {
    GetTime(Seq<char>),
    Wait(u64),
}

impl View for ToolCall {
    type V = ToolCallView;

    open spec fn view(&self) -> ToolCallView {
        match self {
            ToolCall::GetTime(p) => ToolCallView::GetTime(p.timezone@),
            ToolCall::Wait(p) => ToolCallView::Wait(p.seconds),
        }
    }
}

pub open spec fn tool_not_found_error(name: Seq<char>) -> ToolErrorView {
    ToolErrorView { kind: ErrorKind::ToolNotFound, message: "tool not found: "@ + name, data: None }
}

/// The call that a request for the tool `name` with arguments `args` makes.
pub open spec fn prepare_spec(name: Seq<char>, args: Seq<Arg>) -> Result<ToolCallView, ToolErrorView> {
    match tool_named(name) {
        None => Err(tool_not_found_error(name)),
        Some(ToolKind::GetTime) => match time_params_spec(args) {
            Ok(z) => Ok(ToolCallView::GetTime(z)),
            Err(e) => Err(e),
        },
        Some(ToolKind::Wait) => match wait_params_spec(args) {
            Ok(n) => Ok(ToolCallView::Wait(n)),
            Err(e) => Err(e),
        },
    }
}

/// What a dispatched call needs next.
#[derive(Debug)]
pub enum Dispatch {
    /// The call is done: its reply.
    Reply(Result<String, ToolError>),
    /// The call suspends: it waits for its seconds, racing its cancellation
    /// scope, and is then ended with `TimeService::end_wait`.
    Suspend(PendingWait),
}

/// `r` is how the service goes on at the instant `now` with the validated call `c`.
pub open spec fn dispatched(r: Dispatch, c: Result<ToolCallView, ToolErrorView>, now: i64) -> bool {
    match c {
        Err(e) => r matches Dispatch::Reply(x) && text_result_view(x) == Err::<Seq<char>, _>(e),
        Ok(ToolCallView::GetTime(z)) => r matches Dispatch::Reply(x) && text_result_view(x)
            == clock_read_spec(z, now),
        Ok(ToolCallView::Wait(n)) => r matches Dispatch::Suspend(w) && w.wf() && w.seconds == n
            && w.started_at == now,
    }
}

/// A `get_time` call without a `timezone` argument is the same call as one
/// that names the default zone.
pub proof fn lemma_missing_zone_is_default(without: Seq<Arg>, with: Seq<Arg>)
    requires
        arg_lookup(without, TIMEZONE_FIELD@) is None,
        arg_lookup(with, TIMEZONE_FIELD@) matches Some(ArgValue::Text(z)) && z@ == DEFAULT_TIMEZONE@,
    ensures
        prepare_spec(GET_TIME_NAME@, without) == prepare_spec(GET_TIME_NAME@, with),
        prepare_spec(GET_TIME_NAME@, without) == Ok::<_, ToolErrorView>(
            ToolCallView::GetTime(DEFAULT_TIMEZONE@),
        ),
{
}

/// The time service: a catalog of `get_time` and `wait`, fixed when it is built.
pub struct TimeService {
    tools: Vec<ToolDescriptor>,
}

impl TimeService {
    pub closed spec fn wf(&self) -> bool {
        is_catalog(self.tools@)
    }

    pub fn new() -> (r: TimeService)
        ensures
            r.wf(),
    {
        TimeService { tools: tool_catalog() }
    }

    /// The tools that the service offers: `get_time` and `wait`, each with its
    /// documented parameters, and nothing else.
    pub fn list_tools(&self) -> (r: &Vec<ToolDescriptor>)
        requires
            self.wf(),
        ensures
            is_catalog(r@),
    {
        &self.tools
    }

    /// What the service advertises at initialization.
    pub fn get_info(&self) -> (r: ServerInfo)
        ensures
            r.protocol_version@ == PROTOCOL_VERSION@,
            r.tools_enabled,
            r.instructions@ == INSTRUCTIONS@,
    {
        ServerInfo {
            protocol_version: String::from_str(PROTOCOL_VERSION),
            tools_enabled: true,
            instructions: String::from_str(INSTRUCTIONS),
        }
    }

    /// Resolves the tool `name` and validates `args` against its parameters.
    pub fn prepare_call(&self, name: &str, args: &Vec<Arg>) -> (r: Result<ToolCall, ToolError>)
        ensures
            match prepare_spec(name@, args@) {
                Ok(c) => r is Ok && r->Ok_0@ == c,
                Err(e) => r is Err && r->Err_0@ == e,
            },
    {
        match lookup_tool(name) {
            None => Err(
                ToolError {
                    kind: ErrorKind::ToolNotFound,
                    message: String::from_str("tool not found: ").concat(name),
                    data: None,
                },
            ),
            Some(ToolKind::GetTime) => match time_params(args) {
                Ok(p) => Ok(ToolCall::GetTime(p)),
                Err(e) => Err(e),
            },
            Some(ToolKind::Wait) => match wait_params(args) {
                Ok(p) => Ok(ToolCall::Wait(p)),
                Err(e) => Err(e),
            },
        }
    }

    /// Dispatches a request for the tool `name` with arguments `args` that
    /// arrives at the instant `now` (seconds since the Unix epoch): a failure
    /// of lookup or validation, the reply of `get_time`, or a `wait` that has
    /// begun and must now suspend.
    pub fn dispatch(&self, name: &str, args: &Vec<Arg>, now: i64) -> (r: Dispatch)
        requires
            0 <= now <= MAX_TIMESTAMP,
        ensures
            dispatched(r, prepare_spec(name@, args@), now),
    {
        match self.prepare_call(name, args) {
            Err(e) => Dispatch::Reply(Err(e)),
            Ok(ToolCall::GetTime(p)) => Dispatch::Reply(self.get_time(&p, now)),
            Ok(ToolCall::Wait(p)) => Dispatch::Suspend(self.start_wait(&p, now)),
        }
    }

    /// `get_time` at the instant `now`: the time in the requested zone, or
    /// `InvalidParams` naming it. The default zone always succeeds.
    pub fn get_time(&self, params: &GetTimeParams, now: i64) -> (r: Result<String, ToolError>)
        requires
            0 <= now <= MAX_TIMESTAMP,
        ensures
            text_result_view(r) == clock_read_spec(params.timezone@, now),
            params.timezone@ == DEFAULT_TIMEZONE@ ==> r is Ok,
    {
        clock_read(params, now)
    }

    /// Begins `wait` at the instant `now`.
    pub fn start_wait(&self, params: &WaitParams, now: i64) -> (r: PendingWait)
        requires
            0 <= now <= MAX_TIMESTAMP,
        ensures
            r.wf(),
            r.seconds == params.seconds,
            r.started_at == now,
    {
        begin_wait(params, now)
    }

    /// Ends `wait` at the instant `now`, after its suspension ended with `event`.
    pub fn end_wait(&self, w: &PendingWait, event: WaitEvent, now: i64) -> (r: Result<String, ToolError>)
        requires
            w.wf(),
            0 <= now <= MAX_TIMESTAMP,
        ensures
            text_result_view(r) == wait_outcome_spec(*w, event, now),
    {
        finish_wait(w, event, now)
    }
}

} // verus!
