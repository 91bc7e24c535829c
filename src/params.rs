//! Validation of the arguments of a call against a tool's parameters.
use vstd::prelude::*;
use crate::catalog::{SECONDS_FIELD, TIMEZONE_FIELD};
use crate::error::{ErrorKind, ToolError, ToolErrorView};

verus! {

/// The zone that `get_time` reads when its call names none.
pub const DEFAULT_TIMEZONE: &'static str = "Asia/Shanghai";

/// An argument value, reduced to the primitive types that parameters can have.
#[derive(Clone, Debug)]
pub enum ArgValue {
    /// A string.
    Text(String),
    /// A non-negative integer that fits in 64 bits.
    Unsigned(u64),
    /// Anything else: null, a boolean, a negative or fractional number, an array or an object.
    Other,
}

/// A named argument of a call.
#[derive(Clone, Debug)]
pub struct Arg {
    pub name: String,
    pub value: ArgValue,
}

/// Parameters of `get_time`.
#[derive(Clone, Debug)]
pub struct GetTimeParams {
    /// A zone identifier such as "Asia/Shanghai" or "America/New_York".
    pub timezone: String,
}

/// Parameters of `wait`.
#[derive(Clone, Copy, Debug)]
pub struct WaitParams {
    /// How long to wait, in seconds.
    pub seconds: u64,
}

/// The value of the first argument named `name`.
pub open spec fn arg_lookup(args: Seq<Arg>, name: Seq<char>) -> Option<ArgValue>
    decreases args.len(),
{
    if args.len() == 0 {
        None
    } else if args[0].name@ == name {
        Some(args[0].value)
    } else {
        arg_lookup(args.drop_first(), name)
    }
}

pub open spec fn missing_field_error(field: Seq<char>) -> ToolErrorView {
    ToolErrorView {
        kind: ErrorKind::InvalidParams,
        message: "missing field `"@ + field + "`"@,
        data: None,
    }
}

pub open spec fn wrong_type_error(field: Seq<char>) -> ToolErrorView {
    ToolErrorView {
        kind: ErrorKind::InvalidParams,
        message: "invalid type for field `"@ + field + "`"@,
        data: None,
    }
}

/// The zone that a `get_time` call with arguments `args` asks for.
pub open spec fn time_params_spec(args: Seq<Arg>) -> Result<Seq<char>, ToolErrorView> {
    match arg_lookup(args, TIMEZONE_FIELD@) {
        None => Ok(DEFAULT_TIMEZONE@),
        Some(ArgValue::Text(s)) => Ok(s@),
        Some(_) => Err(wrong_type_error(TIMEZONE_FIELD@)),
    }
}

/// The duration that a `wait` call with arguments `args` asks for.
pub open spec fn wait_params_spec(args: Seq<Arg>) -> Result<u64, ToolErrorView> {
    match arg_lookup(args, SECONDS_FIELD@) {
        None => Err(missing_field_error(SECONDS_FIELD@)),
        Some(ArgValue::Unsigned(n)) => Ok(n),
        Some(_) => Err(wrong_type_error(SECONDS_FIELD@)),
    }
}

/// The zone identifier used when a call names none.
pub fn default_timezone() -> (r: String)
    ensures
        r@ == DEFAULT_TIMEZONE@,
{
    String::from_str(DEFAULT_TIMEZONE)
}

/// The position of the first argument named `name`.
pub fn find_arg(args: &Vec<Arg>, name: &str) -> (r: Option<usize>)
    ensures
        match r {
            None => arg_lookup(args@, name@) is None,
            Some(i) => i < args@.len() && arg_lookup(args@, name@) == Some(args@[i as int].value),
        },
{
    let key = String::from_str(name);
    let mut i: usize = 0;
    assert(args@.subrange(0, args@.len() as int) =~= args@);
    while i < args.len()
        invariant
            i <= args@.len(),
            key@ == name@,
            arg_lookup(args@, name@) == arg_lookup(args@.subrange(i as int, args@.len() as int), name@),
        decreases args@.len() - i,
    {
        let ghost rest = args@.subrange(i as int, args@.len() as int);
        assert(rest.drop_first() =~= args@.subrange(i + 1, args@.len() as int));
        if args[i].name == key {
            return Some(i);
        }
        i = i + 1;
    }
    None
}

fn missing_field(field: &str) -> (r: ToolError)
    ensures
        r@ == missing_field_error(field@),
{
    let message = String::from_str("missing field `").concat(field).concat("`");
    ToolError { kind: ErrorKind::InvalidParams, message, data: None }
}

fn wrong_type(field: &str) -> (r: ToolError)
    ensures
        r@ == wrong_type_error(field@),
{
    let message = String::from_str("invalid type for field `").concat(field).concat("`");
    ToolError { kind: ErrorKind::InvalidParams, message, data: None }
}

/// Reads the parameters of `get_time`: `timezone` is optional, a string, and
/// falls back to the default zone.
pub fn time_params(args: &Vec<Arg>) -> (r: Result<GetTimeParams, ToolError>)
    ensures
        match time_params_spec(args@) {
            Ok(z) => r is Ok && r->Ok_0.timezone@ == z,
            Err(e) => r is Err && r->Err_0@ == e,
        },
{
    match find_arg(args, TIMEZONE_FIELD) {
        None => Ok(GetTimeParams { timezone: default_timezone() }),
        Some(i) => match &args[i].value {
            ArgValue::Text(s) => Ok(GetTimeParams { timezone: s.clone() }),
            _ => Err(wrong_type(TIMEZONE_FIELD)),
        },
    }
}

/// Reads the parameters of `wait`: `seconds` is required and an unsigned integer.
pub fn wait_params(args: &Vec<Arg>) -> (r: Result<WaitParams, ToolError>)
    ensures
        match wait_params_spec(args@) {
            Ok(n) => r is Ok && r->Ok_0.seconds == n,
            Err(e) => r is Err && r->Err_0@ == e,
        },
{
    match find_arg(args, SECONDS_FIELD) {
        None => Err(missing_field(SECONDS_FIELD)),
        Some(i) => match &args[i].value {
            ArgValue::Unsigned(n) => Ok(WaitParams { seconds: *n }),
            _ => Err(wrong_type(SECONDS_FIELD)),
        },
    }
}

} // verus!
