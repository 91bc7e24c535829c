//! Failures that a tool call reports to its caller.
use vstd::prelude::*;

verus! {

/// The kind of a failed call.
#[derive(Clone, Copy, Debug, PartialEq, Eq, Structural)]
pub enum ErrorKind {
    /// No tool of the requested name is registered.
    ToolNotFound,
    /// A parameter is missing, of the wrong type, or names something unknown.
    InvalidParams,
    /// The call's cancellation scope fired before the call completed.
    OperationCancelled,
}

/// The offending value of a failed call, under the name of the field it came from.
#[derive(Clone, Debug)]
pub struct ErrorData {
    pub field: String,
    pub value: String,
}

/// A failed call: its kind, a message for humans and, where there is one, the offending value.
#[derive(Clone, Debug)]
pub struct ToolError {
    pub kind: ErrorKind,
    pub message: String,
    pub data: Option<ErrorData>,
}

/// What a `ToolError` holds, with its strings as character sequences.
pub struct ToolErrorView {
    pub kind: ErrorKind,
    pub message: Seq<char>,
    pub data: Option<(Seq<char>, Seq<char>)>,
}

impl View for ToolError {
    type V = ToolErrorView;

    open spec fn view(&self) -> ToolErrorView {
        ToolErrorView {
            kind: self.kind,
            message: self.message@,
            data: match self.data {
                Some(d) => Some((d.field@, d.value@)),
                None => None,
            },
        }
    }
}

/// The view of a result whose success carries text.
pub open spec fn text_result_view(r: Result<String, ToolError>) -> Result<Seq<char>, ToolErrorView> {
    match r {
        Ok(s) => Ok(s@),
        Err(e) => Err(e@),
    }
}

pub open spec fn cancelled_error() -> ToolErrorView {
    ToolErrorView { kind: ErrorKind::OperationCancelled, message: "operation cancelled"@, data: None }
}

/// The failure of a call whose cancellation scope fired first.
pub fn cancelled() -> (r: ToolError)
    ensures
        r@ == cancelled_error(),
{
    ToolError {
        kind: ErrorKind::OperationCancelled,
        message: String::from_str("operation cancelled"),
        data: None,
    }
}

} // verus!
