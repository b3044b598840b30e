//! The inbound call envelope: `{jsonrpc, id, method, params}`.
//!
//! The envelope is validated by `rpc_router`; this module states what that
//! validation accepts, over the content of the JSON body.

use crate::json::{json_int, json_null, json_text, json_view, JsonModel};
use vstd::prelude::*;

verus! {

/// The id of a call: a string, an integer, or `null`.
#[derive(Debug)]
pub enum CallId {
    Text(String),
    Number(i64),
    Null,
}

/// What a `CallId` holds.
pub enum CallIdView {
    Text(Seq<char>),
    Number(i64),
    Null,
}

impl View for CallId {
    type V = CallIdView;

    open spec fn view(&self) -> CallIdView {
        match self {
            CallId::Text(s) => CallIdView::Text(s@),
            CallId::Number(n) => CallIdView::Number(*n),
            CallId::Null => CallIdView::Null,
        }
    }
}

impl CallIdView {
    /// The id as a JSON value.
    pub open spec fn json(self) -> JsonModel {
        match self {
            CallIdView::Text(s) => JsonModel::Text(s),
            CallIdView::Number(n) => JsonModel::Int(n as int),
            CallIdView::Null => JsonModel::Null,
        }
    }
}

impl Clone for CallId {
    fn clone(&self) -> (r: Self)
        ensures
            r@ == self@,
    {
        match self {
            CallId::Text(s) => CallId::Text(s.clone()),
            CallId::Number(n) => CallId::Number(*n),
            CallId::Null => CallId::Null,
        }
    }
}

impl CallId {
    /// The id as a JSON value.
    pub fn to_value(&self) -> (r: serde_json::Value)
        ensures
            json_view(r) == self@.json(),
    {
        match self {
            CallId::Text(s) => json_text(s.clone()),
            CallId::Number(n) => json_int(*n),
            CallId::Null => json_null(),
        }
    }
}

/// A validated call: its id, the method asked for, and the parameters as
/// they came.
#[derive(Debug)]
pub struct CallEnvelope {
    pub id: CallId,
    pub method: String,
    pub params: Option<serde_json::Value>,
}

/// What a `CallEnvelope` holds.
pub struct EnvelopeView {
    pub id: CallIdView,
    pub method: Seq<char>,
    pub params: Option<JsonModel>,
}

impl View for CallEnvelope {
    type V = EnvelopeView;

    open spec fn view(&self) -> EnvelopeView {
        EnvelopeView {
            id: self.id@,
            method: self.method@,
            params: match self.params {
                Some(p) => Some(json_view(p)),
                None => None,
            },
        }
    }
}

/// The id and method of a call, kept to annotate its response.
#[derive(Debug)]
pub struct RpcInfo {
    pub id: Option<CallId>,
    pub method: String,
}

/// Why a body is no call envelope.
#[derive(Debug, Clone, Copy, PartialEq, Eq, Structural)]
pub enum RequestFault {
    /// The body is no JSON object.
    RequestInvalidType,
    /// The member `jsonrpc` is missing.
    VersionMissing,
    /// The member `jsonrpc` is not the string `2.0`.
    VersionInvalid,
    /// The member `method` is missing.
    MethodMissing,
    /// The member `method` is no string.
    MethodInvalidType,
    /// The member `id` is missing.
    IdMissing,
    /// The member `id` is neither a string, an integer in 64 bits, nor `null`.
    IdInvalid,
    /// A fault that the validation of a request does not report.
    Other,
}

impl RequestFault {
    /// The name of the fault.
    pub open spec fn text(self) -> Seq<char> {
        match self {
            RequestFault::RequestInvalidType => "RequestInvalidType"@,
            RequestFault::VersionMissing => "VersionMissing"@,
            RequestFault::VersionInvalid => "VersionInvalid"@,
            RequestFault::MethodMissing => "MethodMissing"@,
            RequestFault::MethodInvalidType => "MethodInvalidType"@,
            RequestFault::IdMissing => "IdMissing"@,
            RequestFault::IdInvalid => "IdInvalid"@,
            RequestFault::Other => "Other"@,
        }
    }

    /// The fault in words.
    pub fn message(&self) -> (r: String)
        ensures
            r@ == self.text(),
    {
        match self {
            RequestFault::RequestInvalidType => "RequestInvalidType".to_owned(),
            RequestFault::VersionMissing => "VersionMissing".to_owned(),
            RequestFault::VersionInvalid => "VersionInvalid".to_owned(),
            RequestFault::MethodMissing => "MethodMissing".to_owned(),
            RequestFault::MethodInvalidType => "MethodInvalidType".to_owned(),
            RequestFault::IdMissing => "IdMissing".to_owned(),
            RequestFault::IdInvalid => "IdInvalid".to_owned(),
            RequestFault::Other => "Other".to_owned(),
        }
    }
}

/// The id that a JSON value stands for, if it is one.
pub open spec fn call_id_of(m: JsonModel) -> Option<CallIdView> {
    match m {
        JsonModel::Text(s) => Some(CallIdView::Text(s)),
        JsonModel::Null => Some(CallIdView::Null),
        JsonModel::Int(i) => match m.as_i64() {
            Some(n) => Some(CallIdView::Number(n)),
            None => None,
        },
        _ => None,
    }
}

/// The call that a JSON body stands for, or the first fault found in it.
/// The protocol tag is checked first, then the method, then the id; the
/// parameters are taken as they are, present or not.
pub open spec fn envelope_of(body: JsonModel) -> Result<EnvelopeView, RequestFault> {
    if !(body is Object) {
        Err(RequestFault::RequestInvalidType)
    } else if body.get("jsonrpc"@) is None {
        Err(RequestFault::VersionMissing)
    } else if body.get("jsonrpc"@)->Some_0.as_text() != Some("2.0"@) {
        Err(RequestFault::VersionInvalid)
    } else if body.get("method"@) is None {
        Err(RequestFault::MethodMissing)
    } else if body.get("method"@)->Some_0.as_text() is None {
        Err(RequestFault::MethodInvalidType)
    } else if body.get("id"@) is None {
        Err(RequestFault::IdMissing)
    } else if call_id_of(body.get("id"@)->Some_0) is None {
        Err(RequestFault::IdInvalid)
    } else {
        Ok(
            EnvelopeView {
                id: call_id_of(body.get("id"@)->Some_0)->Some_0,
                method: body.get("method"@)->Some_0.as_text()->Some_0,
                params: body.get("params"@),
            },
        )
    }
}

#[verifier::external_type_specification]
#[verifier::external_body]
pub struct ExRpcRequestParsingError(rpc_router::RpcRequestParsingError);

/// The kind of a parsing error of `rpc_router`.
pub uninterp spec fn parsing_fault(e: rpc_router::RpcRequestParsingError) -> RequestFault;

/// `RpcRequest::from_value` of `rpc_router`, with the request's three fields
/// moved into a `CallEnvelope`. Trusted: it accepts exactly the bodies that
/// `envelope_of` accepts, with that id, method and parameters, and reports
/// the fault that `envelope_of` names.
#[verifier::external_body]
pub(crate) fn request_from_value(body: serde_json::Value) -> (r: Result<
    CallEnvelope,
    rpc_router::RpcRequestParsingError,
>)
    ensures
        match r {
            Ok(env) => envelope_of(json_view(body)) == Ok::<EnvelopeView, RequestFault>(env@),
            Err(e) => envelope_of(json_view(body)) == Err::<EnvelopeView, RequestFault>(
                parsing_fault(e),
            ),
        },
{
    let req = rpc_router::RpcRequest::from_value(body)?;
    let id = match req.id {
        rpc_router::RpcId::String(s) => CallId::Text(s.to_string()),
        rpc_router::RpcId::Number(n) => CallId::Number(n),
        rpc_router::RpcId::Null => CallId::Null,
    };
    Ok(CallEnvelope { id, method: req.method, params: req.params })
}

/// Tells the variants of `rpc_router::RpcRequestParsingError` apart.
#[verifier::external_body]
pub(crate) fn fault_of(e: &rpc_router::RpcRequestParsingError) -> (r: RequestFault)
    ensures
        r == parsing_fault(*e),
{
    match e {
        rpc_router::RpcRequestParsingError::RequestInvalidType { .. } => {
            RequestFault::RequestInvalidType
        },
        rpc_router::RpcRequestParsingError::VersionMissing { .. } => RequestFault::VersionMissing,
        rpc_router::RpcRequestParsingError::VersionInvalid { .. } => RequestFault::VersionInvalid,
        rpc_router::RpcRequestParsingError::MethodMissing { .. } => RequestFault::MethodMissing,
        rpc_router::RpcRequestParsingError::MethodInvalidType { .. } => {
            RequestFault::MethodInvalidType
        },
        rpc_router::RpcRequestParsingError::IdMissing { .. } => RequestFault::IdMissing,
        rpc_router::RpcRequestParsingError::IdInvalid { .. } => RequestFault::IdInvalid,
        _ => RequestFault::Other,
    }
}

/// Reads a call envelope from a JSON body.
pub fn parse_request(body: serde_json::Value) -> (r: Result<CallEnvelope, RequestFault>)
    ensures
        match r {
            Ok(env) => envelope_of(json_view(body)) == Ok::<EnvelopeView, RequestFault>(env@),
            Err(f) => envelope_of(json_view(body)) == Err::<EnvelopeView, RequestFault>(f),
        },
{
    match request_from_value(body) {
        Ok(env) => Ok(env),
        Err(e) => Err(fault_of(&e)),
    }
}

} // verus!
