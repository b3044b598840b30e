//! The response mapper: every outcome of a call leaves the gateway as one
//! of two envelopes, together with the call's id and method for whoever logs
//! or measures the response.

use crate::dispatch::{reply_id, RouterError};
use crate::error::Error;
use crate::json::{json_object, json_text, json_view, member_keys, member_views, JsonModel};
use crate::rpc_request::{CallId, CallIdView, RpcInfo};
use vstd::prelude::*;

verus! {

/// What a client may know of a failure.
#[derive(Debug, Clone, Copy, PartialEq, Eq, Structural)]
pub enum ClientError {
    /// The call has no valid context.
    NoAuth,
    /// The body is no call envelope.
    RpcRequestInvalid,
    /// The method is not served, here or by a sibling service.
    RpcRequestMethodUnknown,
    /// The parameters do not fit the method.
    RpcParamsInvalid,
    /// Anything else.
    ServiceError,
}

impl ClientError {
    /// The code of the kind, as it stands in the envelope.
    pub open spec fn code(self) -> Seq<char> {
        match self {
            ClientError::NoAuth => "NO_AUTH"@,
            ClientError::RpcRequestInvalid => "RPC_REQUEST_INVALID"@,
            ClientError::RpcRequestMethodUnknown => "RPC_REQUEST_METHOD_UNKNOWN"@,
            ClientError::RpcParamsInvalid => "RPC_PARAMS_INVALID"@,
            ClientError::ServiceError => "SERVICE_ERROR"@,
        }
    }

    /// The code of the kind.
    pub fn as_code(&self) -> (r: String)
        ensures
            r@ == self.code(),
    {
        match self {
            ClientError::NoAuth => "NO_AUTH".to_owned(),
            ClientError::RpcRequestInvalid => "RPC_REQUEST_INVALID".to_owned(),
            ClientError::RpcRequestMethodUnknown => "RPC_REQUEST_METHOD_UNKNOWN".to_owned(),
            ClientError::RpcParamsInvalid => "RPC_PARAMS_INVALID".to_owned(),
            ClientError::ServiceError => "SERVICE_ERROR".to_owned(),
        }
    }
}

/// The kind under which a client is told of `e`.
pub open spec fn client_error_of(e: Error) -> ClientError {
    match e {
        Error::CtxExt(_) => ClientError::NoAuth,
        Error::RpcRequestParsing(_) => ClientError::RpcRequestInvalid,
        Error::Rpc(c) => match c.error {
            RouterError::MethodUnknown => ClientError::RpcRequestMethodUnknown,
            RouterError::ParamsParsing(_) => ClientError::RpcParamsInvalid,
            RouterError::ParamsMissingButRequested => ClientError::RpcParamsInvalid,
            _ => ClientError::ServiceError,
        },
        _ => ClientError::ServiceError,
    }
}

/// The kind under which a client is told of `e`.
pub fn client_error(e: &Error) -> (r: ClientError)
    ensures
        r == client_error_of(*e),
{
    match e {
        Error::CtxExt(_) => ClientError::NoAuth,
        Error::RpcRequestParsing(_) => ClientError::RpcRequestInvalid,
        Error::Rpc(c) => match &c.error {
            RouterError::MethodUnknown => ClientError::RpcRequestMethodUnknown,
            RouterError::ParamsParsing(_) => ClientError::RpcParamsInvalid,
            RouterError::ParamsMissingButRequested => ClientError::RpcParamsInvalid,
            _ => ClientError::ServiceError,
        },
        _ => ClientError::ServiceError,
    }
}

/// The envelope of a failure: the protocol tag, the id of the call (`null`
/// where none is known), and the error with its code and its message.
pub open spec fn error_json(id: CallIdView, code: Seq<char>, message: Seq<char>) -> JsonModel {
    JsonModel::Object(
        seq![
            ("jsonrpc"@, JsonModel::Text("2.0"@)),
            ("id"@, id.json()),
            (
                "error"@,
                JsonModel::Object(
                    seq![("code"@, JsonModel::Text(code)), ("message"@, JsonModel::Text(message))],
                ),
            ),
        ],
    )
}

/// Builds the envelope of a failure.
pub fn error_envelope(id: &CallId, code: String, message: String) -> (r: serde_json::Value)
    ensures
        json_view(r) == error_json(id@, code@, message@),
{
    let mut detail: Vec<(String, serde_json::Value)> = Vec::new();
    detail.push(("code".to_owned(), json_text(code)));
    detail.push(("message".to_owned(), json_text(message)));
    proof {
        reveal_strlit("code");
        reveal_strlit("message");
        assert("code"@.len() != "message"@.len());
        assert(member_keys(detail@) =~= seq!["code"@, "message"@]);
        assert(member_views(detail@) =~= seq![
            ("code"@, JsonModel::Text(code@)),
            ("message"@, JsonModel::Text(message@)),
        ]);
    }
    let detail = json_object(detail);
    let mut fields: Vec<(String, serde_json::Value)> = Vec::new();
    fields.push(("jsonrpc".to_owned(), json_text("2.0".to_owned())));
    fields.push(("id".to_owned(), id.to_value()));
    fields.push(("error".to_owned(), detail));
    proof {
        reveal_strlit("jsonrpc");
        reveal_strlit("id");
        reveal_strlit("error");
        assert("jsonrpc"@.len() == 7 && "id"@.len() == 2 && "error"@.len() == 5);
        assert(member_keys(fields@) =~= seq!["jsonrpc"@, "id"@, "error"@]);
        assert(member_views(fields@) =~= error_json(id@, code@, message@)->Object_0);
    }
    json_object(fields)
}

/// A response as it leaves the gateway: the body, and beside it the id and
/// method of the call where they are known. The latter are for logs and
/// measurements and are no part of the body.
#[derive(Debug)]
pub struct MappedResponse {
    pub body: serde_json::Value,
    pub rpc_info: Option<RpcInfo>,
}

/// The id of the call that `info` names, if it names one.
pub open spec fn known_id(info: Option<RpcInfo>) -> Option<CallId> {
    match info {
        Some(i) => i.id,
        None => None,
    }
}

/// Brings the outcome of a call into its envelope. A success is the body
/// that the dispatcher built. A failure of any kind becomes the envelope of
/// a failure, under the id of the call as far as it is known, with the
/// client's code for the failure and the failure's own words. `rpc_info`
/// goes along unchanged.
pub fn response_map(result: Result<serde_json::Value, Error>, rpc_info: Option<RpcInfo>) -> (r:
    MappedResponse)
    ensures
        r.rpc_info == rpc_info,
        match result {
            Ok(body) => r.body == body,
            Err(e) => json_view(r.body) == error_json(
                reply_id(known_id(rpc_info)),
                client_error_of(e).code(),
                e.text(),
            ),
        },
{
    match result {
        Ok(body) => MappedResponse { body, rpc_info },
        Err(e) => {
            let id = match &rpc_info {
                Some(info) => match &info.id {
                    Some(i) => i.clone(),
                    None => CallId::Null,
                },
                None => CallId::Null,
            };
            let body = error_envelope(&id, client_error(&e).as_code(), e.message());
            MappedResponse { body, rpc_info }
        },
    }
}

} // verus!
