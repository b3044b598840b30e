//! The failures of the gateway's web layer.

use crate::dispatch::CallError;
use crate::resolver::CtxExtError;
use crate::rpc_request::RequestFault;
use vstd::prelude::*;

verus! {

/// A failure of the web layer, as the response mapper receives it.
#[derive(Debug)]
pub enum Error {
    /// The call's context is missing or could not be resolved.
    CtxExt(CtxExtError),
    /// The body is no valid call envelope.
    RpcRequestParsing(RequestFault),
    /// The call was not served, in this process or by a sibling service.
    Rpc(CallError),
    /// No service is registered under the name asked for.
    ServiceResolutionFailed,
    /// A JSON text could not be written or read.
    SerdeJson,
}

impl Error {
    /// The name of the failure, with the cause in brackets where it has one.
    pub open spec fn text(self) -> Seq<char> {
        match self {
            Error::CtxExt(e) => "CtxExt("@ + e.text() + ")"@,
            Error::RpcRequestParsing(f) => "RpcRequestParsing("@ + f.text() + ")"@,
            Error::Rpc(e) => "Rpc("@ + e.error.text() + ")"@,
            Error::ServiceResolutionFailed => "ServiceResolutionFailed"@,
            Error::SerdeJson => "SerdeJson"@,
        }
    }

    /// The failure in words, for logs and for errors that wrap this one.
    pub fn message(&self) -> (r: String)
        ensures
            r@ == self.text(),
    {
        match self {
            Error::CtxExt(e) => {
                let s = "CtxExt(".to_owned();
                let s = s.concat(e.message().as_str());
                s.concat(")")
            },
            Error::RpcRequestParsing(f) => {
                let s = "RpcRequestParsing(".to_owned();
                let s = s.concat(f.message().as_str());
                s.concat(")")
            },
            Error::Rpc(e) => {
                let s = "Rpc(".to_owned();
                let s = s.concat(e.error.message().as_str());
                s.concat(")")
            },
            Error::ServiceResolutionFailed => "ServiceResolutionFailed".to_owned(),
            Error::SerdeJson => "SerdeJson".to_owned(),
        }
    }
}

} // verus!
