//! Request-dispatch core of a multi-process RPC gateway.
//!
//! A call arrives as a JSON-RPC envelope. The gateway attaches the caller's
//! context to it, decides from the method name whether the call is served in
//! this process or forwarded to a named sibling service, and maps the outcome
//! back into an envelope.
//!
//! - [`ctx`]: the context of a call, identity and lineage.
//! - [`resolver`]: how a call gets its context, at the boundary and inside.
//! - [`propagation`]: the context as a header between processes.
//! - [`rpc_request`]: the inbound envelope.
//! - [`routing`]: the method grammar.
//! - [`service_resolution`]: from a service's name to its address.
//! - [`dispatch`]: the steps of serving or forwarding a call.
//! - [`response`]: every outcome as an envelope.
//! - [`worker`]: what the language-model worker serves in process.
//! - [`json`]: JSON values and what is taken on trust about them.
//! - [`error`]: the failures of the web layer.
//!
//! Nothing in this library reads the network, the environment or a clock.
//! Where serving a call needs one of them, a function here says what is to
//! be done and another takes what came of it.

pub mod ctx;
pub mod dispatch;
pub mod error;
pub mod json;
pub mod propagation;
pub mod resolver;
pub mod response;
pub mod routing;
pub mod rpc_request;
pub mod service_resolution;
pub mod worker;
