//! Context resolution: how a call gets its `Ctx`, and what is kept when it
//! does not get one.
//!
//! A resolver never stops the call. It records a `Ctx` or the reason why there
//! is none, and the guard `mw_ctx_require` turns a recorded failure into the
//! call's error where a context is required.

use crate::ctx::{Ctx, CtxView};
use crate::error::Error;
use crate::propagation::{
    ctx_from_req_header, header_bytes, header_ctx, header_holds, uuids_read_back,
};
use vstd::prelude::*;

verus! {

/// Why a call has no context.
#[derive(Debug)]
pub enum CtxExtError {
    /// The credential cookie is missing.
    TokenNotInCookie,
    /// The credential is not in the form of a token.
    TokenWrongFormat,
    /// The identity store knows no user under the token's identifier.
    UserNotFound,
    /// The identity store failed; its message is kept.
    ModelAccessError(String),
    /// The token does not fit the stored identity.
    FailValidate,
    /// The refreshed credential could not be written.
    CannotSetTokenCookie,
    /// No resolver has run for this call.
    CtxNotInRequestExt,
    /// The propagation header is missing.
    CtxPostAuthTokenNotInReqHeader,
    /// The propagation header is malformed: its value is no text, or the
    /// text is no context.
    CtxPostAuthTokenBadFormat,
    /// The context could not be made; the cause's message is kept.
    CtxCreateFail(String),
}

impl CtxExtError {
    /// The name of the failure, with the message in brackets where it has one.
    pub open spec fn text(self) -> Seq<char> {
        match self {
            CtxExtError::TokenNotInCookie => "TokenNotInCookie"@,
            CtxExtError::TokenWrongFormat => "TokenWrongFormat"@,
            CtxExtError::UserNotFound => "UserNotFound"@,
            CtxExtError::ModelAccessError(m) => "ModelAccessError("@ + m@ + ")"@,
            CtxExtError::FailValidate => "FailValidate"@,
            CtxExtError::CannotSetTokenCookie => "CannotSetTokenCookie"@,
            CtxExtError::CtxNotInRequestExt => "CtxNotInRequestExt"@,
            CtxExtError::CtxPostAuthTokenNotInReqHeader => "CtxPostAuthTokenNotInReqHeader"@,
            CtxExtError::CtxPostAuthTokenBadFormat => "CtxPostAuthTokenBadFormat"@,
            CtxExtError::CtxCreateFail(m) => "CtxCreateFail("@ + m@ + ")"@,
        }
    }

    /// The failure in words.
    pub fn message(&self) -> (r: String)
        ensures
            r@ == self.text(),
    {
        match self {
            CtxExtError::TokenNotInCookie => "TokenNotInCookie".to_owned(),
            CtxExtError::TokenWrongFormat => "TokenWrongFormat".to_owned(),
            CtxExtError::UserNotFound => "UserNotFound".to_owned(),
            CtxExtError::ModelAccessError(m) => {
                let s = "ModelAccessError(".to_owned();
                let s = s.concat(m.as_str());
                s.concat(")")
            },
            CtxExtError::FailValidate => "FailValidate".to_owned(),
            CtxExtError::CannotSetTokenCookie => "CannotSetTokenCookie".to_owned(),
            CtxExtError::CtxNotInRequestExt => "CtxNotInRequestExt".to_owned(),
            CtxExtError::CtxPostAuthTokenNotInReqHeader => {
                "CtxPostAuthTokenNotInReqHeader".to_owned()
            },
            CtxExtError::CtxPostAuthTokenBadFormat => "CtxPostAuthTokenBadFormat".to_owned(),
            CtxExtError::CtxCreateFail(m) => {
                let s = "CtxCreateFail(".to_owned();
                let s = s.concat(m.as_str());
                s.concat(")")
            },
        }
    }
}

impl Clone for CtxExtError {
    fn clone(&self) -> (r: Self)
        ensures
            r == *self,
    {
        match self {
            CtxExtError::TokenNotInCookie => CtxExtError::TokenNotInCookie,
            CtxExtError::TokenWrongFormat => CtxExtError::TokenWrongFormat,
            CtxExtError::UserNotFound => CtxExtError::UserNotFound,
            CtxExtError::ModelAccessError(m) => CtxExtError::ModelAccessError(m.clone()),
            CtxExtError::FailValidate => CtxExtError::FailValidate,
            CtxExtError::CannotSetTokenCookie => CtxExtError::CannotSetTokenCookie,
            CtxExtError::CtxNotInRequestExt => CtxExtError::CtxNotInRequestExt,
            CtxExtError::CtxPostAuthTokenNotInReqHeader => {
                CtxExtError::CtxPostAuthTokenNotInReqHeader
            },
            CtxExtError::CtxPostAuthTokenBadFormat => CtxExtError::CtxPostAuthTokenBadFormat,
            CtxExtError::CtxCreateFail(m) => CtxExtError::CtxCreateFail(m.clone()),
        }
    }
}

/// A resolved context, as a handler receives it.
#[derive(Debug)]
pub struct CtxW(pub Ctx);

impl Clone for CtxW {
    fn clone(&self) -> (r: Self)
        ensures
            r.0@ == self.0@,
    {
        CtxW(self.0.clone())
    }
}

/// What a resolver records for a call: its context, or why it has none.
pub type CtxExtResult = Result<CtxW, CtxExtError>;

/// What the identity store holds of a user, as far as resolution needs it.
#[derive(Debug)]
pub struct UserForAuth {
    pub id: i64,
    pub username: String,
    /// The 128 bits of the salt that the user's tokens are signed with.
    pub token_salt: u128,
}

/// What has happened in a root resolution: the answer to the step that
/// was asked for last, together with what that step was asked about.
#[derive(Debug)]
pub enum RootResolveEvent {
    /// The credential cookie was read; `token` is its value, if it is there.
    Cookie { token: Option<String> },
    /// The credential was parsed; `ident` is the identifier that the token
    /// names, if the credential is a token.
    TokenParsed { ident: Option<String> },
    /// The identity store was asked for the user of the token; `found` is
    /// the user, none, or the store's failure.
    UserLooked { found: Result<Option<UserForAuth>, String> },
    /// The token was held against the salt of `user`; `valid` says whether it
    /// fits.
    TokenValidated { user: UserForAuth, valid: bool },
    /// A refreshed credential for `user` was to be written; `written` says
    /// whether it was.
    CookieWritten { user: UserForAuth, written: bool },
}

/// What a root resolution asks for next.
#[derive(Debug)]
pub enum RootResolveAction {
    /// Parse `token`, and come back with `TokenParsed`.
    ParseToken { token: String },
    /// Ask the identity store, under the root context, for the user
    /// `ident`, and come back with `UserLooked`.
    FindUser { ident: String },
    /// Hold the token against the salt of `user`, and come back with
    /// `TokenValidated`.
    ValidateToken { user: UserForAuth },
    /// Write a refreshed credential for `user`, and come back with
    /// `CookieWritten`.
    WriteCookie { user: UserForAuth },
    /// The resolution is over, with this record.
    Finish { result: CtxExtResult },
}

/// The record of a resolution that ends with a user found, validated and
/// issued a fresh credential: the context of that user, unless the user
/// bears the reserved identity.
pub open spec fn resolved_for(user_id: i64, r: CtxExtResult) -> bool {
    if user_id == 0 {
        r matches Err(CtxExtError::CtxCreateFail(m)) && m@ == crate::ctx::Error::CtxCannotNewRootCtx.text()
    } else {
        r matches Ok(w) && w.0@ == (CtxView {
            user_id,
            conv_id: None,
            req_chain: None,
        })
    }
}

/// What a root resolution does on `event`. The checks come in a fixed
/// order: the cookie, the form of the token, the user, the validation, the
/// refreshed credential, and at last the context itself; the first that
/// fails ends the resolution with its own failure.
pub open spec fn root_step(event: RootResolveEvent, r: RootResolveAction) -> bool {
    match event {
        RootResolveEvent::Cookie { token: None } => r matches RootResolveAction::Finish {
            result: Err(CtxExtError::TokenNotInCookie),
        },
        RootResolveEvent::Cookie { token: Some(t) } => r matches RootResolveAction::ParseToken {
            token,
        } && token == t,
        RootResolveEvent::TokenParsed { ident: None } => r matches RootResolveAction::Finish {
            result: Err(CtxExtError::TokenWrongFormat),
        },
        RootResolveEvent::TokenParsed { ident: Some(i) } => r matches RootResolveAction::FindUser {
            ident,
        } && ident == i,
        RootResolveEvent::UserLooked { found: Err(msg) } => r matches RootResolveAction::Finish {
            result: Err(CtxExtError::ModelAccessError(m)),
        } && m == msg,
        RootResolveEvent::UserLooked { found: Ok(None) } => r matches RootResolveAction::Finish {
            result: Err(CtxExtError::UserNotFound),
        },
        RootResolveEvent::UserLooked { found: Ok(Some(u)) } => r
            matches RootResolveAction::ValidateToken { user } && user == u,
        RootResolveEvent::TokenValidated { user: u, valid } => if valid {
            r matches RootResolveAction::WriteCookie { user } && user == u
        } else {
            r matches RootResolveAction::Finish { result: Err(CtxExtError::FailValidate) }
        },
        RootResolveEvent::CookieWritten { user: u, written } => if written {
            r matches RootResolveAction::Finish { result } && resolved_for(u.id, result)
        } else {
            r matches RootResolveAction::Finish { result: Err(CtxExtError::CannotSetTokenCookie) }
        },
    }
}

/// One step of a root resolution: takes what has happened and says what is
/// to be done next. The resolution starts with the reading of the credential
/// cookie, which comes in as `Cookie`, and is over with `Finish`.
pub fn ctx_root_resolve(event: RootResolveEvent) -> (r: RootResolveAction)
    ensures
        root_step(event, r),
{
    match event {
        RootResolveEvent::Cookie { token } => match token {
            Some(token) => RootResolveAction::ParseToken { token },
            None => RootResolveAction::Finish { result: Err(CtxExtError::TokenNotInCookie) },
        },
        RootResolveEvent::TokenParsed { ident } => match ident {
            Some(ident) => RootResolveAction::FindUser { ident },
            None => RootResolveAction::Finish { result: Err(CtxExtError::TokenWrongFormat) },
        },
        RootResolveEvent::UserLooked { found } => match found {
            Err(msg) => RootResolveAction::Finish {
                result: Err(CtxExtError::ModelAccessError(msg)),
            },
            Ok(None) => RootResolveAction::Finish { result: Err(CtxExtError::UserNotFound) },
            Ok(Some(user)) => RootResolveAction::ValidateToken { user },
        },
        RootResolveEvent::TokenValidated { user, valid } => if valid {
            RootResolveAction::WriteCookie { user }
        } else {
            RootResolveAction::Finish { result: Err(CtxExtError::FailValidate) }
        },
        RootResolveEvent::CookieWritten { user, written } => if written {
            let result = match Ctx::new(user.id) {
                Ok(ctx) => Ok(CtxW(ctx)),
                Err(ex) => Err(CtxExtError::CtxCreateFail(ex.message())),
            };
            RootResolveAction::Finish { result }
        } else {
            RootResolveAction::Finish { result: Err(CtxExtError::CannotSetTokenCookie) }
        },
    }
}

/// What the collaborators of a root resolution answer, each to its own
/// question: the cookie, the token's identifier, the user, whether the
/// token fits, and whether the fresh credential was written.
pub struct RootAnswers {
    pub token: Option<String>,
    pub ident: Option<String>,
    pub found: Result<Option<UserForAuth>, String>,
    pub valid: bool,
    pub written: bool,
}

/// The record that a root resolution ends with, given the answers: the
/// failure of the first answer that fails, in the order of the questions,
/// or the context of the user found.
pub open spec fn root_outcome(a: RootAnswers, r: CtxExtResult) -> bool {
    if a.token is None {
        r matches Err(CtxExtError::TokenNotInCookie)
    } else if a.ident is None {
        r matches Err(CtxExtError::TokenWrongFormat)
    } else {
        match a.found {
            Err(msg) => r matches Err(CtxExtError::ModelAccessError(m)) && m == msg,
            Ok(None) => r matches Err(CtxExtError::UserNotFound),
            Ok(Some(user)) => if !a.valid {
                r matches Err(CtxExtError::FailValidate)
            } else if !a.written {
                r matches Err(CtxExtError::CannotSetTokenCookie)
            } else {
                resolved_for(user.id, r)
            },
        }
    }
}

/// The record that an action ends the resolution with, if it ends it.
pub open spec fn finish_of(s: RootResolveAction) -> Option<CtxExtResult> {
    match s {
        RootResolveAction::Finish { result } => Some(result),
        _ => None,
    }
}

/// Whether the five actions are what `ctx_root_resolve` says when each
/// question is answered as `a` has it, the later questions about the user
/// that the earlier action named.
pub open spec fn root_steps(
    a: RootAnswers,
    s1: RootResolveAction,
    s2: RootResolveAction,
    s3: RootResolveAction,
    s4: RootResolveAction,
    s5: RootResolveAction,
) -> bool {
    &&& root_step(RootResolveEvent::Cookie { token: a.token }, s1)
    &&& root_step(RootResolveEvent::TokenParsed { ident: a.ident }, s2)
    &&& root_step(RootResolveEvent::UserLooked { found: a.found }, s3)
    &&& s3 matches RootResolveAction::ValidateToken { user } ==> root_step(
        RootResolveEvent::TokenValidated { user, valid: a.valid },
        s4,
    )
    &&& s4 matches RootResolveAction::WriteCookie { user } ==> root_step(
        RootResolveEvent::CookieWritten { user, written: a.written },
        s5,
    )
}

/// The record of the first of the five actions that ends the resolution.
pub open spec fn first_finish(
    s1: RootResolveAction,
    s2: RootResolveAction,
    s3: RootResolveAction,
    s4: RootResolveAction,
    s5: RootResolveAction,
) -> Option<CtxExtResult> {
    if finish_of(s1) is Some {
        finish_of(s1)
    } else if finish_of(s2) is Some {
        finish_of(s2)
    } else if finish_of(s3) is Some {
        finish_of(s3)
    } else if finish_of(s4) is Some {
        finish_of(s4)
    } else {
        finish_of(s5)
    }
}

/// A root resolution that is taken step by step ends within five steps,
/// and it ends as `root_outcome` says: a missing cookie is reported before
/// a malformed token, that before the user, the user before the validation,
/// the validation before the refreshed credential, and only a resolution
/// that passed them all makes a context.
pub proof fn lemma_root_resolution_order(
    a: RootAnswers,
    s1: RootResolveAction,
    s2: RootResolveAction,
    s3: RootResolveAction,
    s4: RootResolveAction,
    s5: RootResolveAction,
)
    requires
        root_steps(a, s1, s2, s3, s4, s5),
    ensures
        first_finish(s1, s2, s3, s4, s5) matches Some(r) && root_outcome(a, r),
{
}

/// What the root resolver leaves behind for a call.
#[derive(Debug)]
pub struct RootResolved {
    /// The record to attach to the call, success or failure.
    pub result: CtxExtResult,
    /// Whether the credential cookie is to be removed: a credential that is
    /// there and did not resolve must not come back with the next call.
    pub remove_cookie: bool,
}

/// Whether a record asks for the removal of the credential cookie: every
/// failure does, but the one of a cookie that is not there.
pub open spec fn stale_credential(result: CtxExtResult) -> bool {
    result is Err && !(result matches Err(CtxExtError::TokenNotInCookie))
}

/// Ends a root resolution: the record goes on to the call as it is, and the
/// credential cookie is removed where `stale_credential` says so. The call
/// itself goes on in either case.
pub fn mw_ctx_root_resolver(ctx_ext_result: CtxExtResult) -> (r: RootResolved)
    ensures
        r.result == ctx_ext_result,
        r.remove_cookie == stale_credential(ctx_ext_result),
{
    let remove_cookie = match &ctx_ext_result {
        Ok(_) => false,
        Err(CtxExtError::TokenNotInCookie) => false,
        Err(_) => true,
    };
    RootResolved { result: ctx_ext_result, remove_cookie }
}

/// Resolves the context of a call that comes from a trusted upstream
/// process, from the value of its propagation header. No identity store is
/// asked. A failure is recorded, as a missing or as a malformed header, and
/// the call goes on. A header that holds a context gives that context.
pub fn mw_ctx_leaf_resolver(header: Option<&[u8]>) -> (r: CtxExtResult)
    ensures
        match header_ctx(header_bytes(header)) {
            Ok(c) => r matches Ok(w) && w.0@ == c,
            Err(x) => r == Err::<CtxW, CtxExtError>(x),
        },
        forall|c: CtxView|
            uuids_read_back(c.links()) && #[trigger] header_holds(header_bytes(header), c)
                ==> (r matches Ok(w) && w.0@ == c),
{
    match ctx_from_req_header(header) {
        Ok(w) => Ok(w),
        Err(Error::CtxExt(e)) => Err(e),
        Err(_) => Err(CtxExtError::CtxPostAuthTokenBadFormat),
    }
}

/// The guard of the handlers that need a context: a call with a context
/// passes, a call without one ends with the failure that was recorded.
pub fn mw_ctx_require(ctx: Result<CtxW, Error>) -> (r: Result<CtxW, Error>)
    ensures
        r == ctx,
{
    ctx
}

impl CtxW {
    /// The context of a call, from what the resolver recorded for it. A
    /// call for which nothing was recorded has none.
    pub fn from_request_parts(recorded: Option<&CtxExtResult>) -> (r: Result<CtxW, Error>)
        ensures
            match recorded {
                None => r matches Err(Error::CtxExt(CtxExtError::CtxNotInRequestExt)),
                Some(Ok(w)) => r matches Ok(c) && c.0@ == w.0@,
                Some(Err(e)) => r matches Err(Error::CtxExt(x)) && x == *e,
            },
    {
        match recorded {
            None => Err(Error::CtxExt(CtxExtError::CtxNotInRequestExt)),
            Some(Ok(w)) => Ok(w.clone()),
            Some(Err(e)) => Err(Error::CtxExt(e.clone())),
        }
    }
}

} // verus!
