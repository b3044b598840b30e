use rpc_dispatch::ctx::Ctx;
use rpc_dispatch::error::Error;
use rpc_dispatch::resolver::{
    ctx_root_resolve, mw_ctx_leaf_resolver, mw_ctx_require, mw_ctx_root_resolver, CtxExtError,
    CtxExtResult, CtxW, RootResolveAction, RootResolveEvent, UserForAuth,
};
use rpc_dispatch::response::response_map;

fn user(id: i64) -> UserForAuth {
    UserForAuth { id, username: "demo1".to_string(), token_salt: 77 }
}

fn finished(action: RootResolveAction) -> CtxExtResult {
    match action {
        RootResolveAction::Finish { result } => result,
        other => panic!("{other:?}"),
    }
}

#[test]
fn missing_cookie_ends_the_resolution_and_the_call_goes_on() {
    let result = finished(ctx_root_resolve(RootResolveEvent::Cookie { token: None }));
    assert!(matches!(result, Err(CtxExtError::TokenNotInCookie)));

    let resolved = mw_ctx_root_resolver(result);
    assert!(!resolved.remove_cookie);
    assert!(matches!(resolved.result, Err(CtxExtError::TokenNotInCookie)));

    let ctx = CtxW::from_request_parts(Some(&resolved.result));
    assert!(matches!(ctx, Err(Error::CtxExt(CtxExtError::TokenNotInCookie))));
    let refused = mw_ctx_require(ctx).unwrap_err();
    assert!(matches!(refused, Error::CtxExt(CtxExtError::TokenNotInCookie)));

    let response = response_map(Err(refused), None);
    assert_eq!(
        serde_json::to_string(&response.body).unwrap(),
        r#"{"jsonrpc":"2.0","id":null,"error":{"code":"NO_AUTH","message":"CtxExt(TokenNotInCookie)"}}"#
    );
}

#[test]
fn resolution_runs_through_its_steps_in_order() {
    match ctx_root_resolve(RootResolveEvent::Cookie { token: Some("demo1.exp.sign".to_string()) }) {
        RootResolveAction::ParseToken { token } => assert_eq!(token, "demo1.exp.sign"),
        other => panic!("{other:?}"),
    }
    match ctx_root_resolve(RootResolveEvent::TokenParsed { ident: Some("demo1".to_string()) }) {
        RootResolveAction::FindUser { ident } => assert_eq!(ident, "demo1"),
        other => panic!("{other:?}"),
    }
    match ctx_root_resolve(RootResolveEvent::UserLooked { found: Ok(Some(user(1000))) }) {
        RootResolveAction::ValidateToken { user } => {
            assert_eq!((user.id, user.username.as_str(), user.token_salt), (1000, "demo1", 77));
        }
        other => panic!("{other:?}"),
    }
    match ctx_root_resolve(RootResolveEvent::TokenValidated { user: user(1000), valid: true }) {
        RootResolveAction::WriteCookie { user } => {
            assert_eq!((user.id, user.username.as_str(), user.token_salt), (1000, "demo1", 77));
        }
        other => panic!("{other:?}"),
    }
    let result =
        finished(ctx_root_resolve(RootResolveEvent::CookieWritten { user: user(1000), written: true }));
    let ctx = result.unwrap().0;
    assert_eq!(ctx.user_id(), 1000);
    assert_eq!(ctx.conv_id(), None);
    assert!(ctx.req_chain().is_none());
}

#[test]
fn each_step_fails_with_its_own_kind() {
    let result = finished(ctx_root_resolve(RootResolveEvent::TokenParsed { ident: None }));
    assert!(matches!(result, Err(CtxExtError::TokenWrongFormat)));

    let result = finished(ctx_root_resolve(RootResolveEvent::UserLooked { found: Ok(None) }));
    assert!(matches!(result, Err(CtxExtError::UserNotFound)));

    let result =
        finished(ctx_root_resolve(RootResolveEvent::UserLooked { found: Err("db down".to_string()) }));
    assert!(matches!(&result, Err(CtxExtError::ModelAccessError(m)) if m == "db down"));

    let result =
        finished(ctx_root_resolve(RootResolveEvent::TokenValidated { user: user(1), valid: false }));
    assert!(matches!(result, Err(CtxExtError::FailValidate)));

    let result =
        finished(ctx_root_resolve(RootResolveEvent::CookieWritten { user: user(1), written: false }));
    assert!(matches!(result, Err(CtxExtError::CannotSetTokenCookie)));

    let result =
        finished(ctx_root_resolve(RootResolveEvent::CookieWritten { user: user(0), written: true }));
    assert!(matches!(&result, Err(CtxExtError::CtxCreateFail(m)) if m == "CtxCannotNewRootCtx"));
}

fn run(
    token: Option<&str>,
    ident: Option<&str>,
    found: Result<Option<i64>, &str>,
    valid: bool,
    written: bool,
) -> CtxExtResult {
    let mut action = ctx_root_resolve(RootResolveEvent::Cookie { token: token.map(str::to_string) });
    for _ in 0..5 {
        let event = match action {
            RootResolveAction::ParseToken { .. } => {
                RootResolveEvent::TokenParsed { ident: ident.map(str::to_string) }
            }
            RootResolveAction::FindUser { .. } => RootResolveEvent::UserLooked {
                found: found.map(|u| u.map(user)).map_err(str::to_string),
            },
            RootResolveAction::ValidateToken { user } => RootResolveEvent::TokenValidated { user, valid },
            RootResolveAction::WriteCookie { user } => RootResolveEvent::CookieWritten { user, written },
            RootResolveAction::Finish { result } => return result,
        };
        action = ctx_root_resolve(event);
    }
    panic!("the resolution did not end");
}

#[test]
fn first_failure_in_the_order_of_the_steps_is_the_one_recorded() {
    assert!(matches!(run(None, None, Ok(None), false, false), Err(CtxExtError::TokenNotInCookie)));
    assert!(matches!(run(Some("t"), None, Ok(None), false, false), Err(CtxExtError::TokenWrongFormat)));
    assert!(matches!(run(Some("t"), Some("i"), Ok(None), false, false), Err(CtxExtError::UserNotFound)));
    assert!(matches!(
        run(Some("t"), Some("i"), Err("down"), false, false),
        Err(CtxExtError::ModelAccessError(m)) if m == "down"
    ));
    assert!(matches!(run(Some("t"), Some("i"), Ok(Some(5)), false, false), Err(CtxExtError::FailValidate)));
    assert!(matches!(
        run(Some("t"), Some("i"), Ok(Some(5)), true, false),
        Err(CtxExtError::CannotSetTokenCookie)
    ));
    assert!(matches!(run(Some("t"), Some("i"), Ok(Some(0)), true, true), Err(CtxExtError::CtxCreateFail(_))));
    assert_eq!(run(Some("t"), Some("i"), Ok(Some(5)), true, true).unwrap().0.user_id(), 5);
}

#[test]
fn stale_credential_is_removed_for_every_failure_but_a_missing_cookie() {
    for error in [
        CtxExtError::TokenWrongFormat,
        CtxExtError::UserNotFound,
        CtxExtError::ModelAccessError("m".to_string()),
        CtxExtError::FailValidate,
        CtxExtError::CannotSetTokenCookie,
        CtxExtError::CtxNotInRequestExt,
        CtxExtError::CtxPostAuthTokenNotInReqHeader,
        CtxExtError::CtxPostAuthTokenBadFormat,
        CtxExtError::CtxCreateFail("m".to_string()),
    ] {
        let words = error.message();
        let resolved = mw_ctx_root_resolver(Err(error));
        assert!(resolved.remove_cookie, "{words}");
        assert_eq!(resolved.result.unwrap_err().message(), words);
    }
    assert!(!mw_ctx_root_resolver(Err(CtxExtError::TokenNotInCookie)).remove_cookie);
    let resolved = mw_ctx_root_resolver(Ok(CtxW(Ctx::new(3).unwrap())));
    assert!(!resolved.remove_cookie);
    assert_eq!(resolved.result.unwrap().0.user_id(), 3);
}

#[test]
fn leaf_resolver_reads_the_header() {
    let ctx = mw_ctx_leaf_resolver(Some(br#"{"user_id":1001,"conv_id":null,"req_chain":null}"#)).unwrap();
    assert_eq!(ctx.0.user_id(), 1001);
}

#[test]
fn leaf_resolver_records_a_missing_or_a_malformed_header() {
    assert!(matches!(mw_ctx_leaf_resolver(None), Err(CtxExtError::CtxPostAuthTokenNotInReqHeader)));
    assert!(matches!(mw_ctx_leaf_resolver(Some(&[0x00])), Err(CtxExtError::CtxPostAuthTokenBadFormat)));
    assert!(matches!(mw_ctx_leaf_resolver(Some(b"{}")), Err(CtxExtError::CtxPostAuthTokenBadFormat)));
    assert!(matches!(mw_ctx_leaf_resolver(Some(b"")), Err(CtxExtError::CtxPostAuthTokenBadFormat)));
}

#[test]
fn leaf_failure_reaches_the_guard_as_it_was_recorded() {
    let recorded = mw_ctx_leaf_resolver(None);
    let ctx = CtxW::from_request_parts(Some(&recorded));
    assert!(matches!(
        mw_ctx_require(ctx),
        Err(Error::CtxExt(CtxExtError::CtxPostAuthTokenNotInReqHeader))
    ));
}

#[test]
fn context_comes_from_what_was_recorded() {
    assert!(matches!(
        CtxW::from_request_parts(None),
        Err(Error::CtxExt(CtxExtError::CtxNotInRequestExt))
    ));
    let recorded: CtxExtResult = Ok(CtxW(Ctx::new(8).unwrap().add_conv_id(2)));
    let ctx = CtxW::from_request_parts(Some(&recorded)).unwrap();
    assert_eq!(ctx.0.user_id(), 8);
    assert_eq!(ctx.0.conv_id(), Some(2));
    let recorded: CtxExtResult = Err(CtxExtError::ModelAccessError("m".to_string()));
    assert!(matches!(
        CtxW::from_request_parts(Some(&recorded)),
        Err(Error::CtxExt(CtxExtError::ModelAccessError(m))) if m == "m"
    ));
}

#[test]
fn required_context_lets_a_resolved_call_pass() {
    let ctx = mw_ctx_require(Ok(CtxW(Ctx::new(8).unwrap()))).unwrap();
    assert_eq!(ctx.0.user_id(), 8);
    assert!(matches!(mw_ctx_require(Err(Error::SerdeJson)), Err(Error::SerdeJson)));
}

#[test]
fn copies_are_equal_to_what_they_were_taken_from() {
    let w = CtxW(Ctx::new(8).unwrap().add_conv_id(1));
    let c = w.clone();
    assert_eq!((c.0.user_id(), c.0.conv_id()), (8, Some(1)));
    let e = CtxExtError::CtxCreateFail("x".to_string());
    assert_eq!(e.clone().message(), "CtxCreateFail(x)");
}

#[test]
fn failures_have_words() {
    assert_eq!(CtxExtError::TokenNotInCookie.message(), "TokenNotInCookie");
    assert_eq!(CtxExtError::TokenWrongFormat.message(), "TokenWrongFormat");
    assert_eq!(CtxExtError::UserNotFound.message(), "UserNotFound");
    assert_eq!(CtxExtError::ModelAccessError("db".to_string()).message(), "ModelAccessError(db)");
    assert_eq!(CtxExtError::FailValidate.message(), "FailValidate");
    assert_eq!(CtxExtError::CannotSetTokenCookie.message(), "CannotSetTokenCookie");
    assert_eq!(CtxExtError::CtxNotInRequestExt.message(), "CtxNotInRequestExt");
    assert_eq!(CtxExtError::CtxPostAuthTokenNotInReqHeader.message(), "CtxPostAuthTokenNotInReqHeader");
    assert_eq!(CtxExtError::CtxPostAuthTokenBadFormat.message(), "CtxPostAuthTokenBadFormat");
    assert_eq!(CtxExtError::CtxCreateFail("c".to_string()).message(), "CtxCreateFail(c)");
    assert_eq!(rpc_dispatch::ctx::Error::CtxCannotNewRootCtx.message(), "CtxCannotNewRootCtx");
}
