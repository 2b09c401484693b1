use buckshot::fragment::{fragment_access_token, fragment_is_well_formed};
use buckshot::msauth::{
    get_login_data, identity_token, minecraft_outcome_of_body, xbl_outcome_of_body, xsts_outcome_of_body, login_data_from_captures, minecraft_outcome, sign_in, sign_in_would_break,
    xbl_outcome, xsts_outcome, AuthError, XblReply, XstsReply,
};

#[test]
fn login_page_values_are_found() {
    let html = "<input type=\"hidden\" name=\"PPFT\" id=\"i0327\" value=\"DEADbeef!\"/> ... urlPost:'https://login.live.com/ppsecure/post.srf?x=1',";
    let d = get_login_data(html).ok().unwrap();
    assert_eq!(d.ppft, "DEADbeef!");
    assert_eq!(d.url_post, "https://login.live.com/ppsecure/post.srf?x=1");
}

#[test]
fn the_first_match_is_taken() {
    let html = "value=\"one\" value=\"two\" urlPost:'a' urlPost:'b'";
    let d = get_login_data(html).ok().unwrap();
    assert_eq!(d.ppft, "one");
    assert_eq!(d.url_post, "a");
}

#[test]
fn missing_login_values_are_reported() {
    assert_eq!(get_login_data("urlPost:'a'").err(), Some(AuthError::NoPpft));
    assert_eq!(get_login_data("value=\"p\"").err(), Some(AuthError::NoUrlPost));
    assert_eq!(get_login_data("value=\"\" urlPost:'a'").err(), Some(AuthError::NoPpft));
    assert_eq!(login_data_from_captures(None, Some(Some("u".to_string()))).err(), Some(AuthError::InvalidPattern));
}

#[test]
fn fragment_tokens() {
    assert_eq!(fragment_access_token("access_token=abc&token_type=bearer"), Some("abc".to_string()));
    assert_eq!(fragment_access_token("a=1&access_token=x=y&b=2"), Some("x".to_string()));
    assert_eq!(fragment_access_token("access_token=first&access_token=second"), Some("second".to_string()));
    assert_eq!(fragment_access_token("token_type=bearer&expires_in=86400"), None);
    assert_eq!(fragment_access_token("access_token="), Some(String::new()));
    assert!(fragment_is_well_formed("a=1&b=2"));
    assert!(!fragment_is_well_formed("a=1&b"));
    assert!(!fragment_is_well_formed(""));
    assert!(!fragment_is_well_formed("a=1&"));
}

#[test]
fn login_form_replies() {
    let post = "https://login.live.com/ppsecure/post.srf";
    let done = "https://login.live.com/oauth20_desktop.srf#access_token=EwA&token_type=bearer";
    assert_eq!(
        sign_in(200, done, post, Some("access_token=EwA&token_type=bearer"), "ok").ok(),
        Some("EwA".to_string())
    );
    assert_eq!(sign_in(500, done, post, None, "").err(), Some(AuthError::Http(500)));
    assert_eq!(sign_in(200, post, post, None, "Sign in to your account").err(), Some(AuthError::IncorrectCredentials));
    assert_eq!(
        sign_in(200, post, post, None, "2FA is enabled but not supported yet!").err(),
        Some(AuthError::TwoFactorEnabled)
    );
    assert_eq!(sign_in(200, post, post, None, "something else").err(), Some(AuthError::NoFragment));
    assert_eq!(sign_in(200, done, post, Some("token_type=bearer"), "").err(), Some(AuthError::NoAccessToken));
    // the reply text only matters while the browser stays on the form
    assert_eq!(sign_in(200, done, post, None, "Sign in to").err(), Some(AuthError::NoFragment));
    assert!(sign_in_would_break(200, done, post, Some("access_token"), ""));
    assert!(!sign_in_would_break(403, done, post, Some("access_token"), ""));
    assert!(!sign_in_would_break(200, post, post, Some("access_token"), "Sign in to"));
}

#[test]
fn xbox_live_reply() {
    let ok = xbl_outcome(200, Some(XblReply { token: Some("t".to_string()), userhash: Some("u".to_string()) }));
    let d = ok.ok().unwrap();
    assert_eq!((d.token.as_str(), d.userhash.as_str()), ("t", "u"));
    assert_eq!(xbl_outcome(400, None).err(), Some(AuthError::Http(400)));
    assert_eq!(xbl_outcome(200, None).err(), Some(AuthError::Parse));
    assert_eq!(
        xbl_outcome(200, Some(XblReply { token: None, userhash: Some("u".to_string()) })).err(),
        Some(AuthError::NoToken)
    );
    assert_eq!(
        xbl_outcome(200, Some(XblReply { token: Some("t".to_string()), userhash: None })).err(),
        Some(AuthError::NoUserHash)
    );
}

#[test]
fn xsts_reply() {
    let reply = |xerr: Option<u64>, token: Option<&str>| Some(XstsReply { xerr, token: token.map(|t| t.to_string()) });
    assert_eq!(xsts_outcome(200, reply(None, Some("x"))), Ok("x".to_string()));
    assert_eq!(xsts_outcome(200, reply(None, None)), Err(AuthError::NoToken));
    assert_eq!(xsts_outcome(401, reply(Some(2_148_916_233), None)), Err(AuthError::NoXboxAccount));
    assert_eq!(xsts_outcome(401, reply(Some(2_148_916_238), None)), Err(AuthError::ChildAccount));
    assert_eq!(xsts_outcome(401, reply(Some(1), None)), Err(AuthError::XstsRefused));
    assert_eq!(xsts_outcome(401, reply(None, None)), Err(AuthError::NoXErr));
    assert_eq!(xsts_outcome(503, reply(None, Some("x"))), Err(AuthError::Http(503)));
    assert_eq!(xsts_outcome(503, None), Err(AuthError::Parse));
}

#[test]
fn minecraft_sign_in() {
    assert_eq!(identity_token("1234", "eyJ"), "XBL3.0 x=1234;eyJ");
    assert_eq!(minecraft_outcome(200, Some(Some("b".to_string()))), Ok("b".to_string()));
    assert_eq!(minecraft_outcome(200, Some(None)), Err(AuthError::NoAccessToken));
    assert_eq!(minecraft_outcome(200, None), Err(AuthError::Parse));
    assert_eq!(minecraft_outcome(401, None), Err(AuthError::Http(401)));
}

#[test]
fn reply_bodies_are_read() {
    let xbl = r#"{"Token":"tk","DisplayClaims":{"xui":[{"uhs":"42"}]}}"#;
    let d = xbl_outcome_of_body(200, xbl).ok().unwrap();
    assert_eq!((d.token.as_str(), d.userhash.as_str()), ("tk", "42"));
    assert_eq!(xbl_outcome_of_body(200, r#"{"Token":"tk"}"#).err(), Some(AuthError::NoUserHash));
    assert_eq!(xbl_outcome_of_body(200, r#"{"Token":5}"#).err(), Some(AuthError::NoToken));
    assert_eq!(xbl_outcome_of_body(200, "not json").err(), Some(AuthError::Parse));
    assert_eq!(xbl_outcome_of_body(400, xbl).err(), Some(AuthError::Http(400)));

    assert_eq!(xsts_outcome_of_body(200, r#"{"Token":"xs"}"#), Ok("xs".to_string()));
    assert_eq!(xsts_outcome_of_body(401, r#"{"XErr":2148916233}"#), Err(AuthError::NoXboxAccount));
    assert_eq!(xsts_outcome_of_body(401, r#"{"XErr":2148916238}"#), Err(AuthError::ChildAccount));
    assert_eq!(xsts_outcome_of_body(401, r#"{"XErr":"x"}"#), Err(AuthError::NoXErr));
    assert_eq!(xsts_outcome_of_body(401, "<html>"), Err(AuthError::Parse));
    assert_eq!(xsts_outcome_of_body(500, "{}"), Err(AuthError::Http(500)));

    assert_eq!(minecraft_outcome_of_body(200, r#"{"access_token":"mc"}"#), Ok("mc".to_string()));
    assert_eq!(minecraft_outcome_of_body(200, "{}"), Err(AuthError::NoAccessToken));
    assert_eq!(minecraft_outcome_of_body(200, "["), Err(AuthError::Parse));
    assert_eq!(minecraft_outcome_of_body(403, "{}"), Err(AuthError::Http(403)));
}
