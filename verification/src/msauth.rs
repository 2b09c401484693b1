use vstd::prelude::*;
use crate::fragment::{fragment_access_token, fragment_token, fragment_wf};
use crate::sockets::{json_string, json_string_of};
use crate::text::{chars_of, contains, same_chars, seq_contains};

verus! {

/// The pattern that finds the PPFT value in the login page.
pub const PPFT_PATTERN: &'static str = "value=\"(.+?)\"";

/// The pattern that finds the address the login form posts to.
pub const URL_POST_PATTERN: &'static str = "urlPost:'(.+?)'";

/// XErr code of an account without an Xbox profile.
pub const XERR_NO_XBOX_ACCOUNT: u64 = 2148916233;

/// XErr code of a child account outside a family.
pub const XERR_CHILD_ACCOUNT: u64 = 2148916238;

/// Why signing in to a Microsoft account failed.
#[derive(Clone, Copy, Debug, PartialEq, Eq, Structural)]
pub enum AuthError {
    /// A search pattern of the library did not compile.
    InvalidPattern,
    /// "Unable to capture PPFT from regex"
    NoPpft,
    /// "Unable to capture POST URL from regex"
    NoUrlPost,
    /// "HTTP {status}"
    Http(u16),
    /// "Incorrect credentials"
    IncorrectCredentials,
    /// "Please disable 2FA at https://account.live.com/activity"
    TwoFactorEnabled,
    /// "Unable to parse params from URL"
    NoFragment,
    /// "Unable to parse `access_token` from JSON"
    NoAccessToken,
    /// The reply was not JSON.
    Parse,
    /// "Unable to parse `Token` from JSON"
    NoToken,
    /// "Unable to parse `DisplayClaims`, `xui`, or `uhs` from index 0 of JSON array"
    NoUserHash,
    /// "Unable to parse `XErr` from JSON"
    NoXErr,
    /// "This account doesn't have an Xbox account"
    NoXboxAccount,
    /// "The account is a child (under 18) and cannot proceed unless the account is added to a family by an adult"
    ChildAccount,
    /// "Something went wrong."
    XstsRefused,
}

/// What the login page holds for signing in.
pub struct LoginData {
    pub ppft: String,
    pub url_post: String,
}

/// What Xbox Live answers.
pub struct XBLData {
    pub token: String,
    pub userhash: String,
}

/// The fields read from an Xbox Live reply: `Token` and
/// `DisplayClaims.xui[0].uhs`, each where it is a string.
pub struct XblReply {
    pub token: Option<String>,
    pub userhash: Option<String>,
}

/// The fields read from an XSTS reply: `XErr` where it is an unsigned
/// number, and `Token` where it is a string.
pub struct XstsReply {
    pub xerr: Option<u64>,
    pub token: Option<String>,
}

/// What the `regex` crate finds in `text` for `pattern`: `None` when the
/// pattern does not compile, `Some(None)` when it has no match (or the match
/// has no first group), and `Some(Some(g))` with the text of the first group
/// of the leftmost match otherwise.
pub uninterp spec fn regex_first_capture(pattern: Seq<char>, text: Seq<char>) -> Option<
    Option<Seq<char>>,
>;

/// `regex::Regex::new(pattern)`, then `Regex::captures(text)` and the text of
/// its group 1. What is found is left to the name `regex_first_capture`.
#[verifier::external_body]
fn first_capture(pattern: &str, text: &str) -> (r: Option<Option<String>>)
    ensures
        r is None <==> regex_first_capture(pattern@, text@) is None,
        r matches Some(o) ==> (o is None <==> regex_first_capture(pattern@, text@)->0 is None),
        r matches Some(Some(g)) ==> regex_first_capture(pattern@, text@) == Some(Some(g@)),
{
    regex::Regex::new(pattern).ok().map(
        |re| re.captures(text).and_then(|c| c.get(1)).map(|m| m.as_str().to_string()),
    )
}

/// A search result, with the text found taken by its characters.
pub open spec fn nested_view(o: Option<Option<String>>) -> Option<Option<Seq<char>>> {
    match o {
        None => None,
        Some(None) => Some(None),
        Some(Some(s)) => Some(Some(s@)),
    }
}

/// What a search result gives: the text found, or the error to report.
pub open spec fn capture_result(c: Option<Option<Seq<char>>>, missing: AuthError) -> Result<
    Seq<char>,
    AuthError,
> {
    match c {
        None => Err(AuthError::InvalidPattern),
        Some(None) => Err(missing),
        Some(Some(g)) => Ok(g),
    }
}

/// The login data that the two searches give: the PPFT value first, then the
/// address to post to.
pub open spec fn login_result(
    ppft: Option<Option<Seq<char>>>,
    url_post: Option<Option<Seq<char>>>,
) -> Result<(Seq<char>, Seq<char>), AuthError> {
    match capture_result(ppft, AuthError::NoPpft) {
        Err(e) => Err(e),
        Ok(p) => match capture_result(url_post, AuthError::NoUrlPost) {
            Err(e) => Err(e),
            Ok(u) => Ok((p, u)),
        },
    }
}

/// The login data from the results of the two searches of the login page.
pub fn login_data_from_captures(ppft: Option<Option<String>>, url_post: Option<Option<String>>) -> (r:
    Result<LoginData, AuthError>)
    ensures
        r matches Ok(d) ==> login_result(nested_view(ppft), nested_view(url_post)) == Ok::<
            (Seq<char>, Seq<char>),
            AuthError,
        >((d.ppft@, d.url_post@)),
        r matches Err(e) ==> login_result(nested_view(ppft), nested_view(url_post)) == Err::<
            (Seq<char>, Seq<char>),
            AuthError,
        >(e),
{
    let p = match ppft {
        None => {
            return Err(AuthError::InvalidPattern);
        },
        Some(None) => {
            return Err(AuthError::NoPpft);
        },
        Some(Some(p)) => p,
    };
    let u = match url_post {
        None => {
            return Err(AuthError::InvalidPattern);
        },
        Some(None) => {
            return Err(AuthError::NoUrlPost);
        },
        Some(Some(u)) => u,
    };
    Ok(LoginData { ppft: p, url_post: u })
}


/// Reads the PPFT value and the address to post the login form to out of
/// the login page.
pub fn get_login_data(html: &str) -> (r: Result<LoginData, AuthError>)
    ensures
        r matches Ok(d) ==> login_result(
            regex_first_capture(PPFT_PATTERN@, html@),
            regex_first_capture(URL_POST_PATTERN@, html@),
        ) == Ok::<(Seq<char>, Seq<char>), AuthError>((d.ppft@, d.url_post@)),
        r matches Err(e) ==> login_result(
            regex_first_capture(PPFT_PATTERN@, html@),
            regex_first_capture(URL_POST_PATTERN@, html@),
        ) == Err::<(Seq<char>, Seq<char>), AuthError>(e),
{
    let ppft = first_capture(PPFT_PATTERN, html);
    let url_post = first_capture(URL_POST_PATTERN, html);
    login_data_from_captures(ppft, url_post)
}

/// The sign-in reply names a known failure: the browser stayed on the
/// login form's address with no token in it.
pub open spec fn stayed_on_form(url: Seq<char>, url_post: Seq<char>) -> bool {
    !seq_contains(url, "access_token"@) && url == url_post
}

/// How the reply to the login form ends: with the access token taken from
/// the fragment of the address the browser ended on, or with an error.
pub open spec fn sign_in_result(
    status: u16,
    url: Seq<char>,
    url_post: Seq<char>,
    fragment: Option<Seq<char>>,
    text: Seq<char>,
) -> Result<Seq<char>, AuthError> {
    if status != 200 {
        Err(AuthError::Http(status))
    } else if stayed_on_form(url, url_post) && seq_contains(text, "Sign in to"@) {
        Err(AuthError::IncorrectCredentials)
    } else if stayed_on_form(url, url_post) && seq_contains(
        text,
        "2FA is enabled but not supported yet!"@,
    ) {
        Err(AuthError::TwoFactorEnabled)
    } else {
        match fragment {
            None => Err(AuthError::NoFragment),
            Some(f) => match fragment_token(f) {
                Some(t) => Ok(t),
                None => Err(AuthError::NoAccessToken),
            },
        }
    }
}

/// The sign-in reaches the reading of the fragment, and the fragment has a
/// part without `=`, which cannot be split into a key and a value.
pub open spec fn sign_in_breaks(
    status: u16,
    url: Seq<char>,
    url_post: Seq<char>,
    fragment: Option<Seq<char>>,
    text: Seq<char>,
) -> bool {
    &&& status == 200
    &&& !(stayed_on_form(url, url_post) && seq_contains(text, "Sign in to"@))
    &&& !(stayed_on_form(url, url_post) && seq_contains(text, "2FA is enabled but not supported yet!"@))
    &&& fragment matches Some(f) && !fragment_wf(f)
}

fn stays_on_form(url: &str, url_post: &str) -> (r: bool)
    ensures
        r == stayed_on_form(url@, url_post@),
{
    !contains(url, "access_token") && same_chars(&chars_of(url), &chars_of(url_post))
}

/// Whether [`sign_in`] cannot take these replies (see [`sign_in_breaks`]).
pub fn sign_in_would_break(
    status: u16,
    url: &str,
    url_post: &str,
    fragment: Option<&str>,
    text: &str,
) -> (r: bool)
    ensures
        r == sign_in_breaks(status, url@, url_post@, opt_str_view(fragment), text@),
{
    if status != 200 {
        return false;
    }
    let on_form = stays_on_form(url, url_post);
    if on_form && contains(text, "Sign in to") {
        return false;
    }
    if on_form && contains(text, "2FA is enabled but not supported yet!") {
        return false;
    }
    match fragment {
        None => false,
        Some(f) => !crate::fragment::fragment_is_well_formed(f),
    }
}

/// An optional string slice taken by its characters.
pub open spec fn opt_str_view(o: Option<&str>) -> Option<Seq<char>> {
    match o {
        None => None,
        Some(s) => Some(s@),
    }
}

/// The outcome of posting the login form: `status` is the reply's status,
/// `url` the address the browser ended on, `fragment` the part of it after
/// `#`, and `text` the reply's body.
pub fn sign_in(status: u16, url: &str, url_post: &str, fragment: Option<&str>, text: &str) -> (r:
    Result<String, AuthError>)
    requires
        !sign_in_breaks(status, url@, url_post@, opt_str_view(fragment), text@),
    ensures
        r matches Ok(t) ==> sign_in_result(status, url@, url_post@, opt_str_view(fragment), text@)
            == Ok::<Seq<char>, AuthError>(t@),
        r matches Err(e) ==> sign_in_result(status, url@, url_post@, opt_str_view(fragment), text@)
            == Err::<Seq<char>, AuthError>(e),
{
    if status != 200 {
        return Err(AuthError::Http(status));
    }
    let on_form = stays_on_form(url, url_post);
    if on_form {
        if contains(text, "Sign in to") {
            return Err(AuthError::IncorrectCredentials);
        }
        if contains(text, "2FA is enabled but not supported yet!") {
            return Err(AuthError::TwoFactorEnabled);
        }
    }
    match fragment {
        None => Err(AuthError::NoFragment),
        Some(f) => match fragment_access_token(f) {
            Some(t) => Ok(t),
            None => Err(AuthError::NoAccessToken),
        },
    }
}


/// The Xbox Live token and user hash out of the reply to the Xbox Live
/// sign-in; `reply` is `None` when the body is not JSON.
pub fn xbl_outcome(status: u16, reply: Option<XblReply>) -> (r: Result<XBLData, AuthError>)
    ensures
        status != 200 ==> r == Err::<XBLData, AuthError>(AuthError::Http(status)),
        status == 200 ==> match reply {
            None => r == Err::<XBLData, AuthError>(AuthError::Parse),
            Some(x) => match (x.token, x.userhash) {
                (None, _) => r == Err::<XBLData, AuthError>(AuthError::NoToken),
                (Some(_), None) => r == Err::<XBLData, AuthError>(AuthError::NoUserHash),
                (Some(t), Some(u)) => r matches Ok(d) && d.token == t && d.userhash == u,
            },
        },
{
    if status != 200 {
        return Err(AuthError::Http(status));
    }
    match reply {
        None => Err(AuthError::Parse),
        Some(x) => match x.token {
            None => Err(AuthError::NoToken),
            Some(token) => match x.userhash {
                None => Err(AuthError::NoUserHash),
                Some(userhash) => Ok(XBLData { token, userhash }),
            },
        },
    }
}

/// The XSTS token out of the reply to the XSTS authorisation; `reply` is
/// `None` when the body is not JSON (which is checked before the status).
pub fn xsts_outcome(status: u16, reply: Option<XstsReply>) -> (r: Result<String, AuthError>)
    ensures
        reply is None ==> r == Err::<String, AuthError>(AuthError::Parse),
        reply matches Some(x) ==> {
            if status == 401 {
                match x.xerr {
                    None => r == Err::<String, AuthError>(AuthError::NoXErr),
                    Some(code) => {
                        if code == XERR_NO_XBOX_ACCOUNT {
                            r == Err::<String, AuthError>(AuthError::NoXboxAccount)
                        } else if code == XERR_CHILD_ACCOUNT {
                            r == Err::<String, AuthError>(AuthError::ChildAccount)
                        } else {
                            r == Err::<String, AuthError>(AuthError::XstsRefused)
                        }
                    },
                }
            } else if status == 200 {
                match x.token {
                    None => r == Err::<String, AuthError>(AuthError::NoToken),
                    Some(t) => r == Ok::<String, AuthError>(t),
                }
            } else {
                r == Err::<String, AuthError>(AuthError::Http(status))
            }
        },
{
    let x = match reply {
        None => {
            return Err(AuthError::Parse);
        },
        Some(x) => x,
    };
    if status == 401 {
        match x.xerr {
            None => Err(AuthError::NoXErr),
            Some(code) => {
                if code == XERR_NO_XBOX_ACCOUNT {
                    Err(AuthError::NoXboxAccount)
                } else if code == XERR_CHILD_ACCOUNT {
                    Err(AuthError::ChildAccount)
                } else {
                    Err(AuthError::XstsRefused)
                }
            },
        }
    } else if status == 200 {
        match x.token {
            None => Err(AuthError::NoToken),
            Some(t) => Ok(t),
        }
    } else {
        Err(AuthError::Http(status))
    }
}

/// The identity token that signs in to Minecraft with Xbox Live:
/// `XBL3.0 x=<user hash>;<XSTS token>`.
pub fn identity_token(userhash: &str, xsts_token: &str) -> (r: String)
    ensures
        r@ == "XBL3.0 x="@ + userhash@ + ";"@ + xsts_token@,
{
    let mut r = String::from_str("XBL3.0 x=");
    r.append(userhash);
    r.append(";");
    r.append(xsts_token);
    r
}

/// The Minecraft bearer token out of the reply to the Xbox sign-in;
/// `reply` is `None` when the body is not JSON, and holds the
/// `access_token` field where it is a string.
pub fn minecraft_outcome(status: u16, reply: Option<Option<String>>) -> (r: Result<String, AuthError>)
    ensures
        status != 200 ==> r == Err::<String, AuthError>(AuthError::Http(status)),
        status == 200 ==> match reply {
            None => r == Err::<String, AuthError>(AuthError::Parse),
            Some(None) => r == Err::<String, AuthError>(AuthError::NoAccessToken),
            Some(Some(t)) => r == Ok::<String, AuthError>(t),
        },
{
    if status != 200 {
        return Err(AuthError::Http(status));
    }
    match reply {
        None => Err(AuthError::Parse),
        Some(None) => Err(AuthError::NoAccessToken),
        Some(Some(t)) => Ok(t),
    }
}


/// An optional string taken by its characters.
pub open spec fn opt_string_view(o: Option<String>) -> Option<Seq<char>> {
    match o {
        None => None,
        Some(s) => Some(s@),
    }
}

/// What an Xbox Live reply body holds: `None` when it is not JSON, else its
/// `Token` and its `DisplayClaims.xui[0].uhs`, each where it is a string.
pub uninterp spec fn xbl_fields(body: Seq<char>) -> Option<(Option<Seq<char>>, Option<Seq<char>>)>;

/// What an XSTS reply body holds: `None` when it is not JSON, else its
/// `XErr` where it is an unsigned number and its `Token` where it is a string.
pub uninterp spec fn xsts_fields(body: Seq<char>) -> Option<(Option<u64>, Option<Seq<char>>)>;

/// What a Minecraft sign-in reply body holds: `None` when it is not JSON,
/// else its `access_token` where it is a string.
pub uninterp spec fn minecraft_token(body: Seq<char>) -> Option<Option<Seq<char>>>;

/// `serde_json::from_str::<serde_json::Value>` on an Xbox Live reply, then
/// the string fields `Token` and `DisplayClaims.xui[0].uhs` picked out of
/// the value. What it finds is left to the name `xbl_fields`.
#[verifier::external_body]
fn read_xbl_reply(body: &str) -> (r: Option<XblReply>)
    ensures
        r is None <==> xbl_fields(body@) is None,
        r matches Some(x) ==> xbl_fields(body@) == Some((opt_string_view(x.token), opt_string_view(x.userhash))),
{
    match serde_json::from_str::<serde_json::Value>(body) {
        Ok(v) => Some(XblReply {
            token: v["Token"].as_str().map(str::to_string),
            userhash: v["DisplayClaims"]["xui"][0]["uhs"].as_str().map(str::to_string),
        }),
        Err(_) => None,
    }
}

/// `serde_json::from_str::<serde_json::Value>` on an XSTS reply, then the
/// fields `XErr` (as an unsigned number) and `Token` (as a string) picked
/// out of the value. What it finds is left to the name `xsts_fields`.
#[verifier::external_body]
fn read_xsts_reply(body: &str) -> (r: Option<XstsReply>)
    ensures
        r is None <==> xsts_fields(body@) is None,
        r matches Some(x) ==> xsts_fields(body@) == Some((x.xerr, opt_string_view(x.token))),
{
    match serde_json::from_str::<serde_json::Value>(body) {
        Ok(v) => Some(XstsReply { xerr: v["XErr"].as_u64(), token: v["Token"].as_str().map(str::to_string) }),
        Err(_) => None,
    }
}

/// `serde_json::from_str::<serde_json::Value>` on a Minecraft sign-in reply,
/// then the string field `access_token` picked out of the value. What it
/// finds is left to the name `minecraft_token`.
#[verifier::external_body]
fn read_minecraft_reply(body: &str) -> (r: Option<Option<String>>)
    ensures
        r is None <==> minecraft_token(body@) is None,
        r matches Some(t) ==> minecraft_token(body@) == Some(opt_string_view(t)),
{
    match serde_json::from_str::<serde_json::Value>(body) {
        Ok(v) => Some(v["access_token"].as_str().map(str::to_string)),
        Err(_) => None,
    }
}

/// How an Xbox Live sign-in ends, from the reply's status and what its body
/// holds: the token and the user hash, or an error.
pub open spec fn xbl_result(
    status: u16,
    fields: Option<(Option<Seq<char>>, Option<Seq<char>>)>,
) -> Result<(Seq<char>, Seq<char>), AuthError> {
    if status != 200 {
        Err(AuthError::Http(status))
    } else {
        match fields {
            None => Err(AuthError::Parse),
            Some((None, _)) => Err(AuthError::NoToken),
            Some((Some(_), None)) => Err(AuthError::NoUserHash),
            Some((Some(t), Some(u))) => Ok((t, u)),
        }
    }
}

/// How an XSTS authorisation ends, from the reply's status and what its
/// body holds (the body is read before the status is looked at).
pub open spec fn xsts_result(status: u16, fields: Option<(Option<u64>, Option<Seq<char>>)>) -> Result<
    Seq<char>,
    AuthError,
> {
    match fields {
        None => Err(AuthError::Parse),
        Some((xerr, token)) => if status == 401 {
            match xerr {
                None => Err(AuthError::NoXErr),
                Some(code) => if code == XERR_NO_XBOX_ACCOUNT {
                    Err(AuthError::NoXboxAccount)
                } else if code == XERR_CHILD_ACCOUNT {
                    Err(AuthError::ChildAccount)
                } else {
                    Err(AuthError::XstsRefused)
                },
            }
        } else if status == 200 {
            match token {
                None => Err(AuthError::NoToken),
                Some(t) => Ok(t),
            }
        } else {
            Err(AuthError::Http(status))
        },
    }
}

/// How the Minecraft sign-in ends, from the reply's status and what its
/// body holds.
pub open spec fn minecraft_result(status: u16, token: Option<Option<Seq<char>>>) -> Result<
    Seq<char>,
    AuthError,
> {
    if status != 200 {
        Err(AuthError::Http(status))
    } else {
        match token {
            None => Err(AuthError::Parse),
            Some(None) => Err(AuthError::NoAccessToken),
            Some(Some(t)) => Ok(t),
        }
    }
}

/// The Xbox Live token and user hash out of the reply to the Xbox Live
/// sign-in, given its status and body.
pub fn xbl_outcome_of_body(status: u16, body: &str) -> (r: Result<XBLData, AuthError>)
    ensures
        r matches Ok(d) ==> xbl_result(status, xbl_fields(body@)) == Ok::<(Seq<char>, Seq<char>), AuthError>(
            (d.token@, d.userhash@),
        ),
        r matches Err(e) ==> xbl_result(status, xbl_fields(body@)) == Err::<(Seq<char>, Seq<char>), AuthError>(e),
{
    if status != 200 {
        return Err(AuthError::Http(status));
    }
    xbl_outcome(status, read_xbl_reply(body))
}

/// The XSTS token out of the reply to the XSTS authorisation, given its
/// status and body.
pub fn xsts_outcome_of_body(status: u16, body: &str) -> (r: Result<String, AuthError>)
    ensures
        r matches Ok(t) ==> xsts_result(status, xsts_fields(body@)) == Ok::<Seq<char>, AuthError>(t@),
        r matches Err(e) ==> xsts_result(status, xsts_fields(body@)) == Err::<Seq<char>, AuthError>(e),
{
    xsts_outcome(status, read_xsts_reply(body))
}

/// The Minecraft bearer token out of the reply to the Xbox sign-in, given
/// its status and body.
pub fn minecraft_outcome_of_body(status: u16, body: &str) -> (r: Result<String, AuthError>)
    ensures
        r matches Ok(t) ==> minecraft_result(status, minecraft_token(body@)) == Ok::<Seq<char>, AuthError>(t@),
        r matches Err(e) ==> minecraft_result(status, minecraft_token(body@)) == Err::<Seq<char>, AuthError>(e),
{
    if status != 200 {
        return Err(AuthError::Http(status));
    }
    minecraft_outcome(status, read_minecraft_reply(body))
}


/// The JSON body of the Xbox Live sign-in with an access token (keys in the
/// order `serde_json` writes them).
pub open spec fn xbl_body(access_token: Seq<char>) -> Seq<char> {
    "{\"Properties\":{\"AuthMethod\":\"RPS\",\"RpsTicket\":"@ + json_string(access_token)
        + ",\"SiteName\":\"user.auth.xboxlive.com\"},\"RelyingParty\":\"http://auth.xboxlive.com\",\"TokenType\":\"JWT\"}"@
}

/// The JSON body of the XSTS authorisation with an Xbox Live token.
pub open spec fn xsts_body(token: Seq<char>) -> Seq<char> {
    "{\"Properties\":{\"SandboxId\":\"RETAIL\",\"UserTokens\":["@ + json_string(token)
        + "]},\"RelyingParty\":\"rp://api.minecraftservices.com/\",\"TokenType\":\"JWT\"}"@
}

/// The JSON body of the Minecraft sign-in with Xbox Live.
pub open spec fn minecraft_body(userhash: Seq<char>, xsts_token: Seq<char>) -> Seq<char> {
    "{\"identityToken\":"@ + json_string("XBL3.0 x="@ + userhash + ";"@ + xsts_token) + "}"@
}

/// The body that asks Xbox Live for a token.
pub fn xbl_request_body(access_token: &str) -> (r: String)
    ensures
        r@ == xbl_body(access_token@),
{
    let mut r = String::from_str("{\"Properties\":{\"AuthMethod\":\"RPS\",\"RpsTicket\":");
    r.append(json_string_of(access_token).as_str());
    r.append(
        ",\"SiteName\":\"user.auth.xboxlive.com\"},\"RelyingParty\":\"http://auth.xboxlive.com\",\"TokenType\":\"JWT\"}",
    );
    r
}

/// The body that asks for an XSTS token.
pub fn xsts_request_body(token: &str) -> (r: String)
    ensures
        r@ == xsts_body(token@),
{
    let mut r = String::from_str("{\"Properties\":{\"SandboxId\":\"RETAIL\",\"UserTokens\":[");
    r.append(json_string_of(token).as_str());
    r.append("]},\"RelyingParty\":\"rp://api.minecraftservices.com/\",\"TokenType\":\"JWT\"}");
    r
}

/// The body that signs in to Minecraft with the identity token.
pub fn minecraft_request_body(userhash: &str, xsts_token: &str) -> (r: String)
    ensures
        r@ == minecraft_body(userhash@, xsts_token@),
{
    let identity = identity_token(userhash, xsts_token);
    let mut r = String::from_str("{\"identityToken\":");
    r.append(json_string_of(identity.as_str()).as_str());
    r.append("}");
    r
}

} // verus!
