//! The decisions of ChatGPT sign-in: the authorize URL, the browser
//! callback, device-code polling, the claims read from tokens, and how a
//! token response becomes stored credentials.

use vstd::prelude::*;
use base64::Engine;
use super::store::{AuthV, ChatgptAuth};
use crate::paths::views;
use crate::responses::model::{clone_opt, opt_view};
use crate::text::{chars_eq, chars_of, dec, dec_chars, extend, extend_str, join, join_exec, owned, string_of, trim, trim_str};

verus! {

// ── outside calls ───────────────────────────────────────────────────────

/// What `URL_SAFE_NO_PAD.decode` (base64) gives for `s`.
pub uninterp spec fn b64url_decoded(s: Seq<char>) -> Option<Seq<u8>>;

/// Decodes unpadded URL-safe base64 with the `base64` crate's
/// `URL_SAFE_NO_PAD` engine; `None` when the text is not valid base64.
/// The contract names the result and states nothing more of the decoder.
#[verifier::external_body]
fn b64url_decode(s: &str) -> (r: Option<Vec<u8>>)
    ensures
        match r {
            Some(b) => b64url_decoded(s@) == Some(b@),
            None => b64url_decoded(s@) is None,
        },
{
    base64::engine::general_purpose::URL_SAFE_NO_PAD.decode(s).ok()
}

/// What `serde_json::from_slice` followed by member lookups gives: for a
/// JSON document `payload`, the member `key` of the document (or of its
/// member `outer`): `None` when the document does not parse or has no such
/// member, `Some(None)` when the member is not a string.
pub uninterp spec fn json_member(payload: Seq<u8>, outer: Option<Seq<char>>, key: Seq<char>) -> Option<
    Option<Seq<char>>,
>;

/// Parses `payload` with `serde_json::from_slice` and looks up `key`
/// (under `outer` when given) with `Value::get` and `Value::as_str`. The
/// contract names the result and states nothing more of the parser.
#[verifier::external_body]
fn json_member_of(payload: &[u8], outer: Option<&str>, key: &str) -> (r: Option<Option<String>>)
    ensures
        r.is_some() == json_member(payload@, opt_str(outer), key@).is_some(),
        match r {
            Some(m) => json_member(payload@, opt_str(outer), key@) == Some(opt_view(m)),
            None => true,
        },
{
    let v: serde_json::Value = serde_json::from_slice(payload).ok()?;
    let o = match outer {
        Some(k) => v.get(k)?,
        None => &v,
    };
    o.get(key).map(|m| m.as_str().map(|s| s.to_owned()))
}

/// A byte `urlencoding` leaves as it is: an ASCII alphanumeric or one of
/// `-`, `.`, `_`, `~`.
pub open spec fn url_unreserved(b: u8) -> bool {
    (48 <= b <= 57) || (65 <= b <= 90) || (97 <= b <= 122) || b == 45 || b == 46 || b == 95 || b == 126
}

/// An upper-case hexadecimal digit.
pub open spec fn hex_upper(d: int) -> char {
    if d < 10 {
        (('0' as int) + d) as char
    } else {
        (('A' as int) + d - 10) as char
    }
}

/// One byte percent-encoded: as itself when unreserved, else `%XX`.
pub open spec fn url_byte(b: u8) -> Seq<char> {
    if url_unreserved(b) {
        seq![b as char]
    } else {
        seq!['%', hex_upper((b as int) / 16), hex_upper((b as int) % 16)]
    }
}

/// Bytes percent-encoded one by one.
pub open spec fn url_bytes(bytes: Seq<u8>) -> Seq<char>
    decreases bytes.len(),
{
    if bytes.len() == 0 {
        Seq::empty()
    } else {
        url_bytes(bytes.drop_last()) + url_byte(bytes.last())
    }
}

/// What `urlencoding::encode` gives for `s`: each byte of its UTF-8
/// encoding percent-encoded.
pub open spec fn url_encoded(s: Seq<char>) -> Seq<char> {
    url_bytes(vstd::utf8::encode_utf8(s))
}

/// Percent-encodes with `urlencoding::encode` (every byte but ASCII
/// alphanumerics and `-`, `_`, `.`, `~`, as `%` and two upper-case hex
/// digits).
#[verifier::external_body]
fn url_encode(s: &str) -> (r: String)
    ensures
        r@ == url_encoded(s@),
{
    urlencoding::encode(s).into_owned()
}

/// `now + secs` as a chrono date (`TimeDelta::try_seconds` and
/// `DateTime::checked_add_signed`), in Unix seconds. The contract states
/// that a result is the sum, and that sums well inside chrono's range
/// (about 262,000 years either side of 1970) are produced.
#[verifier::external_body]
fn expiry_after(now: i64, secs: u64) -> (r: Option<i64>)
    ensures
        r matches Some(t) ==> t == now + secs,
        0 <= now <= 1_000_000_000_000 && secs <= 1_000_000_000_000 ==> r is Some,
{
    let delta = chrono::TimeDelta::try_seconds(i64::try_from(secs).ok()?)?;
    chrono::DateTime::from_timestamp(now, 0)?.checked_add_signed(delta).map(|d| d.timestamp())
}

// ── claims ──────────────────────────────────────────────────────────────

/// View of an optional `&str`.
pub open spec fn opt_str(s: Option<&str>) -> Option<Seq<char>> {
    match s {
        Some(x) => Some(x@),
        None => None,
    }
}

/// The payload segment of a JWT: the text between the first and the
/// second `.`, when there is a first.
pub open spec fn jwt_payload(token: Seq<char>) -> Option<Seq<char>> {
    let parts = crate::paths::split_on(token, '.');
    if parts.len() >= 2 {
        Some(parts[1])
    } else {
        None
    }
}

/// A claim of a JWT's payload (see [`json_member`]); nothing when the token
/// has no payload or it is not base64.
pub open spec fn claim(token: Seq<char>, outer: Option<Seq<char>>, key: Seq<char>) -> Option<
    Option<Seq<char>>,
> {
    match jwt_payload(token) {
        Some(p) => match b64url_decoded(p) {
            Some(bytes) => json_member(bytes, outer, key),
            None => None,
        },
        None => None,
    }
}

/// A string claim of a JWT.
pub open spec fn claim_str(token: Seq<char>, outer: Option<Seq<char>>, key: Seq<char>) -> Option<Seq<char>> {
    match claim(token, outer, key) {
        Some(Some(s)) => Some(s),
        _ => None,
    }
}

/// Reads a claim of `token`.
fn read_claim(token: &str, outer: Option<&str>, key: &str) -> (r: Option<Option<String>>)
    ensures
        r.is_some() == claim(token@, opt_str(outer), key@).is_some(),
        match r {
            Some(m) => claim(token@, opt_str(outer), key@) == Some(opt_view(m)),
            None => true,
        },
{
    let t = chars_of(token);
    let parts = crate::paths::split_chars(t.as_slice(), '.');
    if parts.len() < 2 {
        return None;
    }
    assert(views(parts@)[1] == parts@[1]@);
    let payload = string_of(parts[1].as_slice());
    match b64url_decode(payload.as_str()) {
        Some(bytes) => json_member_of(bytes.as_slice(), outer, key),
        None => None,
    }
}

/// Reads a string claim of `token`.
fn read_claim_str(token: &str, outer: Option<&str>, key: &str) -> (r: Option<String>)
    ensures
        opt_view(r) == claim_str(token@, opt_str(outer), key@),
{
    match read_claim(token, outer, key) {
        Some(Some(s)) => Some(s),
        _ => None,
    }
}

/// The account id of a token: the top-level `chatgpt_account_id`, else the
/// one under the `https://api.openai.com/auth` claim.
pub open spec fn account_id_spec(token: Seq<char>) -> Option<Seq<char>> {
    match claim_str(token, None, "chatgpt_account_id"@) {
        Some(id) => Some(id),
        None => claim_str(token, Some("https://api.openai.com/auth"@), "chatgpt_account_id"@),
    }
}

/// The ChatGPT account id carried by a JWT.
pub fn account_id_from_jwt(token: &str) -> (r: Option<String>)
    ensures
        opt_view(r) == account_id_spec(token@),
{
    match read_claim_str(token, None, "chatgpt_account_id") {
        Some(id) => Some(id),
        None => read_claim_str(token, Some("https://api.openai.com/auth"), "chatgpt_account_id"),
    }
}

/// The residency claim of a token: absent (`None`) leaves residency as it
/// was; an empty value or `no_constraint` clears it; any other value sets it.
pub open spec fn residency_claim_spec(token: Seq<char>) -> Option<Option<Seq<char>>> {
    match claim_str(token, None, "chatgpt_compute_residency"@) {
        Some(v) => Some(
            if v.len() == 0 || v == "no_constraint"@ {
                None
            } else {
                Some(v)
            },
        ),
        None => None,
    }
}

/// View of an optional optional string.
pub open spec fn opt_opt_view(x: Option<Option<String>>) -> Option<Option<Seq<char>>> {
    match x {
        Some(y) => Some(opt_view(y)),
        None => None,
    }
}

/// The residency claim of a JWT (see [`residency_claim_spec`]).
pub fn residency_claim_from_jwt(token: &str) -> (r: Option<Option<String>>)
    ensures
        opt_opt_view(r) == residency_claim_spec(token@),
{
    match read_claim_str(token, None, "chatgpt_compute_residency") {
        Some(v) => {
            let c = chars_of(v.as_str());
            let nc = chars_of("no_constraint");
            if c.len() == 0 || chars_eq(c.as_slice(), nc.as_slice()) {
                Some(None)
            } else {
                Some(Some(v))
            }
        },
        None => None,
    }
}

/// The residency a JWT sets, if any.
pub fn residency_from_jwt(token: &str) -> (r: Option<String>)
    ensures
        opt_view(r) == match residency_claim_spec(token@) {
            Some(x) => x,
            None => None,
        },
{
    match residency_claim_from_jwt(token) {
        Some(x) => x,
        None => None,
    }
}

/// The label shown after sign-in: the `email` (or, without one,
/// `preferred_username`) claim of the ID token (or of the access token
/// without one) when it is a non-empty string; else the account id.
pub open spec fn identity_label_spec(a: AuthV) -> Seq<char> {
    let source = match a.id_token {
        Some(t) => t,
        None => a.access_token,
    };
    let chosen = match claim(source, None, "email"@) {
        Some(x) => x,
        None => match claim(source, None, "preferred_username"@) {
            Some(y) => y,
            None => None,
        },
    };
    match chosen {
        Some(s) => if s.len() > 0 {
            s
        } else if a.account_id.len() == 0 {
            "ChatGPT"@
        } else {
            "ChatGPT account "@ + a.account_id
        },
        None => if a.account_id.len() == 0 {
            "ChatGPT"@
        } else {
            "ChatGPT account "@ + a.account_id
        },
    }
}

/// Who is signed in, for the login confirmation.
pub fn identity_label(auth: &ChatgptAuth) -> (r: String)
    ensures
        r@ == identity_label_spec(auth@),
{
    let source: &str = match &auth.id_token {
        Some(t) => t.as_str(),
        None => auth.access_token.as_str(),
    };
    let chosen: Option<String> = match read_claim(source, None, "email") {
        Some(x) => x,
        None => match read_claim(source, None, "preferred_username") {
            Some(y) => y,
            None => None,
        },
    };
    match chosen {
        Some(s) => if chars_of(s.as_str()).len() > 0 {
            return s;
        },
        None => {},
    }
    if chars_of(auth.account_id.as_str()).len() == 0 {
        owned("ChatGPT")
    } else {
        let mut m = chars_of("ChatGPT account ");
        extend_str(&mut m, auth.account_id.as_str());
        string_of(m.as_slice())
    }
}

// ── token responses ─────────────────────────────────────────────────────

/// A token endpoint response.
pub struct TokenResponse {
    pub access_token: String,
    pub refresh_token: Option<String>,
    pub id_token: Option<String>,
    /// Lifetime in seconds.
    pub expires_in: Option<u64>,
}

/// The credentials a token response gives, keeping what the response does
/// not carry from `previous`: the ID token and refresh token; the account
/// id from the ID token (or the access token), else the access token, else
/// the previous one; the residency claim of the new ID token, else of the
/// access token, else the previous residency. `expires_at` is `now` plus
/// the lifetime when the response has one (see [`expiry_after`]).
pub open spec fn preserved_auth_ok(tokens: TokenResponse, previous: AuthV, now: i64, r: AuthV) -> bool {
    let id_token = match opt_view(tokens.id_token) {
        Some(t) => Some(t),
        None => previous.id_token,
    };
    let jwt_source = match id_token {
        Some(t) => t,
        None => tokens.access_token@,
    };
    let account_id = match account_id_spec(jwt_source) {
        Some(a) => a,
        None => match account_id_spec(tokens.access_token@) {
            Some(a) => a,
            None => previous.account_id,
        },
    };
    let from_id = match opt_view(tokens.id_token) {
        Some(t) => residency_claim_spec(t),
        None => None,
    };
    let residency = match from_id {
        Some(x) => x,
        None => match residency_claim_spec(tokens.access_token@) {
            Some(x) => x,
            None => previous.residency,
        },
    };
    &&& r.access_token == tokens.access_token@
    &&& r.refresh_token == match opt_view(tokens.refresh_token) {
        Some(t) => Some(t),
        None => previous.refresh_token,
    }
    &&& r.id_token == id_token
    &&& r.account_id == account_id
    &&& r.residency == residency
    &&& match tokens.expires_in {
        Some(secs) => match r.expires_at {
            Some(t) => t == now + secs,
            None => !(0 <= now <= 1_000_000_000_000 && secs <= 1_000_000_000_000),
        },
        None => r.expires_at is None,
    }
}

/// Credentials from a token response, preserving what it omits.
pub fn tokens_to_auth_preserving(tokens: TokenResponse, previous: &ChatgptAuth, now: i64) -> (r: Result<
    ChatgptAuth,
    String,
>)
    ensures
        trim(tokens.access_token@).len() == 0 ==> (r matches Err(m) && m@
            == "ChatGPT token response missing access_token"@),
        trim(tokens.access_token@).len() > 0 ==> (r matches Ok(a) && preserved_auth_ok(
            tokens,
            previous@,
            now,
            a@,
        )),
{
    if trim_str(tokens.access_token.as_str()).len() == 0 {
        return Err(owned("ChatGPT token response missing access_token"));
    }
    let ghost t0 = tokens;
    let id_token: Option<String> = match &tokens.id_token {
        Some(t) => Some(t.clone()),
        None => clone_opt(&previous.id_token),
    };
    let account_id = {
        let jwt_source: &str = match &id_token {
            Some(t) => t.as_str(),
            None => tokens.access_token.as_str(),
        };
        match account_id_from_jwt(jwt_source) {
            Some(a) => a,
            None => match account_id_from_jwt(tokens.access_token.as_str()) {
                Some(a) => a,
                None => previous.account_id.clone(),
            },
        }
    };
    let from_id: Option<Option<String>> = match &tokens.id_token {
        Some(t) => residency_claim_from_jwt(t.as_str()),
        None => None,
    };
    let residency: Option<String> = match from_id {
        Some(x) => x,
        None => match residency_claim_from_jwt(tokens.access_token.as_str()) {
            Some(x) => x,
            None => clone_opt(&previous.residency),
        },
    };
    let expires_at = match tokens.expires_in {
        Some(secs) => expiry_after(now, secs),
        None => None,
    };
    let refresh_token = match tokens.refresh_token {
        Some(t) => Some(t),
        None => clone_opt(&previous.refresh_token),
    };
    Ok(
        ChatgptAuth {
            access_token: tokens.access_token,
            refresh_token,
            expires_at,
            account_id,
            id_token,
            residency,
        },
    )
}

/// Credentials from a first token response (nothing to preserve).
pub fn tokens_to_auth(tokens: TokenResponse, now: i64) -> (r: Result<ChatgptAuth, String>)
    ensures
        trim(tokens.access_token@).len() == 0 ==> (r matches Err(m) && m@
            == "ChatGPT token response missing access_token"@),
        trim(tokens.access_token@).len() > 0 ==> (r matches Ok(a) && preserved_auth_ok(
            tokens,
            AuthV {
                access_token: Seq::empty(),
                refresh_token: None,
                expires_at: None,
                account_id: Seq::empty(),
                id_token: None,
                residency: None,
            },
            now,
            a@,
        )),
{
    let empty = ChatgptAuth {
        access_token: String::new(),
        refresh_token: None,
        expires_at: None,
        account_id: String::new(),
        id_token: None,
        residency: None,
    };
    tokens_to_auth_preserving(tokens, &empty, now)
}

/// Expired credentials are refused.
pub fn require_unexpired(auth: ChatgptAuth, now: i64) -> (r: Result<ChatgptAuth, String>)
    ensures
        (auth.expires_at matches Some(at) && at <= now) ==> (r matches Err(m) && m@
            == "ChatGPT authentication expired; run `grok chatgpt-login` again"@),
        !(auth.expires_at matches Some(at) && at <= now) ==> r == Ok::<ChatgptAuth, String>(auth),
{
    if auth.is_expired(now) {
        Err(owned("ChatGPT authentication expired; run `grok chatgpt-login` again"))
    } else {
        Ok(auth)
    }
}

/// What keeping credentials fresh does first.
pub enum FreshPlan {
    /// Not near expiry: use them as they are.
    UseAsIs,
    /// Near expiry with a refresh token: try a refresh with it.
    Refresh(String),
    /// Near expiry without a refresh token: usable only if not expired.
    RequireUnexpired,
}

/// The first step of keeping credentials fresh at `now`, with the login
/// crate's expiry skew.
pub fn freshness_plan(auth: &ChatgptAuth, now: i64, skew: i64) -> (r: FreshPlan)
    requires
        skew >= 0,
    ensures
        !(auth.expires_at matches Some(at) && at <= now + skew) ==> r is UseAsIs,
        (auth.expires_at matches Some(at) && at <= now + skew) ==> match auth.refresh_token {
            Some(t) if t@.len() > 0 => r matches FreshPlan::Refresh(x) && x@ == t@,
            _ => r is RequireUnexpired,
        },
{
    if !auth.needs_refresh(now, skew) {
        return FreshPlan::UseAsIs;
    }
    match &auth.refresh_token {
        Some(t) => if chars_of(t.as_str()).len() > 0 {
            FreshPlan::Refresh(t.clone())
        } else {
            FreshPlan::RequireUnexpired
        },
        None => FreshPlan::RequireUnexpired,
    }
}

/// After a refresh attempt: refreshed credentials are used when the
/// response was valid and they have not expired; a failed or invalid
/// refresh falls back to the cached credentials, usable only while they
/// have not expired.
pub fn finish_refresh(auth: ChatgptAuth, refreshed: Result<TokenResponse, String>, now: i64) -> (r:
    Result<ChatgptAuth, String>)
    ensures
        match refreshed {
            Ok(t) if trim(t.access_token@).len() > 0 => match r {
                Ok(a) => (exists|p: AuthV| #[trigger] preserved_auth_ok(t, auth@, now, p) && p == a@)
                    && !(a.expires_at matches Some(at) && at <= now),
                Err(m) => m@ == "ChatGPT authentication expired; run `grok chatgpt-login` again"@,
            },
            _ => if (auth.expires_at matches Some(at) && at <= now) {
                r matches Err(m) && m@ == "ChatGPT authentication expired; run `grok chatgpt-login` again"@
            } else {
                r == Ok::<ChatgptAuth, String>(auth)
            },
        },
{
    let ghost old_auth = auth@;
    match refreshed {
        Ok(tokens) => {
            let ghost t = tokens;
            match tokens_to_auth_preserving(tokens, &auth, now) {
                Ok(fresh) => {
                    let ghost fv = fresh@;
                    let r = require_unexpired(fresh, now);
                    assert(preserved_auth_ok(t, old_auth, now, fv));
                    r
                },
                Err(_) => require_unexpired(auth, now),
            }
        },
        Err(_) => require_unexpired(auth, now),
    }
}

// ── authorize URL and callback ──────────────────────────────────────────

/// The OAuth issuer.
pub open spec fn oauth_issuer() -> Seq<char> {
    "https://auth.openai.com"@
}

/// The query parameters of the authorize URL, in order.
pub open spec fn authorize_params(code_challenge: Seq<char>, state: Seq<char>) -> Seq<(Seq<char>, Seq<char>)> {
    seq![
        ("response_type"@, "code"@),
        ("client_id"@, "app_EMoamEEZ73f0CkXaXp7hrann"@),
        ("redirect_uri"@, "http://localhost:1455/auth/callback"@),
        ("scope"@, "openid profile email offline_access"@),
        ("code_challenge"@, code_challenge),
        ("code_challenge_method"@, "S256"@),
        ("id_token_add_organizations"@, "true"@),
        ("codex_cli_simplified_flow"@, "true"@),
        ("originator"@, "grok-build"@),
        ("state"@, state),
    ]
}

/// The browser authorize URL: the issuer's authorize path and the
/// parameters, each value percent-encoded, joined by `&`.
pub open spec fn authorize_url_spec(code_challenge: Seq<char>, state: Seq<char>) -> Seq<char> {
    "https://auth.openai.com/oauth/authorize?"@ + join(
        authorize_params(code_challenge, state).map_values(
            |kv: (Seq<char>, Seq<char>)| kv.0 + "="@ + url_encoded(kv.1),
        ),
        "&"@,
    )
}

/// `key=encoded(value)`.
fn param(key: &str, value: &str) -> (r: Vec<char>)
    ensures
        r@ == key@ + "="@ + url_encoded(value@),
{
    let mut v = chars_of(key);
    extend_str(&mut v, "=");
    let e = url_encode(value);
    extend_str(&mut v, e.as_str());
    v
}

/// The authorize URL of a browser sign-in.
pub fn authorize_url(code_challenge: &str, state: &str) -> (r: String)
    ensures
        r@ == authorize_url_spec(code_challenge@, state@),
{
    let mut parts: Vec<Vec<char>> = Vec::new();
    parts.push(param("response_type", "code"));
    parts.push(param("client_id", "app_EMoamEEZ73f0CkXaXp7hrann"));
    parts.push(param("redirect_uri", "http://localhost:1455/auth/callback"));
    parts.push(param("scope", "openid profile email offline_access"));
    parts.push(param("code_challenge", code_challenge));
    parts.push(param("code_challenge_method", "S256"));
    parts.push(param("id_token_add_organizations", "true"));
    parts.push(param("codex_cli_simplified_flow", "true"));
    parts.push(param("originator", "grok-build"));
    parts.push(param("state", state));
    let mut url = chars_of("https://auth.openai.com/oauth/authorize?");
    let sep = chars_of("&");
    let j = join_exec(&parts, sep.as_slice());
    extend(&mut url, j.as_slice());
    assert(parts@.map_values(|p: Vec<char>| p@) =~= authorize_params(code_challenge@, state@).map_values(
        |kv: (Seq<char>, Seq<char>)| kv.0 + "="@ + url_encoded(kv.1),
    ));
    string_of(url.as_slice())
}

/// What the callback page says and what it hands the waiting login.
pub struct CallbackReply {
    pub html: String,
    /// The code, or the denial; nothing for a request to ignore.
    pub result: Option<Result<String, String>>,
}

/// The callback's answer to a request with query `state`, whether it
/// carries `error`, and its `code`: a wrong state is ignored, an error is
/// a denial, a non-empty code completes the login, anything else is
/// ignored. The page never echoes the request.
pub fn handle_callback(state: Option<&str>, has_error: bool, code: Option<&str>, expected: &str) -> (r:
    CallbackReply)
    ensures
        !(state matches Some(s) && s@ == expected@) ==> r.html@
            == "<html><body><p>Invalid login state.</p></body></html>"@ && r.result is None,
        (state matches Some(s) && s@ == expected@) && has_error ==> r.html@
            == "<html><body><p>Login failed. Return to the terminal.</p></body></html>"@ && (r.result matches Some(
            Err(m),
        ) && m@ == "ChatGPT authorization was denied"@),
        (state matches Some(s) && s@ == expected@) && !has_error && (code matches Some(c) && c@.len()
            > 0) ==> r.html@ == "<html><body><p>Signed in. You can close this window.</p></body></html>"@
            && (r.result matches Some(Ok(c2)) && c2@ == code->0@),
        (state matches Some(s) && s@ == expected@) && !has_error && !(code matches Some(c) && c@.len()
            > 0) ==> r.html@ == "<html><body><p>Missing login code.</p></body></html>"@ && r.result is None,
{
    let state_ok = match state {
        Some(s) => {
            let a = chars_of(s);
            let b = chars_of(expected);
            chars_eq(a.as_slice(), b.as_slice())
        },
        None => false,
    };
    if !state_ok {
        return CallbackReply {
            html: owned("<html><body><p>Invalid login state.</p></body></html>"),
            result: None,
        };
    }
    if has_error {
        return CallbackReply {
            html: owned("<html><body><p>Login failed. Return to the terminal.</p></body></html>"),
            result: Some(Err(owned("ChatGPT authorization was denied"))),
        };
    }
    match code {
        Some(c) => if chars_of(c).len() > 0 {
            return CallbackReply {
                html: owned("<html><body><p>Signed in. You can close this window.</p></body></html>"),
                result: Some(Ok(owned(c))),
            };
        },
        None => {},
    }
    CallbackReply {
        html: owned("<html><body><p>Missing login code.</p></body></html>"),
        result: None,
    }
}

// ── device login ────────────────────────────────────────────────────────

/// The device-code `interval` field as sent: a number, or a number in a
/// string.
pub enum DeviceInterval {
    Number(u64),
    Text(String),
}

/// Why text is not a `u64`, as the standard library words it.
pub enum IntParseError {
    Empty,
    InvalidDigit,
    PosOverflow,
}

/// The value of an ASCII digit.
pub open spec fn digit_value(c: char) -> int {
    c as int - '0' as int
}

/// Whether `c` is an ASCII digit.
pub open spec fn is_digit(c: char) -> bool {
    '0' <= c <= '9'
}

/// Reading the digits `d[i..]` onto `acc`: the first character that is not
/// a digit, or the first digit that takes the value past `u64::MAX`, fails.
pub open spec fn scan_digits(d: Seq<char>, i: int, acc: int) -> Result<int, IntParseError>
    decreases d.len() - i,
{
    if i >= d.len() {
        Ok(acc)
    } else if !is_digit(d[i]) {
        Err(IntParseError::InvalidDigit)
    } else if acc * 10 + digit_value(d[i]) > u64::MAX {
        Err(IntParseError::PosOverflow)
    } else {
        scan_digits(d, i + 1, acc * 10 + digit_value(d[i]))
    }
}

/// `str::parse::<u64>`: empty text fails as empty; one leading `+` is
/// allowed; then at least one digit and only digits, within range.
pub open spec fn parse_u64_spec(s: Seq<char>) -> Result<int, IntParseError> {
    if s.len() == 0 {
        Err(IntParseError::Empty)
    } else {
        let d = if s[0] == '+' {
            s.drop_first()
        } else {
            s
        };
        if d.len() == 0 {
            Err(IntParseError::InvalidDigit)
        } else {
            scan_digits(d, 0, 0)
        }
    }
}

/// The standard library's message for a parse error.
pub open spec fn int_parse_message(e: IntParseError) -> Seq<char> {
    match e {
        IntParseError::Empty => "cannot parse integer from empty string"@,
        IntParseError::InvalidDigit => "invalid digit found in string"@,
        IntParseError::PosOverflow => "number too large to fit in target type"@,
    }
}

/// Parses decimal text as `str::parse::<u64>` does.
pub fn parse_u64(s: &[char]) -> (r: Result<u64, IntParseError>)
    ensures
        match (r, parse_u64_spec(s@)) {
            (Ok(v), Ok(w)) => v == w,
            (Err(IntParseError::Empty), Err(IntParseError::Empty)) => true,
            (Err(IntParseError::InvalidDigit), Err(IntParseError::InvalidDigit)) => true,
            (Err(IntParseError::PosOverflow), Err(IntParseError::PosOverflow)) => true,
            _ => false,
        },
{
    if s.len() == 0 {
        return Err(IntParseError::Empty);
    }
    let start: usize = if s[0] == '+' {
        1
    } else {
        0
    };
    let ghost d = if s@[0] == '+' {
        s@.drop_first()
    } else {
        s@
    };
    if start == s.len() {
        return Err(IntParseError::InvalidDigit);
    }
    assert(d =~= s@.subrange(start as int, s@.len() as int));
    assert(d.len() > 0);
    assert(parse_u64_spec(s@) == scan_digits(d, 0, 0));
    let mut acc: u64 = 0;
    let mut i: usize = start;
    while i < s.len()
        invariant
            start <= i <= s@.len(),
            start == 0 || start == 1,
            d == s@.subrange(start as int, s@.len() as int),
            parse_u64_spec(s@) == scan_digits(d, 0, 0),
            scan_digits(d, 0, 0) == scan_digits(d, i - start, acc as int),
        decreases s@.len() - i,
    {
        let c = s[i];
        assert(d.len() == s@.len() - start);
        assert(d[i - start] == c);
        if !('0' <= c && c <= '9') {
            assert(scan_digits(d, i - start, acc as int) == Err::<int, IntParseError>(
                IntParseError::InvalidDigit,
            ));
            return Err(IntParseError::InvalidDigit);
        }
        let v = (c as u32 - '0' as u32) as u64;
        assert(v as int == digit_value(c));
        assert(v <= 9);
        let over = acc > 1844674407370955161 || (acc == 1844674407370955161 && v > 5);
        assert(over == (acc * 10 + v > u64::MAX)) by (nonlinear_arith)
            requires
                v <= 9,
                over == (acc > 1844674407370955161 || (acc == 1844674407370955161 && v > 5)),
        ;
        if over {
            assert(scan_digits(d, i - start, acc as int) == Err::<int, IntParseError>(
                IntParseError::PosOverflow,
            ));
            return Err(IntParseError::PosOverflow);
        }
        acc = acc * 10 + v;
        i = i + 1;
    }
    Ok(acc)
}

/// The poll interval a device-code response carries: a number as is; text
/// trimmed and parsed as a `u64`, its parse error's message when it is not
/// one; nothing when the field is absent.
pub fn device_interval(raw: Option<DeviceInterval>) -> (r: Result<Option<u64>, String>)
    ensures
        match raw {
            None => r == Ok::<Option<u64>, String>(None),
            Some(DeviceInterval::Number(v)) => r == Ok::<Option<u64>, String>(Some(v)),
            Some(DeviceInterval::Text(t)) => match parse_u64_spec(trim(t@)) {
                Ok(v) => r is Ok && r->Ok_0 == Some(v as u64),
                Err(e) => r is Err && r->Err_0@ == int_parse_message(e),
            },
        },
{
    match raw {
        None => Ok(None),
        Some(DeviceInterval::Number(v)) => Ok(Some(v)),
        Some(DeviceInterval::Text(t)) => {
            let trimmed = trim_str(t.as_str());
            match parse_u64(trimmed.as_slice()) {
                Ok(v) => Ok(Some(v)),
                Err(IntParseError::Empty) => Err(owned("cannot parse integer from empty string")),
                Err(IntParseError::InvalidDigit) => Err(owned("invalid digit found in string")),
                Err(IntParseError::PosOverflow) => Err(owned("number too large to fit in target type")),
            }
        },
    }
}

/// Seconds between device-token polls: the server's interval (five when it
/// gave none), at least one.
pub fn device_poll_interval(interval: Option<u64>) -> (r: u64)
    ensures
        r == match interval {
            Some(i) => if i >= 1 {
                i
            } else {
                1
            },
            None => 5,
        },
{
    match interval {
        Some(i) => if i >= 1 {
            i
        } else {
            1
        },
        None => 5,
    }
}

/// What a device-token poll's status means.
pub enum DevicePoll {
    /// Authorized: exchange the code.
    Authorized,
    /// Not yet (403 or 404): wait and poll again.
    Pending,
    /// Any other status fails the login with this message.
    Failed(String),
}

/// The decision for a poll answered with `status` (rendered as
/// `status_text`).
pub fn device_poll_step(status: u16, status_text: &str) -> (r: DevicePoll)
    ensures
        200 <= status < 300 ==> r is Authorized,
        (status == 403 || status == 404) ==> r is Pending,
        !(200 <= status < 300) && status != 403 && status != 404 ==> (r matches DevicePoll::Failed(m)
            && m@ == "ChatGPT device login failed ("@ + status_text@ + ")"@),
{
    if 200 <= status && status < 300 {
        DevicePoll::Authorized
    } else if status == 403 || status == 404 {
        DevicePoll::Pending
    } else {
        let mut m = chars_of("ChatGPT device login failed (");
        extend_str(&mut m, status_text);
        extend_str(&mut m, ")");
        DevicePoll::Failed(string_of(m.as_slice()))
    }
}

/// The redirect URI of a device-code exchange.
pub fn device_redirect_uri(issuer: &str) -> (r: String)
    ensures
        r@ == issuer@ + "/deviceauth/callback"@,
{
    let mut m = chars_of(issuer);
    extend_str(&mut m, "/deviceauth/callback");
    string_of(m.as_slice())
}

} // verus!
