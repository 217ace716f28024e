//! The ChatGPT credential record and the rules of its store: expiry,
//! freshness, what a loaded file must hold, and when a refresh may be
//! written back.

use vstd::prelude::*;
use crate::responses::model::{clone_opt, opt_view};
use crate::responses::merge::str_eq;
use crate::text::{chars_of, extend_str, owned, string_of, trim, trim_str};

verus! {

/// Cached ChatGPT tokens. `expires_at` is in whole seconds since the Unix
/// epoch.
pub struct ChatgptAuth {
    pub access_token: String,
    pub refresh_token: Option<String>,
    pub expires_at: Option<i64>,
    pub account_id: String,
    pub id_token: Option<String>,
    pub residency: Option<String>,
}

/// View of a [`ChatgptAuth`].
pub struct AuthV {
    pub access_token: Seq<char>,
    pub refresh_token: Option<Seq<char>>,
    pub expires_at: Option<i64>,
    pub account_id: Seq<char>,
    pub id_token: Option<Seq<char>>,
    pub residency: Option<Seq<char>>,
}

impl View for ChatgptAuth {
    type V = AuthV;

    open spec fn view(&self) -> AuthV {
        AuthV {
            access_token: self.access_token@,
            refresh_token: opt_view(self.refresh_token),
            expires_at: self.expires_at,
            account_id: self.account_id@,
            id_token: opt_view(self.id_token),
            residency: opt_view(self.residency),
        }
    }
}

impl ChatgptAuth {
    /// A field-by-field copy.
    pub fn copy(&self) -> (r: ChatgptAuth)
        ensures
            r@ == self@,
    {
        ChatgptAuth {
            access_token: self.access_token.clone(),
            refresh_token: clone_opt(&self.refresh_token),
            expires_at: self.expires_at,
            account_id: self.account_id.clone(),
            id_token: clone_opt(&self.id_token),
            residency: clone_opt(&self.residency),
        }
    }

    /// Seconds until expiry at `now`, never negative; unknown without an
    /// expiry.
    pub fn expires_in_secs(&self, now: i64) -> (r: Option<u64>)
        ensures
            r == match self.expires_at {
                Some(at) => Some(
                    (if at > now {
                        at - now
                    } else {
                        0
                    }) as u64,
                ),
                None => None,
            },
    {
        match self.expires_at {
            Some(at) => if at > now {
                Some(((at as i128) - (now as i128)) as u64)
            } else {
                Some(0)
            },
            None => None,
        }
    }

    /// Whether the tokens are within `skew` seconds of expiry at `now`;
    /// tokens without an expiry never need a refresh.
    pub fn needs_refresh(&self, now: i64, skew: i64) -> (r: bool)
        requires
            skew >= 0,
        ensures
            r == match self.expires_at {
                Some(at) => at <= now + skew,
                None => false,
            },
    {
        match self.expires_at {
            Some(at) => (at as i128) <= (now as i128) + (skew as i128),
            None => false,
        }
    }

    /// Whether the tokens have expired at `now`.
    pub fn is_expired(&self, now: i64) -> (r: bool)
        ensures
            r == match self.expires_at {
                Some(at) => at <= now,
                None => false,
            },
    {
        match self.expires_at {
            Some(at) => at <= now,
            None => false,
        }
    }
}

/// Spec equality of two records by their views.
pub open spec fn same_auth(a: ChatgptAuth, b: ChatgptAuth) -> bool {
    a@ == b@
}

/// Whether two records are equal.
pub fn auth_eq(a: &ChatgptAuth, b: &ChatgptAuth) -> (r: bool)
    ensures
        r == (a@ == b@),
{
    str_eq(&a.access_token, &b.access_token) && opt_eq(&a.refresh_token, &b.refresh_token)
        && a.expires_at == b.expires_at && str_eq(&a.account_id, &b.account_id) && opt_eq(
        &a.id_token,
        &b.id_token,
    ) && opt_eq(&a.residency, &b.residency)
}

/// Whether two optional strings are equal.
fn opt_eq(a: &Option<String>, b: &Option<String>) -> (r: bool)
    ensures
        r == (opt_view(*a) == opt_view(*b)),
{
    match (a, b) {
        (Some(x), Some(y)) => str_eq(x, y),
        (None, None) => true,
        _ => false,
    }
}

/// Why reading the credentials file failed.
pub enum ReadFailure {
    /// The file does not exist.
    NotFound,
    /// Any other I/O error, rendered.
    Other(String),
}

/// The error for a credentials file that could not be read.
pub fn read_failure_message(f: &ReadFailure) -> (r: String)
    ensures
        r@ == match f {
            ReadFailure::NotFound => "no ChatGPT credentials; run grok chatgpt-login"@,
            ReadFailure::Other(e) => "failed to read ChatGPT credentials: "@ + e@,
        },
{
    match f {
        ReadFailure::NotFound => owned("no ChatGPT credentials; run grok chatgpt-login"),
        ReadFailure::Other(e) => {
            let mut m = chars_of("failed to read ChatGPT credentials: ");
            extend_str(&mut m, e.as_str());
            string_of(m.as_slice())
        },
    }
}

/// The error for a credentials file that did not parse.
pub fn invalid_file_message(error: &str) -> (r: String)
    ensures
        r@ == "invalid ChatGPT credentials file: "@ + error@,
{
    let mut m = chars_of("invalid ChatGPT credentials file: ");
    extend_str(&mut m, error);
    string_of(m.as_slice())
}

/// A parsed credentials file is usable only with a non-blank access token.
pub fn validate_loaded(auth: ChatgptAuth) -> (r: Result<ChatgptAuth, String>)
    ensures
        trim(auth.access_token@).len() == 0 ==> (r matches Err(m) && m@
            == "ChatGPT credentials file has an empty access_token"@),
        trim(auth.access_token@).len() > 0 ==> (r matches Ok(a) && a == auth),
{
    if trim_str(auth.access_token.as_str()).len() == 0 {
        Err(owned("ChatGPT credentials file has an empty access_token"))
    } else {
        Ok(auth)
    }
}

/// Saving skips the write when the file already holds the same record
/// (only its permissions are tightened).
pub fn save_needs_write(current: &Option<ChatgptAuth>, auth: &ChatgptAuth) -> (r: bool)
    ensures
        r == match current {
            Some(c) => c@ != auth@,
            None => true,
        },
{
    match current {
        Some(c) => !auth_eq(c, auth),
        None => true,
    }
}

/// What a refresh writes back: an error when the file changed while the
/// lock was held (another writer, a logout, or a new account), else the
/// fresh record, to be saved only when it differs from what was loaded.
pub fn refresh_result(loaded: &ChatgptAuth, reloaded: &Result<ChatgptAuth, String>, fresh: ChatgptAuth) -> (r:
    Result<(ChatgptAuth, bool), String>)
    ensures
        match reloaded {
            Err(e) => r matches Err(m) && m@ == e@,
            Ok(now) => if now@ != loaded@ {
                r matches Err(m) && m@ == "ChatGPT authentication changed during refresh"@
            } else {
                r matches Ok((a, save)) && a == fresh && save == (fresh@ != loaded@)
            },
        },
{
    match reloaded {
        Err(e) => Err(e.clone()),
        Ok(now) => {
            if !auth_eq(now, loaded) {
                return Err(owned("ChatGPT authentication changed during refresh"));
            }
            let save = !auth_eq(&fresh, loaded);
            Ok((fresh, save))
        },
    }
}

/// The bearer a long-lived resolver sends: the stored access token while
/// it has not expired at `now`; nothing after a logout or expiry.
pub fn current_bearer(snapshot: Option<ChatgptAuth>, now: i64) -> (r: Option<String>)
    ensures
        match snapshot {
            Some(a) => match a.expires_at {
                Some(at) if at <= now => r is None,
                _ => r is Some && r->0@ == a.access_token@,
            },
            None => r is None,
        },
{
    match snapshot {
        Some(a) => {
            if a.is_expired(now) {
                None
            } else {
                Some(a.access_token)
            }
        },
        None => None,
    }
}

/// A lower-case hexadecimal digit.
pub open spec fn hex_lower(d: int) -> char {
    if d < 10 {
        (('0' as int) + d) as char
    } else {
        (('a' as int) + d - 10) as char
    }
}

/// How `serde_json` writes one character inside a string literal: `"` and
/// `\` escaped, the five controls with short escapes as such, the other
/// controls below 0x20 as `\u00xx`, everything else as itself.
pub open spec fn json_char(c: char) -> Seq<char> {
    if c == '"' {
        seq!['\\', '"']
    } else if c == '\\' {
        seq!['\\', '\\']
    } else if c == '\u{8}' {
        seq!['\\', 'b']
    } else if c == '\t' {
        seq!['\\', 't']
    } else if c == '\n' {
        seq!['\\', 'n']
    } else if c == '\u{c}' {
        seq!['\\', 'f']
    } else if c == '\r' {
        seq!['\\', 'r']
    } else if (c as int) < 0x20 {
        seq!['\\', 'u', '0', '0', hex_lower((c as int) / 16), hex_lower((c as int) % 16)]
    } else {
        seq![c]
    }
}

/// Characters escaped one by one.
pub open spec fn json_chars(s: Seq<char>) -> Seq<char>
    decreases s.len(),
{
    if s.len() == 0 {
        Seq::empty()
    } else {
        json_chars(s.drop_last()) + json_char(s.last())
    }
}

/// What `serde_json::to_string` gives for the string `s`: a JSON string
/// literal, quoted, its characters escaped.
pub open spec fn json_quoted(s: Seq<char>) -> Seq<char> {
    seq!['"'] + json_chars(s) + seq!['"']
}

/// Renders `s` as a JSON string literal with `serde_json::to_string`, which
/// cannot fail on a string.
#[verifier::external_body]
fn json_quote(s: &str) -> (r: String)
    ensures
        r@ == json_quoted(s@),
{
    match serde_json::to_string(s) {
        Ok(q) => q,
        Err(_) => String::new(),
    }
}

/// The token JSON printed for an auth provider command:
/// `{"access_token":...}` with `"expires_in"` when the expiry is known.
pub open spec fn token_json_spec(access_token: Seq<char>, expires_in: Option<u64>) -> Seq<char> {
    "{\"access_token\":"@ + json_quoted(access_token) + match expires_in {
        Some(n) => ",\"expires_in\":"@ + crate::text::dec(n as nat),
        None => Seq::empty(),
    } + "}"@
}

/// The token JSON of `auth` at `now`.
pub fn serialize_token(auth: &ChatgptAuth, now: i64) -> (r: String)
    ensures
        r@ == token_json_spec(
            auth.access_token@,
            match auth.expires_at {
                Some(at) => Some(
                    (if at > now {
                        at - now
                    } else {
                        0
                    }) as u64,
                ),
                None => None,
            },
        ),
{
    let mut m = chars_of("{\"access_token\":");
    let q = json_quote(auth.access_token.as_str());
    extend_str(&mut m, q.as_str());
    match auth.expires_in_secs(now) {
        Some(n) => {
            extend_str(&mut m, ",\"expires_in\":");
            crate::text::extend(&mut m, crate::text::dec_chars(n).as_slice());
        },
        None => {},
    }
    extend_str(&mut m, "}");
    string_of(m.as_slice())
}

/// What removing the credentials file did.
pub enum RemoveResult {
    Removed,
    /// There was no file.
    Missing,
    /// Any other I/O error, rendered.
    Failed(String),
}

/// Clearing the credentials: done whether the file was removed or was
/// already gone, so clearing twice succeeds twice; any other failure is
/// reported.
pub fn clear_result(removed: RemoveResult) -> (r: Result<(), String>)
    ensures
        match removed {
            RemoveResult::Removed => r is Ok,
            RemoveResult::Missing => r is Ok,
            RemoveResult::Failed(e) => r matches Err(m) && m@ == "failed to remove ChatGPT credentials: "@
                + e@,
        },
{
    match removed {
        RemoveResult::Removed => Ok(()),
        RemoveResult::Missing => Ok(()),
        RemoveResult::Failed(e) => Err(clear_failure_message(e.as_str())),
    }
}

/// The confirmation printed after signing out.
pub fn run_logout(cleared: Result<(), String>) -> (r: Result<String, String>)
    ensures
        match cleared {
            Ok(()) => r matches Ok(m) && m@ == "signed out of ChatGPT"@,
            Err(e) => r matches Err(m) && m@ == e@,
        },
{
    match cleared {
        Ok(()) => Ok(owned("signed out of ChatGPT")),
        Err(e) => Err(e),
    }
}

/// The error when removing the credentials file failed (a missing file is
/// not an error).
pub fn clear_failure_message(error: &str) -> (r: String)
    ensures
        r@ == "failed to remove ChatGPT credentials: "@ + error@,
{
    let mut m = chars_of("failed to remove ChatGPT credentials: ");
    extend_str(&mut m, error);
    string_of(m.as_slice())
}

} // verus!
