//! The ChatGPT subscription quota: which account it is for, the checks
//! around fetching it, and reset times derived from relative ones.

use vstd::prelude::*;
use super::store::ChatgptAuth;
use crate::text::{chars_of, dec_int, dec_int_chars, extend, owned, string_of, trim, trim_str};

verus! {

/// The account identity of the stored credentials, never a token; missing
/// or unreadable credentials have none, nor does a record whose access
/// token is blank (the store refuses to load it).
pub fn identity(stored: &Result<ChatgptAuth, String>) -> (r: Option<String>)
    ensures
        match stored {
            Ok(a) => if trim(a.access_token@).len() > 0 {
                r matches Some(id) && id@ == a.account_id@
            } else {
                r is None
            },
            Err(_) => r is None,
        },
{
    match stored {
        Ok(a) => if trim_str(a.access_token.as_str()).len() > 0 {
            Some(a.account_id.clone())
        } else {
            None
        },
        Err(_) => None,
    }
}

/// The error when the account changed during a quota refresh.
pub open spec fn changed_message() -> Seq<char> {
    "ChatGPT authentication changed; retry quota refresh"@
}

/// A quota refresh is for the account it was admitted for: the current
/// identity must still be the expected one.
pub fn check_identity(current: &Option<String>, expected: Option<&str>) -> (r: Result<(), String>)
    ensures
        r is Ok <==> match (current, expected) {
            (Some(c), Some(e)) => c@ == e@,
            (None, None) => true,
            _ => false,
        },
        r matches Err(m) ==> m@ == changed_message(),
{
    let same = match (current, expected) {
        (Some(c), Some(e)) => {
            let a = chars_of(c.as_str());
            let b = chars_of(e);
            crate::text::chars_eq(a.as_slice(), b.as_slice())
        },
        (None, None) => true,
        _ => false,
    };
    if same {
        Ok(())
    } else {
        Err(owned("ChatGPT authentication changed; retry quota refresh"))
    }
}

/// Credentials are sent for the quota only with a token and an account
/// that have not expired at `now`.
pub fn check_quota_credentials(auth: &ChatgptAuth, now: i64) -> (r: Result<(), String>)
    ensures
        r is Ok <==> (auth.access_token@.len() > 0 && auth.account_id@.len() > 0 && !(
        auth.expires_at matches Some(at) && at <= now)),
        r matches Err(m) ==> m@ == "ChatGPT credentials expired or missing; run grok chatgpt-login"@,
{
    if chars_of(auth.access_token.as_str()).len() == 0 || chars_of(auth.account_id.as_str()).len() == 0
        || auth.is_expired(now) {
        Err(owned("ChatGPT credentials expired or missing; run grok chatgpt-login"))
    } else {
        Ok(())
    }
}

/// The error for a quota response that was not a success; the body is
/// never echoed.
pub fn quota_http_error(status: u16) -> (r: String)
    ensures
        r@ == "ChatGPT quota HTTP "@ + dec_int(status as int),
{
    let mut m = chars_of("ChatGPT quota HTTP ");
    extend(&mut m, dec_int_chars(status as i64).as_slice());
    string_of(m.as_slice())
}

/// The reset time of a quota window: the absolute one when reported, else
/// `now` plus the relative one (a negative offset counts as none) when the
/// sum fits.
pub fn fill_reset_at(reset_at: Option<i64>, reset_after_seconds: Option<i64>, now: i64) -> (r: Option<i64>)
    ensures
        r == match reset_at {
            Some(at) => Some(at),
            None => match reset_after_seconds {
                Some(s) => {
                    let d = if s > 0 {
                        s as int
                    } else {
                        0
                    };
                    if now + d <= i64::MAX {
                        Some((now + d) as i64)
                    } else {
                        None
                    }
                },
                None => None,
            },
        },
{
    match reset_at {
        Some(at) => Some(at),
        None => match reset_after_seconds {
            Some(s) => {
                let d = if s > 0 {
                    s
                } else {
                    0
                };
                now.checked_add(d)
            },
            None => None,
        },
    }
}

/// The provider a model's quota is routed to, stamped into its metadata:
/// ChatGPT for a Codex model, Grok for the CLI chat proxy or an `x.ai` API
/// host, otherwise unsupported.
pub fn stamp_provider(is_codex: bool, is_grok_host: bool) -> (r: &'static str)
    ensures
        r@ == (if is_codex {
            "chatgpt"@
        } else if is_grok_host {
            "grok"@
        } else {
            "unsupported"@
        }),
{
    if is_codex {
        "chatgpt"
    } else if is_grok_host {
        "grok"
    } else {
        "unsupported"
    }
}

} // verus!
