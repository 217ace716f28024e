//! The headers a ChatGPT request carries: the bearer must belong to the
//! account on disk now, and the account, residency and originator headers
//! follow it.

use vstd::prelude::*;
use super::store::ChatgptAuth;
use crate::text::{chars_eq, chars_of, extend_str};

verus! {

/// A character `HeaderValue::from_str` accepts: visible ASCII, space, tab,
/// or any non-ASCII character (its UTF-8 bytes are all at least 0x80).
pub open spec fn header_char_ok(c: char) -> bool {
    (c as u32 >= 32 && c as u32 != 127) || c == '\t'
}

/// Whether every character of `s` is accepted in a header value.
pub open spec fn header_value_ok(s: Seq<char>) -> bool {
    forall|i: int| 0 <= i < s.len() ==> header_char_ok(#[trigger] s[i])
}

/// Whether `reqwest::header::HeaderValue::from_str` (the `http` crate)
/// accepts `s`: it refuses a value with a byte below 32 other than tab, or
/// the byte 127.
#[verifier::external_body]
fn header_value_valid(s: &str) -> (r: bool)
    ensures
        r == header_value_ok(s@),
{
    reqwest::header::HeaderValue::from_str(s).is_ok()
}

/// What the ChatGPT header injector does to a request's headers after the
/// account and residency headers are removed.
pub struct HeaderPlan {
    /// Keep the `Authorization` header; otherwise it is removed and nothing
    /// is added.
    pub keep_authorization: bool,
    /// Set `chatgpt-account-id`.
    pub account_id: Option<String>,
    /// Set the Codex residency header.
    pub residency: Option<String>,
    /// Add `originator: grok-build` (absent before).
    pub add_originator: bool,
}

/// The header policy of a request whose `Authorization` header reads
/// `authorization` (`None` when absent or not text), given the credentials
/// on disk now: without credentials, or when the bearer is not theirs (the
/// account changed since it was stamped), the authorization is dropped;
/// otherwise the account id and residency are set when they are valid
/// header values, and the originator is added when missing.
pub fn inject_headers(authorization: Option<&str>, snapshot: &Option<ChatgptAuth>, has_originator: bool) -> (r:
    HeaderPlan)
    ensures
        match snapshot {
            None => !r.keep_authorization && r.account_id is None && r.residency is None
                && !r.add_originator,
            Some(a) => if !(authorization matches Some(h) && h@ == "Bearer "@ + a.access_token@) {
                !r.keep_authorization && r.account_id is None && r.residency is None
                    && !r.add_originator
            } else {
                &&& r.keep_authorization
                &&& if header_value_ok(a.account_id@) {
                    r.account_id matches Some(x) && x@ == a.account_id@
                } else {
                    r.account_id is None
                }
                &&& match a.residency {
                    Some(res) => if header_value_ok(res@) {
                        r.residency matches Some(x) && x@ == res@
                    } else {
                        r.residency is None
                    },
                    None => r.residency is None,
                }
                &&& r.add_originator == !has_originator
            },
        },
{
    let dropped = HeaderPlan {
        keep_authorization: false,
        account_id: None,
        residency: None,
        add_originator: false,
    };
    let auth = match snapshot {
        Some(a) => a,
        None => {
            return dropped;
        },
    };
    let mut expected = chars_of("Bearer ");
    extend_str(&mut expected, auth.access_token.as_str());
    let matches = match authorization {
        Some(h) => {
            let hc = chars_of(h);
            chars_eq(hc.as_slice(), expected.as_slice())
        },
        None => false,
    };
    if !matches {
        return dropped;
    }
    let account_id = if header_value_valid(auth.account_id.as_str()) {
        Some(auth.account_id.clone())
    } else {
        None
    };
    let residency = match &auth.residency {
        Some(res) => if header_value_valid(res.as_str()) {
            Some(res.clone())
        } else {
            None
        },
        None => None,
    };
    HeaderPlan { keep_authorization: true, account_id, residency, add_originator: !has_originator }
}

} // verus!
