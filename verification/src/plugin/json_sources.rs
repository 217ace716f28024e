//! Marketplace sources recorded in JSON settings files: which entry names a
//! source, and the document with that entry removed.

use vstd::prelude::*;
use crate::paths::{join_path, join_path_chars, trim_end_suffix, trim_end_suffix_chars};
use super::errors::strs;
use crate::responses::model::opt_view;
use crate::responses::slots::{first_match, lemma_first_match_is};
use crate::text::{chars_eq, chars_of, extend_str};

verus! {

/// A JSON value as a settings file holds it; numbers keep their text, and
/// an object keeps its members in the order the document lists them.
pub enum JsonValue {
    Null,
    Bool(bool),
    Number(String),
    Str(String),
    Array(Vec<JsonValue>),
    Object(Vec<(String, JsonValue)>),
}

/// A member named `k`.
pub open spec fn key_is(k: Seq<char>) -> spec_fn((String, JsonValue)) -> bool {
    |e: (String, JsonValue)| e.0@ == k
}

/// Position of the member named `key` (the length when there is none).
pub open spec fn member_index(members: Seq<(String, JsonValue)>, key: Seq<char>) -> int {
    first_match(members, key_is(key))
}

/// The member `key` of an object.
pub open spec fn json_get(v: JsonValue, key: Seq<char>) -> Option<JsonValue> {
    match v {
        JsonValue::Object(ms) => if member_index(ms@, key) < ms@.len() {
            Some(ms@[member_index(ms@, key)].1)
        } else {
            None
        },
        _ => None,
    }
}

/// The member `key` of an object when it is a string.
pub open spec fn json_str(v: JsonValue, key: Seq<char>) -> Option<Seq<char>> {
    match json_get(v, key) {
        Some(JsonValue::Str(s)) => Some(s@),
        _ => None,
    }
}

/// `s` without trailing `.git`s.
pub open spec fn without_git(s: Seq<char>) -> Seq<char> {
    trim_end_suffix(s, ".git"@)
}

/// Whether a source entry names `identity`: its `source` is either the
/// kind itself (flat entry) or an object holding the kind; a `git` source
/// matches its `url` and a `github` source its expanded `repo`, both up to
/// trailing `.git`; a `local` source matches its `path` exactly.
pub open spec fn source_matches_spec(config: JsonValue, identity: Seq<char>) -> bool {
    let source_obj = match json_get(config, "source"@) {
        Some(JsonValue::Str(_)) => Some(config),
        Some(JsonValue::Object(ms)) => Some(JsonValue::Object(ms)),
        _ => None,
    };
    match source_obj {
        None => false,
        Some(o) => match json_str(o, "source"@) {
            None => false,
            Some(t) => if t == "git"@ {
                match json_str(o, "url"@) {
                    Some(u) => without_git(u) == without_git(identity),
                    None => false,
                }
            } else if t == "github"@ {
                match json_str(o, "repo"@) {
                    Some(repo) => without_git("https://github.com/"@ + repo + ".git"@)
                        == without_git(identity),
                    None => false,
                }
            } else if t == "local"@ {
                json_str(o, "path"@) == Some(identity)
            } else {
                false
            },
        },
    }
}

/// Position of the member named `key`.
fn member_position(members: &Vec<(String, JsonValue)>, key: &str) -> (r: Option<usize>)
    ensures
        match r {
            Some(i) => i == member_index(members@, key@) && i < members@.len(),
            None => member_index(members@, key@) == members@.len(),
        },
{
    let want = chars_of(key);
    let mut i: usize = 0;
    while i < members.len()
        invariant
            i <= members@.len(),
            want@ == key@,
            forall|q: int| 0 <= q < i ==> !key_is(key@)(members@[q]),
        decreases members@.len() - i,
    {
        let k = chars_of(members[i].0.as_str());
        if chars_eq(k.as_slice(), want.as_slice()) {
            proof {
                lemma_first_match_is(members@, key_is(key@), i as int);
            }
            return Some(i);
        }
        i += 1;
    }
    proof {
        lemma_first_match_is(members@, key_is(key@), i as int);
    }
    None
}

/// The member `key` of an object, when there is one.
fn get<'a>(v: &'a JsonValue, key: &str) -> (r: Option<&'a JsonValue>)
    ensures
        match r {
            Some(x) => json_get(*v, key@) == Some(*x),
            None => json_get(*v, key@) is None,
        },
{
    match v {
        JsonValue::Object(ms) => match member_position(ms, key) {
            Some(i) => Some(&ms[i].1),
            None => None,
        },
        _ => None,
    }
}

/// The member `key` of an object when it is a string.
fn get_str<'a>(v: &'a JsonValue, key: &str) -> (r: Option<&'a String>)
    ensures
        match r {
            Some(s) => json_str(*v, key@) == Some(s@),
            None => json_str(*v, key@) is None,
        },
{
    match get(v, key) {
        Some(JsonValue::Str(s)) => Some(s),
        _ => None,
    }
}

/// Whether `s` holds exactly `lit`.
fn is(s: &String, lit: &str) -> (r: bool)
    ensures
        r == (s@ == lit@),
{
    let a = chars_of(s.as_str());
    let b = chars_of(lit);
    chars_eq(a.as_slice(), b.as_slice())
}

/// Whether two texts agree once trailing `.git`s are dropped.
fn same_without_git(a: &[char], b: &[char]) -> (r: bool)
    ensures
        r == (without_git(a@) == without_git(b@)),
{
    let suffix = chars_of(".git");
    let x = trim_end_suffix_chars(a, suffix.as_slice());
    let y = trim_end_suffix_chars(b, suffix.as_slice());
    chars_eq(x.as_slice(), y.as_slice())
}

/// Check whether a JSON source config matches a URL/path identity.
pub fn json_source_matches(config: &JsonValue, identity: &str) -> (r: bool)
    ensures
        r == source_matches_spec(*config, identity@),
{
    let source_obj: &JsonValue = match get(config, "source") {
        Some(JsonValue::Str(_)) => config,
        Some(JsonValue::Object(ms)) => match get(config, "source") {
            Some(o) => o,
            None => {
                return false;
            },
        },
        _ => {
            return false;
        },
    };
    let kind = match get_str(source_obj, "source") {
        Some(t) => t,
        None => {
            return false;
        },
    };
    let id = chars_of(identity);
    if is(kind, "git") {
        match get_str(source_obj, "url") {
            Some(u) => {
                let uc = chars_of(u.as_str());
                same_without_git(uc.as_slice(), id.as_slice())
            },
            None => false,
        }
    } else if is(kind, "github") {
        match get_str(source_obj, "repo") {
            Some(repo) => {
                let mut e = chars_of("https://github.com/");
                extend_str(&mut e, repo.as_str());
                extend_str(&mut e, ".git");
                same_without_git(e.as_slice(), id.as_slice())
            },
            None => false,
        }
    } else if is(kind, "local") {
        match get_str(source_obj, "path") {
            Some(p) => {
                let pc = chars_of(p.as_str());
                chars_eq(pc.as_slice(), id.as_slice())
            },
            None => false,
        }
    } else {
        false
    }
}

/// A member whose value names `identity`.
pub open spec fn names_source(identity: Seq<char>) -> spec_fn((String, JsonValue)) -> bool {
    |e: (String, JsonValue)| source_matches_spec(e.1, identity)
}

/// Position of the first member naming `identity`.
fn matching_member(members: &Vec<(String, JsonValue)>, identity: &str) -> (r: Option<usize>)
    ensures
        match r {
            Some(j) => j == first_match(members@, names_source(identity@)) && j < members@.len(),
            None => first_match(members@, names_source(identity@)) == members@.len(),
        },
{
    let mut j: usize = 0;
    while j < members.len()
        invariant
            j <= members@.len(),
            forall|q: int| 0 <= q < j ==> !names_source(identity@)(members@[q]),
        decreases members@.len() - j,
    {
        if json_source_matches(&members[j].1, identity) {
            proof {
                lemma_first_match_is(members@, names_source(identity@), j as int);
            }
            return Some(j);
        }
        j += 1;
    }
    proof {
        lemma_first_match_is(members@, names_source(identity@), j as int);
    }
    None
}

/// Removes the first source entry naming `identity` from a settings
/// document: from the object under `nested_key`, or from the document
/// itself when there is none. Nothing is removed (`None`) when that object
/// is missing or no entry names the source; otherwise the new document and
/// the removed entry's name.
pub fn remove_source_from_json(root: JsonValue, nested_key: Option<&str>, identity: &str) -> (r: Option<
    (JsonValue, String),
>)
    ensures
        ({
            let members: Option<Seq<(String, JsonValue)>> = match nested_key {
                Some(k) => match json_get(root, k@) {
                    Some(JsonValue::Object(ms)) => Some(ms@),
                    _ => None,
                },
                None => match root {
                    JsonValue::Object(ms) => Some(ms@),
                    _ => None,
                },
            };
            match members {
                None => r is None,
                Some(ms) => {
                    let j = first_match(ms, names_source(identity@));
                    if j >= ms.len() {
                        r is None
                    } else {
                        r matches Some((new_root, key)) && key@ == ms[j].0@ && match nested_key {
                            None => new_root matches JsonValue::Object(out) && out@ == ms.remove(j),
                            Some(k) => root matches JsonValue::Object(outer) && {
                                let i = member_index(outer@, k@);
                                new_root matches JsonValue::Object(outer2) && outer2@.len()
                                    == outer@.len() && (forall|q: int|
                                    0 <= q < outer@.len() && q != i ==> outer2@[q] == outer@[q])
                                    && outer2@[i].0 == outer@[i].0 && (outer2@[i].1 matches JsonValue::Object(
                                    inner2,
                                ) && inner2@ == ms.remove(j))
                            },
                        }
                    }
                },
            }
        }),
{
    match nested_key {
        None => match root {
            JsonValue::Object(mut ms) => match matching_member(&ms, identity) {
                Some(j) => {
                    let (key, _) = ms.remove(j);
                    Some((JsonValue::Object(ms), key))
                },
                None => None,
            },
            _ => None,
        },
        Some(k) => match root {
            JsonValue::Object(mut outer) => {
                let i = match member_position(&outer, k) {
                    Some(i) => i,
                    None => {
                        return None;
                    },
                };
                let ghost outer0 = outer@;
                let (name, inner) = outer.remove(i);
                match inner {
                    JsonValue::Object(mut ms) => match matching_member(&ms, identity) {
                        Some(j) => {
                            let (key, _) = ms.remove(j);
                            outer.insert(i, (name, JsonValue::Object(ms)));
                            proof {
                                assert forall|q: int|
                                    0 <= q < outer0.len() && q != i implies outer@[q] == outer0[q] by {
                                    if q < i {
                                        assert(outer@[q] == outer0[q]);
                                    } else {
                                        assert(outer@[q] == outer0[q]);
                                    }
                                }
                            }
                            Some((JsonValue::Object(outer), key))
                        },
                        None => None,
                    },
                    _ => None,
                }
            },
            _ => None,
        },
    }
}

/// `base` joined with `a`.
fn join1(base: &String, a: &str) -> (r: String)
    ensures
        r@ == join_path(base@, a@),
{
    let b = chars_of(base.as_str());
    let x = chars_of(a);
    crate::text::string_of(join_path_chars(b.as_slice(), x.as_slice()).as_slice())
}

/// `base` joined with `a`, then `b`.
fn join2(base: &String, a: &str, b: &str) -> (r: String)
    ensures
        r@ == join_path(join_path(base@, a@), b@),
{
    let first = join1(base, a);
    join1(&first, b)
}

/// The JSON files under the grok home that may record marketplace
/// sources: the settings files (sources under `extraKnownMarketplaces`),
/// local before shared, and the known-marketplace file (sources at the top
/// level).
pub open spec fn json_source_files_spec(grok: Option<Seq<char>>) -> (Seq<Seq<char>>, Seq<Seq<char>>) {
    match grok {
        Some(g) => (
            seq![join_path(g, "settings.local.json"@), join_path(g, "settings.json"@)],
            seq![join_path(join_path(g, "plugins"@), "known_marketplaces.json"@)],
        ),
        None => (Seq::empty(), Seq::empty()),
    }
}

/// The settings files and the known-marketplace files of the grok home to
/// remove a source from.
pub fn json_source_files(grok: &Option<String>) -> (r: (Vec<String>, Vec<String>))
    ensures
        strs(r.0@) == json_source_files_spec(opt_view(*grok)).0,
        strs(r.1@) == json_source_files_spec(opt_view(*grok)).1,
{
    let mut settings: Vec<String> = Vec::new();
    let mut known: Vec<String> = Vec::new();
    match grok {
        Some(g) => {
            settings.push(join1(g, "settings.local.json"));
            settings.push(join1(g, "settings.json"));
            known.push(join2(g, "plugins", "known_marketplaces.json"));
        },
        None => {},
    }
    assert(strs(settings@) =~= json_source_files_spec(opt_view(*grok)).0);
    assert(strs(known@) =~= json_source_files_spec(opt_view(*grok)).1);
    (settings, known)
}

} // verus!
