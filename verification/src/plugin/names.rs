//! Source identities of plugins and marketplaces: GitHub shorthand
//! expansion, display names, and the local-path versus git-URL split of a
//! `marketplace add` input.

use vstd::prelude::*;
use crate::paths::{after_last, after_last_chars, expand_tilde, expand_tilde_chars, file_name, file_name_chars, join_path, join_path_chars, normalize_chars, normalize_path, trim_end_char, trim_end_char_chars, trim_end_suffix, trim_end_suffix_chars};
use crate::text::{chars_of, contains, contains_exec, occurs_at, string_of};

verus! {

/// `input` as a clone URL: a GitHub shorthand `user/repo` (no `://`, no
/// `git@`) becomes `https://github.com/user/repo.git` without doubling the
/// suffix; anything else is kept.
pub open spec fn normalize_git_url_spec(input: Seq<char>) -> Seq<char> {
    if !contains(input, "://"@) && !contains(input, "git@"@) {
        "https://github.com/"@ + trim_end_suffix(input, ".git"@) + ".git"@
    } else {
        input
    }
}

/// Expand GitHub shorthand (user/repo) to `https://github.com/user/repo.git`.
pub fn normalize_git_url(input: &str) -> (r: String)
    ensures
        r@ == normalize_git_url_spec(input@),
{
    let s = chars_of(input);
    let a = chars_of("://");
    let b = chars_of("git@");
    if !contains_exec(s.as_slice(), a.as_slice()) && !contains_exec(s.as_slice(), b.as_slice()) {
        let suffix = chars_of(".git");
        let trimmed = trim_end_suffix_chars(s.as_slice(), suffix.as_slice());
        let mut r = chars_of("https://github.com/");
        crate::text::extend(&mut r, trimmed.as_slice());
        crate::text::extend(&mut r, suffix.as_slice());
        string_of(r.as_slice())
    } else {
        string_of(s.as_slice())
    }
}

/// Display name of a URL: its last path segment after trailing slashes and
/// `.git` suffixes are dropped, or `marketplace` when that is empty.
pub open spec fn name_from_url_spec(url: Seq<char>) -> Seq<char> {
    let name = after_last(trim_end_suffix(trim_end_char(url, '/'), ".git"@), '/');
    if name.len() == 0 {
        "marketplace"@
    } else {
        name
    }
}

/// Derive a display name from the last path segment of a URL.
pub fn name_from_url(url: &str) -> (r: String)
    ensures
        r@ == name_from_url_spec(url@),
{
    let s = chars_of(url);
    let t = trim_end_char_chars(s.as_slice(), '/');
    let suffix = chars_of(".git");
    let u = trim_end_suffix_chars(t.as_slice(), suffix.as_slice());
    let name = after_last_chars(u.as_slice(), '/');
    if name.len() == 0 {
        crate::text::owned("marketplace")
    } else {
        string_of(name.as_slice())
    }
}

/// Display name of a local path: its last component, or `marketplace`.
pub open spec fn name_from_path_spec(path: Seq<char>) -> Seq<char> {
    match file_name(path) {
        Some(n) => n,
        None => "marketplace"@,
    }
}

/// Derive a display name from the last component of a local path.
pub fn name_from_path(path: &str) -> (r: String)
    ensures
        r@ == name_from_path_spec(path@),
{
    let s = chars_of(path);
    match file_name_chars(s.as_slice()) {
        Some(n) => string_of(n.as_slice()),
        None => crate::text::owned("marketplace"),
    }
}

/// An ASCII letter.
pub open spec fn is_ascii_alpha(c: char) -> bool {
    ('a' <= c && c <= 'z') || ('A' <= c && c <= 'Z')
}

/// Leading `/`, `.`, `~`, `\` (UNC), or a Windows drive prefix (`C:\`, `C:/`).
pub open spec fn looks_like_local_path_spec(s: Seq<char>) -> bool {
    ||| s.len() > 0 && (s[0] == '/' || s[0] == '.' || s[0] == '~' || s[0] == '\\')
    ||| s.len() >= 3 && is_ascii_alpha(s[0]) && s[1] == ':' && (s[2] == '/' || s[2] == '\\')
}

/// Whether a `marketplace add` input is explicitly a path.
pub fn looks_like_local_path(s: &str) -> (r: bool)
    ensures
        r == looks_like_local_path_spec(s@),
{
    let c = chars_of(s);
    if c.len() > 0 && (c[0] == '/' || c[0] == '.' || c[0] == '~' || c[0] == '\\') {
        return true;
    }
    c.len() >= 3 && (('a' <= c[0] && c[0] <= 'z') || ('A' <= c[0] && c[0] <= 'Z')) && c[1] == ':'
        && (c[2] == '/' || c[2] == '\\')
}

/// A `marketplace add` input, split into the two source kinds the config
/// supports (`git = "..."` vs `path = "..."`).
#[derive(Debug, Clone, PartialEq, Eq)]
pub enum MarketplaceAddInput {
    /// Local directory, tilde-expanded, absolutized and lexically cleaned.
    LocalPath(String),
    /// Git URL or GitHub shorthand, normalized.
    GitUrl(String),
}

/// View of a [`MarketplaceAddInput`].
pub enum AddInputV {
    LocalPath(Seq<char>),
    GitUrl(Seq<char>),
}

impl View for MarketplaceAddInput {
    type V = AddInputV;

    open spec fn view(&self) -> AddInputV {
        match self {
            MarketplaceAddInput::LocalPath(p) => AddInputV::LocalPath(p@),
            MarketplaceAddInput::GitUrl(u) => AddInputV::GitUrl(u@),
        }
    }
}

/// Classification of a `marketplace add` input given the home directory:
/// an input that is not explicitly a path is a git URL; a path has its `~`
/// expanded, is joined onto `cwd` when relative, and is normalized.
pub open spec fn classify_add_spec(input: Seq<char>, cwd: Seq<char>, home: Option<Seq<char>>) -> AddInputV {
    if !looks_like_local_path_spec(input) {
        AddInputV::GitUrl(normalize_git_url_spec(input))
    } else {
        let path = if input[0] == '~' {
            expand_tilde(input, home)
        } else if input[0] == '/' {
            input
        } else {
            join_path(cwd, input)
        };
        AddInputV::LocalPath(normalize_path(path))
    }
}

/// The user's home directory (`dirs::home_dir`), as text.
#[verifier::external_body]
pub(crate) fn home_dir() -> Option<String> {
    dirs::home_dir().map(|p| p.to_string_lossy().into_owned())
}

/// Classify a `marketplace add` input against a known home directory.
pub fn classify_marketplace_add_input_with_home(
    input: &str,
    cwd: &str,
    home: &Option<String>,
) -> (r: MarketplaceAddInput)
    ensures
        r@ == classify_add_spec(
            input@,
            cwd@,
            match home {
                Some(h) => Some(h@),
                None => None,
            },
        ),
{
    if !looks_like_local_path(input) {
        return MarketplaceAddInput::GitUrl(normalize_git_url(input));
    }
    let c = chars_of(input);
    let path = if c[0] == '~' {
        let h: Option<Vec<char>> = match home {
            Some(x) => Some(chars_of(x.as_str())),
            None => None,
        };
        expand_tilde_chars(c.as_slice(), &h)
    } else if c[0] == '/' {
        c
    } else {
        let base = chars_of(cwd);
        join_path_chars(base.as_slice(), c.as_slice())
    };
    let n = normalize_chars(path.as_slice());
    MarketplaceAddInput::LocalPath(string_of(n.as_slice()))
}

/// Classify a `marketplace add` input as a local directory or a git URL,
/// expanding `~` to the user's home directory.
pub fn classify_marketplace_add_input(input: &str, cwd: &str) -> (r: MarketplaceAddInput)
    ensures
        !looks_like_local_path_spec(input@) ==> r@ == AddInputV::GitUrl(
            normalize_git_url_spec(input@),
        ),
        looks_like_local_path_spec(input@) ==> exists|home: Option<Seq<char>>|
            r@ == classify_add_spec(input@, cwd@, home),
{
    let home = home_dir();
    classify_marketplace_add_input_with_home(input, cwd, &home)
}

/// Normalizing a clone URL twice gives the same URL as once: an expanded
/// shorthand is a full URL, which is kept.
pub proof fn lemma_normalize_git_url_idempotent(input: Seq<char>)
    ensures
        normalize_git_url_spec(normalize_git_url_spec(input)) == normalize_git_url_spec(input),
{
    if !contains(input, "://"@) && !contains(input, "git@"@) {
        let out = normalize_git_url_spec(input);
        reveal_strlit("https://github.com/");
        reveal_strlit("://");
        let head = "https://github.com/"@;
        assert(out == head + trim_end_suffix(input, ".git"@) + ".git"@);
        assert(out.subrange(5, 8) =~= "://"@) by {
            assert(out[5] == head[5]);
            assert(out[6] == head[6]);
            assert(out[7] == head[7]);
        }
        assert(occurs_at(out, "://"@, 5));
    }
}

/// Only GitHub shorthand is rewritten: an input holding `://` (a URL with
/// a scheme) or `git@` (an SSH clone URL) comes back unchanged, and any
/// other input becomes an `https://github.com/` URL ending in `.git`.
pub proof fn lemma_normalize_keeps_urls(input: Seq<char>)
    ensures
        contains(input, "git@"@) ==> normalize_git_url_spec(input) == input,
        contains(input, "://"@) ==> normalize_git_url_spec(input) == input,
        !contains(input, "git@"@) && !contains(input, "://"@) ==> {
            let out = normalize_git_url_spec(input);
            &&& out.subrange(0, 19) == "https://github.com/"@
            &&& out.subrange(out.len() - 4, out.len() as int) == ".git"@
        },
{
    if !contains(input, "git@"@) && !contains(input, "://"@) {
        reveal_strlit("https://github.com/");
        reveal_strlit(".git");
        let head = "https://github.com/"@;
        let mid = trim_end_suffix(input, ".git"@);
        let out = normalize_git_url_spec(input);
        assert(out == head + mid + ".git"@);
        assert(out.subrange(0, 19) =~= head);
        assert(out.subrange(out.len() - 4, out.len() as int) =~= ".git"@);
    }
}

} // verus!
