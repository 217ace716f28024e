//! Decisions of the `plugin marketplace` subcommands (list, add, remove,
//! update) around the reads, probes and writes the command performs.

use vstd::prelude::*;
use super::errors::strs;
use super::names::{name_from_path, name_from_path_spec, name_from_url, name_from_url_spec, AddInputV, MarketplaceAddInput};
use crate::responses::merge::str_eq;
use crate::text::{chars_of, dec, dec_chars, extend, extend_str, join, join_exec, owned, string_of, trim, trim_str};

verus! {

/// How a configured marketplace source is reached.
pub enum SourceKind {
    Git { url: String, branch: Option<String> },
    Local { path: String },
}

/// A configured marketplace source.
pub struct MarketplaceSource {
    pub name: String,
    pub kind: SourceKind,
}

/// The identity a source is stored and matched by: its URL or its path.
pub open spec fn identity_spec(s: MarketplaceSource) -> Seq<char> {
    match s.kind {
        SourceKind::Git { url, .. } => url@,
        SourceKind::Local { path } => path@,
    }
}

impl MarketplaceSource {
    /// The URL of a git source, the path of a local one.
    pub fn identity(&self) -> (r: String)
        ensures
            r@ == identity_spec(*self),
    {
        match &self.kind {
            SourceKind::Git { url, .. } => url.clone(),
            SourceKind::Local { path } => path.clone(),
        }
    }
}

/// `a` then `b`, as a new string.
fn concat2(a: &str, b: &str) -> (r: String)
    ensures
        r@ == a@ + b@,
{
    let mut v = chars_of(a);
    extend_str(&mut v, b);
    string_of(v.as_slice())
}

/// One line of `marketplace list`: `  name: identity`.
pub open spec fn list_line(s: MarketplaceSource) -> Seq<char> {
    "  "@ + s.name@ + ": "@ + identity_spec(s)
}

/// What `marketplace list` prints without `--json`: a hint when nothing is
/// configured, else one line per source.
pub open spec fn list_lines_spec(sources: Seq<MarketplaceSource>) -> Seq<Seq<char>> {
    if sources.len() == 0 {
        seq![
            "No marketplace sources configured.\nRun `grok plugin marketplace add --help` to get started."@,
        ]
    } else {
        sources.map_values(|s: MarketplaceSource| list_line(s))
    }
}

/// The lines `marketplace list` prints.
pub fn marketplace_list(sources: &Vec<MarketplaceSource>) -> (r: Vec<String>)
    ensures
        strs(r@) == list_lines_spec(sources@),
{
    let mut out: Vec<String> = Vec::new();
    if sources.len() == 0 {
        out.push(
            owned(
                "No marketplace sources configured.\nRun `grok plugin marketplace add --help` to get started.",
            ),
        );
        assert(strs(out@) =~= list_lines_spec(sources@));
        return out;
    }
    let mut i: usize = 0;
    while i < sources.len()
        invariant
            i <= sources@.len(),
            strs(out@) == sources@.subrange(0, i as int).map_values(
                |s: MarketplaceSource| list_line(s),
            ),
        decreases sources@.len() - i,
    {
        let mut v = chars_of("  ");
        extend_str(&mut v, sources[i].name.as_str());
        extend_str(&mut v, ": ");
        let id = sources[i].identity();
        extend_str(&mut v, id.as_str());
        let line = string_of(v.as_slice());
        let ghost before = strs(out@);
        out.push(line);
        assert(strs(out@) =~= before.push(line@));
        i += 1;
        assert(strs(out@) =~= sources@.subrange(0, i as int).map_values(
            |s: MarketplaceSource| list_line(s),
        ));
    }
    assert(sources@.subrange(0, sources@.len() as int) =~= sources@);
    out
}

/// Identities of the sources named `input`, in order.
pub open spec fn named_identities(sources: Seq<MarketplaceSource>, input: Seq<char>) -> Seq<Seq<char>>
    decreases sources.len(),
{
    if sources.len() == 0 {
        Seq::empty()
    } else {
        let rest = named_identities(sources.drop_last(), input);
        if sources.last().name@ == input {
            rest.push(identity_spec(sources.last()))
        } else {
            rest
        }
    }
}

/// What a `remove` input is compared with besides names: the input and its
/// GitHub-shorthand expansion as normalized git URLs, and the input as a
/// local path (tilde-expanded and absolutized) when it reads as one.
pub struct RemovalKeys {
    pub input_norm: String,
    pub expanded_norm: String,
    pub local_input: Option<String>,
}

/// Source `i` is the one a `remove` input names by URL or path.
pub open spec fn removal_hit(
    sources: Seq<MarketplaceSource>,
    url_norms: Seq<String>,
    input: Seq<char>,
    keys: RemovalKeys,
    i: int,
) -> bool {
    match sources[i].kind {
        SourceKind::Git { .. } => url_norms[i]@ == keys.input_norm@ || url_norms[i]@
            == keys.expanded_norm@,
        SourceKind::Local { path } => path@ == input || match keys.local_input {
            Some(p) => p@ == path@,
            None => false,
        },
    }
}

/// Names of all sources.
pub open spec fn source_names(sources: Seq<MarketplaceSource>) -> Seq<Seq<char>> {
    sources.map_values(|s: MarketplaceSource| s.name@)
}

/// The error for several sources sharing the name.
pub open spec fn multiple_named_message(input: Seq<char>, identities: Seq<Seq<char>>) -> Seq<char> {
    "Multiple sources are named \""@ + input + "\"; remove by URL/path instead: "@ + join(
        identities,
        ", "@,
    )
}

/// The error for an input that names no source.
pub open spec fn removal_not_found_message(input: Seq<char>, names: Seq<Seq<char>>) -> Seq<char> {
    if names.len() == 0 {
        "Marketplace source \""@ + input + "\" not found; no sources are configured."@
    } else {
        "Marketplace source \""@ + input + "\" not found. Configured sources: "@ + join(
            names,
            ", "@,
        )
    }
}

/// Views of character vectors.
pub open spec fn char_views(v: Seq<Vec<char>>) -> Seq<Seq<char>> {
    v.map_values(|p: Vec<char>| p@)
}

/// Resolves a `remove` input to a source: an exact name first (several
/// sources with that name is an error listing their identities), then the
/// first source whose normalized URL or path the input names. `url_norms`
/// holds each source's URL normalized the way `marketplace add` dedupes.
pub fn find_removal_source(
    sources: &Vec<MarketplaceSource>,
    input: &str,
    keys: &RemovalKeys,
    url_norms: &Vec<String>,
) -> (r: Result<usize, String>)
    requires
        url_norms@.len() == sources@.len(),
    ensures
        ({
            let ids = named_identities(sources@, input@);
            if ids.len() >= 2 {
                r matches Err(m) && m@ == multiple_named_message(input@, ids)
            } else if ids.len() == 1 {
                r matches Ok(j) && j < sources@.len() && sources@[j as int].name@ == input@
            } else {
                match r {
                    Ok(j) => j < sources@.len() && removal_hit(
                        sources@,
                        url_norms@,
                        input@,
                        *keys,
                        j as int,
                    ) && forall|k: int|
                        0 <= k < j ==> !removal_hit(sources@, url_norms@, input@, *keys, k),
                    Err(m) => (forall|k: int|
                        0 <= k < sources@.len() ==> !removal_hit(
                            sources@,
                            url_norms@,
                            input@,
                            *keys,
                            k,
                        )) && m@ == removal_not_found_message(input@, source_names(sources@)),
                }
            }
        }),
{
    let want = owned(input);
    let mut ids: Vec<Vec<char>> = Vec::new();
    let mut first: usize = 0;
    let mut i: usize = 0;
    while i < sources.len()
        invariant
            i <= sources@.len(),
            want@ == input@,
            char_views(ids@) == named_identities(sources@.subrange(0, i as int), input@),
            ids@.len() > 0 ==> first < i && sources@[first as int].name@ == input@,
        decreases sources@.len() - i,
    {
        assert(sources@.subrange(0, i + 1).drop_last() =~= sources@.subrange(0, i as int));
        if str_eq(&sources[i].name, &want) {
            if ids.len() == 0 {
                first = i;
            }
            let id = sources[i].identity();
            let ghost before = char_views(ids@);
            ids.push(chars_of(id.as_str()));
            assert(char_views(ids@) =~= before.push(id@));
        }
        i += 1;
    }
    assert(sources@.subrange(0, sources@.len() as int) =~= sources@);
    if ids.len() >= 2 {
        let mut m = chars_of("Multiple sources are named \"");
        extend_str(&mut m, input);
        extend_str(&mut m, "\"; remove by URL/path instead: ");
        let sep = chars_of(", ");
        let j = join_exec(&ids, sep.as_slice());
        extend(&mut m, j.as_slice());
        return Err(string_of(m.as_slice()));
    }
    if ids.len() == 1 {
        return Ok(first);
    }
    assert(named_identities(sources@, input@).len() == 0);
    let mut k: usize = 0;
    while k < sources.len()
        invariant
            k <= sources@.len(),
            url_norms@.len() == sources@.len(),
            named_identities(sources@, input@).len() == 0,
            forall|q: int| 0 <= q < k ==> !removal_hit(sources@, url_norms@, input@, *keys, q),
        decreases sources@.len() - k,
    {
        let hit = match &sources[k].kind {
            SourceKind::Git { .. } => str_eq(&url_norms[k], &keys.input_norm) || str_eq(
                &url_norms[k],
                &keys.expanded_norm,
            ),
            SourceKind::Local { path } => {
                let a = chars_of(path.as_str());
                let b = chars_of(input);
                crate::text::chars_eq(a.as_slice(), b.as_slice()) || match &keys.local_input {
                    Some(p) => str_eq(p, path),
                    None => false,
                }
            },
        };
        if hit {
            return Ok(k);
        }
        k += 1;
    }
    Err(removal_not_found(sources, input))
}

/// The not-found error of a `remove` input.
fn removal_not_found(sources: &Vec<MarketplaceSource>, input: &str) -> (r: String)
    ensures
        r@ == removal_not_found_message(input@, source_names(sources@)),
{
    let mut m = chars_of("Marketplace source \"");
    extend_str(&mut m, input);
    if sources.len() == 0 {
        extend_str(&mut m, "\" not found; no sources are configured.");
        return string_of(m.as_slice());
    }
    extend_str(&mut m, "\" not found. Configured sources: ");
    let mut names: Vec<Vec<char>> = Vec::new();
    let mut i: usize = 0;
    while i < sources.len()
        invariant
            i <= sources@.len(),
            char_views(names@) == source_names(sources@).subrange(0, i as int),
        decreases sources@.len() - i,
    {
        let n = chars_of(sources[i].name.as_str());
        let ghost before = char_views(names@);
        names.push(n);
        assert(char_views(names@) =~= before.push(sources@[i as int].name@));
        i += 1;
        assert(char_views(names@) =~= source_names(sources@).subrange(0, i as int));
    }
    assert(source_names(sources@).subrange(0, sources@.len() as int) =~= source_names(sources@));
    let sep = chars_of(", ");
    let j = join_exec(&names, sep.as_slice());
    extend(&mut m, j.as_slice());
    string_of(m.as_slice())
}

/// The source a `remove` names, trimmed; an empty input is refused.
pub fn marketplace_remove_input(name_or_url: &str) -> (r: Result<String, String>)
    ensures
        trim(name_or_url@).len() == 0 ==> (r matches Err(m) && m@
            == "Provide the source name, git URL, or local path to remove."@),
        trim(name_or_url@).len() > 0 ==> (r matches Ok(t) && t@ == trim(name_or_url@)),
{
    let t = trim_str(name_or_url);
    if t.len() == 0 {
        Err(owned("Provide the source name, git URL, or local path to remove."))
    } else {
        Ok(string_of(t.as_slice()))
    }
}

/// What `remove` reports: the source removed, and the plugins uninstalled
/// with it when there were any.
pub open spec fn removal_summary_spec(name: Seq<char>, identity: Seq<char>, uninstalled: Seq<Seq<char>>) -> Seq<char> {
    if uninstalled.len() == 0 {
        "Removed marketplace source: "@ + name + " ("@ + identity + ")"@
    } else {
        "Removed marketplace source and uninstalled "@ + dec(uninstalled.len()) + " plugin(s): "@
            + join(uninstalled, ", "@)
    }
}

/// The message printed after a source was removed.
pub fn marketplace_removal_summary(name: &str, identity: &str, uninstalled: &Vec<String>) -> (r: String)
    ensures
        r@ == removal_summary_spec(name@, identity@, strs(uninstalled@)),
{
    if uninstalled.len() == 0 {
        let mut m = chars_of("Removed marketplace source: ");
        extend_str(&mut m, name);
        extend_str(&mut m, " (");
        extend_str(&mut m, identity);
        extend_str(&mut m, ")");
        return string_of(m.as_slice());
    }
    let mut m = chars_of("Removed marketplace source and uninstalled ");
    extend(&mut m, dec_chars(uninstalled.len() as u64).as_slice());
    extend_str(&mut m, " plugin(s): ");
    let parts = char_vecs(uninstalled);
    let sep = chars_of(", ");
    extend(&mut m, join_exec(&parts, sep.as_slice()).as_slice());
    string_of(m.as_slice())
}

/// The characters of each string.
fn char_vecs(v: &Vec<String>) -> (r: Vec<Vec<char>>)
    ensures
        char_views(r@) == strs(v@),
{
    let mut out: Vec<Vec<char>> = Vec::new();
    let mut i: usize = 0;
    while i < v.len()
        invariant
            i <= v@.len(),
            char_views(out@) == strs(v@).subrange(0, i as int),
        decreases v@.len() - i,
    {
        let c = chars_of(v[i].as_str());
        let ghost before = char_views(out@);
        out.push(c);
        assert(char_views(out@) =~= before.push(v@[i as int]@));
        i += 1;
        assert(char_views(out@) =~= strs(v@).subrange(0, i as int));
    }
    assert(strs(v@).subrange(0, v@.len() as int) =~= strs(v@));
    out
}

/// The URL of a `marketplace add`, trimmed; an empty one is refused.
pub fn marketplace_add_url(url: &str) -> (r: Result<String, String>)
    ensures
        trim(url@).len() == 0 ==> (r matches Err(m) && m@ == "URL cannot be empty."@),
        trim(url@).len() > 0 ==> (r matches Ok(t) && t@ == trim(url@)),
{
    let t = trim_str(url);
    if t.len() == 0 {
        Err(owned("URL cannot be empty."))
    } else {
        Ok(string_of(t.as_slice()))
    }
}

/// The identity an added source is stored under: its URL or its path.
pub open spec fn add_identity_spec(input: AddInputV) -> Seq<char> {
    match input {
        AddInputV::GitUrl(u) => u,
        AddInputV::LocalPath(p) => p,
    }
}

/// The checks of a `marketplace add` before anything is probed or written,
/// in order: a local path must be a directory, the managed allowlist must
/// not block the source, and the source must not be configured already.
/// On success, the identity to store.
pub open spec fn add_check_spec(
    input: AddInputV,
    local_is_dir: bool,
    block_reason: Option<Seq<char>>,
    already_configured: bool,
) -> Result<Seq<char>, Seq<char>> {
    if input is LocalPath && !local_is_dir {
        Err("Local marketplace path not found (or is not a directory): "@ + add_identity_spec(input))
    } else if block_reason is Some {
        Err("Marketplace source blocked: "@ + block_reason->0)
    } else if already_configured {
        Err("Marketplace source already configured: "@ + add_identity_spec(input))
    } else {
        Ok(add_identity_spec(input))
    }
}

/// Runs the checks of `marketplace add` on what was read: whether a local
/// path is a directory, the allowlist's block reason for the identity, and
/// whether the source is configured already.
pub fn marketplace_add_check(
    input: &MarketplaceAddInput,
    local_is_dir: bool,
    block_reason: &Option<String>,
    already_configured: bool,
) -> (r: Result<String, String>)
    ensures
        match (r, add_check_spec(
            input@,
            local_is_dir,
            match block_reason {
                Some(b) => Some(b@),
                None => None,
            },
            already_configured,
        )) {
            (Ok(a), Ok(b)) => a@ == b,
            (Err(a), Err(b)) => a@ == b,
            _ => false,
        },
{
    let identity = match input {
        MarketplaceAddInput::GitUrl(u) => u.clone(),
        MarketplaceAddInput::LocalPath(p) => p.clone(),
    };
    let is_local = match input {
        MarketplaceAddInput::LocalPath(_) => true,
        MarketplaceAddInput::GitUrl(_) => false,
    };
    if is_local && !local_is_dir {
        return Err(concat2("Local marketplace path not found (or is not a directory): ", identity.as_str()));
    }
    match block_reason {
        Some(reason) => {
            return Err(concat2("Marketplace source blocked: ", reason.as_str()));
        },
        None => {},
    }
    if already_configured {
        return Err(concat2("Marketplace source already configured: ", identity.as_str()));
    }
    Ok(identity)
}

/// Whether an added source is configured already: a git URL matches a git
/// source with the same normalized URL (`input_norm` and `url_norms` are
/// the normalized forms), a path matches a local source with that path.
pub open spec fn already_configured_spec(
    input: AddInputV,
    input_norm: Seq<char>,
    existing: Seq<MarketplaceSource>,
    url_norms: Seq<String>,
) -> bool {
    exists|i: int|
        0 <= i < existing.len() && #[trigger] configured_match(input, input_norm, existing, url_norms, i)
}

/// Source `i` is the one being added.
pub open spec fn configured_match(
    input: AddInputV,
    input_norm: Seq<char>,
    existing: Seq<MarketplaceSource>,
    url_norms: Seq<String>,
    i: int,
) -> bool {
    match (input, existing[i].kind) {
        (AddInputV::GitUrl(_), SourceKind::Git { .. }) => url_norms[i]@ == input_norm,
        (AddInputV::LocalPath(p), SourceKind::Local { path }) => path@ == p,
        _ => false,
    }
}

/// Dedup of `marketplace add` against every configured source.
pub fn marketplace_already_configured(
    input: &MarketplaceAddInput,
    input_norm: &str,
    existing: &Vec<MarketplaceSource>,
    url_norms: &Vec<String>,
) -> (r: bool)
    requires
        url_norms@.len() == existing@.len(),
    ensures
        r == already_configured_spec(input@, input_norm@, existing@, url_norms@),
{
    let want = owned(input_norm);
    let mut i: usize = 0;
    while i < existing.len()
        invariant
            i <= existing@.len(),
            url_norms@.len() == existing@.len(),
            want@ == input_norm@,
            forall|k: int| 0 <= k < i ==> !configured_match(input@, input_norm@, existing@, url_norms@, k),
        decreases existing@.len() - i,
    {
        let hit = match (input, &existing[i].kind) {
            (MarketplaceAddInput::GitUrl(_), SourceKind::Git { .. }) => str_eq(&url_norms[i], &want),
            (MarketplaceAddInput::LocalPath(p), SourceKind::Local { path }) => str_eq(path, p),
            _ => false,
        };
        if hit {
            assert(configured_match(input@, input_norm@, existing@, url_norms@, i as int));
            return true;
        }
        i += 1;
    }
    false
}

/// Whether `marketplace add` probes the remote before adding: only a git
/// URL, and only without `--force`.
pub fn marketplace_add_needs_probe(input: &MarketplaceAddInput, force: bool) -> (r: bool)
    ensures
        r == (!force && input@ is GitUrl),
{
    !force && match input {
        MarketplaceAddInput::GitUrl(_) => true,
        MarketplaceAddInput::LocalPath(_) => false,
    }
}

/// The error when the probe fails: the probe's error, then why the URL is
/// not added and how to add it anyway.
pub open spec fn probe_failure_spec(error: Seq<char>, url: Seq<char>) -> Seq<char> {
    error + "\nNot adding \""@ + url
        + "\": it doesn't look like a reachable git repository. Re-run with --force to add it anyway (e.g. a host only reachable on VPN)."@
}

/// The probe failure error of `marketplace add`.
pub fn marketplace_probe_failure(error: &str, url: &str) -> (r: String)
    ensures
        r@ == probe_failure_spec(error@, url@),
{
    let mut m = chars_of(error);
    extend_str(&mut m, "\nNot adding \"");
    extend_str(&mut m, url);
    extend_str(
        &mut m,
        "\": it doesn't look like a reachable git repository. Re-run with --force to add it anyway (e.g. a host only reachable on VPN).",
    );
    string_of(m.as_slice())
}

/// Display name of the official marketplace.
pub open spec fn official_source_name() -> Seq<char> {
    "xAI Official"@
}

/// The name an added source gets: the official name for the official git
/// URL, else the last segment of the URL or path.
pub open spec fn add_name_spec(input: AddInputV, is_official: bool) -> Seq<char> {
    match input {
        AddInputV::GitUrl(u) => if is_official {
            official_source_name()
        } else {
            name_from_url_spec(u)
        },
        AddInputV::LocalPath(p) => name_from_path_spec(p),
    }
}

/// The display name of an added source; `is_official` is whether its URL
/// is the official marketplace's.
pub fn marketplace_add_name(input: &MarketplaceAddInput, is_official: bool) -> (r: String)
    ensures
        r@ == add_name_spec(input@, is_official),
{
    match input {
        MarketplaceAddInput::GitUrl(u) => if is_official {
            owned("xAI Official")
        } else {
            name_from_url(u.as_str())
        },
        MarketplaceAddInput::LocalPath(p) => name_from_path(p.as_str()),
    }
}

/// The confirmation of `marketplace add`.
pub fn marketplace_added_message(name: &str, identity: &str) -> (r: String)
    ensures
        r@ == "Added marketplace source: "@ + name@ + " ("@ + identity@ + ")"@,
{
    let mut m = chars_of("Added marketplace source: ");
    extend_str(&mut m, name);
    extend_str(&mut m, " (");
    extend_str(&mut m, identity);
    extend_str(&mut m, ")");
    string_of(m.as_slice())
}

/// Source `s` is among those `marketplace update` considers: every source,
/// or the one named by the filter.
pub open spec fn update_selected(s: MarketplaceSource, name: Option<Seq<char>>) -> bool {
    match name {
        Some(n) => s.name@ == n,
        None => true,
    }
}

/// Positions of the git sources `marketplace update` syncs among the first
/// `n`, in order.
pub open spec fn update_targets_spec(sources: Seq<MarketplaceSource>, name: Option<Seq<char>>, n: int) -> Seq<usize>
    decreases n,
{
    if n <= 0 {
        Seq::empty()
    } else {
        let rest = update_targets_spec(sources, name, n - 1);
        if update_selected(sources[n - 1], name) && sources[n - 1].kind is Git {
            rest.push((n - 1) as usize)
        } else {
            rest
        }
    }
}

/// The git sources `marketplace update` syncs, and whether the filter, when
/// given, named any source at all.
pub fn marketplace_update_targets(sources: &Vec<MarketplaceSource>, name: Option<&str>) -> (r: (
    Vec<usize>,
    bool,
))
    ensures
        r.0@ == update_targets_spec(
            sources@,
            match name {
                Some(n) => Some(n@),
                None => None,
            },
            sources@.len() as int,
        ),
        r.1 == (name is Some && exists|i: int|
            0 <= i < sources@.len() && #[trigger] sources@[i].name@ == name->0@),
{
    let ghost filter = match name {
        Some(n) => Some(n@),
        None => None,
    };
    let want: Option<String> = match name {
        Some(n) => Some(owned(n)),
        None => None,
    };
    let mut out: Vec<usize> = Vec::new();
    let mut matched = false;
    let mut i: usize = 0;
    while i < sources.len()
        invariant
            i <= sources@.len(),
            filter == match name {
                Some(n) => Some(n@),
                None => None,
            },
            match want {
                Some(w) => name is Some && w@ == name->0@,
                None => name is None,
            },
            out@ == update_targets_spec(sources@, filter, i as int),
            matched == (name is Some && exists|k: int|
                0 <= k < i && #[trigger] sources@[k].name@ == name->0@),
        decreases sources@.len() - i,
    {
        let selected = match &want {
            Some(w) => {
                let hit = str_eq(&sources[i].name, w);
                if hit {
                    matched = true;
                }
                hit
            },
            None => true,
        };
        let is_git = match &sources[i].kind {
            SourceKind::Git { .. } => true,
            SourceKind::Local { .. } => false,
        };
        if selected && is_git {
            out.push(i);
        }
        proof {
            if name is Some && exists|k: int| 0 <= k < i + 1 && #[trigger] sources@[k].name@ == name->0@ {
                let k = choose|k: int| 0 <= k < i + 1 && #[trigger] sources@[k].name@ == name->0@;
                if k < i {
                    assert(exists|q: int| 0 <= q < i && #[trigger] sources@[q].name@ == name->0@);
                }
            }
        }
        i += 1;
    }
    (out, matched)
}

/// The line printed for a synced source.
pub fn marketplace_synced_line(name: &str) -> (r: String)
    ensures
        r@ == "  "@ + name@ + ": synced"@,
{
    let mut m = chars_of("  ");
    extend_str(&mut m, name);
    extend_str(&mut m, ": synced");
    string_of(m.as_slice())
}

/// The error recorded for a source that failed to sync.
pub fn marketplace_sync_error(name: &str, error: &str) -> (r: String)
    ensures
        r@ == name@ + ": "@ + error@,
{
    let mut m = chars_of(name);
    extend_str(&mut m, ": ");
    extend_str(&mut m, error);
    string_of(m.as_slice())
}

/// Where the summary of `marketplace update` goes.
pub enum UpdateReport {
    Stdout(String),
    Stderr(String),
}

/// View of an [`UpdateReport`]: whether it goes to standard error, and its
/// text.
pub open spec fn report_view(r: UpdateReport) -> (bool, Seq<char>) {
    match r {
        UpdateReport::Stdout(t) => (false, t@),
        UpdateReport::Stderr(t) => (true, t@),
    }
}

/// The summary of `marketplace update`: with nothing synced and no error,
/// a named local source has nothing to sync, an unknown name is an error,
/// and without a name nothing is configured; otherwise the count synced,
/// with the errors joined on standard error when there were any.
pub open spec fn update_report_spec(
    name: Option<Seq<char>>,
    name_matched: bool,
    refreshed: nat,
    errors: Seq<Seq<char>>,
) -> Result<(bool, Seq<char>), Seq<char>> {
    if refreshed == 0 && errors.len() == 0 {
        match name {
            Some(f) => if name_matched {
                Ok((false, "Source \""@ + f + "\" is local, nothing to sync."@))
            } else {
                Err("Marketplace source \""@ + f + "\" not found."@)
            },
            None => Ok((false, "No marketplace sources configured."@)),
        }
    } else if errors.len() == 0 {
        Ok((false, "Refreshed "@ + dec(refreshed) + " source(s)."@))
    } else {
        Ok(
            (
                true,
                "Refreshed "@ + dec(refreshed) + " source(s) with "@ + dec(errors.len())
                    + " error(s): "@ + join(errors, "; "@),
            ),
        )
    }
}

/// The summary printed, or the error returned, after `marketplace update`.
pub fn marketplace_update_report(
    name: Option<&str>,
    name_matched: bool,
    refreshed: usize,
    errors: &Vec<String>,
) -> (r: Result<UpdateReport, String>)
    ensures
        match (
            r,
            update_report_spec(
                match name {
                    Some(n) => Some(n@),
                    None => None,
                },
                name_matched,
                refreshed as nat,
                strs(errors@),
            ),
        ) {
            (Ok(a), Ok(b)) => report_view(a) == b,
            (Err(a), Err(b)) => a@ == b,
            _ => false,
        },
{
    if refreshed == 0 && errors.len() == 0 {
        return match name {
            Some(f) => if name_matched {
                let mut m = chars_of("Source \"");
                extend_str(&mut m, f);
                extend_str(&mut m, "\" is local, nothing to sync.");
                Ok(UpdateReport::Stdout(string_of(m.as_slice())))
            } else {
                let mut m = chars_of("Marketplace source \"");
                extend_str(&mut m, f);
                extend_str(&mut m, "\" not found.");
                Err(string_of(m.as_slice()))
            },
            None => Ok(UpdateReport::Stdout(owned("No marketplace sources configured."))),
        };
    }
    let mut m = chars_of("Refreshed ");
    extend(&mut m, dec_chars(refreshed as u64).as_slice());
    if errors.len() == 0 {
        extend_str(&mut m, " source(s).");
        return Ok(UpdateReport::Stdout(string_of(m.as_slice())));
    }
    extend_str(&mut m, " source(s) with ");
    extend(&mut m, dec_chars(errors.len() as u64).as_slice());
    extend_str(&mut m, " error(s): ");
    let parts = char_vecs(errors);
    let sep = chars_of("; ");
    extend(&mut m, join_exec(&parts, sep.as_slice()).as_slice());
    Ok(UpdateReport::Stderr(string_of(m.as_slice())))
}

/// Source `s` survives the managed allowlist: every source when the
/// allowlist is unrestricted; otherwise local sources, and git sources whose
/// URL it allows.
pub open spec fn survives_allowlist(s: MarketplaceSource, restricted: bool, allowed: bool) -> bool {
    !restricted || s.kind is Local || allowed
}

/// The sources among the first `n` that survive the allowlist, in order.
pub open spec fn filtered_upto(sources: Seq<MarketplaceSource>, restricted: bool, url_allowed: Seq<bool>, n: int) -> Seq<
    MarketplaceSource,
>
    decreases n,
{
    if n <= 0 {
        Seq::empty()
    } else {
        let rest = filtered_upto(sources, restricted, url_allowed, n - 1);
        if survives_allowlist(sources[n - 1], restricted, url_allowed[n - 1]) {
            rest.push(sources[n - 1])
        } else {
            rest
        }
    }
}

/// Drops the git sources a restricted managed allowlist blocks, so install
/// paths cannot bypass the policy; `url_allowed` holds the allowlist's
/// verdict for each source's URL.
pub fn filter_sources_by_allowlist(sources: Vec<MarketplaceSource>, restricted: bool, url_allowed: &Vec<bool>) -> (r:
    Vec<MarketplaceSource>)
    requires
        url_allowed@.len() == sources@.len(),
    ensures
        r@ == filtered_upto(sources@, restricted, url_allowed@, sources@.len() as int),
{
    let ghost all = sources@;
    let mut rest = sources;
    let mut out: Vec<MarketplaceSource> = Vec::new();
    let total = rest.len();
    let mut i: usize = 0;
    while i < total
        invariant
            i <= total,
            total == all.len(),
            url_allowed@.len() == all.len(),
            rest@ == all.subrange(i as int, all.len() as int),
            out@ == filtered_upto(all, restricted, url_allowed@, i as int),
        decreases total - i,
    {
        let s = rest.remove(0);
        assert(s == all[i as int]);
        let keep = !restricted || match &s.kind {
            SourceKind::Local { .. } => true,
            SourceKind::Git { .. } => url_allowed[i],
        };
        if keep {
            out.push(s);
        }
        assert(all.subrange(i as int, all.len() as int).drop_first() =~= all.subrange(
            i + 1,
            all.len() as int,
        ));
        i += 1;
    }
    out
}

/// Whether source `s` is a git source with URL `url`.
pub open spec fn is_git_source_at(s: MarketplaceSource, url: Seq<char>) -> bool {
    s.kind matches SourceKind::Git { url: u, .. } && u@ == url
}

/// The URL and branch of the first configured git source whose URL is
/// `source_url_or_path`; `None` when no git source has it.
pub fn configured_marketplace_git_source(sources: &Vec<MarketplaceSource>, source_url_or_path: &str) -> (r:
    Option<(String, Option<String>)>)
    ensures
        r is None <==> forall|i: int| 0 <= i < sources@.len() ==> !is_git_source_at(
            #[trigger] sources@[i],
            source_url_or_path@,
        ),
        r is Some ==> exists|i: int|
            0 <= i < sources@.len() && is_git_source_at(#[trigger] sources@[i], source_url_or_path@) && (
            forall|j: int| 0 <= j < i ==> !is_git_source_at(#[trigger] sources@[j], source_url_or_path@))
                && match sources@[i].kind {
                SourceKind::Git { url, branch } => {
                    let (got_url, got_branch) = r->0;
                    &&& got_url@ == url@
                    &&& match (got_branch, branch) {
                        (Some(a), Some(b)) => a@ == b@,
                        (None, None) => true,
                        _ => false,
                    }
                },
                SourceKind::Local { .. } => false,
            },
{
    let wanted = owned(source_url_or_path);
    let mut i: usize = 0;
    while i < sources.len()
        invariant
            i <= sources@.len(),
            wanted@ == source_url_or_path@,
            forall|j: int| 0 <= j < i ==> !is_git_source_at(#[trigger] sources@[j], source_url_or_path@),
        decreases sources@.len() - i,
    {
        match &sources[i].kind {
            SourceKind::Git { url, branch } => {
                if str_eq(url, &wanted) {
                    let b = match branch {
                        Some(b) => Some(b.clone()),
                        None => None,
                    };
                    return Some((url.clone(), b));
                }
            },
            SourceKind::Local { .. } => {},
        }
        i = i + 1;
    }
    None
}

} // verus!
