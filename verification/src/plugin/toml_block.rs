//! Removal of a `[[marketplace.sources]]` entry from the user's config
//! file, through `toml_edit` so the rest of the file keeps its formatting.

use vstd::prelude::*;
use crate::paths::{expand_tilde, expand_tilde_chars, normalize_chars, normalize_path, trim_end_suffix, trim_end_suffix_chars};
use crate::responses::slots::{first_match, lemma_first_match_is};
use crate::text::{chars_eq, chars_of};
use crate::responses::model::opt_view;

verus! {

#[verifier::external_type_specification]
#[verifier::external_body]
pub struct ExDocumentMut(toml_edit::DocumentMut);

/// Whether `toml_edit` parses `content` as a document.
pub uninterp spec fn toml_parses(content: Seq<char>) -> bool;

/// The entries of the array of tables `marketplace.sources`, each as its
/// `git` and `path` string values, in file order.
pub uninterp spec fn toml_sources(doc: toml_edit::DocumentMut) -> Seq<
    (Option<Seq<char>>, Option<Seq<char>>),
>;

/// Whether `marketplace.sources` is an array of tables.
pub uninterp spec fn toml_sources_present(doc: toml_edit::DocumentMut) -> bool;

/// The keys of the `marketplace` table, when `marketplace` is a table.
pub uninterp spec fn toml_marketplace_keys(doc: toml_edit::DocumentMut) -> Option<Set<Seq<char>>>;

/// The `marketplace.sources` entries of the document `content` parses to
/// (as [`toml_sources`] lists them), or `None` when that document has no
/// such array of tables.
pub uninterp spec fn toml_text_sources(content: Seq<char>) -> Option<
    Seq<(Option<Seq<char>>, Option<Seq<char>>)>,
>;

/// The keys of the `marketplace` table of the document `content` parses
/// to (as [`toml_marketplace_keys`] gives them).
pub uninterp spec fn toml_text_marketplace_keys(content: Seq<char>) -> Option<Set<Seq<char>>>;

/// Parses a document (`<toml_edit::DocumentMut as FromStr>::from_str`); the
/// result is `Some` exactly when the text parses. Parsing is a function of
/// the text, so the parsed document's sources are those of the text.
#[verifier::external_body]
fn parse_document(content: &str) -> (r: Option<toml_edit::DocumentMut>)
    ensures
        r is Some == toml_parses(content@),
        r matches Some(d) ==> (toml_sources_present(d) == toml_text_sources(content@) is Some),
        r matches Some(d) ==> (toml_sources_present(d) ==> toml_text_sources(content@) == Some(
            toml_sources(d),
        )),
        r matches Some(d) ==> toml_marketplace_keys(d) == toml_text_marketplace_keys(content@),
{
    content.parse::<toml_edit::DocumentMut>().ok()
}

/// The `git` and `path` string values of each table that
/// `doc["marketplace"]["sources"]` holds as an array of tables (read with
/// `Table::get`, `Item::get`, `Item::as_array_of_tables`,
/// `ArrayOfTables::iter` and `Item::as_str`); `None` when there is no such
/// array of tables.
#[verifier::external_body]
fn read_sources(doc: &toml_edit::DocumentMut) -> (r: Option<Vec<(Option<String>, Option<String>)>>)
    ensures
        r is Some == toml_sources_present(*doc),
        r is Some ==> r->0.deep_view() == toml_sources(*doc),
{
    let tables = doc.get("marketplace")?.get("sources")?.as_array_of_tables()?;
    let mut out = Vec::new();
    for t in tables.iter() {
        let git = t.get("git").and_then(|v| v.as_str()).map(|s| s.to_string());
        let path = t.get("path").and_then(|v| v.as_str()).map(|s| s.to_string());
        out.push((git, path));
    }
    Some(out)
}

/// Removes table `idx` of `marketplace.sources` (`ArrayOfTables::remove`,
/// reached through `Table::get_mut`, `Item::get_mut` and
/// `Item::as_array_of_tables_mut`). The contract takes the array's tables to
/// be exactly the entries `toml_sources` lists, as they are in every parsed
/// document.
#[verifier::external_body]
fn remove_source_at(doc: &mut toml_edit::DocumentMut, idx: usize)
    requires
        toml_sources_present(*old(doc)),
        idx < toml_sources(*old(doc)).len(),
    ensures
        toml_sources_present(*final(doc)),
        toml_sources(*final(doc)) == toml_sources(*old(doc)).remove(idx as int),
        toml_marketplace_keys(*final(doc)) == toml_marketplace_keys(*old(doc)),
{
    if let Some(a) = doc.get_mut("marketplace").and_then(|m| m.get_mut("sources")).and_then(
        |s| s.as_array_of_tables_mut(),
    ) {
        a.remove(idx);
    }
}

/// Removes the `sources` key of the `marketplace` table (`Table::remove`,
/// reached through `Table::get_mut` and `Item::as_table_mut`).
#[verifier::external_body]
fn drop_sources_key(doc: &mut toml_edit::DocumentMut)
    requires
        toml_sources_present(*old(doc)),
    ensures
        !toml_sources_present(*final(doc)),
        toml_marketplace_keys(*final(doc)) == (match toml_marketplace_keys(*old(doc)) {
            Some(k) => Some(k.remove("sources"@)),
            None => None,
        }),
{
    if let Some(m) = doc.get_mut("marketplace").and_then(|m| m.as_table_mut()) {
        m.remove("sources");
    }
}

/// Whether `marketplace` is a table without keys (`Table::is_empty`,
/// reached through `Table::get` and `Item::as_table`).
#[verifier::external_body]
fn marketplace_is_empty(doc: &toml_edit::DocumentMut) -> (r: bool)
    ensures
        r == (match toml_marketplace_keys(*doc) {
            Some(k) => k == Set::<Seq<char>>::empty(),
            None => false,
        }),
{
    doc.get("marketplace").and_then(|m| m.as_table()).is_some_and(|t| t.is_empty())
}

/// Removes the `marketplace` key of the document (`Table::remove`).
#[verifier::external_body]
fn drop_marketplace(doc: &mut toml_edit::DocumentMut)
    ensures
        !toml_sources_present(*final(doc)),
        toml_marketplace_keys(*final(doc)) is None,
{
    doc.remove("marketplace");
}

/// The text `DocumentMut`'s `Display` writes for a document: a function of
/// the document alone.
pub uninterp spec fn toml_rendered(doc: toml_edit::DocumentMut) -> Seq<char>;

/// The document as text (`DocumentMut`'s `Display`), its
/// formatting-preserving rendering.
#[verifier::external_body]
fn render_document(doc: &toml_edit::DocumentMut) -> (r: String)
    ensures
        r@ == toml_rendered(*doc),
{
    doc.to_string()
}

/// An entry names the source `identity`: a `git` entry when both URLs agree
/// up to trailing `.git`; otherwise a `path` entry when it is the identity
/// itself or, with `~` expanded, the same path.
pub open spec fn entry_matches(identity: Seq<char>, home: Option<Seq<char>>) -> spec_fn(
    (Option<Seq<char>>, Option<Seq<char>>),
) -> bool {
    |e: (Option<Seq<char>>, Option<Seq<char>>)|
        match e.0 {
            Some(g) => trim_end_suffix(g, ".git"@) == trim_end_suffix(identity, ".git"@),
            None => match e.1 {
                Some(p) => p == identity || normalize_path(expand_tilde(p, home)) == normalize_path(
                    identity,
                ),
                None => false,
            },
        }
}

/// Whether one entry names the source.
fn matches_entry(
    e: &(Option<String>, Option<String>),
    identity: &Vec<char>,
    identity_trimmed: &Vec<char>,
    identity_norm: &Vec<char>,
    home: &Option<Vec<char>>,
) -> (r: bool)
    requires
        identity_trimmed@ == trim_end_suffix(identity@, ".git"@),
        identity_norm@ == normalize_path(identity@),
    ensures
        r == entry_matches(
            identity@,
            match home {
                Some(h) => Some(h@),
                None => None,
            },
        )(e.deep_view()),
{
    match &e.0 {
        Some(g) => {
            let gc = chars_of(g.as_str());
            let suffix = chars_of(".git");
            let gt = trim_end_suffix_chars(gc.as_slice(), suffix.as_slice());
            chars_eq(gt.as_slice(), identity_trimmed.as_slice())
        },
        None => match &e.1 {
            Some(p) => {
                let pc = chars_of(p.as_str());
                if chars_eq(pc.as_slice(), identity.as_slice()) {
                    return true;
                }
                let expanded = expand_tilde_chars(pc.as_slice(), home);
                let n = normalize_chars(expanded.as_slice());
                chars_eq(n.as_slice(), identity_norm.as_slice())
            },
            None => false,
        },
    }
}

/// Removes the first `[[marketplace.sources]]` entry naming `identity`
/// (see [`entry_matches`]); when that empties the array, the `sources` key
/// is dropped, and the `marketplace` table too when no other key is left.
/// Returns whether an entry was removed; the document is unchanged when
/// none was.
pub fn remove_source_entry(
    doc: &mut toml_edit::DocumentMut,
    identity: &str,
    home: &Option<String>,
) -> (removed: bool)
    ensures
        ({
            let s = toml_sources(*old(doc));
            let hv = opt_view(*home);
            let i = first_match(s, entry_matches(identity@, hv));
            let rest = s.remove(i);
            &&& removed == (toml_sources_present(*old(doc)) && i < s.len())
            &&& !removed ==> *final(doc) == *old(doc)
            &&& removed && rest.len() > 0 ==> toml_sources_present(*final(doc)) && toml_sources(
                *final(doc),
            ) == rest && toml_marketplace_keys(*final(doc)) == toml_marketplace_keys(*old(doc))
            &&& removed && rest.len() == 0 ==> !toml_sources_present(*final(doc)) && (match toml_marketplace_keys(*old(doc)) {
                Some(k) => if k.remove("sources"@) == Set::<Seq<char>>::empty() {
                    toml_marketplace_keys(*final(doc)) is None
                } else {
                    toml_marketplace_keys(*final(doc)) == Some(k.remove("sources"@))
                },
                None => toml_marketplace_keys(*final(doc)) is None,
            })
        }),
{
    let ghost hv = opt_view(*home);
    let entries = match read_sources(doc) {
        Some(v) => v,
        None => {
            return false;
        },
    };
    let id = chars_of(identity);
    let suffix = chars_of(".git");
    let id_trimmed = trim_end_suffix_chars(id.as_slice(), suffix.as_slice());
    let id_norm = normalize_chars(id.as_slice());
    let h: Option<Vec<char>> = match home {
        Some(x) => Some(chars_of(x.as_str())),
        None => None,
    };
    let ghost s = entries.deep_view();
    let ghost f = entry_matches(identity@, hv);
    let mut i: usize = 0;
    while i < entries.len()
        invariant
            i <= entries@.len(),
            s == entries.deep_view(),
            s.len() == entries@.len(),
            f == entry_matches(identity@, hv),
            id@ == identity@,
            id_trimmed@ == trim_end_suffix(id@, ".git"@),
            id_norm@ == normalize_path(id@),
            hv == (match h {
                Some(x) => Some(x@),
                None => None,
            }),
            hv == opt_view(*home),
            forall|q: int| 0 <= q < i ==> !f(s[q]),
            *doc == *old(doc),
            toml_sources_present(*doc),
            toml_sources(*doc) == s,
        decreases entries@.len() - i,
    {
        if matches_entry(&entries[i], &id, &id_trimmed, &id_norm, &h) {
            proof {
                lemma_first_match_is(s, f, i as int);
            }
            remove_source_at(doc, i);
            let now_empty = match read_sources(doc) {
                Some(v) => v.len() == 0,
                None => false,
            };
            if now_empty {
                drop_sources_key(doc);
                if marketplace_is_empty(doc) {
                    drop_marketplace(doc);
                }
            }
            return true;
        }
        i += 1;
    }
    proof {
        lemma_first_match_is(s, f, i as int);
    }
    false
}

/// Some entry of the sources of `content` names `identity`, `~` standing
/// for `home`.
pub open spec fn text_has_entry(content: Seq<char>, identity: Seq<char>, home: Option<Seq<char>>) -> bool {
    match toml_text_sources(content) {
        Some(s) => first_match(s, entry_matches(identity, home)) < s.len(),
        None => false,
    }
}

/// `after` is the document of `content` with the first source entry
/// naming `identity` removed (`~` standing for `home`): the other entries
/// stay in order with the table's other keys; an emptied `sources` array
/// goes, and the `marketplace` table with it when no key is left.
pub open spec fn removal_leaves(
    content: Seq<char>,
    identity: Seq<char>,
    home: Option<Seq<char>>,
    after: toml_edit::DocumentMut,
) -> bool {
    let s = toml_text_sources(content)->0;
    let rest = s.remove(first_match(s, entry_matches(identity, home)));
    let keys = toml_text_marketplace_keys(content);
    &&& rest.len() > 0 ==> toml_sources_present(after) && toml_sources(after) == rest
        && toml_marketplace_keys(after) == keys
    &&& rest.len() == 0 ==> !toml_sources_present(after) && match keys {
        Some(k) => if k.remove("sources"@) == Set::<Seq<char>>::empty() {
            toml_marketplace_keys(after) is None
        } else {
            toml_marketplace_keys(after) == Some(k.remove("sources"@))
        },
        None => toml_marketplace_keys(after) is None,
    }
}

/// Remove a `[[marketplace.sources]]` entry matching `git` or `path`.
/// Returns `Some(new_content)` on removal: the rendering of the document
/// with that entry removed. `None` if not found or unparseable. `~` in a
/// `path` entry stands for the user's home directory as read during the
/// call.
pub fn remove_toml_marketplace_block(content: &str, source_identity: &str) -> (r: Option<String>)
    ensures
        !toml_parses(content@) ==> r is None,
        toml_parses(content@) && (forall|home: Option<Seq<char>>|
            text_has_entry(content@, source_identity@, home)) ==> r is Some,
        r matches Some(t) ==> exists|home: Option<Seq<char>>, after: toml_edit::DocumentMut|
            #![trigger removal_leaves(content@, source_identity@, home, after)]
            text_has_entry(content@, source_identity@, home) && removal_leaves(
                content@,
                source_identity@,
                home,
                after,
            ) && t@ == toml_rendered(after),
{
    let mut doc = match parse_document(content) {
        Some(d) => d,
        None => {
            return None;
        },
    };
    let home = super::names::home_dir();
    let ghost hv = opt_view(home);
    let removed = remove_source_entry(&mut doc, source_identity, &home);
    assert(removed == text_has_entry(content@, source_identity@, hv));
    if removed {
        let t = render_document(&doc);
        assert(removal_leaves(content@, source_identity@, hv, doc));
        Some(t)
    } else {
        None
    }
}

} // verus!
