//! Selection of the marketplace source and entry a plugin reference names.
//!
//! The marketplace crate resolves qualifiers, scans sources and ranks
//! bare-name matches; these functions take those results and decide what is
//! installed, or which error the user sees.

use vstd::prelude::*;
use super::errors::{strs, MarketplaceInstallError, MarketplaceInstallOutcome};
use crate::text::{chars_of, dec, dec_chars, eq_ignore_case, eq_ignore_case_exec, extend, extend_str, string_of};

verus! {

/// What the plan reads of a registered marketplace source.
pub struct SourceInfo {
    /// Display name.
    pub name: String,
    /// Addressable qualifier (`owner/repo`, `local/<slug>`, `git/<slug>`).
    pub qualifier: String,
    /// A git source whose URL is the official marketplace.
    pub official: bool,
}

/// Why a qualifier did not resolve to one source.
pub enum QualifierResolveError {
    Unknown,
    /// Positions of the sources the qualifier matches.
    Ambiguous(Vec<usize>),
}

/// The ranked choice among bare-name matches.
pub struct BareSelection {
    /// Position of the chosen match in the scanned list.
    pub chosen: usize,
    /// How many other sources offer the name.
    pub other_count: usize,
}

/// Why a bare name did not select one entry.
pub enum BareNameError {
    NotFound,
    /// Positions of the matches in the scanned list.
    Ambiguous(Vec<usize>),
}

/// The source and entry to install.
pub struct InstallPlan {
    pub source_index: usize,
    /// Position of the entry in its source's scan.
    pub entry_index: usize,
    pub other_copies_note: Option<String>,
    /// Sources skipped during a bare-name scan because they failed to sync.
    pub skipped_sources: Vec<String>,
}

/// `name (qualifier)`.
pub open spec fn registered_label_spec(s: &SourceInfo) -> Seq<char> {
    s.name@ + " ("@ + s.qualifier@ + ")"@
}

/// `source (pin: name@qualifier)`.
pub open spec fn candidate_label_spec(s: &SourceInfo, name: Seq<char>) -> Seq<char> {
    s.name@ + " (pin: "@ + name + "@"@ + s.qualifier@ + ")"@
}

/// Label of a registered source in an unknown-qualifier error.
pub fn registered_source_label(source: &SourceInfo) -> (r: String)
    ensures
        r@ == registered_label_spec(source),
{
    let mut r: Vec<char> = Vec::new();
    extend_str(&mut r, source.name.as_str());
    extend_str(&mut r, " (");
    extend_str(&mut r, source.qualifier.as_str());
    extend_str(&mut r, ")");
    string_of(r.as_slice())
}

/// Label of a candidate source in an ambiguous-name error, with the pin
/// that selects it.
pub fn candidate_label(source: &SourceInfo, name: &str) -> (r: String)
    ensures
        r@ == candidate_label_spec(source, name@),
{
    let mut r: Vec<char> = Vec::new();
    extend_str(&mut r, source.name.as_str());
    extend_str(&mut r, " (pin: ");
    extend_str(&mut r, name);
    extend_str(&mut r, "@");
    extend_str(&mut r, source.qualifier.as_str());
    extend_str(&mut r, ")");
    string_of(r.as_slice())
}

/// The error for a qualifier that names no source, or several: the
/// registered sources' labels, or the names of the matching sources.
pub open spec fn qualifier_error_ok(
    sources: Seq<SourceInfo>,
    qualifier: Seq<char>,
    e: &QualifierResolveError,
    r: &MarketplaceInstallError,
) -> bool {
    match e {
        QualifierResolveError::Unknown => match r {
            MarketplaceInstallError::UnknownQualifier { qualifier: q, registered } => q@
                == qualifier && strs(registered@) == sources.map_values(
                |s: SourceInfo| registered_label_spec(&s),
            ),
            _ => false,
        },
        QualifierResolveError::Ambiguous(idx) => match r {
            MarketplaceInstallError::AmbiguousQualifier { qualifier: q, sources: names } => q@
                == qualifier && strs(names@) == idx@.map_values(|i: usize| sources[i as int].name@),
            _ => false,
        },
    }
}

/// Maps a qualifier resolution failure to the user-facing error.
pub fn map_qualifier_resolve_error(
    qualifier: &str,
    sources: &Vec<SourceInfo>,
    e: &QualifierResolveError,
) -> (r: MarketplaceInstallError)
    requires
        match e {
            QualifierResolveError::Ambiguous(idx) => forall|k: int|
                0 <= k < idx@.len() ==> idx@[k] < sources@.len(),
            _ => true,
        },
    ensures
        qualifier_error_ok(sources@, qualifier@, e, &r),
{
    match e {
        QualifierResolveError::Unknown => {
            let mut registered: Vec<String> = Vec::new();
            let mut i: usize = 0;
            while i < sources.len()
                invariant
                    i <= sources@.len(),
                    strs(registered@) == sources@.subrange(0, i as int).map_values(
                        |s: SourceInfo| registered_label_spec(&s),
                    ),
                decreases sources@.len() - i,
            {
                let l = registered_source_label(&sources[i]);
                let ghost before = strs(registered@);
                registered.push(l);
                assert(strs(registered@) =~= before.push(l@));
                i += 1;
                assert(strs(registered@) =~= sources@.subrange(0, i as int).map_values(
                    |s: SourceInfo| registered_label_spec(&s),
                ));
            }
            assert(sources@.subrange(0, sources@.len() as int) =~= sources@);
            MarketplaceInstallError::UnknownQualifier {
                qualifier: crate::text::owned(qualifier),
                registered,
            }
        },
        QualifierResolveError::Ambiguous(idx) => {
            let mut names: Vec<String> = Vec::new();
            let mut i: usize = 0;
            while i < idx.len()
                invariant
                    i <= idx@.len(),
                    forall|k: int| 0 <= k < idx@.len() ==> idx@[k] < sources@.len(),
                    strs(names@) == idx@.subrange(0, i as int).map_values(
                        |j: usize| sources@[j as int].name@,
                    ),
                decreases idx@.len() - i,
            {
                let n = sources[idx[i]].name.clone();
                let ghost before = strs(names@);
                names.push(n);
                assert(strs(names@) =~= before.push(n@));
                i += 1;
                assert(strs(names@) =~= idx@.subrange(0, i as int).map_values(
                    |j: usize| sources@[j as int].name@,
                ));
            }
            assert(idx@.subrange(0, idx@.len() as int) =~= idx@);
            MarketplaceInstallError::AmbiguousQualifier {
                qualifier: crate::text::owned(qualifier),
                sources: names,
            }
        },
    }
}

/// The display name of the source a qualifier resolved to.
pub fn resolve_qualified_source_name(
    sources: &Vec<SourceInfo>,
    qualifier: &str,
    resolved: &Result<usize, QualifierResolveError>,
) -> (r: Result<String, MarketplaceInstallError>)
    requires
        match resolved {
            Ok(i) => *i < sources@.len(),
            Err(QualifierResolveError::Ambiguous(idx)) => forall|k: int|
                0 <= k < idx@.len() ==> idx@[k] < sources@.len(),
            _ => true,
        },
    ensures
        match resolved {
            Ok(i) => r is Ok && r->Ok_0@ == sources@[*i as int].name@,
            Err(e) => r is Err && qualifier_error_ok(sources@, qualifier@, e, &r->Err_0),
        },
{
    match resolved {
        Ok(i) => Ok(sources[*i].name.clone()),
        Err(e) => Err(map_qualifier_resolve_error(qualifier, sources, e)),
    }
}

/// An entry name equal to `name` up to ASCII case.
pub open spec fn names(name: Seq<char>) -> spec_fn(Seq<char>) -> bool {
    |e: Seq<char>| eq_ignore_case(e, name)
}

/// Position of the first entry named `name` up to ASCII case.
pub open spec fn named_entry(entries: Seq<Seq<char>>, name: Seq<char>) -> int {
    crate::responses::slots::first_match(entries, names(name))
}

/// The plan for a pinned reference (see [`plan_qualified`]).
pub open spec fn qualified_plan_ok(
    sources: Seq<SourceInfo>,
    name: Seq<char>,
    index: usize,
    scan: Result<Vec<String>, String>,
    r: Result<InstallPlan, MarketplaceInstallError>,
) -> bool {
    match scan {
        Err(detail) => match r {
            Err(MarketplaceInstallError::Sync { source_display, detail: d }) => source_display@
                == sources[index as int].name@ && d@ == detail@,
            _ => false,
        },
        Ok(entries) => {
            let j = named_entry(strs(entries@), name);
            if j < entries@.len() {
                match r {
                    Ok(p) => p.source_index == index && p.entry_index == j
                        && p.other_copies_note is None && p.skipped_sources@.len() == 0,
                    _ => false,
                }
            } else {
                match r {
                    Err(MarketplaceInstallError::QualifiedNameNotFound { name: n, source_display }) =>
                        n@ == name && source_display@ == sources[index as int].name@,
                    _ => false,
                }
            }
        },
    }
}

/// Plan for a pinned reference, once the qualifier resolved to source
/// `index`: a failed scan is a sync error; the first entry named `name`
/// (ASCII case ignored) is installed, else the name is not in that source.
pub fn plan_qualified(
    sources: &Vec<SourceInfo>,
    name: &str,
    index: usize,
    scan: &Result<Vec<String>, String>,
) -> (r: Result<InstallPlan, MarketplaceInstallError>)
    requires
        index < sources@.len(),
    ensures
        qualified_plan_ok(sources@, name@, index, *scan, r),
{
    match scan {
        Err(detail) => Err(
            MarketplaceInstallError::Sync {
                source_display: sources[index].name.clone(),
                detail: detail.clone(),
            },
        ),
        Ok(entries) => {
            let want = chars_of(name);
            let ghost es = strs(entries@);
            let ghost f = names(name@);
            let mut j: usize = 0;
            while j < entries.len()
                invariant
                    j <= entries@.len(),
                    es == strs(entries@),
                    es.len() == entries@.len(),
                    want@ == name@,
                    index < sources@.len(),
                    f == names(name@),
                    forall|q: int| 0 <= q < j ==> !f(es[q]),
                    scan is Ok && scan->Ok_0 == *entries,
                decreases entries@.len() - j,
            {
                let e = chars_of(entries[j].as_str());
                if eq_ignore_case_exec(e.as_slice(), want.as_slice()) {
                    proof {
                        crate::responses::slots::lemma_first_match_is(es, f, j as int);
                    }
                    let plan = InstallPlan {
                        source_index: index,
                        entry_index: j,
                        other_copies_note: None,
                        skipped_sources: Vec::new(),
                    };
                    return Ok(plan);
                }
                j += 1;
            }
            proof {
                crate::responses::slots::lemma_first_match_is(es, f, j as int);
            }
            Err(
                MarketplaceInstallError::QualifiedNameNotFound {
                    name: crate::text::owned(name),
                    source_display: sources[index].name.clone(),
                },
            )
        },
    }
}

/// The scanned entries of a bare-name search, in source then entry order.
pub struct ScannedEntries {
    /// `(source position, entry position in that source's scan)`.
    pub owned: Vec<(usize, usize)>,
    /// Names of the sources whose scan failed, in source order.
    pub skipped: Vec<String>,
}

/// Entries of the scans from source `from` on, as `(source, entry)` pairs.
pub open spec fn owned_from(scans: Seq<Result<Vec<String>, String>>, n: int) -> Seq<(usize, usize)>
    decreases n,
{
    if n <= 0 {
        Seq::empty()
    } else {
        owned_from(scans, n - 1) + match scans[n - 1] {
            Ok(v) => Seq::new(v@.len(), |k: int| ((n - 1) as usize, k as usize)),
            Err(_) => Seq::empty(),
        }
    }
}

/// Names of the sources whose scan failed among the first `n`.
pub open spec fn skipped_from(
    sources: Seq<SourceInfo>,
    scans: Seq<Result<Vec<String>, String>>,
    n: int,
) -> Seq<Seq<char>>
    decreases n,
{
    if n <= 0 {
        Seq::empty()
    } else {
        skipped_from(sources, scans, n - 1) + match scans[n - 1] {
            Ok(_) => Seq::empty(),
            Err(_) => seq![sources[n - 1].name@],
        }
    }
}

/// Collects the scans of every source: the entries of each successful
/// scan, and the names of the sources that failed.
pub fn collect_scans(sources: &Vec<SourceInfo>, scans: &Vec<Result<Vec<String>, String>>) -> (r:
    ScannedEntries)
    requires
        scans@.len() == sources@.len(),
    ensures
        r.owned@ == owned_from(scans@, scans@.len() as int),
        strs(r.skipped@) == skipped_from(sources@, scans@, scans@.len() as int),
{
    let mut owned: Vec<(usize, usize)> = Vec::new();
    let mut skipped: Vec<String> = Vec::new();
    let mut i: usize = 0;
    while i < scans.len()
        invariant
            i <= scans@.len(),
            scans@.len() == sources@.len(),
            owned@ == owned_from(scans@, i as int),
            strs(skipped@) == skipped_from(sources@, scans@, i as int),
        decreases scans@.len() - i,
    {
        match &scans[i] {
            Ok(v) => {
                let ghost base = owned@;
                let mut k: usize = 0;
                while k < v.len()
                    invariant
                        k <= v@.len(),
                        owned@ == base + Seq::new(k as nat, |q: int| (i, q as usize)),
                    decreases v@.len() - k,
                {
                    owned.push((i, k));
                    k += 1;
                    assert(owned@ =~= base + Seq::new(k as nat, |q: int| (i, q as usize)));
                }
                assert(strs(skipped@) =~= skipped_from(sources@, scans@, i + 1));
            },
            Err(_) => {
                let ghost before = strs(skipped@);
                let n = sources[i].name.clone();
                skipped.push(n);
                assert(strs(skipped@) =~= before.push(n@));
                assert(owned@ =~= owned_from(scans@, i + 1));
            },
        }
        i += 1;
    }
    ScannedEntries { owned, skipped }
}

/// The note that other marketplaces offer the same name.
pub open spec fn other_copies_note_spec(name: Seq<char>, other_count: nat) -> Seq<char> {
    "Note: \""@ + name + "\" is also available from "@ + dec(other_count)
        + " other marketplace(s); pin a specific one with `"@ + name + "@<qualifier>`."@
}

/// The other-copies note.
fn other_copies_note(name: &str, other_count: usize) -> (r: String)
    ensures
        r@ == other_copies_note_spec(name@, other_count as nat),
{
    let mut r: Vec<char> = Vec::new();
    extend_str(&mut r, "Note: \"");
    extend_str(&mut r, name);
    extend_str(&mut r, "\" is also available from ");
    let d = dec_chars(other_count as u64);
    extend(&mut r, d.as_slice());
    extend_str(&mut r, " other marketplace(s); pin a specific one with `");
    extend_str(&mut r, name);
    extend_str(&mut r, "@<qualifier>`.");
    string_of(r.as_slice())
}

/// A copy of a list of strings.
fn copy_strings(v: &Vec<String>) -> (r: Vec<String>)
    ensures
        strs(r@) == strs(v@),
{
    let mut r: Vec<String> = Vec::new();
    let mut i: usize = 0;
    while i < v.len()
        invariant
            i <= v@.len(),
            strs(r@) == strs(v@).subrange(0, i as int),
        decreases v@.len() - i,
    {
        let s = v[i].clone();
        let ghost before = strs(r@);
        r.push(s);
        assert(strs(r@) =~= before.push(s@));
        i += 1;
        assert(strs(r@) =~= strs(v@).subrange(0, i as int));
    }
    assert(strs(v@).subrange(0, v@.len() as int) =~= strs(v@));
    r
}

/// Plan for a bare name, given the ranking of its matches: no match is a
/// not-found error, or a partial-scan error when a source was skipped;
/// several equally ranked matches are an ambiguity, or a partial scan when
/// a source was skipped; a chosen match is installed unless a source was
/// skipped and the choice is not the official marketplace. A note names how
/// many other marketplaces offer the name.
pub fn plan_bare(
    sources: &Vec<SourceInfo>,
    name: &str,
    scanned: &ScannedEntries,
    selection: &Result<BareSelection, BareNameError>,
) -> (r: Result<InstallPlan, MarketplaceInstallError>)
    requires
        forall|k: int| 0 <= k < scanned.owned@.len() ==> scanned.owned@[k].0 < sources@.len(),
        match selection {
            Ok(s) => s.chosen < scanned.owned@.len(),
            Err(BareNameError::Ambiguous(m)) => forall|k: int|
                0 <= k < m@.len() ==> m@[k] < scanned.owned@.len(),
            _ => true,
        },
    ensures
        ({
            let skipped = strs(scanned.skipped@);
            let partial = match r {
                Err(MarketplaceInstallError::PartialScan { name: n, skipped_sources }) => n@
                    == name@ && strs(skipped_sources@) == skipped,
                _ => false,
            };
            match selection {
                Err(BareNameError::NotFound) => if skipped.len() == 0 {
                    match r {
                        Err(MarketplaceInstallError::NameNotFound { name: n, skipped_sources }) =>
                            n@ == name@ && skipped_sources@.len() == 0,
                        _ => false,
                    }
                } else {
                    partial
                },
                Err(BareNameError::Ambiguous(m)) => if skipped.len() > 0 {
                    partial
                } else {
                    match r {
                        Err(MarketplaceInstallError::NameAmbiguous { name: n, candidates }) => n@
                            == name@ && strs(candidates@) == m@.map_values(
                            |i: usize|
                                candidate_label_spec(
                                    &sources@[scanned.owned@[i as int].0 as int],
                                    name@,
                                ),
                        ),
                        _ => false,
                    }
                },
                Ok(s) => {
                    let chosen = scanned.owned@[s.chosen as int];
                    if !sources@[chosen.0 as int].official && skipped.len() > 0 {
                        partial
                    } else {
                        match r {
                            Ok(p) => p.source_index == chosen.0 && p.entry_index == chosen.1
                                && strs(p.skipped_sources@) == skipped && (if s.other_count > 0 {
                                p.other_copies_note is Some && p.other_copies_note->0@
                                    == other_copies_note_spec(name@, s.other_count as nat)
                            } else {
                                p.other_copies_note is None
                            }),
                            _ => false,
                        }
                    }
                },
            }
        }),
{
    let skipped_empty = scanned.skipped.len() == 0;
    match selection {
        Err(BareNameError::NotFound) => {
            if skipped_empty {
                Err(
                    MarketplaceInstallError::NameNotFound {
                        name: crate::text::owned(name),
                        skipped_sources: Vec::new(),
                    },
                )
            } else {
                Err(
                    MarketplaceInstallError::PartialScan {
                        name: crate::text::owned(name),
                        skipped_sources: copy_strings(&scanned.skipped),
                    },
                )
            }
        },
        Err(BareNameError::Ambiguous(m)) => {
            if !skipped_empty {
                return Err(
                    MarketplaceInstallError::PartialScan {
                        name: crate::text::owned(name),
                        skipped_sources: copy_strings(&scanned.skipped),
                    },
                );
            }
            let ghost want = m@.map_values(
                |i: usize| candidate_label_spec(&sources@[scanned.owned@[i as int].0 as int], name@),
            );
            let mut candidates: Vec<String> = Vec::new();
            let mut i: usize = 0;
            while i < m.len()
                invariant
                    i <= m@.len(),
                    forall|k: int| 0 <= k < m@.len() ==> m@[k] < scanned.owned@.len(),
                    forall|k: int|
                        0 <= k < scanned.owned@.len() ==> scanned.owned@[k].0 < sources@.len(),
                    want == m@.map_values(
                        |i: usize|
                            candidate_label_spec(
                                &sources@[scanned.owned@[i as int].0 as int],
                                name@,
                            ),
                    ),
                    strs(candidates@) == want.subrange(0, i as int),
                decreases m@.len() - i,
            {
                let src = scanned.owned[m[i]].0;
                let l = candidate_label(&sources[src], name);
                let ghost before = strs(candidates@);
                candidates.push(l);
                assert(strs(candidates@) =~= before.push(l@));
                i += 1;
                assert(strs(candidates@) =~= want.subrange(0, i as int));
            }
            assert(want.subrange(0, want.len() as int) =~= want);
            Err(MarketplaceInstallError::NameAmbiguous { name: crate::text::owned(name), candidates })
        },
        Ok(s) => {
            let chosen = scanned.owned[s.chosen];
            if !sources[chosen.0].official && !skipped_empty {
                return Err(
                    MarketplaceInstallError::PartialScan {
                        name: crate::text::owned(name),
                        skipped_sources: copy_strings(&scanned.skipped),
                    },
                );
            }
            let note = if s.other_count > 0 {
                Some(other_copies_note(name, s.other_count))
            } else {
                None
            };
            Ok(
                InstallPlan {
                    source_index: chosen.0,
                    entry_index: chosen.1,
                    other_copies_note: note,
                    skipped_sources: copy_strings(&scanned.skipped),
                },
            )
        },
    }
}

/// The warning for a source skipped during the search.
pub open spec fn skipped_warning(name: Seq<char>) -> Seq<char> {
    "marketplace source \""@ + name + "\" could not be synced and was skipped"@
}

/// Completes a fresh install's outcome with the plan's note and one
/// warning per skipped source; an already-installed outcome is returned
/// as is.
pub fn finish_install_outcome(outcome: &mut MarketplaceInstallOutcome, plan: &InstallPlan)
    ensures
        old(outcome).already_installed ==> *final(outcome) == *old(outcome),
        !old(outcome).already_installed ==> {
            &&& final(outcome).repo_key == old(outcome).repo_key
            &&& final(outcome).plugin_names == old(outcome).plugin_names
            &&& final(outcome).source_display_name == old(outcome).source_display_name
            &&& final(outcome).plugin_subdir == old(outcome).plugin_subdir
            &&& final(outcome).source_is_git == old(outcome).source_is_git
            &&& final(outcome).already_installed == old(outcome).already_installed
            &&& crate::responses::model::opt_view(final(outcome).other_copies_note)
                == crate::responses::model::opt_view(plan.other_copies_note)
            &&& strs(final(outcome).warnings@) == strs(old(outcome).warnings@) + strs(
                plan.skipped_sources@,
            ).map_values(|n: Seq<char>| skipped_warning(n))
        },
{
    if outcome.already_installed {
        return;
    }
    outcome.other_copies_note = crate::responses::model::clone_opt(&plan.other_copies_note);
    let ghost w0 = strs(outcome.warnings@);
    let ghost sk = strs(plan.skipped_sources@);
    let mut i: usize = 0;
    while i < plan.skipped_sources.len()
        invariant
            i <= plan.skipped_sources@.len(),
            sk == strs(plan.skipped_sources@),
            strs(outcome.warnings@) == w0 + sk.subrange(0, i as int).map_values(
                |n: Seq<char>| skipped_warning(n),
            ),
            outcome.repo_key == old(outcome).repo_key,
            outcome.plugin_names == old(outcome).plugin_names,
            outcome.source_display_name == old(outcome).source_display_name,
            outcome.plugin_subdir == old(outcome).plugin_subdir,
            outcome.source_is_git == old(outcome).source_is_git,
            outcome.already_installed == old(outcome).already_installed,
            crate::responses::model::opt_view(outcome.other_copies_note)
                == crate::responses::model::opt_view(plan.other_copies_note),
        decreases plan.skipped_sources@.len() - i,
    {
        let mut w: Vec<char> = Vec::new();
        extend_str(&mut w, "marketplace source \"");
        extend_str(&mut w, plan.skipped_sources[i].as_str());
        extend_str(&mut w, "\" could not be synced and was skipped");
        let ws = string_of(w.as_slice());
        let ghost before = strs(outcome.warnings@);
        outcome.warnings.push(ws);
        assert(strs(outcome.warnings@) =~= before.push(ws@));
        i += 1;
        assert(strs(outcome.warnings@) =~= w0 + sk.subrange(0, i as int).map_values(
            |n: Seq<char>| skipped_warning(n),
        ));
    }
    assert(sk.subrange(0, sk.len() as int) =~= sk);
}

} // verus!
