//! Config-driven promotion of selected MCP tools into the sampling tool
//! list: which servers may promote tools, and which registered tool
//! definitions join the list.

use vstd::prelude::*;
use crate::plugin::errors::strs;
use crate::text::{chars_of, contains, contains_exec};

verus! {

/// The scope of an MCP server defined in the project's config.
pub open spec fn project_scope() -> Seq<char> {
    "project"@
}

/// Whether a server's `promote_tools` list counts: a project-scoped server
/// counts only when the project is trusted.
pub open spec fn server_allowed(scope: Seq<char>, allow_project: bool) -> bool {
    !(scope == project_scope() && !allow_project)
}

/// Positions of the servers whose promote lists count, among the first `n`.
pub open spec fn allowed_upto(scopes: Seq<Seq<char>>, allow_project: bool, n: int) -> Seq<usize>
    decreases n,
{
    if n <= 0 {
        Seq::empty()
    } else {
        let rest = allowed_upto(scopes, allow_project, n - 1);
        if server_allowed(scopes[n - 1], allow_project) {
            rest.push((n - 1) as usize)
        } else {
            rest
        }
    }
}

/// The servers (by position, in order) whose promote lists are collected:
/// an untrusted project's config must not opt tools into the model's list.
pub fn promoted_servers_from_scoped(scopes: &Vec<String>, allow_project: bool) -> (r: Vec<usize>)
    ensures
        r@ == allowed_upto(strs(scopes@), allow_project, scopes@.len() as int),
{
    let project = chars_of("project");
    let mut out: Vec<usize> = Vec::new();
    let mut i: usize = 0;
    while i < scopes.len()
        invariant
            i <= scopes@.len(),
            project@ == project_scope(),
            out@ == allowed_upto(strs(scopes@), allow_project, i as int),
        decreases scopes@.len() - i,
    {
        let s = chars_of(scopes[i].as_str());
        let is_project = crate::text::chars_eq(s.as_slice(), project.as_slice());
        assert(strs(scopes@)[i as int] == scopes@[i as int]@);
        if !(is_project && !allow_project) {
            out.push(i);
        }
        i += 1;
    }
    out
}

/// Whether a name is in a list.
fn listed(v: &Vec<String>, name: &Vec<char>) -> (r: bool)
    ensures
        r == strs(v@).contains(name@),
{
    let mut i: usize = 0;
    while i < v.len()
        invariant
            i <= v@.len(),
            forall|k: int| 0 <= k < i ==> strs(v@)[k] != name@,
        decreases v@.len() - i,
    {
        let c = chars_of(v[i].as_str());
        if crate::text::chars_eq(c.as_slice(), name.as_slice()) {
            assert(strs(v@)[i as int] == name@);
            return true;
        }
        i += 1;
    }
    false
}

/// A registered definition joins the list: an MCP name (`server__tool`)
/// that is promoted, not already present, and accepted by the provider.
pub open spec fn joins(name: Seq<char>, promoted: Seq<Seq<char>>, present: Seq<Seq<char>>, valid: bool) -> bool {
    contains(name, "__"@) && promoted.contains(name) && !present.contains(name) && valid
}

/// Names of definitions.
pub open spec fn def_names<T>(defs: Seq<(String, T)>) -> Seq<Seq<char>> {
    defs.map_values(|d: (String, T)| d.0@)
}

/// The definitions appended from the first `n` registered ones, given the
/// names present before.
pub open spec fn appended<T>(
    regs: Seq<(String, T)>,
    promoted: Seq<Seq<char>>,
    valid: Seq<bool>,
    present: Seq<Seq<char>>,
    n: int,
) -> Seq<(String, T)>
    decreases n,
{
    if n <= 0 {
        Seq::empty()
    } else {
        let prev = appended(regs, promoted, valid, present, n - 1);
        if joins(regs[n - 1].0@, promoted, present + def_names(prev), valid[n - 1]) {
            prev.push(regs[n - 1])
        } else {
            prev
        }
    }
}

/// Appends the registered definitions (each with its function name) whose
/// names are promoted, once each, skipping names already in `defs` and
/// names the provider rejects (`valid` holds the provider's verdict for
/// each registered name). Nothing happens when nothing is promoted.
pub fn append_promoted_mcp_definitions<T>(
    all_registered: Vec<(String, T)>,
    promoted: &Vec<String>,
    valid: &Vec<bool>,
    defs: &mut Vec<(String, T)>,
)
    requires
        valid@.len() == all_registered@.len(),
    ensures
        promoted@.len() == 0 ==> final(defs)@ == old(defs)@,
        promoted@.len() > 0 ==> final(defs)@ == old(defs)@ + appended(
            all_registered@,
            strs(promoted@),
            valid@,
            def_names(old(defs)@),
            all_registered@.len() as int,
        ),
{
    if promoted.len() == 0 {
        return;
    }
    let ghost regs = all_registered@;
    let ghost d0 = defs@;
    let ghost present0 = def_names(d0);
    let mut present: Vec<String> = Vec::new();
    let mut k: usize = 0;
    while k < defs.len()
        invariant
            k <= defs@.len(),
            defs@ == d0,
            strs(present@) == def_names(d0).subrange(0, k as int),
        decreases defs@.len() - k,
    {
        let n = defs[k].0.clone();
        let ghost before = strs(present@);
        present.push(n);
        assert(strs(present@) =~= before.push(n@));
        k += 1;
        assert(strs(present@) =~= def_names(d0).subrange(0, k as int));
    }
    assert(def_names(d0).subrange(0, d0.len() as int) =~= def_names(d0));
    let mut rest = all_registered;
    let mut i: usize = 0;
    let total = rest.len();
    while i < total
        invariant
            i <= total,
            total == regs.len(),
            valid@.len() == regs.len(),
            rest@ == regs.subrange(i as int, regs.len() as int),
            defs@ == d0 + appended(regs, strs(promoted@), valid@, present0, i as int),
            strs(present@) == present0 + def_names(
                appended(regs, strs(promoted@), valid@, present0, i as int),
            ),
        decreases total - i,
    {
        let ghost prev = appended(regs, strs(promoted@), valid@, present0, i as int);
        let entry = rest.remove(0);
        assert(entry == regs[i as int]);
        let name = chars_of(entry.0.as_str());
        let sep = chars_of("__");
        let is_mcp = contains_exec(name.as_slice(), sep.as_slice());
        let joined = is_mcp && listed(promoted, &name) && !listed(&present, &name) && valid[i];
        if joined {
            let n = entry.0.clone();
            let ghost before = strs(present@);
            present.push(n);
            assert(strs(present@) =~= before.push(n@));
            defs.push(entry);
            proof {
                assert(def_names(prev.push(regs[i as int])) =~= def_names(prev).push(regs[i as int].0@));
            }
        }
        assert(regs.subrange(i as int, regs.len() as int).drop_first() =~= regs.subrange(
            i + 1,
            regs.len() as int,
        ));
        i += 1;
    }
}

} // verus!
