//! Lexical path and URL-suffix handling: splitting on `/`, the component
//! normalization of `Path::components` on Unix, joining, tilde expansion,
//! and the suffix trimming used to compare source identities.

use vstd::prelude::*;
use crate::text::{join, join_exec, starts_with, ends_with};

verus! {

// ── specifications ──────────────────────────────────────────────────────

/// `s` split on every `c` (`str::split`); always at least one part.
pub open spec fn split_on(s: Seq<char>, c: char) -> Seq<Seq<char>>
    decreases s.len(),
{
    if s.len() == 0 {
        seq![Seq::empty()]
    } else {
        let p = split_on(s.drop_last(), c);
        if s.last() == c {
            p.push(Seq::empty())
        } else {
            p.update(p.len() - 1, p.last().push(s.last()))
        }
    }
}

/// A component that survives normalization: not empty and not `.`.
pub open spec fn is_kept(seg: Seq<char>) -> bool {
    seg.len() > 0 && seg != seq!['.']
}

/// The kept components, in order.
pub open spec fn kept(segs: Seq<Seq<char>>) -> Seq<Seq<char>>
    decreases segs.len(),
{
    if segs.len() == 0 {
        segs
    } else if is_kept(segs.last()) {
        kept(segs.drop_last()).push(segs.last())
    } else {
        kept(segs.drop_last())
    }
}

/// `p` rebuilt from its components (`p.components().collect::<PathBuf>()`
/// on Unix): empty and `.` components dropped, a leading `/` or a leading
/// `.` component kept, `..` kept.
pub open spec fn normalize_path(p: Seq<char>) -> Seq<char> {
    let segs = kept(split_on(p, '/'));
    if p.len() > 0 && p[0] == '/' {
        seq!['/'] + join(segs, seq!['/'])
    } else if split_on(p, '/')[0] == seq!['.'] {
        join(seq![seq!['.']] + segs, seq!['/'])
    } else {
        join(segs, seq!['/'])
    }
}

/// The last component of `p` when it is a name (`Path::file_name`): none
/// when `p` has no components left or ends in `..`.
pub open spec fn file_name(p: Seq<char>) -> Option<Seq<char>> {
    let k = kept(split_on(p, '/'));
    if k.len() > 0 && k.last() != seq!['.', '.'] {
        Some(k.last())
    } else {
        None
    }
}

/// `rel` joined onto `base` (`Path::join`): an absolute `rel` replaces
/// `base`; no separator is added after an empty `base` or one ending in `/`.
pub open spec fn join_path(base: Seq<char>, rel: Seq<char>) -> Seq<char> {
    if rel.len() > 0 && rel[0] == '/' {
        rel
    } else if base.len() == 0 || base.last() == '/' {
        base + rel
    } else {
        base + seq!['/'] + rel
    }
}

/// A leading `~` replaced by the home directory (`~/x` and `~x` both name
/// `home/x`); unchanged without a home directory or a leading `~`.
pub open spec fn expand_tilde(p: Seq<char>, home: Option<Seq<char>>) -> Seq<char> {
    if p.len() > 0 && p[0] == '~' {
        let rest = p.drop_first();
        match home {
            Some(h) => join_path(
                h,
                if rest.len() > 0 && rest[0] == '/' {
                    rest.drop_first()
                } else {
                    rest
                },
            ),
            None => p,
        }
    } else {
        p
    }
}

/// `s` without trailing `c`s (`str::trim_end_matches(char)`).
pub open spec fn trim_end_char(s: Seq<char>, c: char) -> Seq<char>
    decreases s.len(),
{
    if s.len() > 0 && s.last() == c {
        trim_end_char(s.drop_last(), c)
    } else {
        s
    }
}

/// `s` without trailing repetitions of `suf` (`str::trim_end_matches(&str)`).
pub open spec fn trim_end_suffix(s: Seq<char>, suf: Seq<char>) -> Seq<char>
    decreases s.len(),
{
    if suf.len() > 0 && ends_with(s, suf) {
        trim_end_suffix(s.subrange(0, s.len() - suf.len()), suf)
    } else {
        s
    }
}

/// The part of `s` after its last `c` (`s.rsplit(c).next()`).
pub open spec fn after_last(s: Seq<char>, c: char) -> Seq<char>
    decreases s.len(),
{
    if s.len() == 0 {
        s
    } else if s.last() == c {
        Seq::empty()
    } else {
        after_last(s.drop_last(), c).push(s.last())
    }
}

/// Views of owned character vectors.
pub open spec fn views(parts: Seq<Vec<char>>) -> Seq<Seq<char>> {
    parts.map_values(|p: Vec<char>| p@)
}

// ── lemmas ──────────────────────────────────────────────────────────────

/// A split has at least one part.
pub proof fn lemma_split_nonempty(s: Seq<char>, c: char)
    ensures
        split_on(s, c).len() >= 1,
    decreases s.len(),
{
    if s.len() > 0 {
        lemma_split_nonempty(s.drop_last(), c);
    }
}

// ── implementation ──────────────────────────────────────────────────────

/// `s` split on `c`.
pub fn split_chars(s: &[char], c: char) -> (r: Vec<Vec<char>>)
    ensures
        views(r@) == split_on(s@, c),
        r@.len() >= 1,
{
    let mut r: Vec<Vec<char>> = Vec::new();
    r.push(Vec::new());
    assert(views(r@) =~= split_on(s@.subrange(0, 0), c));
    let mut i: usize = 0;
    while i < s.len()
        invariant
            i <= s@.len(),
            views(r@) == split_on(s@.subrange(0, i as int), c),
            r@.len() >= 1,
        decreases s@.len() - i,
    {
        let ghost before = views(r@);
        assert(s@.subrange(0, i + 1).drop_last() =~= s@.subrange(0, i as int));
        assert(s@.subrange(0, i + 1).last() == s@[i as int]);
        if s[i] == c {
            r.push(Vec::new());
            assert(views(r@) =~= before.push(Seq::empty()));
        } else {
            let n = r.len() - 1;
            let mut cur = r.pop().unwrap();
            let ghost cur0 = cur@;
            assert(cur0 == before[n as int]);
            cur.push(s[i]);
            r.push(cur);
            assert(views(r@) =~= before.update(n as int, before.last().push(s@[i as int])));
        }
        i += 1;
    }
    assert(s@.subrange(0, s@.len() as int) =~= s@);
    r
}

/// The kept components of `segs`.
pub fn kept_parts(segs: &Vec<Vec<char>>) -> (r: Vec<Vec<char>>)
    ensures
        views(r@) == kept(views(segs@)),
{
    let ghost v = views(segs@);
    let mut r: Vec<Vec<char>> = Vec::new();
    let mut i: usize = 0;
    while i < segs.len()
        invariant
            i <= segs@.len(),
            v == views(segs@),
            v.len() == segs@.len(),
            views(r@) == kept(v.subrange(0, i as int)),
        decreases segs@.len() - i,
    {
        assert(v.subrange(0, i + 1).drop_last() =~= v.subrange(0, i as int));
        assert(v.subrange(0, i + 1).last() == segs@[i as int]@);
        let seg = &segs[i];
        let keep = seg.len() > 0 && !(seg.len() == 1 && seg[0] == '.');
        proof {
            if seg@.len() == 1 {
                assert(seg@ == seq!['.'] <==> seg@[0] == '.') by {
                    if seg@[0] == '.' {
                        assert(seg@ =~= seq!['.']);
                    }
                }
            } else if seg@.len() > 0 {
                assert(seg@ != seq!['.']) by {
                    assert(seg@.len() != seq!['.'].len());
                }
            }
        }
        if keep {
            let ghost before = views(r@);
            r.push(seg.clone());
            assert(views(r@) =~= before.push(seg@));
        }
        i += 1;
    }
    assert(v.subrange(0, v.len() as int) =~= v);
    r
}

/// Lexical normalization of a path (see [`normalize_path`]).
pub fn normalize_chars(p: &[char]) -> (r: Vec<char>)
    ensures
        r@ == normalize_path(p@),
{
    let segs = split_chars(p, '/');
    let k = kept_parts(&segs);
    let sep = ['/'];
    assert(sep@ =~= seq!['/']);
    if p.len() > 0 && p[0] == '/' {
        let mut r: Vec<char> = Vec::new();
        r.push('/');
        let j = join_exec(&k, sep.as_slice());
        crate::text::extend(&mut r, j.as_slice());
        assert(r@ =~= seq!['/'] + join(views(k@), seq!['/']));
        r
    } else {
        let first = &segs[0];
        let leading_dot = first.len() == 1 && first[0] == '.';
        proof {
            assert(views(segs@)[0] == segs@[0]@);
            if first@.len() == 1 && first@[0] == '.' {
                assert(first@ =~= seq!['.']);
            }
            if first@ == seq!['.'] {
                assert(first@.len() == 1);
            }
        }
        if leading_dot {
            let mut all: Vec<Vec<char>> = Vec::new();
            let mut dot: Vec<char> = Vec::new();
            dot.push('.');
            all.push(dot);
            let mut i: usize = 0;
            while i < k.len()
                invariant
                    i <= k@.len(),
                    all@.len() == i + 1,
                    views(all@) == seq![seq!['.']] + views(k@).subrange(0, i as int),
                decreases k@.len() - i,
            {
                let ghost before = views(all@);
                let c = k[i].clone();
                assert(c@ == views(k@)[i as int]);
                all.push(c);
                assert(views(all@) =~= before.push(c@));
                i += 1;
                assert(views(all@) =~= seq![seq!['.']] + views(k@).subrange(0, i as int));
            }
            assert(views(k@).subrange(0, k@.len() as int) =~= views(k@));
            join_exec(&all, sep.as_slice())
        } else {
            join_exec(&k, sep.as_slice())
        }
    }
}

/// The last component of `p` when it is a name.
pub fn file_name_chars(p: &[char]) -> (r: Option<Vec<char>>)
    ensures
        match r {
            Some(v) => file_name(p@) == Some(v@),
            None => file_name(p@) is None,
        },
{
    let segs = split_chars(p, '/');
    let k = kept_parts(&segs);
    if k.len() == 0 {
        return None;
    }
    let last = &k[k.len() - 1];
    let dotdot = last.len() == 2 && last[0] == '.' && last[1] == '.';
    proof {
        assert(views(k@).last() == last@);
        if last@.len() == 2 && last@[0] == '.' && last@[1] == '.' {
            assert(last@ =~= seq!['.', '.']);
        }
        if last@ == seq!['.', '.'] {
            assert(last@.len() == 2);
        }
    }
    if dotdot {
        None
    } else {
        Some(last.clone())
    }
}

/// `rel` joined onto `base`.
pub fn join_path_chars(base: &[char], rel: &[char]) -> (r: Vec<char>)
    ensures
        r@ == join_path(base@, rel@),
{
    if rel.len() > 0 && rel[0] == '/' {
        return crate::text::slice_range(rel, 0, rel.len());
    }
    let mut r = crate::text::slice_range(base, 0, base.len());
    if base.len() > 0 && base[base.len() - 1] != '/' {
        r.push('/');
    }
    crate::text::extend(&mut r, rel);
    r
}

/// `p` with a leading `~` expanded to `home`.
pub fn expand_tilde_chars(p: &[char], home: &Option<Vec<char>>) -> (r: Vec<char>)
    ensures
        r@ == expand_tilde(p@, match home {
            Some(h) => Some(h@),
            None => None,
        }),
{
    if p.len() > 0 && p[0] == '~' {
        match home {
            Some(h) => {
                let skip: usize = if p.len() > 1 && p[1] == '/' {
                    2
                } else {
                    1
                };
                let rest = crate::text::slice_range(p, skip, p.len());
                assert(rest@ =~= (if p@.drop_first().len() > 0 && p@.drop_first()[0] == '/' {
                    p@.drop_first().drop_first()
                } else {
                    p@.drop_first()
                }));
                join_path_chars(h.as_slice(), rest.as_slice())
            },
            None => crate::text::slice_range(p, 0, p.len()),
        }
    } else {
        crate::text::slice_range(p, 0, p.len())
    }
}

/// `s` without trailing `c`s.
pub fn trim_end_char_chars(s: &[char], c: char) -> (r: Vec<char>)
    ensures
        r@ == trim_end_char(s@, c),
{
    let mut n: usize = s.len();
    assert(s@.subrange(0, s@.len() as int) =~= s@);
    while n > 0 && s[n - 1] == c
        invariant
            n <= s@.len(),
            trim_end_char(s@.subrange(0, n as int), c) == trim_end_char(s@, c),
        decreases n,
    {
        assert(s@.subrange(0, n as int).drop_last() =~= s@.subrange(0, n - 1));
        n -= 1;
    }
    assert(s@.subrange(0, s@.len() as int) =~= s@);
    crate::text::slice_range(s, 0, n)
}

/// `s` without trailing repetitions of `suf`.
pub fn trim_end_suffix_chars(s: &[char], suf: &[char]) -> (r: Vec<char>)
    ensures
        r@ == trim_end_suffix(s@, suf@),
{
    let mut n: usize = s.len();
    assert(s@.subrange(0, s@.len() as int) =~= s@);
    loop
        invariant
            n <= s@.len(),
            trim_end_suffix(s@.subrange(0, n as int), suf@) == trim_end_suffix(s@, suf@),
        decreases n,
    {
        let cur = crate::text::slice_range(s, 0, n);
        if suf.len() > 0 && crate::text::ends_with_exec(cur.as_slice(), suf) {
            assert(cur@.subrange(0, cur@.len() - suf@.len()) =~= s@.subrange(0, n - suf@.len()));
            n = n - suf.len();
        } else {
            return cur;
        }
    }
}

/// The part of `s` after its last `c`.
pub fn after_last_chars(s: &[char], c: char) -> (r: Vec<char>)
    ensures
        r@ == after_last(s@, c),
{
    let mut n: usize = s.len();
    assert(s@.subrange(0, s@.len() as int) =~= s@);
    assert(s@.subrange(s@.len() as int, s@.len() as int) =~= Seq::<char>::empty());
    assert(after_last(s@, c) + Seq::<char>::empty() =~= after_last(s@, c));
    while n > 0 && s[n - 1] != c
        invariant
            n <= s@.len(),
            after_last(s@, c) == after_last(s@.subrange(0, n as int), c) + s@.subrange(
                n as int,
                s@.len() as int,
            ),
        decreases n,
    {
        let ghost t = s@.subrange(0, n as int);
        assert(t.drop_last() =~= s@.subrange(0, n - 1));
        assert(s@.subrange(n - 1, s@.len() as int) =~= seq![s@[n - 1]] + s@.subrange(
            n as int,
            s@.len() as int,
        ));
        assert(after_last(t, c) == after_last(t.drop_last(), c).push(t.last()));
        assert(after_last(t.drop_last(), c).push(t.last()) + s@.subrange(n as int, s@.len() as int)
            =~= after_last(t.drop_last(), c) + s@.subrange(n - 1, s@.len() as int));
        n -= 1;
    }
    proof {
        let t = s@.subrange(0, n as int);
        assert(after_last(t, c) =~= Seq::<char>::empty());
        assert(s@.subrange(0, s@.len() as int) =~= s@);
    }
    crate::text::slice_range(s, n, s.len())
}

/// The components of `p` (`Path::components` on Unix): a root, or a
/// leading `.`, then the kept names.
pub open spec fn components(p: Seq<char>) -> Seq<Seq<char>> {
    let segs = kept(split_on(p, '/'));
    if p.len() > 0 && p[0] == '/' {
        seq![seq!['/']] + segs
    } else if split_on(p, '/')[0] == seq!['.'] {
        seq![seq!['.']] + segs
    } else {
        segs
    }
}

/// `base`'s components begin `p`'s (`Path::starts_with`).
pub open spec fn path_starts_with(p: Seq<char>, base: Seq<char>) -> bool {
    let a = components(p);
    let b = components(base);
    b.len() <= a.len() && a.subrange(0, b.len() as int) == b
}

/// The components of `p`.
pub fn components_chars(p: &[char]) -> (r: Vec<Vec<char>>)
    ensures
        views(r@) == components(p@),
{
    let segs = split_chars(p, '/');
    let k = kept_parts(&segs);
    let mut out: Vec<Vec<char>> = Vec::new();
    let first = &segs[0];
    let leading_dot = first.len() == 1 && first[0] == '.';
    proof {
        assert(views(segs@)[0] == segs@[0]@);
        if first@.len() == 1 && first@[0] == '.' {
            assert(first@ =~= seq!['.']);
        }
        if first@ == seq!['.'] {
            assert(first@.len() == 1);
        }
    }
    if p.len() > 0 && p[0] == '/' {
        let mut root: Vec<char> = Vec::new();
        root.push('/');
        out.push(root);
    } else if leading_dot {
        let mut dot: Vec<char> = Vec::new();
        dot.push('.');
        out.push(dot);
    }
    let ghost head = views(out@);
    let mut i: usize = 0;
    while i < k.len()
        invariant
            i <= k@.len(),
            views(out@) == head + views(k@).subrange(0, i as int),
        decreases k@.len() - i,
    {
        let ghost before = views(out@);
        let c = k[i].clone();
        assert(c@ == views(k@)[i as int]);
        out.push(c);
        assert(views(out@) =~= before.push(c@));
        i += 1;
        assert(views(out@) =~= head + views(k@).subrange(0, i as int));
    }
    assert(views(k@).subrange(0, k@.len() as int) =~= views(k@));
    proof {
        if p@.len() > 0 && p@[0] == '/' {
            assert(head =~= seq![seq!['/']]);
        } else if leading_dot {
            assert(head =~= seq![seq!['.']]);
        } else {
            assert(head =~= Seq::<Seq<char>>::empty());
        }
    }
    out
}

/// Whether `p` lies under `base`, component by component.
pub fn path_starts_with_exec(p: &str, base: &str) -> (r: bool)
    ensures
        r == path_starts_with(p@, base@),
{
    let pc = crate::text::chars_of(p);
    let bc = crate::text::chars_of(base);
    let a = components_chars(pc.as_slice());
    let b = components_chars(bc.as_slice());
    assert(views(a@) == components(p@));
    assert(views(b@) == components(base@));
    if b.len() > a.len() {
        return false;
    }
    let mut i: usize = 0;
    while i < b.len()
        invariant
            i <= b@.len(),
            b@.len() <= a@.len(),
            views(a@) == components(p@),
            views(b@) == components(base@),
            forall|k: int| 0 <= k < i ==> views(a@)[k] == views(b@)[k],
        decreases b@.len() - i,
    {
        if !crate::text::chars_eq(a[i].as_slice(), b[i].as_slice()) {
            proof {
                assert(views(a@)[i as int] == a@[i as int]@);
                assert(views(b@)[i as int] == b@[i as int]@);
                let va = components(p@);
                let vb = components(base@);
                assert(va[i as int] != vb[i as int]);
                assert(va.subrange(0, vb.len() as int)[i as int] != vb[i as int]);
                assert(va.subrange(0, vb.len() as int) != vb);
            }
            return false;
        }
        assert(views(a@)[i as int] == a@[i as int]@);
        assert(views(b@)[i as int] == b@[i as int]@);
        i += 1;
    }
    assert(views(a@).subrange(0, views(b@).len() as int) =~= views(b@));
    true
}

} // verus!
