//! Character-sequence helpers shared by the modules of this crate.
//!
//! Strings are reasoned about through their `Seq<char>` views. The spec
//! functions here state what the std string operations the project relies on
//! (`trim`, `starts_with`, `contains`, ASCII case folding, decimal formatting)
//! compute, and the executable functions implement them on `Vec<char>`.

use vstd::prelude::*;
use vstd::std_specs::iter::IteratorSpec;
use vstd::string::*;

verus! {

broadcast use vstd::string::group_string_axioms;

// ── specifications ──────────────────────────────────────────────────────

/// The Unicode `White_Space` property, as `char::is_whitespace` tests it.
pub open spec fn is_ws(c: char) -> bool {
    ||| ('\u{9}' <= c && c <= '\u{d}')
    ||| c == ' '
    ||| c == '\u{85}'
    ||| c == '\u{a0}'
    ||| c == '\u{1680}'
    ||| ('\u{2000}' <= c && c <= '\u{200a}')
    ||| c == '\u{2028}'
    ||| c == '\u{2029}'
    ||| c == '\u{202f}'
    ||| c == '\u{205f}'
    ||| c == '\u{3000}'
}

/// `s` without its leading whitespace.
pub open spec fn trim_start(s: Seq<char>) -> Seq<char>
    decreases s.len(),
{
    if s.len() > 0 && is_ws(s[0]) {
        trim_start(s.drop_first())
    } else {
        s
    }
}

/// `s` without its trailing whitespace.
pub open spec fn trim_end(s: Seq<char>) -> Seq<char>
    decreases s.len(),
{
    if s.len() > 0 && is_ws(s.last()) {
        trim_end(s.drop_last())
    } else {
        s
    }
}

/// `s` without leading and trailing whitespace (`str::trim`).
pub open spec fn trim(s: Seq<char>) -> Seq<char> {
    trim_end(trim_start(s))
}

/// `s` begins with `p`.
pub open spec fn starts_with(s: Seq<char>, p: Seq<char>) -> bool {
    p.len() <= s.len() && s.subrange(0, p.len() as int) == p
}

/// `s` ends with `p`.
pub open spec fn ends_with(s: Seq<char>, p: Seq<char>) -> bool {
    p.len() <= s.len() && s.subrange(s.len() - p.len(), s.len() as int) == p
}

/// `p` occurs in `s` at position `i`.
pub open spec fn occurs_at(s: Seq<char>, p: Seq<char>, i: int) -> bool {
    0 <= i && i + p.len() <= s.len() && s.subrange(i, i + p.len()) == p
}

/// `p` occurs somewhere in `s` (`str::contains`).
pub open spec fn contains(s: Seq<char>, p: Seq<char>) -> bool {
    exists|i: int| occurs_at(s, p, i)
}

/// `c` occurs in `s`.
pub open spec fn has_char(s: Seq<char>, c: char) -> bool {
    exists|i: int| 0 <= i < s.len() && s[i] == c
}

/// The ASCII lower-case form of `c` (`char::to_ascii_lowercase`).
pub open spec fn lower(c: char) -> char {
    if 'A' <= c && c <= 'Z' {
        ((c as u32) + 32) as char
    } else {
        c
    }
}

/// `a` and `b` are equal up to ASCII case (`str::eq_ignore_ascii_case`).
pub open spec fn eq_ignore_case(a: Seq<char>, b: Seq<char>) -> bool {
    a.len() == b.len() && forall|i: int| 0 <= i < a.len() ==> lower(a[i]) == lower(b[i])
}

/// `c` is an ASCII letter or digit (`char::is_ascii_alphanumeric`).
pub open spec fn is_alnum(c: char) -> bool {
    ('a' <= c && c <= 'z') || ('A' <= c && c <= 'Z') || ('0' <= c && c <= '9')
}

/// The decimal digit for `d < 10`.
pub open spec fn digit(d: nat) -> char {
    (('0' as u32) + d) as char
}

/// The decimal representation of `n` (`u64::to_string`).
pub open spec fn dec(n: nat) -> Seq<char>
    decreases n,
{
    if n < 10 {
        seq![digit(n)]
    } else {
        dec(n / 10).push(digit(n % 10))
    }
}

/// `n` padded to at least two digits with a leading zero.
pub open spec fn dec2(n: nat) -> Seq<char> {
    if n < 10 {
        seq!['0', digit(n)]
    } else {
        dec(n)
    }
}

/// Signed decimal representation (`i64::to_string`).
pub open spec fn dec_int(n: int) -> Seq<char> {
    if n < 0 {
        seq!['-'] + dec((-n) as nat)
    } else {
        dec(n as nat)
    }
}

/// The items of `parts` joined by `sep` (`[String]::join`).
pub open spec fn join(parts: Seq<Seq<char>>, sep: Seq<char>) -> Seq<char>
    decreases parts.len(),
{
    if parts.len() == 0 {
        Seq::empty()
    } else if parts.len() == 1 {
        parts[0]
    } else {
        join(parts.drop_last(), sep) + sep + parts.last()
    }
}

// ── conversions ─────────────────────────────────────────────────────────

/// Appends one character to a `String` (`String::push`).
#[verifier::external_body]
pub fn push_char(s: &mut String, c: char)
    ensures
        final(s)@ == old(s)@.push(c),
{
    s.push(c)
}

/// The characters of `s`.
pub fn chars_of(s: &str) -> (r: Vec<char>)
    ensures
        r@ == s@,
{
    let mut it = s.chars();
    let mut r: Vec<char> = Vec::new();
    let ghost all = s@;
    loop
        invariant
            all == s@,
            it.obeys_prophetic_iter_laws(),
            r@ + it.remaining() == all,
            it.decrease() is Some,
        decreases all.len() - r@.len(),
    {
        let ghost before = it.remaining();
        match it.next() {
            Some(c) => {
                assert(before.drop_first() == it.remaining());
                assert(r@.push(c) + it.remaining() =~= all);
                r.push(c);
            },
            None => {
                assert(r@ =~= all);
                return r;
            },
        }
    }
}

/// A `String` holding the characters `v`.
pub fn string_of(v: &[char]) -> (s: String)
    ensures
        s@ == v@,
{
    let mut s = String::new();
    let mut i: usize = 0;
    while i < v.len()
        invariant
            i <= v@.len(),
            s@ == v@.subrange(0, i as int),
        decreases v@.len() - i,
    {
        push_char(&mut s, v[i]);
        i += 1;
        assert(s@ =~= v@.subrange(0, i as int));
    }
    assert(s@ =~= v@);
    s
}

/// A `String` copy of a string slice.
pub fn owned(s: &str) -> (r: String)
    ensures
        r@ == s@,
{
    s.to_owned()
}

/// Appends `p` to `v`.
pub fn extend(v: &mut Vec<char>, p: &[char])
    ensures
        final(v)@ == old(v)@ + p@,
{
    let mut i: usize = 0;
    while i < p.len()
        invariant
            i <= p@.len(),
            v@ == old(v)@ + p@.subrange(0, i as int),
        decreases p@.len() - i,
    {
        v.push(p[i]);
        i += 1;
        assert(v@ =~= old(v)@ + p@.subrange(0, i as int));
    }
    assert(p@.subrange(0, p@.len() as int) =~= p@);
}

/// Appends the characters of `s` to `v`.
pub fn extend_str(v: &mut Vec<char>, s: &str)
    ensures
        final(v)@ == old(v)@ + s@,
{
    let c = chars_of(s);
    extend(v, c.as_slice());
}

// ── trimming ────────────────────────────────────────────────────────────

/// Exec test of [`is_ws`].
pub fn is_whitespace(c: char) -> (b: bool)
    ensures
        b == is_ws(c),
{
    ('\u{9}' <= c && c <= '\u{d}') || c == ' ' || c == '\u{85}' || c == '\u{a0}' || c
        == '\u{1680}' || ('\u{2000}' <= c && c <= '\u{200a}') || c == '\u{2028}' || c
        == '\u{2029}' || c == '\u{202f}' || c == '\u{205f}' || c == '\u{3000}'
}

/// Trimming from the front only removes leading whitespace.
pub proof fn lemma_trim_start_suffix(s: Seq<char>)
    ensures
        exists|k: int|
            0 <= k <= s.len() && trim_start(s) == s.subrange(k, s.len() as int) && (forall|j: int|
                0 <= j < k ==> is_ws(#[trigger] s[j])),
    decreases s.len(),
{
    if s.len() > 0 && is_ws(s[0]) {
        lemma_trim_start_suffix(s.drop_first());
        let k = choose|k: int|
            0 <= k <= s.drop_first().len() && trim_start(s.drop_first())
                == s.drop_first().subrange(k, s.drop_first().len() as int) && (forall|j: int|
                0 <= j < k ==> is_ws(#[trigger] s.drop_first()[j]));
        assert(s.drop_first().subrange(k, s.drop_first().len() as int) =~= s.subrange(
            k + 1,
            s.len() as int,
        ));
        assert forall|j: int| 0 <= j < k + 1 implies is_ws(#[trigger] s[j]) by {
            if j > 0 {
                assert(s[j] == s.drop_first()[j - 1]);
            }
        }
    } else {
        assert(s.subrange(0, s.len() as int) =~= s);
    }
}

/// Index of the first non-whitespace character at or after `from`.
fn skip_ws_from(v: &[char], from: usize) -> (k: usize)
    requires
        from <= v@.len(),
    ensures
        from <= k <= v@.len(),
        trim_start(v@.subrange(from as int, v@.len() as int)) == v@.subrange(
            k as int,
            v@.len() as int,
        ),
{
    let mut k = from;
    while k < v.len() && is_whitespace(v[k])
        invariant
            from <= k <= v@.len(),
            trim_start(v@.subrange(from as int, v@.len() as int)) == trim_start(
                v@.subrange(k as int, v@.len() as int),
            ),
        decreases v@.len() - k,
    {
        assert(v@.subrange(k as int, v@.len() as int).drop_first() =~= v@.subrange(
            k + 1,
            v@.len() as int,
        ));
        k += 1;
    }
    k
}

/// Exclusive end index once trailing whitespace before `to` is dropped.
fn drop_ws_before(v: &[char], start: usize, to: usize) -> (e: usize)
    requires
        start <= to <= v@.len(),
    ensures
        start <= e <= to,
        trim_end(v@.subrange(start as int, to as int)) == v@.subrange(start as int, e as int),
{
    let mut e = to;
    while e > start && is_whitespace(v[e - 1])
        invariant
            start <= e <= to <= v@.len(),
            trim_end(v@.subrange(start as int, to as int)) == trim_end(
                v@.subrange(start as int, e as int),
            ),
        decreases e,
    {
        assert(v@.subrange(start as int, e as int).drop_last() =~= v@.subrange(
            start as int,
            e - 1,
        ));
        e -= 1;
    }
    e
}

/// `str::trim` on a character vector.
pub fn trim_chars(v: &[char]) -> (r: Vec<char>)
    ensures
        r@ == trim(v@),
{
    let k = skip_ws_from(v, 0);
    assert(v@.subrange(0, v@.len() as int) =~= v@);
    let e = drop_ws_before(v, k, v.len());
    slice_range(v, k, e)
}

/// `str::trim_start` on a character vector.
pub fn trim_start_chars(v: &[char]) -> (r: Vec<char>)
    ensures
        r@ == trim_start(v@),
{
    let k = skip_ws_from(v, 0);
    assert(v@.subrange(0, v@.len() as int) =~= v@);
    slice_range(v, k, v.len())
}

/// `str::trim_end` on a character vector.
pub fn trim_end_chars(v: &[char]) -> (r: Vec<char>)
    ensures
        r@ == trim_end(v@),
{
    let e = drop_ws_before(v, 0, v.len());
    assert(v@.subrange(0, v@.len() as int) =~= v@);
    slice_range(v, 0, e)
}

/// `s.trim()` as characters.
pub fn trim_str(s: &str) -> (r: Vec<char>)
    ensures
        r@ == trim(s@),
{
    let c = chars_of(s);
    trim_chars(c.as_slice())
}

/// The characters `v[from..to]`.
pub fn slice_range(v: &[char], from: usize, to: usize) -> (r: Vec<char>)
    requires
        from <= to <= v@.len(),
    ensures
        r@ == v@.subrange(from as int, to as int),
{
    let mut r: Vec<char> = Vec::new();
    let mut i = from;
    while i < to
        invariant
            from <= i <= to <= v@.len(),
            r@ == v@.subrange(from as int, i as int),
        decreases to - i,
    {
        r.push(v[i]);
        i += 1;
        assert(r@ =~= v@.subrange(from as int, i as int));
    }
    r
}

// ── searching ───────────────────────────────────────────────────────────

/// Whether `p` occurs at position `i` of `s`.
pub fn occurs_at_exec(s: &[char], p: &[char], i: usize) -> (b: bool)
    ensures
        b == occurs_at(s@, p@, i as int),
{
    if i > s.len() || p.len() > s.len() - i {
        return false;
    }
    let end = i + p.len();
    let mut j: usize = 0;
    while j < p.len()
        invariant
            end == i + p@.len(),
            i + p@.len() <= s@.len(),
            j <= p@.len(),
            forall|k: int| 0 <= k < j ==> s@[i + k] == p@[k],
        decreases p@.len() - j,
    {
        if s[i + j] != p[j] {
            assert(s@.subrange(i as int, i + p@.len())[j as int] != p@[j as int]);
            return false;
        }
        j += 1;
    }
    assert(s@.subrange(i as int, i + p@.len()) =~= p@);
    true
}

/// `str::starts_with` on characters.
pub fn starts_with_exec(s: &[char], p: &[char]) -> (b: bool)
    ensures
        b == starts_with(s@, p@),
{
    occurs_at_exec(s, p, 0)
}

/// `str::ends_with` on characters.
pub fn ends_with_exec(s: &[char], p: &[char]) -> (b: bool)
    ensures
        b == ends_with(s@, p@),
{
    if p.len() > s.len() {
        false
    } else {
        occurs_at_exec(s, p, s.len() - p.len())
    }
}

/// First position at or after `from` where `p` occurs (`str::find`).
pub fn find_from(s: &[char], p: &[char], from: usize) -> (r: Option<usize>)
    ensures
        match r {
            Some(i) => from <= i && occurs_at(s@, p@, i as int) && forall|j: int|
                from <= j < i ==> !occurs_at(s@, p@, j),
            None => forall|j: int| from <= j ==> !occurs_at(s@, p@, j),
        },
{
    let mut i = from;
    while i <= s.len()
        invariant
            from <= i,
            forall|j: int| from <= j < i ==> !occurs_at(s@, p@, j),
        decreases s@.len() + 1 - i,
    {
        if occurs_at_exec(s, p, i) {
            return Some(i);
        }
        if i == s.len() {
            return None;
        }
        i += 1;
    }
    None
}

/// `str::contains` on characters.
pub fn contains_exec(s: &[char], p: &[char]) -> (b: bool)
    ensures
        b == contains(s@, p@),
{
    match find_from(s, p, 0) {
        Some(_) => true,
        None => {
            assert forall|j: int| !occurs_at(s@, p@, j) by {
                if j >= 0 {
                }
            }
            false
        },
    }
}

/// Whether the character `c` occurs in `s`.
pub fn has_char_exec(s: &[char], c: char) -> (b: bool)
    ensures
        b == has_char(s@, c),
{
    let mut i: usize = 0;
    while i < s.len()
        invariant
            i <= s@.len(),
            forall|j: int| 0 <= j < i ==> s@[j] != c,
        decreases s@.len() - i,
    {
        if s[i] == c {
            return true;
        }
        i += 1;
    }
    false
}

/// Character vectors are equal.
pub fn chars_eq(a: &[char], b: &[char]) -> (r: bool)
    ensures
        r == (a@ == b@),
{
    if a.len() != b.len() {
        return false;
    }
    let r = occurs_at_exec(a, b, 0);
    if r {
        assert(a@.subrange(0, b@.len() as int) =~= a@);
    } else {
        assert(a@.subrange(0, b@.len() as int) =~= a@);
    }
    r
}

// ── ASCII case ──────────────────────────────────────────────────────────

/// `char::to_ascii_lowercase`.
pub fn to_lower(c: char) -> (r: char)
    ensures
        r == lower(c),
{
    if 'A' <= c && c <= 'Z' {
        let u = (c as u32) + 32;
        assert(u < 0xd800);
        char_from_ascii(u)
    } else {
        c
    }
}

/// The character with a code point below the surrogate range.
#[verifier::external_body]
fn char_from_ascii(u: u32) -> (c: char)
    requires
        u < 0xd800,
    ensures
        c == u as char,
{
    char::from_u32(u).unwrap()
}

/// `str::eq_ignore_ascii_case` on characters.
pub fn eq_ignore_case_exec(a: &[char], b: &[char]) -> (r: bool)
    ensures
        r == eq_ignore_case(a@, b@),
{
    if a.len() != b.len() {
        return false;
    }
    let mut i: usize = 0;
    while i < a.len()
        invariant
            a@.len() == b@.len(),
            i <= a@.len(),
            forall|j: int| 0 <= j < i ==> lower(a@[j]) == lower(b@[j]),
        decreases a@.len() - i,
    {
        if to_lower(a[i]) != to_lower(b[i]) {
            return false;
        }
        i += 1;
    }
    true
}

/// `char::is_ascii_alphanumeric`.
pub fn is_alnum_exec(c: char) -> (r: bool)
    ensures
        r == is_alnum(c),
{
    ('a' <= c && c <= 'z') || ('A' <= c && c <= 'Z') || ('0' <= c && c <= '9')
}

// ── numbers ─────────────────────────────────────────────────────────────

/// The digit character for `d < 10`.
pub fn digit_char(d: u64) -> (c: char)
    requires
        d < 10,
    ensures
        c == digit(d as nat),
{
    char_from_ascii(('0' as u32) + (d as u32))
}

/// Decimal digits of `n`.
pub fn dec_chars(n: u64) -> (r: Vec<char>)
    ensures
        r@ == dec(n as nat),
    decreases n,
{
    if n < 10 {
        let mut r = Vec::new();
        r.push(digit_char(n));
        assert(r@ =~= seq![digit(n as nat)]);
        r
    } else {
        let mut r = dec_chars(n / 10);
        r.push(digit_char(n % 10));
        r
    }
}

/// Signed decimal digits of `n`.
pub fn dec_int_chars(n: i64) -> (r: Vec<char>)
    ensures
        r@ == dec_int(n as int),
{
    if n < 0 {
        let m: u64 = if n == i64::MIN {
            9223372036854775808u64
        } else {
            (-n) as u64
        };
        let mut r = Vec::new();
        r.push('-');
        let d = dec_chars(m);
        extend(&mut r, d.as_slice());
        assert(r@ =~= seq!['-'] + dec((-(n as int)) as nat));
        r
    } else {
        dec_chars(n as u64)
    }
}

/// `n` padded to two digits.
pub fn dec2_chars(n: u64) -> (r: Vec<char>)
    ensures
        r@ == dec2(n as nat),
{
    if n < 10 {
        let mut r = Vec::new();
        r.push('0');
        r.push(digit_char(n));
        assert(r@ =~= seq!['0', digit(n as nat)]);
        r
    } else {
        dec_chars(n)
    }
}

/// Joins `parts` with `sep`.
pub fn join_exec(parts: &Vec<Vec<char>>, sep: &[char]) -> (r: Vec<char>)
    ensures
        r@ == join(parts@.map_values(|p: Vec<char>| p@), sep@),
{
    let ghost views = parts@.map_values(|p: Vec<char>| p@);
    let mut r: Vec<char> = Vec::new();
    let mut i: usize = 0;
    while i < parts.len()
        invariant
            i <= parts@.len(),
            views == parts@.map_values(|p: Vec<char>| p@),
            r@ == join(views.subrange(0, i as int), sep@),
        decreases parts@.len() - i,
    {
        assert(views.subrange(0, i + 1).drop_last() =~= views.subrange(0, i as int));
        if i > 0 {
            extend(&mut r, sep);
        }
        extend(&mut r, parts[i].as_slice());
        i += 1;
        if i == 1 {
            assert(r@ =~= join(views.subrange(0, i as int), sep@));
        }
    }
    assert(views.subrange(0, parts@.len() as int) =~= views);
    r
}

} // verus!
