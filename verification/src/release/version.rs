//! The order of version strings: dot-separated parts compared one by one,
//! numbers by value.

use vstd::prelude::*;
use crate::text::{chars_of, lemma_lex_less_transitive, law_lex_less_asymmetric, lex_less};

verus! {

/// Whether `c` is an ASCII digit.
pub open spec fn is_digit(c: char) -> bool {
    '0' <= c && c <= '9'
}

/// Whether a part is a number: one or more digits.
pub open spec fn all_digits(s: Seq<char>) -> bool {
    s.len() > 0 && forall|i: int| 0 <= i < s.len() ==> is_digit(#[trigger] s[i])
}

/// The digits of a number without its leading zeros.
pub open spec fn strip_zeros(s: Seq<char>) -> Seq<char>
    decreases s.len(),
{
    if s.len() > 0 && s[0] == '0' {
        strip_zeros(s.drop_first())
    } else {
        s
    }
}

/// The parts of a version string: the pieces between its dots, in order
/// (`"1.10.0"` has the parts `"1"`, `"10"` and `"0"`).
pub open spec fn version_parts(s: Seq<char>) -> Seq<Seq<char>>
    decreases s.len(),
{
    if s.len() == 0 {
        seq![Seq::<char>::empty()]
    } else {
        let p = version_parts(s.drop_last());
        if s.last() == '.' {
            p.push(Seq::<char>::empty())
        } else {
            p.update(p.len() - 1, p.last().push(s.last()))
        }
    }
}

/// Whether the part `a` comes before the part `b`: numbers come before other
/// parts; two numbers compare by value (without leading zeros, the one with
/// fewer digits is smaller, and of as many digits the first differing digit
/// decides); other parts compare in the order of strings.
pub open spec fn part_less(a: Seq<char>, b: Seq<char>) -> bool {
    if all_digits(a) && all_digits(b) {
        let x = strip_zeros(a);
        let y = strip_zeros(b);
        x.len() < y.len() || (x.len() == y.len() && lex_less(x, y))
    } else if all_digits(a) {
        true
    } else if all_digits(b) {
        false
    } else {
        lex_less(a, b)
    }
}

/// Whether the parts `a` come before the parts `b`: the first part where
/// either comes before the other decides; where all the parts of one are
/// matched, the one with fewer parts comes first.
pub open spec fn parts_less(a: Seq<Seq<char>>, b: Seq<Seq<char>>) -> bool
    decreases a.len(),
{
    if a.len() == 0 {
        b.len() > 0
    } else if b.len() == 0 {
        false
    } else if part_less(a[0], b[0]) {
        true
    } else if part_less(b[0], a[0]) {
        false
    } else {
        parts_less(a.drop_first(), b.drop_first())
    }
}

/// Whether version `a` comes before version `b`, part by part.
pub open spec fn version_less(a: Seq<char>, b: Seq<char>) -> bool {
    parts_less(version_parts(a), version_parts(b))
}

/// Two different strings are ordered one way or the other.
proof fn lemma_lex_less_total(a: Seq<char>, b: Seq<char>)
    requires
        a != b,
    ensures
        lex_less(a, b) || lex_less(b, a),
    decreases a.len(),
{
    if a.len() == 0 || b.len() == 0 {
        if a.len() == 0 && b.len() == 0 {
            assert(a =~= b);
        }
    } else if a[0] != b[0] {
        vstd::utf8::char_u32_cast(a[0], a[0] as u32);
        vstd::utf8::char_u32_cast(b[0], b[0] as u32);
    } else {
        if a.drop_first() == b.drop_first() {
            assert(a =~= seq![a[0]] + a.drop_first());
            assert(b =~= seq![b[0]] + b.drop_first());
        }
        lemma_lex_less_total(a.drop_first(), b.drop_first());
    }
}

/// No part comes before itself, and no two parts each come before the other.
proof fn lemma_part_less_asymmetric(a: Seq<char>, b: Seq<char>)
    ensures
        !(part_less(a, b) && part_less(b, a)),
{
    law_lex_less_asymmetric(strip_zeros(a), strip_zeros(b));
    law_lex_less_asymmetric(a, b);
}

/// The order of parts is transitive.
proof fn lemma_part_less_transitive(a: Seq<char>, b: Seq<char>, c: Seq<char>)
    requires
        part_less(a, b),
        part_less(b, c),
    ensures
        part_less(a, c),
{
    let (x, y, z) = (strip_zeros(a), strip_zeros(b), strip_zeros(c));
    if lex_less(x, y) && lex_less(y, z) {
        lemma_lex_less_transitive(x, y, z);
    }
    if lex_less(a, b) && lex_less(b, c) {
        lemma_lex_less_transitive(a, b, c);
    }
}

/// Where `a` comes before `c`, every `b` comes after `a` or before `c`.
proof fn lemma_part_less_split(a: Seq<char>, b: Seq<char>, c: Seq<char>)
    requires
        part_less(a, c),
    ensures
        part_less(a, b) || part_less(b, c),
{
    let (x, y, z) = (strip_zeros(a), strip_zeros(b), strip_zeros(c));
    if x != y {
        lemma_lex_less_total(x, y);
    }
    if y != z {
        lemma_lex_less_total(y, z);
    }
    if a != b {
        lemma_lex_less_total(a, b);
    }
    if b != c {
        lemma_lex_less_total(b, c);
    }
    if lex_less(y, x) && lex_less(x, z) {
        lemma_lex_less_transitive(y, x, z);
    }
    if lex_less(x, z) && lex_less(z, y) {
        lemma_lex_less_transitive(x, z, y);
    }
    if lex_less(b, a) && lex_less(a, c) {
        lemma_lex_less_transitive(b, a, c);
    }
    if lex_less(a, c) && lex_less(c, b) {
        lemma_lex_less_transitive(a, c, b);
    }
    law_lex_less_asymmetric(x, y);
    law_lex_less_asymmetric(y, z);
    law_lex_less_asymmetric(a, b);
    law_lex_less_asymmetric(b, c);
    law_lex_less_asymmetric(y, y);
    law_lex_less_asymmetric(b, b);
}

/// No version comes before itself, and no two versions each come before the
/// other.
pub proof fn law_version_less_asymmetric(a: Seq<char>, b: Seq<char>)
    ensures
        !(version_less(a, b) && version_less(b, a)),
{
    lemma_parts_less_asymmetric(version_parts(a), version_parts(b));
}

proof fn lemma_parts_less_asymmetric(a: Seq<Seq<char>>, b: Seq<Seq<char>>)
    ensures
        !(parts_less(a, b) && parts_less(b, a)),
    decreases a.len(),
{
    if a.len() > 0 && b.len() > 0 {
        lemma_part_less_asymmetric(a[0], b[0]);
        lemma_parts_less_asymmetric(a.drop_first(), b.drop_first());
    }
}

/// The order of versions is transitive.
pub proof fn law_version_less_transitive(a: Seq<char>, b: Seq<char>, c: Seq<char>)
    requires
        version_less(a, b),
        version_less(b, c),
    ensures
        version_less(a, c),
{
    lemma_parts_less_transitive(version_parts(a), version_parts(b), version_parts(c));
}

proof fn lemma_parts_less_transitive(a: Seq<Seq<char>>, b: Seq<Seq<char>>, c: Seq<Seq<char>>)
    requires
        parts_less(a, b),
        parts_less(b, c),
    ensures
        parts_less(a, c),
    decreases a.len(),
{
    if a.len() > 0 {
        let (x, y, z) = (a[0], b[0], c[0]);
        lemma_part_less_asymmetric(x, y);
        lemma_part_less_asymmetric(y, z);
        lemma_part_less_asymmetric(x, z);
        if part_less(x, y) && part_less(y, z) {
            lemma_part_less_transitive(x, y, z);
        }
        if part_less(x, y) {
            lemma_part_less_split(x, z, y);
        }
        if part_less(y, z) {
            lemma_part_less_split(y, x, z);
        }
        if part_less(x, z) {
            lemma_part_less_split(x, y, z);
        }
        if part_less(z, x) {
            lemma_part_less_split(z, y, x);
        }
        if !part_less(x, y) && !part_less(y, x) && !part_less(y, z) && !part_less(z, y) {
            lemma_parts_less_transitive(a.drop_first(), b.drop_first(), c.drop_first());
        }
    }
}

/// Whether a part is a number: one or more digits.
fn all_digits_exec(v: &Vec<char>) -> (r: bool)
    ensures
        r == all_digits(v@),
{
    let n = v.len();
    if n == 0 {
        return false;
    }
    let mut i: usize = 0;
    while i < n
        invariant
            n == v@.len(),
            i <= n,
            forall|k: int| 0 <= k < i ==> is_digit(#[trigger] v@[k]),
        decreases n - i,
    {
        if !('0' <= v[i] && v[i] <= '9') {
            return false;
        }
        i = i + 1;
    }
    true
}

/// Whether `a[i..]` comes before `b[j..]` in the order of strings.
fn tail_less(a: &Vec<char>, i: usize, b: &Vec<char>, j: usize) -> (r: bool)
    requires
        i <= a.len(),
        j <= b.len(),
    ensures
        r == lex_less(a@.subrange(i as int, a@.len() as int), b@.subrange(j as int, b@.len() as int)),
{
    let n = a.len();
    let m = b.len();
    let mut p: usize = i;
    let mut q: usize = j;
    while p < n && q < m
        invariant
            n == a@.len(),
            m == b@.len(),
            i <= p <= n,
            j <= q <= m,
            p - i == q - j,
            lex_less(a@.subrange(i as int, n as int), b@.subrange(j as int, m as int)) == lex_less(
                a@.subrange(p as int, n as int),
                b@.subrange(q as int, m as int),
            ),
        decreases n - p,
    {
        let ghost sa = a@.subrange(p as int, n as int);
        let ghost sb = b@.subrange(q as int, m as int);
        assert(sa[0] == a[p as int] && sb[0] == b[q as int]);
        if a[p] != b[q] {
            return (a[p] as u32) < (b[q] as u32);
        }
        assert(sa.drop_first() =~= a@.subrange(p + 1, n as int));
        assert(sb.drop_first() =~= b@.subrange(q + 1, m as int));
        p = p + 1;
        q = q + 1;
    }
    p == n && q < m
}

/// Where a number's leading zeros end.
fn zeros_end(v: &Vec<char>) -> (r: usize)
    ensures
        r <= v.len(),
        strip_zeros(v@) == v@.subrange(r as int, v@.len() as int),
{
    let n = v.len();
    let mut i: usize = 0;
    assert(v@.subrange(0, n as int) =~= v@);
    while i < n && v[i] == '0'
        invariant
            n == v@.len(),
            i <= n,
            strip_zeros(v@) == strip_zeros(v@.subrange(i as int, n as int)),
        decreases n - i,
    {
        assert(v@.subrange(i as int, n as int).drop_first() =~= v@.subrange(i + 1, n as int));
        i = i + 1;
    }
    i
}

/// Whether the part `a` comes before the part `b`.
fn part_less_exec(a: &Vec<char>, b: &Vec<char>) -> (r: bool)
    ensures
        r == part_less(a@, b@),
{
    let da = all_digits_exec(a);
    let db = all_digits_exec(b);
    if da && db {
        let za = zeros_end(a);
        let zb = zeros_end(b);
        let la = a.len() - za;
        let lb = b.len() - zb;
        la < lb || (la == lb && tail_less(a, za, b, zb))
    } else if da {
        true
    } else if db {
        false
    } else {
        assert(a@.subrange(0, a@.len() as int) =~= a@);
        assert(b@.subrange(0, b@.len() as int) =~= b@);
        tail_less(a, 0, b, 0)
    }
}

/// The views of a list of parts.
pub open spec fn parts_view(v: Seq<Vec<char>>) -> Seq<Seq<char>> {
    v.map_values(|p: Vec<char>| p@)
}

/// The parts of a version string.
fn parts_of(s: &str) -> (r: Vec<Vec<char>>)
    ensures
        parts_view(r@) == version_parts(s@),
{
    let v = chars_of(s);
    let n = v.len();
    let mut done: Vec<Vec<char>> = Vec::new();
    let mut cur: Vec<char> = Vec::new();
    let mut i: usize = 0;
    assert(v@.subrange(0, 0) =~= Seq::<char>::empty());
    assert(parts_view(done@).push(cur@) =~= version_parts(Seq::<char>::empty()));
    while i < n
        invariant
            n == v@.len(),
            v@ == s@,
            i <= n,
            parts_view(done@).push(cur@) == version_parts(v@.subrange(0, i as int)),
        decreases n - i,
    {
        let c = v[i];
        let ghost pre = v@.subrange(0, i as int);
        let ghost next = v@.subrange(0, i + 1);
        assert(next.drop_last() =~= pre);
        assert(next.last() == c);
        if c == '.' {
            let finished = cur;
            done.push(finished);
            cur = Vec::new();
            assert(parts_view(done@).push(cur@) =~= version_parts(pre).push(Seq::<char>::empty()));
        } else {
            let ghost before = parts_view(done@).push(cur@);
            cur.push(c);
            assert(parts_view(done@).push(cur@) =~= before.update(before.len() - 1, before.last().push(c)));
        }
        i = i + 1;
    }
    assert(v@.subrange(0, n as int) =~= v@);
    let ghost before = done@;
    done.push(cur);
    assert(parts_view(done@) =~= parts_view(before).push(cur@));
    done
}

/// Whether version `a` comes before version `b`, part by part.
pub fn version_less_exec(a: &str, b: &str) -> (r: bool)
    ensures
        r == version_less(a@, b@),
{
    let pa = parts_of(a);
    let pb = parts_of(b);
    let n = pa.len();
    let m = pb.len();
    let mut k: usize = 0;
    let ghost va = parts_view(pa@);
    let ghost vb = parts_view(pb@);
    assert(va.skip(0) =~= va);
    assert(vb.skip(0) =~= vb);
    while k < n && k < m
        invariant
            n == pa@.len(),
            m == pb@.len(),
            va == parts_view(pa@),
            vb == parts_view(pb@),
            va == version_parts(a@),
            vb == version_parts(b@),
            k <= n,
            k <= m,
            version_less(a@, b@) == parts_less(va.skip(k as int), vb.skip(k as int)),
        decreases n - k,
    {
        assert(va.skip(k as int)[0] == pa@[k as int]@);
        assert(vb.skip(k as int)[0] == pb@[k as int]@);
        if part_less_exec(&pa[k], &pb[k]) {
            return true;
        }
        if part_less_exec(&pb[k], &pa[k]) {
            return false;
        }
        assert(va.skip(k as int).drop_first() =~= va.skip(k + 1));
        assert(vb.skip(k as int).drop_first() =~= vb.skip(k + 1));
        k = k + 1;
    }
    k == n && k < m
}

} // verus!
