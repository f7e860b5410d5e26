//! Release version numbers: `"v1.2.3"` style strings compared component by component.
use vstd::prelude::*;

use crate::text::chars_of;

verus! {

/// `s` with every leading `'v'` removed.
pub open spec fn strip_v(s: Seq<char>) -> Seq<char>
    decreases s.len(),
{
    if s.len() > 0 && s[0] == 'v' {
        strip_v(s.drop_first())
    } else {
        s
    }
}

/// The pieces of `s` between `'.'` separators, the first piece starting with `cur`.
/// `split_from(s, seq![])` is what `str::split('.')` yields: never empty, and
/// empty pieces are kept.
pub open spec fn split_from(s: Seq<char>, cur: Seq<char>) -> Seq<Seq<char>>
    decreases s.len(),
{
    if s.len() == 0 {
        seq![cur]
    } else if s[0] == '.' {
        seq![cur] + split_from(s.drop_first(), Seq::empty())
    } else {
        split_from(s.drop_first(), cur.push(s[0]))
    }
}

pub open spec fn split_dots(s: Seq<char>) -> Seq<Seq<char>> {
    split_from(s, Seq::empty())
}

pub open spec fn is_digit(c: char) -> bool {
    '0' <= c && c <= '9'
}

pub open spec fn all_digits(d: Seq<char>) -> bool {
    forall|i: int| 0 <= i < d.len() ==> is_digit(#[trigger] d[i])
}

/// The number written by the decimal digits `d`.
pub open spec fn decimal_value(d: Seq<char>) -> nat
    decreases d.len(),
{
    if d.len() == 0 {
        0
    } else {
        decimal_value(d.drop_last()) * 10 + ((d.last() as nat) - ('0' as nat)) as nat
    }
}

/// The digits of a number written with an optional leading `'+'`.
pub open spec fn unsigned_digits(seg: Seq<char>) -> Seq<char> {
    if seg.len() > 0 && seg[0] == '+' {
        seg.drop_first()
    } else {
        seg
    }
}

/// What `seg.parse::<u32>()` gives, as an `Option`: an optional `'+'`, then at
/// least one ASCII digit and nothing else, and a value that fits in a `u32`.
pub open spec fn parse_u32(seg: Seq<char>) -> Option<u32> {
    let d = unsigned_digits(seg);
    if d.len() > 0 && all_digits(d) && decimal_value(d) <= u32::MAX {
        Some(decimal_value(d) as u32)
    } else {
        None
    }
}

/// The pieces that parse as `u32`, in order; the others are dropped.
pub open spec fn parse_pieces(segs: Seq<Seq<char>>) -> Seq<u32>
    decreases segs.len(),
{
    if segs.len() == 0 {
        Seq::empty()
    } else {
        match parse_u32(segs[0]) {
            Some(n) => seq![n] + parse_pieces(segs.drop_first()),
            None => parse_pieces(segs.drop_first()),
        }
    }
}

/// The numeric components of a version string such as `"v1.2.3"`.
pub open spec fn version_components(s: Seq<char>) -> Seq<u32> {
    parse_pieces(split_dots(strip_v(s)))
}

/// Lexicographic order on sequences of numbers, as `Vec<u32>`'s `>` orders them:
/// the first differing component decides, and a proper prefix is smaller.
pub open spec fn lex_greater(a: Seq<u32>, b: Seq<u32>) -> bool
    decreases a.len(),
{
    if a.len() == 0 {
        false
    } else if b.len() == 0 {
        true
    } else if a[0] != b[0] {
        a[0] > b[0]
    } else {
        lex_greater(a.drop_first(), b.drop_first())
    }
}

/// `remote` names a later version than `local`.
pub open spec fn newer(remote: Seq<char>, local: Seq<char>) -> bool {
    lex_greater(version_components(remote), version_components(local))
}

proof fn lemma_parse_pieces_cons(cur: Seq<char>, rest: Seq<Seq<char>>)
    ensures
        parse_pieces(seq![cur] + rest) == (match parse_u32(cur) {
            Some(n) => seq![n] + parse_pieces(rest),
            None => parse_pieces(rest),
        }),
{
    let s = seq![cur] + rest;
    assert(s[0] == cur);
    assert(s.drop_first() =~= rest);
}

/// Parses one piece; `None` where `str::parse::<u32>` fails.
fn parse_piece(seg: &Vec<char>) -> (r: Option<u32>)
    ensures
        r == parse_u32(seg@),
{
    let n = seg.len();
    let start: usize = if n > 0 && seg[0] == '+' { 1 } else { 0 };
    let ghost d = unsigned_digits(seg@);
    assert(d =~= seg@.skip(start as int));
    if start == n {
        return None;
    }
    let mut val: u64 = 0;
    let mut too_big = false;
    let mut k: usize = start;
    while k < n
        invariant
            start <= k <= n,
            n == seg@.len(),
            start < n,
            d == unsigned_digits(seg@),
            d =~= seg@.skip(start as int),
            forall|j: int| start <= j < k ==> is_digit(#[trigger] seg@[j]),
            !too_big ==> val == decimal_value(d.take(k - start)) && val <= u32::MAX,
            too_big ==> decimal_value(d.take(k - start)) > u32::MAX,
        decreases n - k,
    {
        let c = seg[k];
        if !('0' <= c && c <= '9') {
            assert(!all_digits(d)) by {
                assert(d[k - start] == c);
                assert(!is_digit(d[k - start]));
            }
            return None;
        }
        let digit = (c as u32 - '0' as u32) as u64;
        assert(d.take(k + 1 - start).drop_last() =~= d.take(k - start));
        assert(d.take(k + 1 - start).last() == c);
        if !too_big {
            val = val * 10 + digit;
            if val > 0xffff_ffff {
                too_big = true;
            }
        }
        k = k + 1;
    }
    assert(d.take(n - start) =~= d);
    assert(all_digits(d));
    if too_big {
        None
    } else {
        Some(val as u32)
    }
}

/// The numeric components of `s`: leading `'v'`s removed, split at `'.'`,
/// and the pieces that are not `u32` numbers dropped.
pub fn parse_version(s: &str) -> (r: Vec<u32>)
    ensures
        r@ == version_components(s@),
{
    let t = chars_of(s);
    let n = t.len();
    let mut i: usize = 0;
    assert(t@.skip(0) =~= t@);
    while i < n && t[i] == 'v'
        invariant
            i <= n,
            n == t@.len(),
            strip_v(t@) == strip_v(t@.skip(i as int)),
        decreases n - i,
    {
        assert(t@.skip(i as int).drop_first() =~= t@.skip(i + 1));
        i = i + 1;
    }
    assert(strip_v(t@.skip(i as int)) == t@.skip(i as int));
    let ghost u = t@.skip(i as int);
    let mut out: Vec<u32> = Vec::new();
    let mut cur: Vec<char> = Vec::new();
    let mut j: usize = i;
    assert(t@.skip(j as int) =~= u);
    while j < n
        invariant
            i <= j <= n,
            n == t@.len(),
            u == t@.skip(i as int),
            parse_pieces(split_dots(u)) == out@ + parse_pieces(split_from(t@.skip(j as int), cur@)),
        decreases n - j,
    {
        let c = t[j];
        let ghost rest = t@.skip(j as int);
        assert(rest[0] == c);
        assert(rest.drop_first() =~= t@.skip(j + 1));
        if c == '.' {
            let p = parse_piece(&cur);
            proof {
                lemma_parse_pieces_cons(cur@, split_from(t@.skip(j + 1), Seq::empty()));
            }
            let ghost old_out = out@;
            match p {
                Some(v) => {
                    out.push(v);
                    assert(out@ =~= old_out + seq![v]);
                    assert(old_out + (seq![v] + parse_pieces(split_from(t@.skip(j + 1), Seq::empty())))
                        =~= out@ + parse_pieces(split_from(t@.skip(j + 1), Seq::empty())));
                },
                None => {},
            }
            cur = Vec::new();
            assert(cur@ =~= Seq::<char>::empty());
        } else {
            cur.push(c);
        }
        j = j + 1;
    }
    assert(t@.skip(n as int) =~= Seq::<char>::empty());
    let p = parse_piece(&cur);
    proof {
        lemma_parse_pieces_cons(cur@, Seq::empty());
        assert(seq![cur@] + Seq::<Seq<char>>::empty() =~= seq![cur@]);
        assert(parse_pieces(Seq::<Seq<char>>::empty()) =~= Seq::<u32>::empty());
    }
    let ghost old_out = out@;
    match p {
        Some(v) => {
            out.push(v);
            assert(out@ =~= old_out + seq![v]);
            assert(seq![v] + Seq::<u32>::empty() =~= seq![v]);
        },
        None => {
            assert(old_out + Seq::<u32>::empty() =~= old_out);
        },
    }
    out
}

/// `a > b` in the lexicographic order of `Vec<u32>`.
pub fn lex_gt(a: &Vec<u32>, b: &Vec<u32>) -> (r: bool)
    ensures
        r == lex_greater(a@, b@),
{
    let mut i: usize = 0;
    assert(a@.skip(0) =~= a@);
    assert(b@.skip(0) =~= b@);
    while i < a.len() && i < b.len()
        invariant
            i <= a@.len(),
            i <= b@.len(),
            lex_greater(a@, b@) == lex_greater(a@.skip(i as int), b@.skip(i as int)),
        decreases a@.len() - i,
    {
        if a[i] != b[i] {
            return a[i] > b[i];
        }
        assert(a@.skip(i as int).drop_first() =~= a@.skip(i + 1));
        assert(b@.skip(i as int).drop_first() =~= b@.skip(i + 1));
        i = i + 1;
    }
    if i < a.len() {
        true
    } else {
        false
    }
}

/// `remote` is a later version than `local`, comparing the numeric components
/// in order (`"1.1.0"` is newer than `"1.0.0"`; a leading `'v'` is ignored).
pub fn is_newer(remote: &str, local: &str) -> (r: bool)
    ensures
        r == newer(remote@, local@),
{
    let rv = parse_version(remote);
    let lv = parse_version(local);
    lex_gt(&rv, &lv)
}

/// No version is newer than itself.
pub proof fn lemma_lex_irreflexive(a: Seq<u32>)
    ensures
        !lex_greater(a, a),
    decreases a.len(),
{
    if a.len() > 0 {
        lemma_lex_irreflexive(a.drop_first());
    }
}

/// Of two versions at most one is newer than the other.
pub proof fn lemma_lex_asymmetric(a: Seq<u32>, b: Seq<u32>)
    ensures
        lex_greater(a, b) ==> !lex_greater(b, a),
    decreases a.len(),
{
    if a.len() > 0 && b.len() > 0 && a[0] == b[0] {
        lemma_lex_asymmetric(a.drop_first(), b.drop_first());
    }
}

/// Newer-than is transitive.
pub proof fn lemma_lex_transitive(a: Seq<u32>, b: Seq<u32>, c: Seq<u32>)
    requires
        lex_greater(a, b),
        lex_greater(b, c),
    ensures
        lex_greater(a, c),
    decreases a.len(),
{
    if a.len() > 0 && b.len() > 0 && c.len() > 0 && a[0] == b[0] && b[0] == c[0] {
        lemma_lex_transitive(a.drop_first(), b.drop_first(), c.drop_first());
    }
}

/// `is_newer` is a strict order on version strings: never newer than itself,
/// never newer both ways, and transitive.
pub proof fn law_is_newer_strict_order(a: Seq<char>, b: Seq<char>, c: Seq<char>)
    ensures
        !newer(a, a),
        newer(a, b) ==> !newer(b, a),
        newer(a, b) && newer(b, c) ==> newer(a, c),
{
    lemma_lex_irreflexive(version_components(a));
    lemma_lex_asymmetric(version_components(a), version_components(b));
    if newer(a, b) && newer(b, c) {
        lemma_lex_transitive(version_components(a), version_components(b), version_components(c));
    }
}

/// Leading `'v'`s do not change a version.
pub proof fn law_leading_v_ignored(s: Seq<char>)
    ensures
        version_components(seq!['v'] + s) == version_components(s),
{
    let t = seq!['v'] + s;
    assert(t.drop_first() =~= s);
}

} // verus!
