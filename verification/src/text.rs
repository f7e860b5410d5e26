//! Text helpers shared by the library: characters of strings, whitespace,
//! trimming, substring search, word splitting and decimal numbers.
use vstd::prelude::*;

verus! {

/// The characters of `s`, in order.
pub fn chars_of(s: &str) -> (v: Vec<char>)
    ensures
        v@ == s@,
{
    let mut v: Vec<char> = Vec::new();
    for c in it: s.chars()
        invariant
            v@ == it.seq().take(it.index() as int),
            it.seq() == s@,
    {
        v.push(c);
    }
    v
}

/// Collects characters into a `String` (`Iterator::collect` into `String`,
/// which appends each character in turn): the string holds exactly `v`.
#[verifier::external_body]
pub(crate) fn string_from_chars(v: &[char]) -> (s: String)
    ensures
        s@ == v@,
{
    v.iter().collect()
}

/// A `String` holding the characters of `s`.
pub fn owned(s: &str) -> (r: String)
    ensures
        r@ == s@,
{
    s.to_owned()
}

/// `a` followed by `b`.
pub fn concat(a: &str, b: &str) -> (r: String)
    ensures
        r@ == a@ + b@,
{
    let mut r = owned(a);
    r.append(b);
    r
}

/// `a`, `b` and `c` one after the other.
pub fn concat3(a: &str, b: &str, c: &str) -> (r: String)
    ensures
        r@ == a@ + b@ + c@,
{
    let mut r = owned(a);
    r.append(b);
    r.append(c);
    r
}

/// `s` with `c` appended.
pub fn push_char(s: &String, c: char) -> (r: String)
    ensures
        r@ == s@.push(c),
{
    let mut v = chars_of(s.as_str());
    v.push(c);
    string_from_chars(v.as_slice())
}

/// `s` without its last character (unchanged when empty), as `String::pop` leaves it.
pub fn pop_char(s: &String) -> (r: String)
    ensures
        r@ == if s@.len() > 0 { s@.drop_last() } else { s@ },
{
    let mut v = chars_of(s.as_str());
    if v.len() > 0 {
        v.pop();
    }
    string_from_chars(v.as_slice())
}

/// Unicode's `White_Space` property, which `char::is_whitespace` tests.
pub open spec fn white_space(c: char) -> bool {
    let u = c as u32;
    (0x09 <= u && u <= 0x0d) || u == 0x20 || u == 0x85 || u == 0xa0 || u == 0x1680 || (0x2000
        <= u && u <= 0x200a) || u == 0x2028 || u == 0x2029 || u == 0x202f || u == 0x205f || u
        == 0x3000
}

/// Whether `c` is whitespace in Unicode's sense.
pub fn is_whitespace(c: char) -> (b: bool)
    ensures
        b == white_space(c),
{
    let u = c as u32;
    (0x09 <= u && u <= 0x0d) || u == 0x20 || u == 0x85 || u == 0xa0 || u == 0x1680 || (0x2000
        <= u && u <= 0x200a) || u == 0x2028 || u == 0x2029 || u == 0x202f || u == 0x205f || u
        == 0x3000
}

/// `s` without its leading whitespace.
pub open spec fn trim_start(s: Seq<char>) -> Seq<char>
    decreases s.len(),
{
    if s.len() > 0 && white_space(s[0]) {
        trim_start(s.drop_first())
    } else {
        s
    }
}

/// `s` without its trailing whitespace.
pub open spec fn trim_end(s: Seq<char>) -> Seq<char>
    decreases s.len(),
{
    if s.len() > 0 && white_space(s.last()) {
        trim_end(s.drop_last())
    } else {
        s
    }
}

/// `s` without leading and trailing whitespace, as `str::trim` gives it.
pub open spec fn trim(s: Seq<char>) -> Seq<char> {
    trim_end(trim_start(s))
}

/// Position of the first character of `s` that is kept by `trim_start`.
fn first_non_white(s: &Vec<char>) -> (i: usize)
    ensures
        i <= s@.len(),
        trim_start(s@) == s@.skip(i as int),
{
    let mut i: usize = 0;
    assert(s@.skip(0) =~= s@);
    while i < s.len() && is_whitespace(s[i])
        invariant
            i <= s@.len(),
            trim_start(s@) == trim_start(s@.skip(i as int)),
        decreases s@.len() - i,
    {
        assert(s@.skip(i as int).drop_first() =~= s@.skip(i + 1));
        i = i + 1;
    }
    i
}

/// Length of `s` once `trim_end` has removed its trailing whitespace.
fn end_non_white(s: &Vec<char>) -> (j: usize)
    ensures
        j <= s@.len(),
        trim_end(s@) == s@.take(j as int),
{
    let mut j: usize = s.len();
    assert(s@.take(j as int) =~= s@);
    while j > 0 && is_whitespace(s[j - 1])
        invariant
            j <= s@.len(),
            trim_end(s@) == trim_end(s@.take(j as int)),
        decreases j,
    {
        assert(s@.take(j as int).drop_last() =~= s@.take(j - 1));
        j = j - 1;
    }
    j
}

/// The characters of `v[from..to]`.
pub fn slice_chars(v: &Vec<char>, from: usize, to: usize) -> (r: Vec<char>)
    requires
        from <= to <= v@.len(),
    ensures
        r@ == v@.subrange(from as int, to as int),
{
    let mut r: Vec<char> = Vec::new();
    let mut k = from;
    while k < to
        invariant
            from <= k <= to,
            to <= v@.len(),
            r@ == v@.subrange(from as int, k as int),
        decreases to - k,
    {
        r.push(v[k]);
        assert(r@ =~= v@.subrange(from as int, k + 1));
        k = k + 1;
    }
    r
}

/// `s` with leading and trailing whitespace removed (`str::trim`).
pub fn trim_chars(s: &Vec<char>) -> (r: Vec<char>)
    ensures
        r@ == trim(s@),
{
    let i = first_non_white(s);
    let rest = slice_chars(s, i, s.len());
    assert(rest@ =~= s@.skip(i as int));
    let j = end_non_white(&rest);
    slice_chars(&rest, 0, j)
}

/// `s` with trailing whitespace removed (`str::trim_end`).
pub fn trim_end_chars(s: &Vec<char>) -> (r: Vec<char>)
    ensures
        r@ == trim_end(s@),
{
    let j = end_non_white(s);
    slice_chars(s, 0, j)
}

/// `s` with leading and trailing whitespace removed.
pub fn trim_str(s: &str) -> (r: String)
    ensures
        r@ == trim(s@),
{
    let v = chars_of(s);
    let t = trim_chars(&v);
    string_from_chars(t.as_slice())
}

/// `w` occurs in `h` starting at position `k`.
pub open spec fn occurs_at(h: Seq<char>, w: Seq<char>, k: int) -> bool {
    0 <= k && k + w.len() <= h.len() && h.subrange(k, k + w.len()) == w
}

/// `w` is a substring of `h` (`str::contains`); the empty string is in every string.
pub open spec fn contains(h: Seq<char>, w: Seq<char>) -> bool {
    exists|k: int| occurs_at(h, w, k)
}

fn matches_at(h: &Vec<char>, w: &Vec<char>, k: usize) -> (b: bool)
    requires
        k + w@.len() <= h@.len(),
    ensures
        b == occurs_at(h@, w@, k as int),
{
    let mut i: usize = 0;
    while i < w.len()
        invariant
            i <= w@.len(),
            k + w@.len() <= h@.len(),
            h@.len() == h.len(),
            forall|j: int| 0 <= j < i ==> h@[k + j] == w@[j],
        decreases w@.len() - i,
    {
        if h[k + i] != w[i] {
            assert(h@.subrange(k as int, k + w@.len())[i as int] != w@[i as int]);
            return false;
        }
        i = i + 1;
    }
    assert(h@.subrange(k as int, k + w@.len()) =~= w@);
    true
}

/// Substring search over characters.
pub fn contains_chars(h: &Vec<char>, w: &Vec<char>) -> (b: bool)
    ensures
        b == contains(h@, w@),
{
    if w.len() > h.len() {
        assert(forall|k: int| !occurs_at(h@, w@, k));
        return false;
    }
    let last = h.len() - w.len();
    let mut k: usize = 0;
    loop
        invariant
            last == h@.len() - w@.len(),
            w@.len() <= h@.len(),
            k <= last,
            forall|j: int| 0 <= j < k ==> !occurs_at(h@, w@, j),
        decreases last - k,
    {
        if matches_at(h, w, k) {
            return true;
        }
        if k == last {
            assert forall|j: int| !occurs_at(h@, w@, j) by {
                if 0 <= j && j + w@.len() <= h@.len() {
                    assert(j <= last);
                }
            }
            return false;
        }
        k = k + 1;
    }
}

/// `w` is a substring of `h`.
pub fn str_contains(h: &str, w: &str) -> (b: bool)
    ensures
        b == contains(h@, w@),
{
    let hv = chars_of(h);
    let wv = chars_of(w);
    contains_chars(&hv, &wv)
}

/// The lowercase form of `s` as `str::to_lowercase` computes it from Unicode's
/// case tables (a character may become several, and a final sigma depends on its
/// neighbours), named here for what that function returns.
pub uninterp spec fn lowercase(s: Seq<char>) -> Seq<char>;

/// `str::to_lowercase`: the result is the lowercase form `lowercase(s@)`, a
/// function of the characters of `s` alone.
#[verifier::external_body]
pub(crate) fn to_lowercase(s: &str) -> (r: String)
    ensures
        r@ == lowercase(s@),
{
    s.to_lowercase()
}

/// The whitespace-separated words of `s` with `cur` the start of the first one,
/// as `str::split_whitespace` yields them: no empty words.
pub open spec fn words_from(s: Seq<char>, cur: Seq<char>) -> Seq<Seq<char>>
    decreases s.len(),
{
    if s.len() == 0 {
        if cur.len() > 0 {
            seq![cur]
        } else {
            Seq::empty()
        }
    } else if white_space(s[0]) {
        if cur.len() > 0 {
            seq![cur] + words_from(s.drop_first(), Seq::empty())
        } else {
            words_from(s.drop_first(), Seq::empty())
        }
    } else {
        words_from(s.drop_first(), cur.push(s[0]))
    }
}

/// The whitespace-separated words of `s`.
pub open spec fn words(s: Seq<char>) -> Seq<Seq<char>> {
    words_from(s, Seq::empty())
}

/// Every word of `ws` occurs in `h`.
pub open spec fn all_occur(h: Seq<char>, ws: Seq<Seq<char>>) -> bool {
    forall|i: int| 0 <= i < ws.len() ==> contains(h, #[trigger] ws[i])
}

proof fn lemma_all_occur_cons(h: Seq<char>, w: Seq<char>, rest: Seq<Seq<char>>)
    ensures
        all_occur(h, seq![w] + rest) == (contains(h, w) && all_occur(h, rest)),
{
    let s = seq![w] + rest;
    if contains(h, w) && all_occur(h, rest) {
        assert forall|i: int| 0 <= i < s.len() implies contains(h, #[trigger] s[i]) by {
            if i > 0 {
                assert(s[i] == rest[i - 1]);
            }
        }
    }
    if all_occur(h, s) {
        assert(s[0] == w);
        assert forall|i: int| 0 <= i < rest.len() implies contains(h, #[trigger] rest[i]) by {
            assert(s[i + 1] == rest[i]);
        }
    }
}

/// Every whitespace-separated word of `query` occurs in `h`.
pub fn all_words_occur(h: &Vec<char>, query: &Vec<char>) -> (b: bool)
    ensures
        b == all_occur(h@, words(query@)),
{
    let n = query.len();
    let mut cur: Vec<char> = Vec::new();
    let mut j: usize = 0;
    assert(query@.skip(0) =~= query@);
    while j < n
        invariant
            j <= n,
            n == query@.len(),
            all_occur(h@, words(query@)) == all_occur(h@, words_from(query@.skip(j as int), cur@)),
        decreases n - j,
    {
        let c = query[j];
        let ghost rest = query@.skip(j as int);
        assert(rest[0] == c);
        assert(rest.drop_first() =~= query@.skip(j + 1));
        if is_whitespace(c) {
            if cur.len() > 0 {
                proof {
                    lemma_all_occur_cons(h@, cur@, words_from(query@.skip(j + 1), Seq::empty()));
                }
                if !contains_chars(h, &cur) {
                    return false;
                }
            }
            cur = Vec::new();
            assert(cur@ =~= Seq::<char>::empty());
        } else {
            cur.push(c);
        }
        j = j + 1;
    }
    assert(query@.skip(n as int) =~= Seq::<char>::empty());
    if cur.len() > 0 {
        proof {
            lemma_all_occur_cons(h@, cur@, Seq::empty());
            assert(seq![cur@] + Seq::<Seq<char>>::empty() =~= seq![cur@]);
        }
        contains_chars(h, &cur)
    } else {
        true
    }
}

/// The ASCII digit for a value below ten.
pub open spec fn digit_char(d: nat) -> char {
    (48 + d) as char
}

/// The decimal numeral for `n`, without leading zeros (`"0"` for zero).
pub open spec fn decimal(n: nat) -> Seq<char>
    decreases n,
{
    if n < 10 {
        seq![digit_char(n)]
    } else {
        decimal(n / 10).push(digit_char(n % 10))
    }
}

fn push_decimal(n: u64, out: &mut Vec<char>)
    ensures
        final(out)@ == old(out)@ + decimal(n as nat),
    decreases n,
{
    if n >= 10 {
        push_decimal(n / 10, out);
    }
    let d = (n % 10) as u8;
    out.push((48u8 + d) as char);
    assert(out@ =~= old(out)@ + decimal(n as nat)) by {
        if n >= 10 {
            assert(decimal(n as nat) == decimal((n / 10) as nat).push(digit_char((n % 10) as nat)));
        }
    }
}

/// The decimal numeral for `n` as characters.
pub fn decimal_chars(n: u64) -> (r: Vec<char>)
    ensures
        r@ == decimal(n as nat),
{
    let mut out: Vec<char> = Vec::new();
    push_decimal(n, &mut out);
    assert(out@ =~= decimal(n as nat));
    out
}

/// The decimal numeral for `n` (`n.to_string()`).
pub fn decimal_string(n: u64) -> (r: String)
    ensures
        r@ == decimal(n as nat),
{
    let v = decimal_chars(n);
    string_from_chars(v.as_slice())
}

/// The UTF-8 bytes of `s`.
pub fn utf8_bytes(s: &str) -> (v: Vec<u8>)
    ensures
        v@ == vstd::utf8::encode_utf8(s@),
{
    vstd::slice::slice_to_vec(s.as_bytes())
}

/// Whether `a` and `b` hold the same characters.
pub fn str_eq(a: &str, b: &str) -> (r: bool)
    ensures
        r == (a@ == b@),
{
    let x = chars_of(a);
    let y = chars_of(b);
    if x.len() != y.len() {
        return false;
    }
    let mut i: usize = 0;
    while i < x.len()
        invariant
            i <= x@.len(),
            x@.len() == y@.len(),
            x@ == a@,
            y@ == b@,
            forall|j: int| 0 <= j < i ==> x@[j] == y@[j],
        decreases x@.len() - i,
    {
        if x[i] != y[i] {
            return false;
        }
        i = i + 1;
    }
    assert(x@ =~= y@);
    true
}

/// Whether `c` occurs in `s`.
pub fn has_char(s: &str, c: char) -> (b: bool)
    ensures
        b == s@.contains(c),
{
    let v = chars_of(s);
    let mut i: usize = 0;
    while i < v.len()
        invariant
            i <= v@.len(),
            v@ == s@,
            forall|j: int| 0 <= j < i ==> v@[j] != c,
        decreases v@.len() - i,
    {
        if v[i] == c {
            assert(s@[i as int] == c);
            return true;
        }
        i = i + 1;
    }
    false
}

/// Number of characters of `s`.
pub fn char_count(s: &str) -> (n: usize)
    ensures
        n == s@.len(),
{
    chars_of(s).len()
}

} // verus!
