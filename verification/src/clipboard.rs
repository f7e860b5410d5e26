//! Clipboard support: the OSC 52 escape sequence that asks the terminal to set
//! its clipboard, with the Base64 encoding it needs, and the clipboard
//! programs tried after it.
use vstd::prelude::*;

use crate::text::{owned, string_from_chars};
use crate::updater::Os;

verus! {

/// The Base64 digit for a value below 64 (`A-Z`, `a-z`, `0-9`, `+`, `/`).
pub open spec fn b64_digit(v: int) -> char {
    if v < 26 {
        (65 + v) as char
    } else if v < 52 {
        (97 + (v - 26)) as char
    } else if v < 62 {
        (48 + (v - 52)) as char
    } else if v == 62 {
        '+'
    } else {
        '/'
    }
}

/// The four characters for one group of one to three bytes, padded with `'='`.
pub open spec fn b64_group(g: Seq<u8>) -> Seq<char> {
    let b0 = g[0] as int;
    let b1 = if g.len() > 1 { g[1] as int } else { 0 };
    let b2 = if g.len() > 2 { g[2] as int } else { 0 };
    seq![
        b64_digit(b0 / 4),
        b64_digit((b0 % 4) * 16 + b1 / 16),
        if g.len() > 1 { b64_digit((b1 % 16) * 4 + b2 / 64) } else { '=' },
        if g.len() > 2 { b64_digit(b2 % 64) } else { '=' },
    ]
}

/// Standard Base64 with `'='` padding: each group of three bytes (the last one
/// possibly shorter) becomes four characters.
pub open spec fn base64(s: Seq<u8>) -> Seq<char>
    decreases s.len(),
{
    if s.len() == 0 {
        Seq::empty()
    } else if s.len() <= 3 {
        b64_group(s)
    } else {
        b64_group(s.take(3)) + base64(s.skip(3))
    }
}

/// The characters Base64 may produce.
pub open spec fn is_b64_char(c: char) -> bool {
    ('A' <= c && c <= 'Z') || ('a' <= c && c <= 'z') || ('0' <= c && c <= '9') || c == '+'
        || c == '/' || c == '='
}

fn digit(v: u32) -> (c: char)
    requires
        v < 64,
    ensures
        c == b64_digit(v as int),
{
    if v < 26 {
        ((65 + v) as u8) as char
    } else if v < 52 {
        ((97 + (v - 26)) as u8) as char
    } else if v < 62 {
        ((48 + (v - 52)) as u8) as char
    } else if v == 62 {
        '+'
    } else {
        '/'
    }
}

/// The four characters for the group of bytes starting at `i`.
fn encode_group(s: &[u8], i: usize) -> (g: [char; 4])
    requires
        i < s@.len(),
    ensures
        g@ == b64_group(s@.skip(i as int).take(if s@.len() - i >= 3 { 3 } else { s@.len() - i })),
{
    let n = s.len();
    let ghost grp = s@.skip(i as int).take(if s@.len() - i >= 3 { 3 } else { s@.len() - i });
    let b0 = s[i] as u32;
    let b1: u32 = if n - i > 1 { s[i + 1] as u32 } else { 0 };
    let b2: u32 = if n - i > 2 { s[i + 2] as u32 } else { 0 };
    assert(grp[0] == s@[i as int]);
    assert(i + 1 < n ==> grp.len() > 1 && grp[1] == s@[i + 1]);
    assert(i + 2 < n ==> grp.len() > 2 && grp[2] == s@[i + 2]);
    let c0 = digit(b0 / 4);
    let c1 = digit((b0 % 4) * 16 + b1 / 16);
    let c2 = if n - i > 1 { digit((b1 % 16) * 4 + b2 / 64) } else { '=' };
    let c3 = if n - i > 2 { digit(b2 % 64) } else { '=' };
    let g = [c0, c1, c2, c3];
    assert(g@ =~= b64_group(grp));
    g
}

/// Encodes `input` in standard Base64 with `'='` padding.
pub fn base64_encode(input: &[u8]) -> (out: String)
    ensures
        out@ == base64(input@),
{
    let n = input.len();
    let mut out: Vec<char> = Vec::new();
    let mut i: usize = 0;
    assert(input@.skip(0) =~= input@);
    while i < n
        invariant
            i <= n,
            n == input@.len(),
            base64(input@) == out@ + base64(input@.skip(i as int)),
        decreases n - i,
    {
        let g = encode_group(input, i);
        let ghost rest = input@.skip(i as int);
        let ghost old_out = out@;
        out.push(g[0]);
        out.push(g[1]);
        out.push(g[2]);
        out.push(g[3]);
        assert(out@ =~= old_out + g@);
        if n - i <= 3 {
            assert(rest.take(rest.len() as int) =~= rest);
            assert(input@.skip(n as int) =~= Seq::<u8>::empty());
            i = n;
            assert(out@ + base64(input@.skip(i as int)) =~= old_out + g@);
        } else {
            assert(rest.skip(3) =~= input@.skip(i + 3));
            i = i + 3;
            assert(old_out + (g@ + base64(input@.skip(i as int)))
                =~= out@ + base64(input@.skip(i as int)));
        }
    }
    assert(input@.skip(n as int) =~= Seq::<u8>::empty());
    assert(out@ + Seq::<char>::empty() =~= out@);
    string_from_chars(out.as_slice())
}

/// The prefix of the OSC 52 clipboard request: `ESC ] 52 ; c ;`.
pub open spec fn osc52_prefix() -> Seq<char> {
    seq!['\x1b', ']', '5', '2', ';', 'c', ';']
}

/// The escape sequence `ESC ] 52 ; c ; <base64 of the UTF-8 bytes of text> BEL`
/// that asks the terminal to put `text` on the clipboard.
pub open spec fn osc52(text: Seq<char>) -> Seq<char> {
    osc52_prefix() + base64(vstd::utf8::encode_utf8(text)) + seq!['\x07']
}

/// Builds the OSC 52 sequence that copies `text`.
pub fn osc52_sequence(text: &str) -> (seq: String)
    ensures
        seq@ == osc52(text@),
{
    let b64 = base64_encode(text.as_bytes());
    let b = crate::text::chars_of(b64.as_str());
    let mut out: Vec<char> = Vec::new();
    out.push('\x1b');
    out.push(']');
    out.push('5');
    out.push('2');
    out.push(';');
    out.push('c');
    out.push(';');
    assert(out@ =~= osc52_prefix());
    let mut k: usize = 0;
    while k < b.len()
        invariant
            k <= b@.len(),
            out@ == osc52_prefix() + b@.take(k as int),
        decreases b@.len() - k,
    {
        out.push(b[k]);
        assert(b@.take(k + 1) =~= b@.take(k as int).push(b@[k as int]));
        assert(out@ =~= osc52_prefix() + b@.take(k + 1));
        k = k + 1;
    }
    assert(b@.take(b@.len() as int) =~= b@);
    out.push('\x07');
    assert(out@ =~= osc52(text@));
    string_from_chars(out.as_slice())
}

/// Whether copying succeeded: it did if either the OSC 52 request reached the
/// terminal or an external clipboard program accepted the text.
pub fn copy_to_clipboard(osc52_sent: bool, external_ok: bool) -> (ok: bool)
    ensures
        ok == (osc52_sent || external_ok),
{
    osc52_sent || external_ok
}

/// The clipboard programs for `os`, in the order they are tried, each with
/// its arguments: `xclip`, `xsel`, `wl-copy` and `clip.exe` (for Windows
/// Subsystem for Linux) on Linux and other systems, `pbcopy` on macOS,
/// `clip.exe` on Windows.
pub open spec fn clipboard_tools_of(os: Os) -> Seq<(Seq<char>, Seq<Seq<char>>)> {
    match os {
        Os::Other => seq![
            ("xclip"@, seq!["-selection"@, "clipboard"@]),
            ("xsel"@, seq!["--clipboard"@, "--input"@]),
            ("wl-copy"@, Seq::empty()),
            ("clip.exe"@, Seq::empty()),
        ],
        Os::MacOs => seq![("pbcopy"@, Seq::empty())],
        Os::Windows => seq![("clip.exe"@, Seq::empty())],
    }
}

fn tool(name: &str, args: Vec<String>) -> (r: (String, Vec<String>))
    ensures
        r.0@ == name@,
        r.1 == args,
{
    (owned(name), args)
}

/// The clipboard programs for `os` (see [`clipboard_tools_of`]).
pub fn clipboard_tools(os: Os) -> (r: Vec<(String, Vec<String>)>)
    ensures
        r.deep_view() == clipboard_tools_of(os),
{
    let mut r: Vec<(String, Vec<String>)> = Vec::new();
    match os {
        Os::Other => {
            r.push(tool("xclip", vec![owned("-selection"), owned("clipboard")]));
            r.push(tool("xsel", vec![owned("--clipboard"), owned("--input")]));
            r.push(tool("wl-copy", Vec::new()));
            r.push(tool("clip.exe", Vec::new()));
        },
        Os::MacOs => {
            r.push(tool("pbcopy", Vec::new()));
        },
        Os::Windows => {
            r.push(tool("clip.exe", Vec::new()));
        },
    }
    assert(r.deep_view() =~~= clipboard_tools_of(os));
    r
}

/// What trying the clipboard programs in turn gives: `tries[i]` is `None`
/// when program `i` did not start, else whether it took the text. The first
/// program that starts decides; when none does, copying failed.
pub open spec fn tools_outcome(tries: Seq<Option<bool>>) -> bool
    decreases tries.len(),
{
    if tries.len() == 0 {
        false
    } else {
        match tries[0] {
            Some(ok) => ok,
            None => tools_outcome(tries.drop_first()),
        }
    }
}

/// Whether the clipboard programs, tried in turn, took the text (see
/// [`tools_outcome`]).
pub fn external_outcome(tries: &Vec<Option<bool>>) -> (ok: bool)
    ensures
        ok == tools_outcome(tries@),
{
    let mut i: usize = 0;
    assert(tries@.skip(0) =~= tries@);
    while i < tries.len()
        invariant
            i <= tries@.len(),
            tools_outcome(tries@) == tools_outcome(tries@.skip(i as int)),
        decreases tries@.len() - i,
    {
        assert(tries@.skip(i as int).drop_first() =~= tries@.skip(i + 1));
        assert(tries@.skip(i as int)[0] == tries@[i as int]);
        match tries[i] {
            Some(ok) => {
                return ok;
            },
            None => {},
        }
        i = i + 1;
    }
    false
}

/// Base64 turns every group of up to three bytes into four characters.
pub proof fn law_base64_length(s: Seq<u8>)
    ensures
        base64(s).len() == 4 * ((s.len() + 2) / 3),
    decreases s.len(),
{
    if s.len() > 3 {
        law_base64_length(s.skip(3));
    }
}

/// Base64 output uses only the Base64 alphabet and `'='`.
pub proof fn law_base64_alphabet(s: Seq<u8>)
    ensures
        forall|k: int| 0 <= k < base64(s).len() ==> is_b64_char(#[trigger] base64(s)[k]),
    decreases s.len(),
{
    if s.len() > 3 {
        law_base64_alphabet(s.skip(3));
        let g = b64_group(s.take(3));
        let r = base64(s.skip(3));
        assert forall|k: int| 0 <= k < base64(s).len() implies is_b64_char(#[trigger] base64(s)[k]) by {
            if k < 4 {
                assert(base64(s)[k] == g[k]);
            } else {
                assert(base64(s)[k] == r[k - 4]);
            }
        }
    }
}

/// The value of a character of the standard Base64 alphabet (RFC 4648):
/// `A`-`Z` are 0 to 25, `a`-`z` 26 to 51, `0`-`9` 52 to 61, `+` is 62 and `/`
/// is 63.
pub open spec fn b64_value(c: char) -> int {
    if 'A' <= c && c <= 'Z' {
        c as int - 'A' as int
    } else if 'a' <= c && c <= 'z' {
        c as int - 'a' as int + 26
    } else if '0' <= c && c <= '9' {
        c as int - '0' as int + 52
    } else if c == '+' {
        62
    } else if c == '/' {
        63
    } else {
        -1
    }
}

/// Group `k` of Base64 text `t` decodes to bytes `3k`, `3k+1`, `3k+2` of
/// `s` (those that exist), and is padded with `=` for those that do not.
pub open spec fn group_decodes(s: Seq<u8>, t: Seq<char>, k: int) -> bool {
    let v0 = b64_value(t[4 * k]);
    let v1 = b64_value(t[4 * k + 1]);
    let v2 = b64_value(t[4 * k + 2]);
    let v3 = b64_value(t[4 * k + 3]);
    &&& 0 <= v0 < 64 && 0 <= v1 < 64
    &&& s[3 * k] == v0 * 4 + v1 / 16
    &&& if 3 * k + 1 < s.len() {
        0 <= v2 < 64 && s[3 * k + 1] == (v1 % 16) * 16 + v2 / 4
    } else {
        t[4 * k + 2] == '=' && v1 % 16 == 0
    }
    &&& if 3 * k + 2 < s.len() {
        0 <= v3 < 64 && s[3 * k + 2] == (v2 % 4) * 64 + v3
    } else {
        t[4 * k + 3] == '=' && (3 * k + 1 < s.len() ==> v2 % 4 == 0)
    }
}

proof fn lemma_digit_value(v: int)
    requires
        0 <= v < 64,
    ensures
        b64_value(b64_digit(v)) == v,
{
}

proof fn lemma_group_decodes(g: Seq<u8>)
    requires
        1 <= g.len() <= 3,
    ensures
        group_decodes(g, b64_group(g), 0),
{
    let b0 = g[0] as int;
    let b1 = if g.len() > 1 { g[1] as int } else { 0 };
    let b2 = if g.len() > 2 { g[2] as int } else { 0 };
    lemma_digit_value(b0 / 4);
    lemma_digit_value((b0 % 4) * 16 + b1 / 16);
    lemma_digit_value((b1 % 16) * 4 + b2 / 64);
    lemma_digit_value(b2 % 64);
}

/// Base64 text decodes back to what was encoded, under the standard alphabet
/// (`A`-`Z`, `a`-`z`, `0`-`9`, `+`, `/`): every group of four characters gives
/// back its three bytes, and a last short group is padded with `=`.
pub proof fn law_base64_decodes(s: Seq<u8>)
    ensures
        base64(s).len() == 4 * ((s.len() + 2) / 3),
        forall|k: int| 0 <= k && 3 * k < s.len() ==> #[trigger] group_decodes(s, base64(s), k),
    decreases s.len(),
{
    law_base64_length(s);
    if s.len() > 3 {
        law_base64_decodes(s.skip(3));
        lemma_group_decodes(s.take(3));
        let g = b64_group(s.take(3));
        let r = base64(s.skip(3));
        let t = base64(s);
        assert(t == g + r);
        assert forall|k: int| 0 <= k && 3 * k < s.len() implies #[trigger] group_decodes(s, t, k) by {
            if k == 0 {
                assert(t[0] == g[0] && t[1] == g[1] && t[2] == g[2] && t[3] == g[3]);
                assert(s[0] == s.take(3)[0] && s[1] == s.take(3)[1] && s[2] == s.take(3)[2]);
            } else {
                assert(group_decodes(s.skip(3), r, k - 1));
                assert(t[4 * k] == r[4 * (k - 1)]);
                assert(t[4 * k + 1] == r[4 * (k - 1) + 1]);
                assert(t[4 * k + 2] == r[4 * (k - 1) + 2]);
                assert(t[4 * k + 3] == r[4 * (k - 1) + 3]);
                assert(s[3 * k] == s.skip(3)[3 * (k - 1)]);
                if 3 * k + 1 < s.len() {
                    assert(s[3 * k + 1] == s.skip(3)[3 * (k - 1) + 1]);
                }
                if 3 * k + 2 < s.len() {
                    assert(s[3 * k + 2] == s.skip(3)[3 * (k - 1) + 2]);
                }
            }
        }
    } else if s.len() > 0 {
        lemma_group_decodes(s);
        assert forall|k: int| 0 <= k && 3 * k < s.len() implies #[trigger] group_decodes(s, base64(s), k) by {
            assert(k == 0);
        }
    }
}

} // verus!
