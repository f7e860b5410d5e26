//! What the library knows of a terminal session: its size, the flag that marks
//! it dead, how long it has been open, and the text copied from its screen.
//!
//! The screen itself belongs to the terminal emulator; the copy functions take a
//! snapshot of its cells, row by row, with `'\0'` for an empty cell.
use vstd::prelude::*;

use std::sync::Arc;
use std::sync::atomic::AtomicBool;

use crate::app::App;
use crate::config::Server;
use crate::text::{
    char_count, chars_of, concat, concat3, decimal, decimal_string, owned, string_from_chars, trim, trim_chars, trim_end,
    trim_end_chars, white_space,
};

verus! {

/// The size of a terminal grid.
pub struct TermSize {
    pub cols: usize,
    pub rows: usize,
}

impl TermSize {
    /// All lines of the grid: the screen's.
    pub fn total_lines(&self) -> (n: usize)
        ensures
            n == self.rows,
    {
        self.rows
    }

    /// The lines on screen.
    pub fn screen_lines(&self) -> (n: usize)
        ensures
            n == self.rows,
    {
        self.rows
    }

    /// The columns.
    pub fn columns(&self) -> (n: usize)
        ensures
            n == self.cols,
    {
        self.cols
    }
}

/// The terminal emulator's event sink for one session: it marks the session
/// dead when its process exits.
#[derive(Clone)]
pub struct TermEventProxy {
    pub is_dead: Arc<AtomicBool>,
}

impl TermEventProxy {
    /// A proxy that marks `is_dead`.
    pub fn new(is_dead: Arc<AtomicBool>) -> (p: Self)
        ensures
            p.is_dead == is_dead,
    {
        Self { is_dead }
    }

    /// Handles an event of the emulator: an exit of the session (`exited`)
    /// sets the dead flag; other events are ignored.
    pub fn send_event(&self, exited: bool) {
        if exited {
            self.is_dead.store(true, std::sync::atomic::Ordering::Relaxed);
        }
    }
}

/// The arguments of `ssh` for a session to `server`: the port, the key file
/// when one is configured and exists (`key_exists`), then `user@host`.
pub open spec fn ssh_args_of(server: Server, key: Seq<char>, key_exists: bool) -> Seq<Seq<char>> {
    let port = seq!["-p"@, decimal(server.port as nat)];
    let login = seq![server.user@ + "@"@ + server.host@];
    if key.len() > 0 && key_exists {
        port + seq!["-i"@, key] + login
    } else {
        port + login
    }
}

/// The arguments of `ssh` for a session to `server` with the key file `key`
/// (`key_exists`: that file exists).
pub fn ssh_args(server: &Server, key: &str, key_exists: bool) -> (r: Vec<String>)
    ensures
        r.deep_view() == ssh_args_of(*server, key@, key_exists),
{
    let mut r: Vec<String> = Vec::new();
    r.push(owned("-p"));
    r.push(decimal_string(server.port as u64));
    if char_count(key) > 0 && key_exists {
        r.push(owned("-i"));
        r.push(owned(key));
    }
    r.push(concat3(server.user.as_str(), "@", server.host.as_str()));
    proof {
        reveal_strlit("-p");
        reveal_strlit("-i");
        reveal_strlit("@");
    }
    let ghost want = ssh_args_of(*server, key@, key_exists);
    assert(r.deep_view() =~= want);
    r
}

/// How long a session has been open, for `secs` seconds: `42s`, `5m`, `2h`,
/// `1h30m`.
pub open spec fn elapsed_text(secs: u64) -> Seq<char> {
    if secs < 60 {
        decimal(secs as nat) + "s"@
    } else if secs < 3600 {
        decimal((secs / 60) as nat) + "m"@
    } else {
        let h = secs / 3600;
        let m = (secs % 3600) / 60;
        if m > 0 {
            decimal(h as nat) + "h"@ + decimal(m as nat) + "m"@
        } else {
            decimal(h as nat) + "h"@
        }
    }
}

impl App {
    /// The time a session has been open, `secs` seconds, as shown in the
    /// status bar.
    pub fn format_elapsed(secs: u64) -> (r: String)
        ensures
            r@ == elapsed_text(secs),
    {
        if secs < 60 {
            let d = decimal_string(secs);
            concat(d.as_str(), "s")
        } else if secs < 3600 {
            let d = decimal_string(secs / 60);
            concat(d.as_str(), "m")
        } else {
            let h = secs / 3600;
            let m = (secs % 3600) / 60;
            let hd = decimal_string(h);
            let hs = concat(hd.as_str(), "h");
            if m > 0 {
                let md = decimal_string(m);
                let ms = concat(md.as_str(), "m");
                concat(hs.as_str(), ms.as_str())
            } else {
                hs
            }
        }
    }
}

/// The characters of a row of cells, empty cells left out.
pub open spec fn visible(row: Seq<char>) -> Seq<char>
    decreases row.len(),
{
    if row.len() == 0 {
        Seq::empty()
    } else if row.last() == '\0' {
        visible(row.drop_last())
    } else {
        visible(row.drop_last()).push(row.last())
    }
}

/// What copying lines takes of screen row `r`: its text without trailing
/// whitespace and a newline, except that a blank last row is left out.
pub open spec fn copied_row(rows: Seq<Seq<char>>, r: int) -> Seq<char> {
    let t = trim_end(visible(rows[r]));
    if t.len() > 0 || r < rows.len() - 1 {
        t.push('\n')
    } else {
        Seq::empty()
    }
}

/// The copied rows `from..to`, in order.
pub open spec fn copied_rows(rows: Seq<Seq<char>>, from: int, to: int) -> Seq<char>
    decreases to - from,
{
    if to <= from {
        Seq::empty()
    } else {
        copied_rows(rows, from, to - 1) + copied_row(rows, to - 1)
    }
}

/// The number of newlines in `t`.
pub open spec fn newline_count(t: Seq<char>) -> nat
    decreases t.len(),
{
    if t.len() == 0 {
        0
    } else {
        newline_count(t.drop_last()) + if t.last() == '\n' {
            1nat
        } else {
            0nat
        }
    }
}

/// No line of `t` ends in whitespace: the character before each newline, and
/// the last one, is a newline (an empty line) or not whitespace.
pub open spec fn lines_trimmed(t: Seq<char>) -> bool {
    forall|k: int|
        0 <= k < t.len() && (k == t.len() - 1 || t[k + 1] == '\n') ==> (#[trigger] t[k] == '\n'
            || !white_space(t[k]))
}

/// No cell of the screen `view` holds a newline.
pub open spec fn no_newline_cells(view: Seq<Seq<char>>) -> bool {
    forall|r: int, c: int| 0 <= r < view.len() && 0 <= c < view[r].len() ==> #[trigger] view[r][c] != '\n'
}

/// `s` without the extra newlines at its end: it ends in at most one.
pub open spec fn drop_blank_tail(s: Seq<char>) -> Seq<char>
    decreases s.len(),
{
    if s.len() >= 2 && s.last() == '\n' && s[s.len() - 2] == '\n' {
        drop_blank_tail(s.drop_last())
    } else {
        s
    }
}

/// The text of the last `count` rows of the screen `rows` (all of them when
/// there are fewer): each row without its empty cells and trailing
/// whitespace, ended by a newline, and no blank lines left at the end.
pub open spec fn lines_text_of(rows: Seq<Seq<char>>, count: nat) -> Seq<char> {
    let n = rows.len() as int;
    let start = if count >= n {
        0
    } else {
        n - count
    };
    drop_blank_tail(copied_rows(rows, start, n))
}

fn visible_chars(row: &Vec<char>) -> (v: Vec<char>)
    ensures
        v@ == visible(row@),
{
    let mut v: Vec<char> = Vec::new();
    let mut k: usize = 0;
    assert(row@.take(0) =~= Seq::<char>::empty());
    while k < row.len()
        invariant
            k <= row@.len(),
            v@ == visible(row@.take(k as int)),
        decreases row@.len() - k,
    {
        assert(row@.take(k + 1).drop_last() =~= row@.take(k as int));
        if row[k] != '\0' {
            v.push(row[k]);
        }
        k = k + 1;
    }
    assert(row@.take(k as int) =~= row@);
    v
}

fn append_chars(out: &mut Vec<char>, t: &Vec<char>)
    ensures
        final(out)@ == old(out)@ + t@,
{
    let mut k: usize = 0;
    let ghost start = out@;
    while k < t.len()
        invariant
            k <= t@.len(),
            out@ == start + t@.take(k as int),
        decreases t@.len() - k,
    {
        out.push(t[k]);
        assert(t@.take(k + 1) =~= t@.take(k as int).push(t@[k as int]));
        k = k + 1;
    }
    assert(t@.take(k as int) =~= t@);
}

/// The text of the last `count` rows of the screen snapshot `rows`.
pub fn lines_text(rows: &Vec<Vec<char>>, count: usize) -> (r: String)
    ensures
        r@ == lines_text_of(rows.deep_view(), count as nat),
{
    let ghost dv = rows.deep_view();
    let n = rows.len();
    let start = if count >= n {
        0
    } else {
        n - count
    };
    let mut out: Vec<char> = Vec::new();
    let mut r = start;
    while r < n
        invariant
            start <= r <= n,
            n == rows@.len(),
            dv == rows.deep_view(),
            out@ == copied_rows(dv, start as int, r as int),
        decreases n - r,
    {
        assert(dv[r as int] == rows@[r as int]@);
        let vis = visible_chars(&rows[r]);
        let t = trim_end_chars(&vis);
        let ghost before = out@;
        if t.len() > 0 || r < n - 1 {
            append_chars(&mut out, &t);
            out.push('\n');
            assert(out@ =~= before + t@.push('\n'));
        } else {
            assert(out@ =~= before + Seq::<char>::empty());
        }
        r = r + 1;
    }
    let ghost full = out@;
    while out.len() >= 2 && out[out.len() - 1] == '\n' && out[out.len() - 2] == '\n'
        invariant
            drop_blank_tail(out@) == drop_blank_tail(full),
        decreases out@.len(),
    {
        out.pop();
    }
    string_from_chars(out.as_slice())
}

/// `start` comes before `end` (by row, then by column).
pub open spec fn in_order(start: (u16, u16), end: (u16, u16)) -> bool {
    start.1 < end.1 || (start.1 == end.1 && start.0 <= end.0)
}

/// The text a selection takes of row `r`: the cells from column `cs` through
/// `ce` (at most the last column), empty ones left out, trailing whitespace
/// removed.
pub open spec fn selected_cells(view: Seq<Seq<char>>, cols: nat, r: int, cs: int, ce: int) -> Seq<
    char,
> {
    let last = if ce < cols - 1 {
        ce
    } else {
        cols - 1
    };
    if cs <= last {
        trim_end(visible(view[r].subrange(cs, last + 1)))
    } else {
        Seq::empty()
    }
}

/// Rows `s.1` through `upto` of the selection from `s` to `e`, each followed
/// by a newline but the last row of the selection.
pub open spec fn selected_rows(
    view: Seq<Seq<char>>,
    cols: nat,
    s: (u16, u16),
    e: (u16, u16),
    upto: int,
) -> Seq<char>
    decreases upto - s.1 + 1,
{
    if upto < s.1 {
        Seq::empty()
    } else {
        let cs: int = if upto == s.1 {
            s.0 as int
        } else {
            0
        };
        let ce: int = if upto == e.1 {
            e.0 as int
        } else {
            cols - 1
        };
        let line = selected_cells(view, cols, upto, cs, ce);
        selected_rows(view, cols, s, e, upto - 1) + if upto < e.1 {
            line.push('\n')
        } else {
            line
        }
    }
}

/// The text between the (column, row) positions `a` and `b` of the screen
/// `view` with `cols` columns, whichever comes first: the first row from the
/// first position's column, the last row through the last position's column,
/// whole rows between.
pub open spec fn selection_text_of(view: Seq<Seq<char>>, cols: nat, a: (u16, u16), b: (u16, u16)) -> Seq<
    char,
> {
    let (s, e) = if in_order(a, b) {
        (a, b)
    } else {
        (b, a)
    };
    selected_rows(view, cols, s, e, e.1 as int)
}

/// The text of the selection between `a` and `b` on the screen snapshot
/// `view`, each row holding `cols` cells.
pub fn selection_text(view: &Vec<Vec<char>>, cols: usize, a: (u16, u16), b: (u16, u16)) -> (r: String)
    requires
        cols > 0,
        a.1 < view@.len(),
        b.1 < view@.len(),
        forall|k: int| 0 <= k < view@.len() ==> #[trigger] view@[k]@.len() == cols,
    ensures
        r@ == selection_text_of(view.deep_view(), cols as nat, a, b),
{
    let ghost dv = view.deep_view();
    let (s, e) = if a.1 < b.1 || (a.1 == b.1 && a.0 <= b.0) {
        (a, b)
    } else {
        (b, a)
    };
    let mut out: Vec<char> = Vec::new();
    let mut row: usize = s.1 as usize;
    let last_row: usize = e.1 as usize;
    assert(out@ =~= selected_rows(dv, cols as nat, s, e, s.1 - 1));
    while row <= last_row
        invariant
            s.1 <= row <= last_row + 1,
            last_row == e.1,
            s.1 <= e.1,
            e.1 < view@.len(),
            cols > 0,
            dv == view.deep_view(),
            forall|k: int| 0 <= k < view@.len() ==> #[trigger] view@[k]@.len() == cols,
            out@ == selected_rows(dv, cols as nat, s, e, row - 1),
        decreases last_row + 1 - row,
    {
        let cs: usize = if row == s.1 as usize {
            s.0 as usize
        } else {
            0
        };
        let ce: usize = if row == last_row {
            e.0 as usize
        } else {
            cols - 1
        };
        let last = if ce < cols - 1 {
            ce
        } else {
            cols - 1
        };
        let ghost before = out@;
        assert(dv[row as int] == view@[row as int]@);
        if cs <= last {
            let cells = crate::text::slice_chars(&view[row], cs, last + 1);
            let vis = visible_chars(&cells);
            let t = trim_end_chars(&vis);
            append_chars(&mut out, &t);
        }
        if row < last_row {
            out.push('\n');
        }
        assert(out@ =~= selected_rows(dv, cols as nat, s, e, row as int));
        row = row + 1;
    }
    string_from_chars(out.as_slice())
}

/// Whether copied text holds anything but whitespace.
pub fn worth_copying(text: &str) -> (b: bool)
    ensures
        b == (trim(text@).len() > 0),
{
    let v = chars_of(text);
    let t = trim_chars(&v);
    t.len() > 0
}

} // verus!
