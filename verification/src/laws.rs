//! Properties that relate several operations or hold of every input: what
//! undoes what, what cycles back, and what never happens.
use vstd::prelude::*;

use crate::app::{App, Effect, InputTarget, PaletteAction, SidebarFocus, SplitLayout};
use crate::browse::{search_erased, search_typed};
use crate::filter::{global_pairs, hits_for, matching};
use crate::navigation::{clamp_index, first_pos, moved_down, moved_up, select_toggled};
use crate::commands::{
    danger_in, CommandKind, command_arg, command_head, command_kind, commanded, dangerous, sent_or_confirmed,
};
use crate::palette::{
    palette_erased, palette_hits, palette_hits_upto, palette_ran, palette_typed, palette_view,
    PaletteEntry,
};
use crate::pong::{PongRole, PongWire, four, packet_of};
use crate::tabs::{
    input_effects, lemma_first_occurrences, next_index, pane_clicked, pane_index, pane_start,
    prev_index, shift_clamp, split_toggled, tab_advanced, tab_closed, tab_retreated,
};
use crate::terminal::{
    copied_row, copied_rows, drop_blank_tail, in_order, lines_text_of, lines_trimmed, newline_count,
    no_newline_cells, selected_cells, selected_rows, selection_text_of, visible,
};
use crate::keys::{key_bytes, KeyCode};
use crate::text::{contains, lowercase, trim, trim_end, white_space, words};

verus! {

/// Moving to the next tab and then to the previous one (or the other way
/// round) comes back to the same state, when a tab is active and the terminal
/// area is not split.
pub proof fn law_tab_switch_round_trip(a: App, b: App, c: App)
    requires
        a.wf(),
        a.split is None,
        a.active_tab is Some,
        (tab_advanced(a, b) && tab_retreated(b, c)) || (tab_retreated(a, b) && tab_advanced(b, c)),
    ensures
        c == a,
{
    let n = a.tabs@.len();
    let i = a.active_tab->0;
    assert(i < n);
    assert(a.tabs.len() == n);
    assert(0 <= (i + 1) % (n as int) < n) by (nonlinear_arith)
        requires
            n > 0,
    ;
    if i + 1 < n {
        assert((i + 1) % (n as int) == i + 1) by (nonlinear_arith)
            requires
                0 <= i + 1 < n,
        ;
    } else {
        assert((i + 1) % (n as int) == 0) by (nonlinear_arith)
            requires
                i + 1 == n,
                n > 0,
        ;
    }
    if tab_advanced(a, b) && tab_retreated(b, c) {
        assert(b.active_tab == Some(next_index(i, n)));
        assert(pane_start(b) == next_index(i, n));
        assert(prev_index(next_index(i, n), n) == i);
    } else {
        let p = prev_index(i, n);
        assert(b.active_tab == Some(p));
        assert(p < n);
        if p + 1 < n {
            assert((p + 1) % (n as int) == p + 1) by (nonlinear_arith)
                requires
                    0 <= p + 1 < n,
            ;
        } else {
            assert((p + 1) % (n as int) == 0) by (nonlinear_arith)
                requires
                    p + 1 == n,
                    n > 0,
            ;
        }
        assert(next_index(p, n) == i);
    }
}

/// Toggling broadcast mode twice gives back the state it started from.
pub proof fn law_broadcast_toggle_twice(a: App, b: App, c: App)
    requires
        b == (App { broadcast: !a.broadcast, ..a }),
        c == (App { broadcast: !b.broadcast, ..b }),
    ensures
        c == a,
{
}

/// With four tabs or more, the split toggle goes through two side by side,
/// two stacked, three and four panes, and the fifth press turns the split off
/// again; the tabs are never touched.
pub proof fn law_split_toggle_cycle(s0: App, s1: App, s2: App, s3: App, s4: App, s5: App)
    requires
        s0.split is None,
        s0.tabs@.len() >= 4,
        split_toggled(s0, s1),
        split_toggled(s1, s2),
        split_toggled(s2, s3),
        split_toggled(s3, s4),
        split_toggled(s4, s5),
    ensures
        s1.split matches Some(t) && t.layout == SplitLayout::Vertical2,
        s2.split matches Some(t) && t.layout == SplitLayout::Horizontal2,
        s3.split matches Some(t) && t.layout == SplitLayout::Triple,
        s4.split matches Some(t) && t.layout == SplitLayout::Quad,
        s5.split is None,
        s5.tabs == s0.tabs,
{
}

/// With fewer than two tabs the split toggle never splits.
pub proof fn law_split_needs_two_tabs(a: App, b: App)
    requires
        a.split is None,
        a.tabs@.len() < 2,
        split_toggled(a, b),
    ensures
        b == a,
{
}

/// Every write to a terminal that the command prompt asks for carries a line
/// that is not dangerous: dangerous commands only ever wait for confirmation.
pub proof fn law_prompt_never_sends_dangerous(old: App, new: App, effects: Seq<Effect>)
    requires
        commanded(old, new, effects),
    ensures
        forall|k: int|
            0 <= k < effects.len() ==> (#[trigger] effects[k] matches Effect::WriteInput(_, b)
                ==> exists|c: Seq<char>|
                !dangerous(c) && b@ == vstd::utf8::encode_utf8(c.push('\n'))),
{
    let input = trim(old.command_input@);
    if input.len() > 0 {
        let arg = command_arg(input);
        let mid = App { command_input: new.command_input, mode: crate::app::AppMode::Terminal, ..old };
        match command_kind(lowercase(command_head(input))) {
            CommandKind::Run => {
                if arg.len() > 0 {
                    lemma_sent_lines_safe(mid, arg, new, effects);
                }
            },
            CommandKind::Shell => {
                lemma_sent_lines_safe(mid, input, new, effects);
            },
            CommandKind::Close => {
                let idx = mid.active_tab;
                assert(tab_closed(mid, new, effects));
                if idx is Some {
                    assert(effects == seq![Effect::TabClosed(idx->0)]);
                }
            },
            _ => {},
        }
    }
}

/// The only write that sending a command line makes carries that line, and
/// only when it is not dangerous.
proof fn lemma_sent_lines_safe(a: App, cmd: Seq<char>, new: App, effects: Seq<Effect>)
    requires
        sent_or_confirmed(a, cmd, new, effects),
    ensures
        forall|k: int|
            0 <= k < effects.len() ==> (#[trigger] effects[k] matches Effect::WriteInput(_, b)
                ==> exists|c: Seq<char>|
                !dangerous(c) && b@ == vstd::utf8::encode_utf8(c.push('\n'))),
{
    if !dangerous(cmd) {
        assert forall|k: int|
            0 <= k < effects.len() implies (#[trigger] effects[k] matches Effect::WriteInput(_, b)
                ==> exists|c: Seq<char>|
                !dangerous(c) && b@ == vstd::utf8::encode_utf8(c.push('\n'))) by {
            match effects[k] {
                Effect::WriteInput(_, b) => {
                    assert(input_effects(a.broadcast, a.active_tab, vstd::utf8::encode_utf8(cmd.push('\n')), effects));
                    assert(k == 0);
                    assert(b@ == vstd::utf8::encode_utf8(cmd.push('\n')));
                },
                _ => {},
            }
        }
    }
}

/// The same holds of the palette: running a quick command writes it to a
/// terminal only when it is not dangerous.
pub proof fn law_palette_never_sends_dangerous(a: App, cmd: String, new: App, effects: Seq<Effect>)
    requires
        palette_ran(a, PaletteAction::RunCommand(cmd), new, effects),
    ensures
        forall|k: int|
            0 <= k < effects.len() ==> (#[trigger] effects[k] matches Effect::WriteInput(_, b)
                ==> !dangerous(cmd@) && b@ == vstd::utf8::encode_utf8(cmd@.push('\n'))),
{
}

/// Copied lines never end in a blank line: the text ends in at most one
/// newline.
pub proof fn law_copied_lines_end_cleanly(rows: Seq<Seq<char>>, count: nat)
    ensures
        ({
            let t = lines_text_of(rows, count);
            !(t.len() >= 2 && t.last() == '\n' && t[t.len() - 2] == '\n')
        }),
{
    let n = rows.len() as int;
    let start = if count >= n {
        0
    } else {
        n - count
    };
    lemma_drop_blank_tail_clean(crate::terminal::copied_rows(rows, start, n));
}

proof fn lemma_drop_blank_tail_clean(s: Seq<char>)
    ensures
        ({
            let t = drop_blank_tail(s);
            !(t.len() >= 2 && t.last() == '\n' && t[t.len() - 2] == '\n')
        }),
    decreases s.len(),
{
    if s.len() >= 2 && s.last() == '\n' && s[s.len() - 2] == '\n' {
        lemma_drop_blank_tail_clean(s.drop_last());
    }
}

/// A selection gives the same text whichever end it was started from.
pub proof fn law_selection_symmetric(view: Seq<Seq<char>>, cols: nat, a: (u16, u16), b: (u16, u16))
    ensures
        selection_text_of(view, cols, a, b) == selection_text_of(view, cols, b, a),
{
    if in_order(a, b) && in_order(b, a) {
        assert(a == b);
    }
}

/// What the host sends, the client reads back: its paddle, the ball, the
/// scores, whether play is on and who won.
pub proof fn law_pong_packet_round_trip(w: PongWire)
    ensures
        ({
            let p = packet_of(PongRole::Host, w);
            &&& p.len() == 25
            &&& four(p, 0) == w.paddle_left@
            &&& four(p, 4) == w.ball_x@
            &&& four(p, 8) == w.ball_y@
            &&& four(p, 12) == w.ball_dx@
            &&& four(p, 16) == w.ball_dy@
            &&& p[20] == w.score_left
            &&& p[21] == w.score_right
            &&& (p[22] != 0) == (w.game_active && w.winner is None)
            &&& (w.winner matches Some(x) ==> p[23] == x)
            &&& (w.winner is None ==> p[23] == 0)
        }),
        four(packet_of(PongRole::Client, w), 0) == w.paddle_right@,
{
    let p = packet_of(PongRole::Host, w);
    assert(four(p, 0) =~= w.paddle_left@);
    assert(four(p, 4) =~= w.ball_x@);
    assert(four(p, 8) =~= w.ball_y@);
    assert(four(p, 12) =~= w.ball_dx@);
    assert(four(p, 16) =~= w.ball_dy@);
    assert(four(packet_of(PongRole::Client, w), 0) =~= w.paddle_right@);
}

/// Moving down and then up in the server list comes back to the server it
/// started from, when there is one below it.
pub proof fn law_move_down_up_round_trip(a: App, b: App, c: App)
    requires
        a.sidebar_focus == SidebarFocus::ServerList,
        a.server_index + 1 < a.filtered_indices@.len(),
        moved_down(a, b),
        moved_up(b, c),
    ensures
        c == a,
{
    assert(a.filtered_indices.len() == a.filtered_indices@.len());
    assert(b.server_index == a.server_index + 1);
}

/// Marking or unmarking never marks a position twice.
pub proof fn law_toggle_keeps_marks_distinct(a: App, b: App)
    requires
        a.selected_servers@.no_duplicates(),
        select_toggled(a, b),
    ensures
        b.selected_servers@.no_duplicates(),
{
    let s = a.selected_servers@;
    let x = a.server_index;
    if x < a.filtered_indices@.len() {
        if s.contains(x) {
            let p = choose|p: int| first_pos(s, x, p) && b.selected_servers@ == s.remove(p);
            let r = s.remove(p);
            assert forall|i: int, j: int| 0 <= i < j < r.len() implies r[i] != r[j] by {
                let si = if i < p { i } else { i + 1 };
                let sj = if j < p { j } else { j + 1 };
                assert(r[i] == s[si]);
                assert(r[j] == s[sj]);
            }
        } else {
            let t = s.push(x);
            assert forall|i: int, j: int| 0 <= i < j < t.len() implies t[i] != t[j] by {
                if j == s.len() {
                    assert(t[i] == s[i]);
                }
            }
        }
    }
}

/// Marking the selected server twice leaves the marks as they were (as a
/// set; exactly, when it was not marked before), and changes nothing else.
pub proof fn law_toggle_select_twice(a: App, b: App, c: App)
    requires
        a.selected_servers@.no_duplicates(),
        select_toggled(a, b),
        select_toggled(b, c),
    ensures
        c == (App { selected_servers: c.selected_servers, ..a }),
        c.selected_servers@.to_set() == a.selected_servers@.to_set(),
        !a.selected_servers@.contains(a.server_index) ==> c.selected_servers@
            == a.selected_servers@,
{
    let s = a.selected_servers@;
    let x = a.server_index;
    if x < a.filtered_indices@.len() {
        if s.contains(x) {
            let p = choose|p: int| first_pos(s, x, p) && b.selected_servers@ == s.remove(p);
            let r = s.remove(p);
            assert(!r.contains(x)) by {
                if r.contains(x) {
                    let j = choose|j: int| 0 <= j < r.len() && r[j] == x;
                    if j < p {
                        assert(r[j] == s[j]);
                    } else {
                        assert(r[j] == s[j + 1]);
                    }
                }
            }
            assert(c.selected_servers@ == r.push(x));
            assert forall|y: usize| r.push(x).contains(y) <==> s.contains(y) by {
                if s.contains(y) {
                    let k = choose|k: int| 0 <= k < s.len() && s[k] == y;
                    if k < p {
                        assert(r.push(x)[k] == y);
                    } else if k > p {
                        assert(r.push(x)[k - 1] == y);
                    } else {
                        assert(r.push(x)[r.len() as int] == y);
                    }
                }
                if r.push(x).contains(y) {
                    let k = choose|k: int| 0 <= k < r.len() + 1 && r.push(x)[k] == y;
                    if k == r.len() {
                        assert(s[p] == y);
                    } else if k < p {
                        assert(s[k] == y);
                    } else {
                        assert(s[k + 1] == y);
                    }
                }
            }
            assert(r.push(x).to_set() =~= s.to_set());
        } else {
            let t = s.push(x);
            assert(t.contains(x)) by {
                assert(t[s.len() as int] == x);
            }
            assert(b.selected_servers@ == t);
            let q = choose|q: int| first_pos(t, x, q) && c.selected_servers@ == t.remove(q);
            assert(q == s.len()) by {
                if q < s.len() {
                    assert(t[q] == s[q]);
                    assert(s.contains(x));
                }
            }
            assert(t.remove(q) =~= s);
        }
    }
}

/// Typing a character into the search and erasing it gives back the query,
/// and the results are those of that query.
pub proof fn law_search_type_then_erase(a: App, c: char, b: App, d: App)
    requires
        search_typed(a, b, c),
        search_erased(b, d),
    ensures
        d.search_query@ == a.search_query@,
        !a.is_global_search ==> d == (App {
            search_query: d.search_query,
            filtered_indices: d.filtered_indices,
            server_index: d.server_index,
            ..a
        }) && d.filtered_indices@ == matching(a.servers_shown(), a.search_query@)
            && d.server_index == clamp_index(b.server_index, d.filtered_indices@.len()),
        a.is_global_search ==> d == (App {
            search_query: d.search_query,
            global_results: d.global_results,
            global_index: 0,
            ..a
        }) && hits_for(
            a.config.categories@,
            global_pairs(a.config.categories@, a.search_query@),
            d.global_results@,
        ),
{
    assert(a.search_query@.push(c).drop_last() =~= a.search_query@);
}

/// Typing a character into the palette and erasing it gives back the query,
/// and the palette lists the entries that match it.
pub proof fn law_palette_type_then_erase(a: App, c: char, b: App, d: App)
    requires
        palette_typed(a, b, c),
        palette_erased(b, d),
    ensures
        d.palette_query@ == a.palette_query@,
        d.palette_filtered@ == palette_hits(palette_view(a.palette_items@), a.palette_query@),
        d == (App {
            palette_query: d.palette_query,
            palette_filtered: d.palette_filtered,
            palette_index: d.palette_index,
            ..a
        }),
{
    assert(a.palette_query@.push(c).drop_last() =~= a.palette_query@);
}

/// After the active tab is closed (there is one), a split that remains shows no tab twice,
/// and its panes are exactly the renumbered panes it had.
pub proof fn law_close_leaves_distinct_panes(old: App, new: App, effects: Seq<Effect>)
    requires
        old.active_tab is Some,
        tab_closed(old, new, effects),
    ensures
        new.split matches Some(t) ==> {
            &&& t.panes@.no_duplicates()
            &&& old.split matches Some(s) && old.active_tab matches Some(i) && forall|x: usize|
                t.panes@.contains(x) <==> s.panes@.map_values(
                    |p: usize| shift_clamp(p, i, (old.tabs@.len() - 1) as nat),
                ).contains(x)
        },
{
    if let Some(s) = old.split {
        if let Some(i) = old.active_tab {
            lemma_first_occurrences(
                s.panes@.map_values(|p: usize| shift_clamp(p, i, (old.tabs@.len() - 1) as nat)),
            );
        }
    }
}

proof fn lemma_newline_count_add(a: Seq<char>, b: Seq<char>)
    ensures
        newline_count(a + b) == newline_count(a) + newline_count(b),
    decreases b.len(),
{
    if b.len() > 0 {
        assert((a + b).drop_last() =~= a + b.drop_last());
        assert((a + b).last() == b.last());
        lemma_newline_count_add(a, b.drop_last());
    } else {
        assert(a + b =~= a);
    }
}

proof fn lemma_newline_count_none(x: Seq<char>)
    requires
        forall|k: int| 0 <= k < x.len() ==> x[k] != '\n',
    ensures
        newline_count(x) == 0,
    decreases x.len(),
{
    if x.len() > 0 {
        lemma_newline_count_none(x.drop_last());
    }
}

/// `trim_end(s)` is a prefix of `s` that does not end in whitespace.
proof fn lemma_trim_end_prefix(s: Seq<char>)
    ensures
        trim_end(s).len() <= s.len(),
        trim_end(s) =~= s.take(trim_end(s).len() as int),
        trim_end(s).len() > 0 ==> !white_space(trim_end(s).last()),
    decreases s.len(),
{
    if s.len() > 0 && white_space(s.last()) {
        lemma_trim_end_prefix(s.drop_last());
        assert(s.drop_last().take(trim_end(s).len() as int) =~= s.take(trim_end(s).len() as int));
    }
}

proof fn lemma_visible_no_newline(row: Seq<char>)
    requires
        forall|k: int| 0 <= k < row.len() ==> row[k] != '\n',
    ensures
        forall|k: int| 0 <= k < visible(row).len() ==> visible(row)[k] != '\n',
    decreases row.len(),
{
    if row.len() > 0 {
        assert(row.last() == row[row.len() - 1]);
        lemma_visible_no_newline(row.drop_last());
        if row.last() != '\0' {
            let v = visible(row.drop_last());
            assert forall|k: int| 0 <= k < v.push(row.last()).len() implies v.push(row.last())[k]
                != '\n' by {
                if k < v.len() {
                    assert(v.push(row.last())[k] == v[k]);
                } else {
                    assert(v.push(row.last())[k] == row.last());
                }
            }
            assert(visible(row) == v.push(row.last()));
        } else {
            assert(visible(row) == visible(row.drop_last()));
        }
    }
}

/// A line without newlines and without trailing whitespace: the text a row
/// gives once trimmed.
proof fn lemma_trimmed_row(x: Seq<char>)
    requires
        forall|k: int| 0 <= k < x.len() ==> x[k] != '\n',
    ensures
        forall|k: int| 0 <= k < trim_end(visible(x)).len() ==> trim_end(visible(x))[k] != '\n',
        trim_end(visible(x)).len() > 0 ==> !white_space(trim_end(visible(x)).last()),
{
    lemma_visible_no_newline(x);
    lemma_trim_end_prefix(visible(x));
    let t = trim_end(visible(x));
    assert forall|k: int| 0 <= k < t.len() implies t[k] != '\n' by {
        assert(t[k] == visible(x)[k]);
    }
}

/// Appending a trimmed line, with a newline after it when `sep`, to text that
/// is empty or ends in a newline keeps every line trimmed and adds one
/// newline for `sep`.
proof fn lemma_append_line(t: Seq<char>, line: Seq<char>, sep: bool)
    requires
        lines_trimmed(t),
        t.len() == 0 || t.last() == '\n',
        forall|k: int| 0 <= k < line.len() ==> line[k] != '\n',
        line.len() > 0 ==> !white_space(line.last()),
    ensures
        ({
            let u = t + if sep {
                line.push('\n')
            } else {
                line
            };
            &&& lines_trimmed(u)
            &&& newline_count(u) == newline_count(t) + if sep {
                1nat
            } else {
                0nat
            }
            &&& (sep ==> u.last() == '\n')
        }),
{
    let l2 = if sep {
        line.push('\n')
    } else {
        line
    };
    let u = t + l2;
    lemma_newline_count_add(t, l2);
    lemma_newline_count_none(line);
    if sep {
        assert(line.push('\n').drop_last() =~= line);
    }
    assert forall|k: int|
        0 <= k < u.len() && (k == u.len() - 1 || u[k + 1] == '\n') implies (#[trigger] u[k] == '\n'
        || !white_space(u[k])) by {
        if k < t.len() {
            assert(u[k] == t[k]);
            if k < t.len() - 1 {
                assert(u[k + 1] == t[k + 1]);
            }
        } else {
            let j = k - t.len();
            if j < line.len() {
                assert(u[k] == line[j]);
                if j < line.len() - 1 {
                    assert(u[k + 1] == line[j + 1]);
                } else {
                    assert(line.last() == line[j]);
                }
            } else {
                assert(u[k] == '\n');
            }
        }
    }
}

proof fn lemma_selected_rows(view: Seq<Seq<char>>, cols: nat, s: (u16, u16), e: (u16, u16), upto: int)
    requires
        no_newline_cells(view),
        forall|r: int| 0 <= r < view.len() ==> #[trigger] view[r].len() == cols,
        s.1 <= e.1,
        e.1 < view.len(),
        s.1 - 1 <= upto <= e.1,
    ensures
        ({
            let t = selected_rows(view, cols, s, e, upto);
            &&& lines_trimmed(t)
            &&& upto < e.1 ==> newline_count(t) == upto - s.1 + 1 && (t.len() == 0 || t.last()
                == '\n')
            &&& upto == e.1 ==> newline_count(t) == e.1 - s.1
        }),
    decreases upto - s.1 + 1,
{
    if upto >= s.1 {
        lemma_selected_rows(view, cols, s, e, upto - 1);
        let cs: int = if upto == s.1 {
            s.0 as int
        } else {
            0
        };
        let ce: int = if upto == e.1 {
            e.0 as int
        } else {
            cols - 1
        };
        let last = if ce < cols - 1 {
            ce
        } else {
            cols - 1
        };
        let line = selected_cells(view, cols, upto, cs, ce);
        if cs <= last {
            let x = view[upto].subrange(cs, last + 1);
            assert forall|k: int| 0 <= k < x.len() implies x[k] != '\n' by {
                assert(x[k] == view[upto][cs + k]);
            }
            lemma_trimmed_row(x);
        }
        let prev = selected_rows(view, cols, s, e, upto - 1);
        lemma_append_line(prev, line, upto < e.1);
    }
}

/// A selection from row `a.1` to row `b.1` gives one line per row: as many
/// newlines as the rows lie apart, and no line ends in whitespace (when no
/// cell holds a newline).
pub proof fn law_selection_lines(view: Seq<Seq<char>>, cols: nat, a: (u16, u16), b: (u16, u16))
    requires
        no_newline_cells(view),
        forall|r: int| 0 <= r < view.len() ==> #[trigger] view[r].len() == cols,
        a.1 < view.len(),
        b.1 < view.len(),
    ensures
        newline_count(selection_text_of(view, cols, a, b)) == if a.1 <= b.1 {
            b.1 - a.1
        } else {
            a.1 - b.1
        },
        lines_trimmed(selection_text_of(view, cols, a, b)),
{
    if in_order(a, b) {
        lemma_selected_rows(view, cols, a, b, b.1 as int);
    } else {
        lemma_selected_rows(view, cols, b, a, a.1 as int);
    }
}

proof fn lemma_copied_rows(rows: Seq<Seq<char>>, from: int, to: int)
    requires
        no_newline_cells(rows),
        0 <= from <= to <= rows.len(),
    ensures
        ({
            let t = copied_rows(rows, from, to);
            &&& lines_trimmed(t)
            &&& t.len() == 0 || t.last() == '\n'
            &&& newline_count(t) <= to - from
            &&& (to < rows.len() || (to > from && trim_end(visible(rows[to - 1])).len() > 0))
                ==> newline_count(t) == to - from
            &&& (to > from && trim_end(visible(rows[to - 1])).len() > 0) ==> t.len() >= 2 && t[t.len()
                - 2] != '\n'
        }),
    decreases to - from,
{
    if to > from {
        lemma_copied_rows(rows, from, to - 1);
        let r = to - 1;
        let x = rows[r];
        assert forall|k: int| 0 <= k < x.len() implies x[k] != '\n' by {
            assert(x[k] == rows[r][k]);
        }
        lemma_trimmed_row(x);
        let line = trim_end(visible(x));
        let prev = copied_rows(rows, from, to - 1);
        if line.len() > 0 || r < rows.len() - 1 {
            lemma_append_line(prev, line, true);
            assert(copied_row(rows, r) == line.push('\n'));
            if line.len() > 0 {
                let u = prev + line.push('\n');
                assert(u[u.len() - 2] == line.last());
            }
        } else {
            assert(copied_row(rows, r) =~= Seq::<char>::empty());
            assert(prev + copied_row(rows, r) =~= prev);
            lemma_newline_count_add(prev, Seq::<char>::empty());
        }
    }
}

proof fn lemma_drop_blank_tail(s: Seq<char>)
    requires
        lines_trimmed(s),
    ensures
        lines_trimmed(drop_blank_tail(s)),
        newline_count(drop_blank_tail(s)) <= newline_count(s),
        !(s.len() >= 2 && s.last() == '\n' && s[s.len() - 2] == '\n') ==> drop_blank_tail(s) == s,
    decreases s.len(),
{
    if s.len() >= 2 && s.last() == '\n' && s[s.len() - 2] == '\n' {
        let d = s.drop_last();
        assert forall|k: int|
            0 <= k < d.len() && (k == d.len() - 1 || d[k + 1] == '\n') implies (#[trigger] d[k]
            == '\n' || !white_space(d[k])) by {
            assert(d[k] == s[k]);
            if k < d.len() - 1 {
                assert(d[k + 1] == s[k + 1]);
            }
        }
        lemma_drop_blank_tail(d);
    }
}

/// Copying the last `count` lines gives at most that many lines (at most the
/// screen's), exactly that many when the screen's last row is not blank, and
/// no line ends in whitespace (when no cell holds a newline).
pub proof fn law_copied_lines(rows: Seq<Seq<char>>, count: nat)
    requires
        no_newline_cells(rows),
    ensures
        ({
            let t = lines_text_of(rows, count);
            let m = if count < rows.len() {
                count
            } else {
                rows.len()
            };
            &&& newline_count(t) <= m
            &&& lines_trimmed(t)
            &&& (count > 0 && rows.len() > 0 && trim_end(visible(rows.last())).len() > 0)
                ==> newline_count(t) == m
        }),
{
    let n = rows.len() as int;
    let start = if count >= n {
        0
    } else {
        n - count
    };
    lemma_copied_rows(rows, start, n);
    lemma_drop_blank_tail(copied_rows(rows, start, n));
}

/// The keys without a character send xterm's sequences, whatever modifier is
/// held: Enter `CR`, Backspace `DEL`, Esc `ESC`, Tab `HT` (`ESC [ Z` with
/// Shift), the arrows `ESC [ A` (up), `B` (down), `C` (right), `D` (left),
/// Home `ESC [ H`, End `ESC [ F`, Delete, Page Up and Page Down `ESC [ 3 ~`,
/// `5 ~`, `6 ~`, F1 to F4 `ESC O P` to `S`, F5 to F12 `ESC [ 15 ~` ... `24 ~`
/// (skipping 16 and 22).
pub proof fn law_special_keys_send_xterm_sequences(ctrl: bool, shift: bool, alt: bool)
    ensures
        key_bytes(KeyCode::Enter, ctrl, shift, alt) == Some(seq![0x0du8]),
        key_bytes(KeyCode::Backspace, ctrl, shift, alt) == Some(seq![0x7fu8]),
        key_bytes(KeyCode::Esc, ctrl, shift, alt) == Some(seq![0x1bu8]),
        key_bytes(KeyCode::Tab, ctrl, shift, alt) == Some(
            if shift {
                seq![0x1bu8, 0x5bu8, 0x5au8]
            } else {
                seq![0x09u8]
            },
        ),
        key_bytes(KeyCode::Up, ctrl, shift, alt) == Some(seq![0x1bu8, 0x5bu8, 0x41u8]),
        key_bytes(KeyCode::Down, ctrl, shift, alt) == Some(seq![0x1bu8, 0x5bu8, 0x42u8]),
        key_bytes(KeyCode::Right, ctrl, shift, alt) == Some(seq![0x1bu8, 0x5bu8, 0x43u8]),
        key_bytes(KeyCode::Left, ctrl, shift, alt) == Some(seq![0x1bu8, 0x5bu8, 0x44u8]),
        key_bytes(KeyCode::Home, ctrl, shift, alt) == Some(seq![0x1bu8, 0x5bu8, 0x48u8]),
        key_bytes(KeyCode::End, ctrl, shift, alt) == Some(seq![0x1bu8, 0x5bu8, 0x46u8]),
        key_bytes(KeyCode::Delete, ctrl, shift, alt) == Some(seq![0x1bu8, 0x5bu8, 0x33u8, 0x7eu8]),
        key_bytes(KeyCode::PageUp, ctrl, shift, alt) == Some(seq![0x1bu8, 0x5bu8, 0x35u8, 0x7eu8]),
        key_bytes(KeyCode::PageDown, ctrl, shift, alt) == Some(seq![0x1bu8, 0x5bu8, 0x36u8, 0x7eu8]),
        key_bytes(KeyCode::F(1), ctrl, shift, alt) == Some(seq![0x1bu8, 0x4fu8, 0x50u8]),
        key_bytes(KeyCode::F(2), ctrl, shift, alt) == Some(seq![0x1bu8, 0x4fu8, 0x51u8]),
        key_bytes(KeyCode::F(3), ctrl, shift, alt) == Some(seq![0x1bu8, 0x4fu8, 0x52u8]),
        key_bytes(KeyCode::F(4), ctrl, shift, alt) == Some(seq![0x1bu8, 0x4fu8, 0x53u8]),
        key_bytes(KeyCode::F(5), ctrl, shift, alt) == Some(seq![0x1bu8, 0x5bu8, 0x31u8, 0x35u8, 0x7eu8]),
        key_bytes(KeyCode::F(6), ctrl, shift, alt) == Some(seq![0x1bu8, 0x5bu8, 0x31u8, 0x37u8, 0x7eu8]),
        key_bytes(KeyCode::F(7), ctrl, shift, alt) == Some(seq![0x1bu8, 0x5bu8, 0x31u8, 0x38u8, 0x7eu8]),
        key_bytes(KeyCode::F(8), ctrl, shift, alt) == Some(seq![0x1bu8, 0x5bu8, 0x31u8, 0x39u8, 0x7eu8]),
        key_bytes(KeyCode::F(9), ctrl, shift, alt) == Some(seq![0x1bu8, 0x5bu8, 0x32u8, 0x30u8, 0x7eu8]),
        key_bytes(KeyCode::F(10), ctrl, shift, alt) == Some(seq![0x1bu8, 0x5bu8, 0x32u8, 0x31u8, 0x7eu8]),
        key_bytes(KeyCode::F(11), ctrl, shift, alt) == Some(seq![0x1bu8, 0x5bu8, 0x32u8, 0x33u8, 0x7eu8]),
        key_bytes(KeyCode::F(12), ctrl, shift, alt) == Some(seq![0x1bu8, 0x5bu8, 0x32u8, 0x34u8, 0x7eu8]),
{
    assert(key_bytes(KeyCode::Tab, ctrl, shift, alt) =~~= Some(
        if shift {
            seq![0x1bu8, 0x5bu8, 0x5au8]
        } else {
            seq![0x09u8]
        },
    ));
    assert(key_bytes(KeyCode::Up, ctrl, shift, alt) =~~= Some(seq![0x1bu8, 0x5bu8, 0x41u8]));
    assert(key_bytes(KeyCode::Down, ctrl, shift, alt) =~~= Some(seq![0x1bu8, 0x5bu8, 0x42u8]));
    assert(key_bytes(KeyCode::Right, ctrl, shift, alt) =~~= Some(seq![0x1bu8, 0x5bu8, 0x43u8]));
    assert(key_bytes(KeyCode::Left, ctrl, shift, alt) =~~= Some(seq![0x1bu8, 0x5bu8, 0x44u8]));
    assert(key_bytes(KeyCode::Home, ctrl, shift, alt) =~~= Some(seq![0x1bu8, 0x5bu8, 0x48u8]));
    assert(key_bytes(KeyCode::End, ctrl, shift, alt) =~~= Some(seq![0x1bu8, 0x5bu8, 0x46u8]));
    assert(key_bytes(KeyCode::Delete, ctrl, shift, alt) =~~= Some(seq![0x1bu8, 0x5bu8, 0x33u8, 0x7eu8]));
    assert(key_bytes(KeyCode::PageUp, ctrl, shift, alt) =~~= Some(seq![0x1bu8, 0x5bu8, 0x35u8, 0x7eu8]));
    assert(key_bytes(KeyCode::PageDown, ctrl, shift, alt) =~~= Some(seq![0x1bu8, 0x5bu8, 0x36u8, 0x7eu8]));
    assert(key_bytes(KeyCode::F(1), ctrl, shift, alt) =~~= Some(seq![0x1bu8, 0x4fu8, 0x50u8]));
    assert(key_bytes(KeyCode::F(2), ctrl, shift, alt) =~~= Some(seq![0x1bu8, 0x4fu8, 0x51u8]));
    assert(key_bytes(KeyCode::F(3), ctrl, shift, alt) =~~= Some(seq![0x1bu8, 0x4fu8, 0x52u8]));
    assert(key_bytes(KeyCode::F(4), ctrl, shift, alt) =~~= Some(seq![0x1bu8, 0x4fu8, 0x53u8]));
    assert(key_bytes(KeyCode::F(5), ctrl, shift, alt) =~~= Some(seq![0x1bu8, 0x5bu8, 0x31u8, 0x35u8, 0x7eu8]));
    assert(key_bytes(KeyCode::F(6), ctrl, shift, alt) =~~= Some(seq![0x1bu8, 0x5bu8, 0x31u8, 0x37u8, 0x7eu8]));
    assert(key_bytes(KeyCode::F(7), ctrl, shift, alt) =~~= Some(seq![0x1bu8, 0x5bu8, 0x31u8, 0x38u8, 0x7eu8]));
    assert(key_bytes(KeyCode::F(8), ctrl, shift, alt) =~~= Some(seq![0x1bu8, 0x5bu8, 0x31u8, 0x39u8, 0x7eu8]));
    assert(key_bytes(KeyCode::F(9), ctrl, shift, alt) =~~= Some(seq![0x1bu8, 0x5bu8, 0x32u8, 0x30u8, 0x7eu8]));
    assert(key_bytes(KeyCode::F(10), ctrl, shift, alt) =~~= Some(seq![0x1bu8, 0x5bu8, 0x32u8, 0x31u8, 0x7eu8]));
    assert(key_bytes(KeyCode::F(11), ctrl, shift, alt) =~~= Some(seq![0x1bu8, 0x5bu8, 0x32u8, 0x33u8, 0x7eu8]));
    assert(key_bytes(KeyCode::F(12), ctrl, shift, alt) =~~= Some(seq![0x1bu8, 0x5bu8, 0x32u8, 0x34u8, 0x7eu8]));
}

/// A command is dangerous exactly when its lowercase form contains one of
/// these: `reboot`, `shutdown`, `poweroff`, `halt`, `rm -rf`, `rm -r /`,
/// `rmdir`, `mkfs`, `dd if=`, `fdisk`, `iptables -f`, `iptables -x`,
/// `systemctl stop`, `systemctl disable`, `kill -9`, `killall`, `chmod 777`,
/// `chmod -r`, `> /dev/sda`, `> /dev/null`.
pub proof fn law_dangerous_patterns(cmd: Seq<char>)
    ensures
        dangerous(cmd) <==> {
            let l = lowercase(cmd);
            ||| contains(l, "reboot"@)
            ||| contains(l, "shutdown"@)
            ||| contains(l, "poweroff"@)
            ||| contains(l, "halt"@)
            ||| contains(l, "rm -rf"@)
            ||| contains(l, "rm -r /"@)
            ||| contains(l, "rmdir"@)
            ||| contains(l, "mkfs"@)
            ||| contains(l, "dd if="@)
            ||| contains(l, "fdisk"@)
            ||| contains(l, "iptables -f"@)
            ||| contains(l, "iptables -x"@)
            ||| contains(l, "systemctl stop"@)
            ||| contains(l, "systemctl disable"@)
            ||| contains(l, "kill -9"@)
            ||| contains(l, "killall"@)
            ||| contains(l, "chmod 777"@)
            ||| contains(l, "chmod -r"@)
            ||| contains(l, "> /dev/sda"@)
            ||| contains(l, "> /dev/null"@)
        },
{
}

/// A click over a split picks the pane under it. Two side by side: the left
/// half is pane 0, the right half pane 1. Two stacked: the top half 0, the
/// bottom half 1. Three: the top half 0, the bottom-left quarter 1, the
/// bottom-right quarter 2. Four, numbered row by row: top-left 0, top-right
/// 1, bottom-left 2, bottom-right 3. (A half of an odd size leaves the middle
/// column or row to the right or bottom.)
pub proof fn law_click_picks_pane_under_it(area: (u16, u16, u16, u16), mx: u16, my: u16)
    requires
        area.0 <= mx,
        area.1 <= my,
    ensures
        ({
            let right = mx >= area.0 + area.2 / 2;
            let bottom = my >= area.1 + area.3 / 2;
            &&& pane_index(SplitLayout::Vertical2, area, mx, my) == if right { 1usize } else { 0 }
            &&& pane_index(SplitLayout::Horizontal2, area, mx, my) == if bottom { 1usize } else { 0 }
            &&& pane_index(SplitLayout::Triple, area, mx, my) == if !bottom {
                0usize
            } else if !right {
                1
            } else {
                2
            }
            &&& (!bottom && !right ==> pane_index(SplitLayout::Quad, area, mx, my) == 0)
            &&& (!bottom && right ==> pane_index(SplitLayout::Quad, area, mx, my) == 1)
            &&& (bottom && !right ==> pane_index(SplitLayout::Quad, area, mx, my) == 2)
            &&& (bottom && right ==> pane_index(SplitLayout::Quad, area, mx, my) == 3)
        }),
{
}

/// A click in the top-right quarter of a four-pane split focuses the second
/// pane and shows its tab; one in the bottom-left quarter the third.
pub proof fn law_quad_click_focuses_row_major(old: App, new: App, mx: u16, my: u16)
    requires
        old.split matches Some(s) && s.layout == SplitLayout::Quad && s.panes@.len() == 4,
        old.mouse_serverlist_area.0 <= mx,
        old.mouse_serverlist_area.1 <= my,
        pane_clicked(old, new, mx, my),
    ensures
        ({
            let a = old.mouse_serverlist_area;
            let s = old.split->0;
            let right = mx >= a.0 + a.2 / 2;
            let bottom = my >= a.1 + a.3 / 2;
            let pane: int = (if bottom { 2int } else { 0int }) + (if right { 1int } else { 0int });
            &&& new.split matches Some(t) && t.focused_pane == pane
            &&& new.active_tab == Some(s.panes@[pane])
            &&& (right && !bottom ==> new.active_tab == Some(s.panes@[1]))
            &&& (!right && bottom ==> new.active_tab == Some(s.panes@[2]))
        }),
{
    law_click_picks_pane_under_it(old.mouse_serverlist_area, mx, my);
}

/// Entry `i` holds every word of the lowercase query `q` in the lowercase
/// text of its label, a space and its description.
pub open spec fn entry_matches(items: Seq<PaletteEntry>, q: Seq<char>, i: int) -> bool {
    forall|w: int|
        0 <= w < words(q).len() ==> contains(
            lowercase(items[i].label + " "@ + items[i].description),
            #[trigger] words(q)[w],
        )
}

proof fn lemma_palette_hits_upto(items: Seq<PaletteEntry>, q: Seq<char>, n: int)
    requires
        0 <= n <= items.len(),
        items.len() <= usize::MAX,
    ensures
        forall|i: int|
            0 <= i < items.len() ==> (palette_hits_upto(items, q, n).contains(i as usize) <==> (i < n
                && entry_matches(items, q, i))),
        forall|a: int, b: int|
            0 <= a < b < palette_hits_upto(items, q, n).len() ==> #[trigger] palette_hits_upto(
                items,
                q,
                n,
            )[a] < #[trigger] palette_hits_upto(items, q, n)[b],
        forall|a: int|
            0 <= a < palette_hits_upto(items, q, n).len() ==> #[trigger] palette_hits_upto(
                items,
                q,
                n,
            )[a] < n,
    decreases n,
{
    if n > 0 {
        lemma_palette_hits_upto(items, q, n - 1);
        let prev = palette_hits_upto(items, q, n - 1);
        let cur = palette_hits_upto(items, q, n);
        let x = (n - 1) as usize;
        let e = items[n - 1];
        assert(entry_matches(items, q, n - 1) == crate::text::all_occur(
            crate::palette::haystack(e),
            words(q),
        ));
        if entry_matches(items, q, n - 1) {
            assert(cur == prev.push(x));
            assert forall|i: int| 0 <= i < items.len() implies (cur.contains(i as usize) <==> (i < n
                && entry_matches(items, q, i))) by {
                if cur.contains(i as usize) {
                    let k = choose|k: int| 0 <= k < cur.len() && cur[k] == i as usize;
                    if k < prev.len() {
                        assert(prev[k] == cur[k]);
                        assert(prev.contains(i as usize));
                    }
                }
                if i < n - 1 && prev.contains(i as usize) {
                    let k = choose|k: int| 0 <= k < prev.len() && prev[k] == i as usize;
                    assert(cur[k] == prev[k]);
                }
                if i == n - 1 {
                    assert(cur[prev.len() as int] == x);
                }
            }
            assert forall|a: int, b: int| 0 <= a < b < cur.len() implies #[trigger] cur[a]
                < #[trigger] cur[b] by {
                assert(cur[a] == prev[a]);
                if b < prev.len() {
                    assert(cur[b] == prev[b]);
                } else {
                    assert(cur[b] == x);
                    assert(prev[a] < n - 1);
                }
            }
            assert forall|a: int| 0 <= a < cur.len() implies #[trigger] cur[a] < n by {
                if a < prev.len() {
                    assert(cur[a] == prev[a]);
                }
            }
        } else {
            assert(cur == prev);
            assert(!prev.contains(x)) by {
                if prev.contains(x) {
                    let k = choose|k: int| 0 <= k < prev.len() && prev[k] == x;
                    assert(prev[k] < n - 1);
                }
            }
        }
    }
}

/// The palette keeps, in their order, the entries whose lowercase text
/// (label, a space, description) holds every word of the lowercase query:
/// an entry is found by its description (a connection by its category's
/// name) as much as by its label. An empty query keeps every entry.
pub proof fn law_palette_keeps_matching_entries(items: Seq<PaletteEntry>, query: Seq<char>)
    requires
        items.len() <= usize::MAX,
    ensures
        lowercase(query).len() == 0 ==> palette_hits(items, query) == Seq::new(
            items.len(),
            |i: int| i as usize,
        ),
        lowercase(query).len() > 0 ==> forall|i: int|
            0 <= i < items.len() ==> (palette_hits(items, query).contains(i as usize)
                <==> entry_matches(items, lowercase(query), i)),
        forall|a: int, b: int|
            0 <= a < b < palette_hits(items, query).len() ==> #[trigger] palette_hits(items, query)[a]
                < #[trigger] palette_hits(items, query)[b],
{
    if lowercase(query).len() > 0 {
        lemma_palette_hits_upto(items, lowercase(query), items.len() as int);
    }
}

/// A character key sends: with Ctrl, a letter its control code (`Ctrl+A`
/// and `Ctrl+a` are 1, ..., `Ctrl+Z` 26: the letter's code modulo 32) and
/// `[` an `ESC`; else with Alt, `ESC` then the character's UTF-8 bytes; else
/// just its UTF-8 bytes.
pub proof fn law_character_keys(c: char, ctrl: bool, shift: bool, alt: bool)
    ensures
        ctrl && (('a' <= c && c <= 'z') || ('A' <= c && c <= 'Z')) ==> key_bytes(
            KeyCode::Char(c),
            ctrl,
            shift,
            alt,
        ) == Some(seq![((c as int) % 32) as u8]),
        ctrl && c == '[' ==> key_bytes(KeyCode::Char(c), ctrl, shift, alt) == Some(seq![0x1bu8]),
        !ctrl && alt ==> key_bytes(KeyCode::Char(c), ctrl, shift, alt) == Some(
            seq![0x1bu8] + vstd::utf8::encode_utf8(seq![c]),
        ),
        !ctrl && !alt ==> key_bytes(KeyCode::Char(c), ctrl, shift, alt) == Some(
            vstd::utf8::encode_utf8(seq![c]),
        ),
{
}

} // verus!
