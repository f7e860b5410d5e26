//! Terminal tabs: opening and closing them, the recent connections, switching
//! between tabs, the split layouts, and dead sessions.
use vstd::prelude::*;

use crate::app::{App, AppMode, Effect, InputTarget, SplitLayout, SplitState, TabInfo, entries_of, sidebar_layout, split_ok};
use crate::config::Server;

verus! {

/// `rec` without the servers named `name`, in order.
pub open spec fn without_name(rec: Seq<Server>, name: Seq<char>) -> Seq<Server>
    decreases rec.len(),
{
    if rec.len() == 0 {
        Seq::empty()
    } else if rec.last().name@ == name {
        without_name(rec.drop_last(), name)
    } else {
        without_name(rec.drop_last(), name).push(rec.last())
    }
}

/// At most the first `n` of `s`.
pub open spec fn at_most(s: Seq<Server>, n: nat) -> Seq<Server> {
    if s.len() <= n {
        s
    } else {
        s.take(n as int)
    }
}

/// Columns of a new session's terminal, until the first resize.
pub const INITIAL_COLS: u16 = 220;

/// Rows of a new session's terminal, until the first resize.
pub const INITIAL_ROWS: u16 = 50;

/// The recent connections after connecting to `s`: `s` first, the others with a
/// different name after it, at most five.
pub open spec fn pushed_recent(rec: Seq<Server>, s: Server) -> Seq<Server> {
    at_most(seq![s] + without_name(rec, s.name@), 5)
}

/// The recent connections after connecting to each of `ss` in turn.
pub open spec fn pushed_all(rec: Seq<Server>, ss: Seq<Server>) -> Seq<Server>
    decreases ss.len(),
{
    if ss.len() == 0 {
        rec
    } else {
        pushed_recent(pushed_all(rec, ss.drop_last()), ss.last())
    }
}

/// No two servers of `s` share a name.
pub open spec fn distinct_names(s: Seq<Server>) -> bool {
    forall|i: int, j: int| 0 <= i < j < s.len() ==> s[i].name@ != s[j].name@
}

proof fn lemma_without_name_from(rec: Seq<Server>, name: Seq<char>)
    ensures
        forall|k: int|
            0 <= k < without_name(rec, name).len() ==> rec.contains(
                #[trigger] without_name(rec, name)[k],
            ) && without_name(rec, name)[k].name@ != name,
    decreases rec.len(),
{
    if rec.len() > 0 {
        let r = without_name(rec.drop_last(), name);
        lemma_without_name_from(rec.drop_last(), name);
        assert forall|k: int| 0 <= k < without_name(rec, name).len() implies rec.contains(
            #[trigger] without_name(rec, name)[k],
        ) && without_name(rec, name)[k].name@ != name by {
            if k < r.len() {
                assert(without_name(rec, name)[k] == r[k]);
                let j = choose|j: int| 0 <= j < rec.drop_last().len() && rec.drop_last()[j] == r[k];
                assert(rec[j] == r[k]);
            } else {
                assert(rec[rec.len() - 1] == rec.last());
            }
        }
    }
}

proof fn lemma_without_name_distinct(rec: Seq<Server>, name: Seq<char>)
    requires
        distinct_names(rec),
    ensures
        distinct_names(without_name(rec, name)),
    decreases rec.len(),
{
    if rec.len() > 0 {
        let init = rec.drop_last();
        assert(distinct_names(init)) by {
            assert forall|i: int, j: int| 0 <= i < j < init.len() implies init[i].name@ != init[j].name@ by {
                assert(init[i] == rec[i] && init[j] == rec[j]);
            }
        }
        lemma_without_name_distinct(init, name);
        lemma_without_name_from(init, name);
        let r = without_name(init, name);
        if rec.last().name@ != name {
            let w = r.push(rec.last());
            assert forall|i: int, j: int| 0 <= i < j < w.len() implies w[i].name@ != w[j].name@ by {
                if j == r.len() {
                    assert(w[i] == r[i]);
                    assert(init.contains(r[i]));
                    let t = choose|t: int| 0 <= t < init.len() && init[t] == r[i];
                    assert(rec[t] == init[t]);
                    assert(rec[rec.len() - 1] == rec.last());
                } else {
                    assert(w[i] == r[i] && w[j] == r[j]);
                }
            }
        }
    }
}

/// After a connection the recent list holds at most five servers, the one just
/// connected comes first, and no two share a name if none did before.
pub proof fn law_recent_connections(rec: Seq<Server>, s: Server)
    ensures
        pushed_recent(rec, s).len() <= 5,
        pushed_recent(rec, s)[0] == s,
        distinct_names(rec) ==> distinct_names(pushed_recent(rec, s)),
{
    let w = without_name(rec, s.name@);
    let full = seq![s] + w;
    assert(full[0] == s);
    if distinct_names(rec) {
        lemma_without_name_distinct(rec, s.name@);
        lemma_without_name_from(rec, s.name@);
        assert(distinct_names(full)) by {
            assert forall|i: int, j: int| 0 <= i < j < full.len() implies full[i].name@ != full[j].name@ by {
                assert(full[j] == w[j - 1]);
                if i > 0 {
                    assert(full[i] == w[i - 1]);
                }
            }
        }
        let p = pushed_recent(rec, s);
        assert forall|i: int, j: int| 0 <= i < j < p.len() implies p[i].name@ != p[j].name@ by {
            assert(p[i] == full[i] && p[j] == full[j]);
        }
    }
}

/// `p` with the closed tab `idx` taken out of the numbering and kept below `n`.
pub open spec fn shift_clamp(p: usize, idx: usize, n: nat) -> usize {
    let q: usize = if p >= idx {
        if p > 0 {
            (p - 1) as usize
        } else {
            0
        }
    } else {
        p
    };
    if q >= n {
        (n - 1) as usize
    } else {
        q
    }
}

/// `s` with every repeat dropped: each value once, where it first occurs.
pub open spec fn first_occurrences(s: Seq<usize>) -> Seq<usize>
    decreases s.len(),
{
    if s.len() == 0 {
        s
    } else {
        let d = first_occurrences(s.drop_last());
        if d.contains(s.last()) {
            d
        } else {
            d.push(s.last())
        }
    }
}

/// The split panes after tab `idx` was closed and `n` tabs remain: each pane
/// renumbered, and a tab that now appears twice kept only once.
pub open spec fn panes_after_close(panes: Seq<usize>, idx: usize, n: nat) -> Seq<usize> {
    first_occurrences(panes.map_values(|p: usize| shift_clamp(p, idx, n)))
}

/// Dropping repeats leaves no repeat and keeps exactly the values there were.
pub proof fn lemma_first_occurrences(s: Seq<usize>)
    ensures
        first_occurrences(s).no_duplicates(),
        forall|x: usize| first_occurrences(s).contains(x) <==> s.contains(x),
    decreases s.len(),
{
    if s.len() > 0 {
        let t = s.drop_last();
        lemma_first_occurrences(t);
        let d = first_occurrences(t);
        assert forall|x: usize| first_occurrences(s).contains(x) <==> s.contains(x) by {
            if s.contains(x) {
                let j = choose|j: int| 0 <= j < s.len() && s[j] == x;
                if j < s.len() - 1 {
                    assert(t[j] == x);
                    assert(t.contains(x));
                }
            }
            if t.contains(x) {
                let j = choose|j: int| 0 <= j < t.len() && t[j] == x;
                assert(s[j] == x);
            }
            if !d.contains(s.last()) {
                assert(d.push(s.last())[d.len() as int] == s.last());
                if d.push(s.last()).contains(x) {
                    let j = choose|j: int| 0 <= j < d.len() + 1 && d.push(s.last())[j] == x;
                    if j < d.len() {
                        assert(d[j] == x);
                    }
                }
                if d.contains(x) {
                    let j = choose|j: int| 0 <= j < d.len() && d[j] == x;
                    assert(d.push(s.last())[j] == x);
                }
            }
            assert(s[s.len() - 1] == s.last());
        }
        if !d.contains(s.last()) {
            let e = d.push(s.last());
            assert forall|i: int, j: int| 0 <= i < j < e.len() implies e[i] != e[j] by {
                if j == d.len() {
                    assert(e[i] == d[i]);
                }
            }
        }
    }
}

/// Tab indices `start`, `start + 1`, ... for `count` panes, wrapping around `n` tabs.
pub open spec fn picked_panes(start: usize, count: nat, n: nat) -> Seq<usize> {
    Seq::new(count, |i: int| ((start + i) % (n as int)) as usize)
}

proof fn lemma_mod_succ(a: int, n: int)
    requires
        a >= 0,
        n > 0,
    ensures
        (a + 1) % n == if a % n + 1 == n {
            0
        } else {
            a % n + 1
        },
{
    vstd::arithmetic::div_mod::lemma_add_mod_noop(a, 1, n);
    if n == 1 {
        assert(1int % 1int == 0) by (nonlinear_arith);
        assert((a % n) % n == 0) by (nonlinear_arith)
            requires
                n == 1,
        ;
    } else {
        vstd::arithmetic::div_mod::lemma_small_mod(1, n as nat);
        assert(0 <= a % n < n) by (nonlinear_arith)
            requires
                n > 0,
        ;
        if a % n + 1 == n {
            vstd::arithmetic::div_mod::lemma_mod_self_0(n);
        } else {
            vstd::arithmetic::div_mod::lemma_small_mod((a % n + 1) as nat, n as nat);
        }
    }
}

/// The layout that the split toggle moves to from `split` with `n` tabs open:
/// off, two side by side, two stacked, three, four, then off again, skipping to
/// off when there are too few tabs.
pub open spec fn next_layout(split: Option<SplitState>, n: nat) -> Option<SplitLayout> {
    match split {
        None => if n >= 2 {
            Some(SplitLayout::Vertical2)
        } else {
            None
        },
        Some(s) => match s.layout {
            SplitLayout::Vertical2 => if n >= 2 {
                Some(SplitLayout::Horizontal2)
            } else {
                None
            },
            SplitLayout::Horizontal2 => if n >= 3 {
                Some(SplitLayout::Triple)
            } else {
                None
            },
            SplitLayout::Triple => if n >= 4 {
                Some(SplitLayout::Quad)
            } else {
                None
            },
            SplitLayout::Quad => None,
        },
    }
}

/// `new` is `old` after the split toggle: the next layout, its panes showing
/// the tabs from the active one on with the first pane's tab active; or no split.
pub open spec fn split_toggled(old: App, new: App) -> bool {
    match next_layout(old.split, old.tabs@.len()) {
        Some(l) => {
            let panes = picked_panes(pane_start(old), pane_count(l), old.tabs@.len());
            &&& new == (App { active_tab: Some(panes[0]), split: new.split, ..old })
            &&& is_split_of(new.split, l, panes)
        },
        None => new == (App { split: None, ..old }),
    }
}

/// Number of panes of a layout.
pub open spec fn pane_count(l: SplitLayout) -> nat {
    match l {
        SplitLayout::Vertical2 => 2,
        SplitLayout::Horizontal2 => 2,
        SplitLayout::Triple => 3,
        SplitLayout::Quad => 4,
    }
}

/// The tab that new panes start from: the active one, or the first.
pub open spec fn pane_start(a: App) -> usize {
    match a.active_tab {
        Some(i) => i,
        None => 0,
    }
}

/// `s` is the split with this layout, these panes and the first pane focused.
pub open spec fn is_split_of(s: Option<SplitState>, layout: SplitLayout, panes: Seq<usize>) -> bool {
    s matches Some(t) && t.layout == layout && t.panes@ == panes && t.focused_pane == 0
}

/// `new` and `effects` are what closing the active tab of `old` gives: the tab
/// goes, the tab before it becomes active, the split panes follow the
/// renumbering with every repeated tab kept once (the split ends when fewer than two panes or tabs remain), and
/// with no tab left the application goes back to browsing.
pub open spec fn tab_closed(old: App, new: App, effects: Seq<Effect>) -> bool {
    match old.active_tab {
        None => new == old && effects.len() == 0,
        Some(idx) => {
            let n = (old.tabs@.len() - 1) as nat;
            let prev: usize = if idx > 0 { (idx - 1) as usize } else { 0 };
            let a0: usize = if prev < n { prev } else { (n - 1) as usize };
            &&& effects == seq![Effect::TabClosed(idx)]
            &&& new.tabs@ == old.tabs@.remove(idx as int)
            &&& if n == 0 {
                new == (App {
                    tabs: new.tabs,
                    active_tab: None,
                    mode: AppMode::Browse,
                    split: None,
                    ..old
                })
            } else {
                match old.split {
                    None => new == (App { tabs: new.tabs, active_tab: Some(a0), ..old }),
                    Some(s) => {
                        let panes = panes_after_close(s.panes@, idx, n);
                        if panes.len() < 2 || n < 2 {
                            new == (App { tabs: new.tabs, active_tab: Some(a0), split: None, ..old })
                        } else {
                            let f: usize = if s.focused_pane >= panes.len() {
                                (panes.len() - 1) as usize
                            } else {
                                s.focused_pane
                            };
                            &&& new == (App {
                                tabs: new.tabs,
                                active_tab: Some(panes[f as int]),
                                split: new.split,
                                ..old
                            })
                            &&& new.split matches Some(t) && t.layout == s.layout && t.panes@
                                == panes && t.focused_pane == f
                        }
                    },
                }
            }
        },
    }
}

/// The index after `i` among `n` tabs, wrapping to the first.
pub open spec fn next_index(i: usize, n: nat) -> usize {
    ((i + 1) % (n as int)) as usize
}

/// The index before `i` among `n` tabs, wrapping to the last.
pub open spec fn prev_index(i: usize, n: nat) -> usize {
    if i == 0 {
        (n - 1) as usize
    } else {
        (i - 1) as usize
    }
}

/// The pane of a split `layout` over `area` (x, y, width, height) that holds
/// the point (`mx`, `my`): halves of the area decide, the point being taken
/// relative to the area's corner (zero when left of or above it).
pub open spec fn pane_index(layout: SplitLayout, area: (u16, u16, u16, u16), mx: u16, my: u16) -> usize {
    let rel_x: int = if mx >= area.0 { mx - area.0 } else { 0 };
    let rel_y: int = if my >= area.1 { my - area.1 } else { 0 };
    let left = rel_x < area.2 / 2;
    let top = rel_y < area.3 / 2;
    match layout {
        SplitLayout::Vertical2 => if left { 0 } else { 1 },
        SplitLayout::Horizontal2 => if top { 0 } else { 1 },
        SplitLayout::Triple => if top { 0 } else if left { 1 } else { 2 },
        SplitLayout::Quad => if top {
            if left { 0 } else { 1 }
        } else {
            if left { 2 } else { 3 }
        },
    }
}

/// The pane under (`mx`, `my`).
pub fn pane_at(layout: SplitLayout, area: (u16, u16, u16, u16), mx: u16, my: u16) -> (p: usize)
    ensures
        p == pane_index(layout, area, mx, my),
{
    let (lx, ly, lw, lh) = area;
    let rel_x = if mx >= lx { mx - lx } else { 0 };
    let rel_y = if my >= ly { my - ly } else { 0 };
    let left = rel_x < lw / 2;
    let top = rel_y < lh / 2;
    match layout {
        SplitLayout::Vertical2 => if left { 0 } else { 1 },
        SplitLayout::Horizontal2 => if top { 0 } else { 1 },
        SplitLayout::Triple => if top {
            0
        } else if left {
            1
        } else {
            2
        },
        SplitLayout::Quad => {
            let col: usize = if left { 0 } else { 1 };
            let row: usize = if top { 0 } else { 1 };
            row * 2 + col
        },
    }
}

/// Tab `i`'s label on the tab bar spans column `mx`, and the tab exists.
pub open spec fn tab_hit(a: App, mx: u16, i: int) -> bool {
    match a.mouse_tab_bar {
        Some(bar) => 0 <= i < bar.2@.len() && bar.2@[i].0 <= mx && mx < bar.2@[i].1 && i
            < a.tabs@.len(),
        None => false,
    }
}

/// `new` is `old` with tab `t` active, the focused pane (if split) showing it.
pub open spec fn switched_to(old: App, t: usize, new: App) -> bool {
    match old.split {
        None => new == (App { active_tab: Some(t), ..old }),
        Some(s) => {
            &&& new == (App { active_tab: Some(t), split: new.split, ..old })
            &&& new.split matches Some(u) && u.layout == s.layout && u.focused_pane
                == s.focused_pane && u.panes@ == s.panes@.update(s.focused_pane as int, t)
        },
    }
}

/// The server remembered for reconnecting a dead tab named `name`: the recent
/// connection with that name, or else a server with only that name.
pub open spec fn server_for_tab(rec: Seq<Server>, name: String, s: Server) -> bool {
    if exists|k: int| 0 <= k < rec.len() && rec[k].name@ == name@ {
        exists|k: int|
            0 <= k < rec.len() && rec[k].name@ == name@ && (forall|j: int|
                0 <= j < k ==> rec[j].name@ != name@) && s == rec[k]
    } else {
        &&& s.name == name
        &&& s.host@ == Seq::<char>::empty()
        &&& s.port == 22
        &&& s.user@ == Seq::<char>::empty()
        &&& s.status@ == Seq::<char>::empty()
        &&& s.ip_public@ == Seq::<char>::empty()
        &&& s.subnet@ == Seq::<char>::empty()
    }
}

/// `effects` send `bytes` to every tab when `to_all`, else to the active tab
/// when there is one.
pub open spec fn input_effects(to_all: bool, active: Option<usize>, bytes: Seq<u8>, effects: Seq<Effect>) -> bool {
    if to_all {
        &&& effects.len() == 1
        &&& effects[0] matches Effect::WriteInput(InputTarget::All, b) && b@ == bytes
    } else {
        match active {
            Some(i) => {
                &&& effects.len() == 1
                &&& effects[0] matches Effect::WriteInput(InputTarget::Tab(t), b) && t == i && b@
                    == bytes
            },
            None => effects.len() == 0,
        }
    }
}

/// Effects that send `bytes` to every tab or to the active one.
pub fn input_to(to_all: bool, active: Option<usize>, bytes: Vec<u8>) -> (effects: Vec<Effect>)
    ensures
        input_effects(to_all, active, bytes@, effects@),
{
    let mut effects: Vec<Effect> = Vec::new();
    if to_all {
        effects.push(Effect::WriteInput(InputTarget::All, bytes));
    } else if let Some(i) = active {
        effects.push(Effect::WriteInput(InputTarget::Tab(i), bytes));
    }
    effects
}

/// `new` is `old` with the next tab active (wrapping around).
pub open spec fn tab_advanced(old: App, new: App) -> bool {
    if old.tabs@.len() == 0 {
        new == old
    } else {
        switched_to(old, next_index(pane_start(old), old.tabs@.len()), new)
    }
}

/// `new` is `old` with the previous tab active (wrapping around).
pub open spec fn tab_retreated(old: App, new: App) -> bool {
    if old.tabs@.len() == 0 {
        new == old
    } else {
        switched_to(old, prev_index(pane_start(old), old.tabs@.len()), new)
    }
}

/// `new` is `old` after a click on the tab bar at column `mx`: the first tab
/// whose label spans it becomes active.
pub open spec fn tab_clicked(old: App, new: App, mx: u16) -> bool {
    if exists|i: int| tab_hit(old, mx, i) {
        exists|i: int|
            tab_hit(old, mx, i) && (forall|j: int| 0 <= j < i ==> !tab_hit(old, mx, j))
                && new == (App { active_tab: Some(i as usize), ..old })
    } else {
        new == old
    }
}

/// `new` is `old` after a click at (`mx`, `my`) over the split: the pane
/// under it gets the focus and its tab becomes active.
pub open spec fn pane_clicked(old: App, new: App, mx: u16, my: u16) -> bool {
    match old.split {
        None => new == old,
        Some(s) => {
            let pane = pane_index(s.layout, old.mouse_serverlist_area, mx, my);
            if pane < s.panes@.len() {
                &&& new == (App {
                    active_tab: Some(s.panes@[pane as int]),
                    split: new.split,
                    ..old
                })
                &&& new.split matches Some(t) && t.layout == s.layout && t.panes == s.panes
                    && t.focused_pane == pane
            } else {
                new == old
            }
        },
    }
}

impl App {
    /// Puts `server` first in the recent connections (dropping older entries
    /// with its name, keeping five) and rebuilds the sidebar.
    pub fn push_recent(&mut self, server: &Server)
        requires
            old(self).config.wf(),
        ensures
            *final(self) == (App {
                recent_connections: final(self).recent_connections,
                sidebar_items: final(self).sidebar_items,
                ..*old(self)
            }),
            final(self).recent_connections@ == pushed_recent(old(self).recent_connections@, *server),
            entries_of(final(self).sidebar_items@) == sidebar_layout(
                final(self).recent_connections@.len(),
                old(self).config.categories@,
                old(self).vm_expanded,
            ),
    {
        let mut out: Vec<Server> = Vec::new();
        out.push(server.duplicate());
        let n = self.recent_connections.len();
        let mut k: usize = 0;
        assert(self.recent_connections@.take(0) =~= Seq::<Server>::empty());
        while k < n
            invariant
                k <= n,
                n == self.recent_connections@.len(),
                out@ == seq![*server] + without_name(self.recent_connections@.take(k as int), server.name@),
            decreases n - k,
        {
            let ghost t = self.recent_connections@.take(k as int);
            assert(self.recent_connections@.take(k + 1).drop_last() =~= t);
            assert(self.recent_connections@.take(k + 1).last() == self.recent_connections@[k as int]);
            if self.recent_connections[k].name != server.name {
                let ghost before = out@;
                out.push(self.recent_connections[k].duplicate());
                assert(out@ =~= seq![*server] + without_name(self.recent_connections@.take(k + 1), server.name@));
            }
            k = k + 1;
        }
        assert(self.recent_connections@.take(n as int) =~= self.recent_connections@);
        out.truncate(5);
        assert(out@ =~= pushed_recent(self.recent_connections@, *server));
        self.recent_connections = out;
        self.rebuild_sidebar();
    }

    /// Connects to `server`: it goes first in the recent connections and a new
    /// SSH session is requested.
    pub fn open_terminal(&mut self, server: &Server) -> (effects: Vec<Effect>)
        requires
            old(self).config.wf(),
        ensures
            *final(self) == (App {
                recent_connections: final(self).recent_connections,
                sidebar_items: final(self).sidebar_items,
                ..*old(self)
            }),
            final(self).recent_connections@ == pushed_recent(old(self).recent_connections@, *server),
            entries_of(final(self).sidebar_items@) == sidebar_layout(
                final(self).recent_connections@.len(),
                old(self).config.categories@,
                old(self).vm_expanded,
            ),
            effects@ == seq![Effect::OpenTerminal(*server)],
    {
        self.push_recent(server);
        let mut effects: Vec<Effect> = Vec::new();
        effects.push(Effect::OpenTerminal(server.duplicate()));
        effects
    }

    /// A session named `name` was opened: it becomes the last tab, active, and
    /// the terminal is shown.
    pub fn terminal_opened(&mut self, name: String)
        requires
            old(self).wf(),
        ensures
            final(self).wf(),
            *final(self) == (App {
                tabs: final(self).tabs,
                active_tab: Some(old(self).tabs@.len() as usize),
                mode: AppMode::Terminal,
                ..*old(self)
            }),
            final(self).tabs@ == old(self).tabs@.push(TabInfo { name }),
    {
        self.tabs.push(TabInfo { name });
        self.active_tab = Some(self.tabs.len() - 1);
        self.mode = AppMode::Terminal;
        proof {
            if self.split is Some {
                assert(split_ok(self.split->0, self.tabs@.len()));
            }
        }
    }

    /// Closes the active tab; the tab before it becomes active and the split
    /// follows the renumbering of the tabs.
    pub fn close_active_tab(&mut self) -> (effects: Vec<Effect>)
        requires
            old(self).wf(),
        ensures
            final(self).wf(),
            tab_closed(*old(self), *final(self), effects@),
    {
        let mut effects: Vec<Effect> = Vec::new();
        let idx = match self.active_tab {
            Some(i) => i,
            None => {
                return effects;
            },
        };
        self.tabs.remove(idx);
        effects.push(Effect::TabClosed(idx));
        let n = self.tabs.len();
        if n == 0 {
            self.active_tab = None;
            self.mode = AppMode::Browse;
            self.split = None;
            return effects;
        }
        let prev = if idx > 0 { idx - 1 } else { 0 };
        let a0 = if prev < n { prev } else { n - 1 };
        let old_split = self.split.take();
        let (active, split) = split_after_close(old_split, idx, n, a0);
        self.active_tab = Some(active);
        self.split = split;
        effects
    }

    /// Activates the next tab (wrapping around); in a split the focused pane
    /// shows it.
    pub fn next_tab(&mut self)
        requires
            old(self).wf(),
            old(self).tabs@.len() > 0 && old(self).split is Some ==> old(self).split->0.panes@.len() > 0,
        ensures
            final(self).wf(),
            tab_advanced(*old(self), *final(self)),
    {
        if self.tabs.len() == 0 {
            return;
        }
        let idx = match self.active_tab {
            Some(i) => i,
            None => 0,
        };
        let n = self.tabs.len();
        proof {
            lemma_mod_succ(idx as int, n as int);
            vstd::arithmetic::div_mod::lemma_small_mod(idx as nat, n as nat);
        }
        let new_idx = if idx + 1 == n { 0 } else { idx + 1 };
        self.set_active_in_split(new_idx);
    }

    /// Activates the previous tab (wrapping around); in a split the focused
    /// pane shows it.
    pub fn prev_tab(&mut self)
        requires
            old(self).wf(),
            old(self).tabs@.len() > 0 && old(self).split is Some ==> old(self).split->0.panes@.len() > 0,
        ensures
            final(self).wf(),
            tab_retreated(*old(self), *final(self)),
    {
        if self.tabs.len() == 0 {
            return;
        }
        let idx = match self.active_tab {
            Some(i) => i,
            None => 0,
        };
        let new_idx = if idx == 0 { self.tabs.len() - 1 } else { idx - 1 };
        self.set_active_in_split(new_idx);
    }

    fn set_active_in_split(&mut self, t: usize)
        requires
            old(self).wf(),
            t < old(self).tabs@.len(),
            old(self).split is Some ==> old(self).split->0.panes@.len() > 0,
        ensures
            final(self).wf(),
            switched_to(*old(self), t, *final(self)),
    {
        self.active_tab = Some(t);
        let old_split = self.split.take();
        match old_split {
            None => {},
            Some(s) => {
                let mut panes = s.panes;
                let f = s.focused_pane;
                panes.set(f, t);
                self.split = Some(SplitState { layout: s.layout, panes, focused_pane: f });
            },
        }
    }

    /// `count` panes starting at the active tab (or the first), wrapping around
    /// the open tabs; none when no tab is open.
    fn pick_panes(&self, count: usize) -> (panes: Vec<usize>)
        requires
            self.wf(),
        ensures
            panes@ == if self.tabs@.len() == 0 {
                Seq::<usize>::empty()
            } else {
                picked_panes(pane_start(*self), count as nat, self.tabs@.len())
            },
    {
        let n = self.tabs.len();
        let mut panes: Vec<usize> = Vec::new();
        if n == 0 {
            return panes;
        }
        let start = match self.active_tab {
            Some(i) => i,
            None => 0,
        };
        proof {
            vstd::arithmetic::div_mod::lemma_small_mod(start as nat, n as nat);
        }
        let mut cur = start;
        let mut i: usize = 0;
        while i < count
            invariant
                i <= count,
                n > 0,
                n == self.tabs@.len(),
                start == pane_start(*self),
                cur == (start + i) % (n as int),
                panes@ == picked_panes(start, i as nat, n as nat),
            decreases count - i,
        {
            panes.push(cur);
            assert(panes@ =~= picked_panes(start, (i + 1) as nat, n as nat));
            proof {
                lemma_mod_succ(start + i, n as int);
            }
            cur = if cur + 1 == n { 0 } else { cur + 1 };
            i = i + 1;
        }
        panes
    }

    /// Cycles the split layout: off, two side by side, two stacked, three,
    /// four, off; a layout needs as many open tabs as it has panes. The panes
    /// show the tabs from the active one on, and the first pane's tab becomes
    /// active.
    pub fn toggle_split(&mut self)
        requires
            old(self).wf(),
        ensures
            final(self).wf(),
            split_toggled(*old(self), *final(self)),
    {
        let tab_count = self.tabs.len();
        let next = match &self.split {
            None => if tab_count >= 2 {
                Some(SplitLayout::Vertical2)
            } else {
                None
            },
            Some(s) => match s.layout {
                SplitLayout::Vertical2 => if tab_count >= 2 {
                    Some(SplitLayout::Horizontal2)
                } else {
                    None
                },
                SplitLayout::Horizontal2 => if tab_count >= 3 {
                    Some(SplitLayout::Triple)
                } else {
                    None
                },
                SplitLayout::Triple => if tab_count >= 4 {
                    Some(SplitLayout::Quad)
                } else {
                    None
                },
                SplitLayout::Quad => None,
            },
        };
        match next {
            Some(layout) => {
                let pane_n: usize = match layout {
                    SplitLayout::Vertical2 => 2,
                    SplitLayout::Horizontal2 => 2,
                    SplitLayout::Triple => 3,
                    SplitLayout::Quad => 4,
                };
                let panes = self.pick_panes(pane_n);
                proof {
                    vstd::arithmetic::div_mod::lemma_mod_bound(pane_start(*self) as int, tab_count as int);
                    assert forall|k: int| 0 <= k < panes@.len() implies #[trigger] panes@[k] < tab_count by {
                        vstd::arithmetic::div_mod::lemma_mod_bound(pane_start(*self) + k, tab_count as int);
                    }
                }
                self.active_tab = Some(panes[0]);
                self.split = Some(SplitState { layout, panes, focused_pane: 0 });
            },
            None => {
                self.split = None;
            },
        }
    }

    /// After `count` servers were opened together, shows them split: four or
    /// more in a grid, three as one over two, two side by side.
    pub fn arrange_split_after_connect(&mut self, count: usize)
        requires
            old(self).wf(),
        ensures
            final(self).wf(),
            if count >= 2 {
                let l = if count >= 4 {
                    SplitLayout::Quad
                } else if count == 3 {
                    SplitLayout::Triple
                } else {
                    SplitLayout::Vertical2
                };
                let panes = if old(self).tabs@.len() == 0 {
                    Seq::<usize>::empty()
                } else {
                    picked_panes(pane_start(*old(self)), pane_count(l), old(self).tabs@.len())
                };
                &&& *final(self) == (App { split: final(self).split, ..*old(self) })
                &&& is_split_of(final(self).split, l, panes)
            } else {
                *final(self) == *old(self)
            },
    {
        if count < 2 {
            return;
        }
        let layout = if count >= 4 {
            SplitLayout::Quad
        } else if count == 3 {
            SplitLayout::Triple
        } else {
            SplitLayout::Vertical2
        };
        let pane_n: usize = if count >= 4 {
            4
        } else if count == 3 {
            3
        } else {
            2
        };
        let panes = self.pick_panes(pane_n);
        proof {
            let n = self.tabs@.len();
            if n > 0 {
                assert forall|k: int| 0 <= k < panes@.len() implies #[trigger] panes@[k] < n by {
                    vstd::arithmetic::div_mod::lemma_mod_bound(pane_start(*self) + k, n as int);
                }
            }
        }
        self.split = Some(SplitState { layout, panes, focused_pane: 0 });
    }

    /// A click on the tab bar at column `mx`: activates the first tab whose
    /// label spans that column.
    pub fn mouse_click_tab(&mut self, mx: u16)
        requires
            old(self).wf(),
        ensures
            final(self).wf(),
            tab_clicked(*old(self), *final(self), mx),
    {
        let mut found: Option<usize> = None;
        match &self.mouse_tab_bar {
            Some(bar) => {
                let ranges = &bar.2;
                let mut i: usize = 0;
                while i < ranges.len() && !(mx >= ranges[i].0 && mx < ranges[i].1 && i < self.tabs.len())
                    invariant
                        i <= ranges@.len(),
                        self.mouse_tab_bar matches Some(b) && b.2@ == ranges@,
                        forall|j: int| 0 <= j < i ==> !tab_hit(*self, mx, j),
                    decreases ranges@.len() - i,
                {
                    i = i + 1;
                }
                if i < ranges.len() {
                    assert(tab_hit(*self, mx, i as int));
                    found = Some(i);
                } else {
                    assert forall|j: int| !tab_hit(*self, mx, j) by {
                        if 0 <= j < ranges@.len() {
                            assert(j < i);
                        }
                    }
                }
            },
            None => {},
        }
        if let Some(i) = found {
            self.active_tab = Some(i);
        }
    }

    /// A click at (`mx`, `my`) in a split terminal area: focuses the pane under
    /// it and activates that pane's tab.
    pub fn mouse_click_split_pane(&mut self, mx: u16, my: u16)
        requires
            old(self).wf(),
        ensures
            final(self).wf(),
            pane_clicked(*old(self), *final(self), mx, my),
    {
        let layout = match &self.split {
            Some(s) => s.layout,
            None => {
                return;
            },
        };
        let pane = pane_at(layout, self.mouse_serverlist_area, mx, my);
        let old_split = self.split.take();
        match old_split {
            Some(s) => {
                if pane < s.panes.len() {
                    let t = s.panes[pane];
                    self.active_tab = Some(t);
                    self.split = Some(SplitState { layout: s.layout, panes: s.panes, focused_pane: pane });
                } else {
                    self.split = Some(s);
                }
            },
            None => {},
        }
    }

    /// Notes, when the active tab's session has died (`active_dead`), which tab
    /// and server to reconnect; an earlier note is kept.
    pub fn check_dead_sessions(&mut self, active_dead: bool)
        requires
            old(self).wf(),
        ensures
            final(self).wf(),
            if old(self).reconnect_server is Some || !active_dead || old(self).active_tab is None {
                *final(self) == *old(self)
            } else {
                let idx = old(self).active_tab->0;
                &&& *final(self) == (App { reconnect_server: final(self).reconnect_server, ..*old(self) })
                &&& final(self).reconnect_server matches Some(p) && p.0 == idx && server_for_tab(
                    old(self).recent_connections@,
                    old(self).tabs@[idx as int].name,
                    p.1,
                )
            },
    {
        if self.reconnect_server.is_some() || !active_dead {
            return;
        }
        let idx = match self.active_tab {
            Some(i) => i,
            None => {
                return;
            },
        };
        let name = self.tabs[idx].name.clone();
        let mut k: usize = 0;
        while k < self.recent_connections.len() && self.recent_connections[k].name != name
            invariant
                k <= self.recent_connections@.len(),
                forall|j: int| 0 <= j < k ==> self.recent_connections@[j].name@ != name@,
            decreases self.recent_connections@.len() - k,
        {
            k = k + 1;
        }
        let server = if k < self.recent_connections.len() {
            self.recent_connections[k].duplicate()
        } else {
            let mut s = Server::default();
            s.name = name;
            s
        };
        self.reconnect_server = Some((idx, server));
    }

    /// Asks for a new session for the dead tab noted by `check_dead_sessions`.
    pub fn reconnect_active(&mut self) -> (effects: Vec<Effect>)
        ensures
            *final(self) == (App { reconnect_server: None, ..*old(self) }),
            effects@ == match old(self).reconnect_server {
                Some(p) => seq![Effect::ReconnectTab(p.0, p.1)],
                None => Seq::<Effect>::empty(),
            },
    {
        let mut effects: Vec<Effect> = Vec::new();
        if let Some((tab_idx, server)) = self.reconnect_server.take() {
            effects.push(Effect::ReconnectTab(tab_idx, server));
        }
        effects
    }

    /// The session for tab `tab_idx` was opened again as `name`: it replaces that
    /// tab when it still exists (returning its index), or else becomes a new
    /// active last tab (returning `None`); the terminal is shown.
    pub fn tab_reconnected(&mut self, tab_idx: usize, name: String) -> (replaced: Option<usize>)
        requires
            old(self).wf(),
        ensures
            final(self).wf(),
            if tab_idx < old(self).tabs@.len() {
                &&& replaced == Some(tab_idx)
                &&& *final(self) == (App { tabs: final(self).tabs, mode: AppMode::Terminal, ..*old(self) })
                &&& final(self).tabs@ == old(self).tabs@.update(tab_idx as int, TabInfo { name })
            } else {
                &&& replaced is None
                &&& *final(self) == (App {
                    tabs: final(self).tabs,
                    active_tab: Some(old(self).tabs@.len() as usize),
                    mode: AppMode::Terminal,
                    ..*old(self)
                })
                &&& final(self).tabs@ == old(self).tabs@.push(TabInfo { name })
            },
    {
        let replaced = if tab_idx < self.tabs.len() {
            self.tabs.set(tab_idx, TabInfo { name });
            Some(tab_idx)
        } else {
            self.tabs.push(TabInfo { name });
            self.active_tab = Some(self.tabs.len() - 1);
            None
        };
        self.mode = AppMode::Terminal;
        proof {
            if self.split is Some {
                assert(split_ok(self.split->0, self.tabs@.len()));
            }
        }
        replaced
    }

    /// Gives up on the dead tab: forgets the reconnection and closes the active tab.
    pub fn dismiss_dead(&mut self) -> (effects: Vec<Effect>)
        requires
            old(self).wf(),
        ensures
            final(self).wf(),
            tab_closed(App { reconnect_server: None, ..*old(self) }, *final(self), effects@),
    {
        self.reconnect_server = None;
        self.close_active_tab()
    }

    /// Sends `bytes` to every tab.
    pub fn write_input_all(&self, bytes: &[u8]) -> (effects: Vec<Effect>)
        ensures
            effects.len() == 1,
            effects@[0] matches Effect::WriteInput(InputTarget::All, b) && b@ == bytes@,
    {
        let mut effects: Vec<Effect> = Vec::new();
        effects.push(Effect::WriteInput(InputTarget::All, vstd::slice::slice_to_vec(bytes)));
        effects
    }

    /// Resizes the active tab's terminal, if there is one.
    pub fn resize_active_terminal(&self, cols: u16, rows: u16) -> (effects: Vec<Effect>)
        ensures
            effects@ == match self.active_tab {
                Some(t) => seq![Effect::Resize { tab: t, cols, rows }],
                None => Seq::<Effect>::empty(),
            },
    {
        let mut effects: Vec<Effect> = Vec::new();
        if let Some(t) = self.active_tab {
            effects.push(Effect::Resize { tab: t, cols, rows });
        }
        effects
    }
}

/// The active tab and the split after tab `idx` was closed, `n` tabs remaining
/// and `a0` the tab to activate when there is no split.
fn split_after_close(split: Option<SplitState>, idx: usize, n: usize, a0: usize) -> (r: (usize, Option<SplitState>))
    requires
        n > 0,
        a0 < n,
    ensures
        match split {
            None => r.0 == a0 && r.1 is None,
            Some(s) => {
                let panes = panes_after_close(s.panes@, idx, n as nat);
                if panes.len() < 2 || n < 2 {
                    r.0 == a0 && r.1 is None
                } else {
                    let f: usize = if s.focused_pane >= panes.len() {
                        (panes.len() - 1) as usize
                    } else {
                        s.focused_pane
                    };
                    &&& r.0 == panes[f as int]
                    &&& r.1 matches Some(t) && t.layout == s.layout && t.panes@ == panes && t.focused_pane == f
                }
            },
        },
        r.0 < n,
        r.1 matches Some(t) ==> split_ok(t, n as nat),
{
    match split {
        None => (a0, None),
        Some(s) => {
            let panes = close_panes(&s.panes, idx, n);
            if panes.len() < 2 || n < 2 {
                (a0, None)
            } else {
                let f = if s.focused_pane >= panes.len() { panes.len() - 1 } else { s.focused_pane };
                let t = panes[f];
                (t, Some(SplitState { layout: s.layout, panes, focused_pane: f }))
            }
        },
    }
}

/// Whether `v` holds `x`.
fn holds(v: &Vec<usize>, x: usize) -> (b: bool)
    ensures
        b == v@.contains(x),
{
    let mut i: usize = 0;
    while i < v.len()
        invariant
            i <= v@.len(),
            forall|j: int| 0 <= j < i ==> v@[j] != x,
        decreases v@.len() - i,
    {
        if v[i] == x {
            return true;
        }
        i = i + 1;
    }
    false
}

/// The split panes after tab `idx` was closed and `n` tabs remain.
fn close_panes(panes: &Vec<usize>, idx: usize, n: usize) -> (r: Vec<usize>)
    requires
        n > 0,
    ensures
        r@ == panes_after_close(panes@, idx, n as nat),
        forall|k: int| 0 <= k < r@.len() ==> #[trigger] r@[k] < n,
{
    let ghost mapped = panes@.map_values(|p: usize| shift_clamp(p, idx, n as nat));
    let mut out: Vec<usize> = Vec::new();
    let mut k: usize = 0;
    assert(mapped.take(0) =~= Seq::<usize>::empty());
    while k < panes.len()
        invariant
            k <= panes@.len(),
            n > 0,
            mapped == panes@.map_values(|p: usize| shift_clamp(p, idx, n as nat)),
            out@ == first_occurrences(mapped.take(k as int)),
            forall|j: int| 0 <= j < out@.len() ==> #[trigger] out@[j] < n,
        decreases panes@.len() - k,
    {
        let p = panes[k];
        let q = if p >= idx {
            if p > 0 { p - 1 } else { 0 }
        } else {
            p
        };
        let x = if q >= n { n - 1 } else { q };
        assert(x == mapped[k as int]);
        let ghost t = mapped.take(k as int);
        assert(mapped.take(k + 1) =~= t.push(x));
        assert(mapped.take(k + 1).drop_last() =~= t);
        if !holds(&out, x) {
            out.push(x);
        }
        k = k + 1;
    }
    assert(mapped.take(panes@.len() as int) =~= mapped);
    out
}
} // verus!
