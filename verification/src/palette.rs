//! The command palette: every connection, open tab and action in one list,
//! narrowed by the words typed, and run from there.
use vstd::prelude::*;

use crate::app::{App, AppMode, CopySource, Effect, Note, PaletteAction, PaletteItem, TabInfo, split_ok};
use crate::browse::opened;
use crate::commands::{dangerous, sent_or_confirmed};
use crate::navigation::with_detail;
use crate::config::{Category, CommandSnippet, Server, display_addr_of};
use crate::tabs::{input_effects, input_to, split_toggled, tab_closed};
use crate::text::{
    all_occur, all_words_occur, char_count, chars_of, concat, concat3, decimal, decimal_string, lowercase,
    owned, pop_char, push_char, to_lowercase, utf8_bytes, words,
};

verus! {

/// What a palette entry does, as plain values.
pub enum PaletteDo {
    Connect(Server),
    SwitchTab(usize),
    ToggleSplit,
    ToggleBroadcast,
    CopyIp(Seq<char>),
    RunCommand(Seq<char>),
    ShowHelp,
    CloseTab,
    CopyLines(usize),
    Reconnect,
    ShowDetail,
}

/// A palette entry as plain values: label, description and action.
pub struct PaletteEntry {
    pub label: Seq<char>,
    pub description: Seq<char>,
    pub action: PaletteDo,
}

pub open spec fn do_of(a: PaletteAction) -> PaletteDo {
    match a {
        PaletteAction::Connect(s) => PaletteDo::Connect(s),
        PaletteAction::SwitchTab(i) => PaletteDo::SwitchTab(i),
        PaletteAction::ToggleSplit => PaletteDo::ToggleSplit,
        PaletteAction::ToggleBroadcast => PaletteDo::ToggleBroadcast,
        PaletteAction::CopyIp(ip) => PaletteDo::CopyIp(ip@),
        PaletteAction::RunCommand(c) => PaletteDo::RunCommand(c@),
        PaletteAction::ShowHelp => PaletteDo::ShowHelp,
        PaletteAction::CloseTab => PaletteDo::CloseTab,
        PaletteAction::CopyLines(n) => PaletteDo::CopyLines(n),
        PaletteAction::Reconnect => PaletteDo::Reconnect,
        PaletteAction::ShowDetail => PaletteDo::ShowDetail,
    }
}

pub open spec fn entry_of_item(it: PaletteItem) -> PaletteEntry {
    PaletteEntry { label: it.label@, description: it.description@, action: do_of(it.action) }
}

pub open spec fn palette_view(items: Seq<PaletteItem>) -> Seq<PaletteEntry> {
    items.map_values(|it: PaletteItem| entry_of_item(it))
}

pub open spec fn entry(label: Seq<char>, description: Seq<char>, action: PaletteDo) -> PaletteEntry {
    PaletteEntry { label, description, action }
}

/// `Connect: <name> (<address>)`, described by the category name.
pub open spec fn connect_entry(cat_name: Seq<char>, s: Server) -> PaletteEntry {
    entry(
        "Connect: "@ + s.name@ + " ("@ + display_addr_of(s) + ")"@,
        cat_name,
        PaletteDo::Connect(s),
    )
}

/// The connection entries of the servers of category `c`.
pub open spec fn category_connects(c: Category) -> Seq<PaletteEntry> {
    c.servers@.map_values(|s: Server| connect_entry(c.name@, s))
}

/// The connection entries of the first `n` categories, category by category.
pub open spec fn connect_entries(cats: Seq<Category>, n: int) -> Seq<PaletteEntry>
    decreases n,
{
    if n <= 0 {
        Seq::empty()
    } else {
        connect_entries(cats, n - 1) + category_connects(cats[n - 1])
    }
}

/// `Tab: <name>`, `Switch to tab <i + 1>` for each open tab.
pub open spec fn tab_entries(tabs: Seq<TabInfo>) -> Seq<PaletteEntry> {
    Seq::new(
        tabs.len(),
        |i: int|
            entry(
                "Tab: "@ + tabs[i].name@,
                "Switch to tab "@ + decimal((i + 1) as nat),
                PaletteDo::SwitchTab(i as usize),
            ),
    )
}

/// The split and broadcast toggles.
pub open spec fn toggle_entries() -> Seq<PaletteEntry> {
    seq![
        entry("Split: Toggle"@, "Toggle split terminal layout"@, PaletteDo::ToggleSplit),
        entry("Broadcast: Toggle"@, "Toggle broadcast mode"@, PaletteDo::ToggleBroadcast),
    ]
}

/// `Run: <name> [<key>]`, described by the command, for each snippet.
pub open spec fn snippet_entry(c: CommandSnippet) -> PaletteEntry {
    entry(
        "Run: "@ + c.name@ + " ["@ + c.key@ + "]"@,
        c.command@,
        PaletteDo::RunCommand(c.command@),
    )
}

pub open spec fn snippet_entries(cmds: Seq<CommandSnippet>) -> Seq<PaletteEntry> {
    cmds.map_values(|c: CommandSnippet| snippet_entry(c))
}

/// The copy, view and session actions.
pub open spec fn fixed_entries() -> Seq<PaletteEntry> {
    seq![
        entry("Copy: Screen (50 lines)"@, "Copy last 50 lines to clipboard"@, PaletteDo::CopyLines(50)),
        entry("Copy: Last 100 lines"@, "Copy last 100 lines to clipboard"@, PaletteDo::CopyLines(100)),
        entry("View: Server details"@, "Show details for current server"@, PaletteDo::ShowDetail),
        entry("View: Help (F1)"@, "Show keyboard shortcuts"@, PaletteDo::ShowHelp),
        entry("Session: Close tab (Ctrl+W)"@, "Close active terminal tab"@, PaletteDo::CloseTab),
        entry("Session: Reconnect"@, "Reconnect dead session"@, PaletteDo::Reconnect),
    ]
}

/// `Copy IP: <name> (<host>)`, described by the category name, for the first
/// `n` servers of `servers` that have a host.
pub open spec fn copy_ip_upto(cat_name: Seq<char>, servers: Seq<Server>, n: int) -> Seq<PaletteEntry>
    decreases n,
{
    if n <= 0 {
        Seq::empty()
    } else if servers[n - 1].host@.len() > 0 {
        copy_ip_upto(cat_name, servers, n - 1).push(
            entry(
                "Copy IP: "@ + servers[n - 1].name@ + " ("@ + servers[n - 1].host@ + ")"@,
                cat_name,
                PaletteDo::CopyIp(servers[n - 1].host@),
            ),
        )
    } else {
        copy_ip_upto(cat_name, servers, n - 1)
    }
}

/// The address-copy entries of the first `n` categories.
pub open spec fn copy_ip_entries(cats: Seq<Category>, n: int) -> Seq<PaletteEntry>
    decreases n,
{
    if n <= 0 {
        Seq::empty()
    } else {
        copy_ip_entries(cats, n - 1) + copy_ip_upto(
            cats[n - 1].name@,
            cats[n - 1].servers@,
            cats[n - 1].servers@.len() as int,
        )
    }
}

/// Every palette entry, in the order the palette lists them: connections,
/// open tabs, the toggles, the quick commands, the fixed actions, then the
/// address copies.
pub open spec fn palette_entries(a: App) -> Seq<PaletteEntry> {
    let cats = a.config.categories@;
    connect_entries(cats, cats.len() as int) + tab_entries(a.tabs@) + toggle_entries()
        + snippet_entries(a.config.commands@) + fixed_entries() + copy_ip_entries(
        cats,
        cats.len() as int,
    )
}

/// The lowercase text an entry is searched in: label, a space, description.
pub open spec fn haystack(e: PaletteEntry) -> Seq<char> {
    lowercase(e.label + " "@ + e.description)
}

/// Indices, among the first `n` entries, of those that hold every word of `q`.
pub open spec fn palette_hits_upto(items: Seq<PaletteEntry>, q: Seq<char>, n: int) -> Seq<usize>
    decreases n,
{
    if n <= 0 {
        Seq::empty()
    } else if all_occur(haystack(items[n - 1]), words(q)) {
        palette_hits_upto(items, q, n - 1).push((n - 1) as usize)
    } else {
        palette_hits_upto(items, q, n - 1)
    }
}

/// The entries that a query keeps: all of them when its lowercase form is
/// empty, else those whose lowercase text holds every word of it.
pub open spec fn palette_hits(items: Seq<PaletteEntry>, query: Seq<char>) -> Seq<usize> {
    let q = lowercase(query);
    if q.len() == 0 {
        Seq::new(items.len(), |i: int| i as usize)
    } else {
        palette_hits_upto(items, q, items.len() as int)
    }
}

proof fn lemma_hits_bounded(items: Seq<PaletteEntry>, q: Seq<char>, n: int)
    requires
        0 <= n <= items.len(),
    ensures
        forall|k: int|
            0 <= k < palette_hits_upto(items, q, n).len() ==> #[trigger] palette_hits_upto(
                items,
                q,
                n,
            )[k] < n,
    decreases n,
{
    if n > 0 {
        lemma_hits_bounded(items, q, n - 1);
        let prev = palette_hits_upto(items, q, n - 1);
        let cur = palette_hits_upto(items, q, n);
        assert forall|k: int| 0 <= k < cur.len() implies #[trigger] cur[k] < n by {
            if k < prev.len() {
                assert(cur[k] == prev[k]);
            }
        }
    }
}

/// `new` is `old` with the palette closed: back to browsing, nothing typed,
/// no entries.
pub open spec fn palette_closed(old: App, new: App) -> bool {
    &&& new == (App {
        mode: AppMode::Browse,
        palette_query: new.palette_query,
        palette_items: new.palette_items,
        palette_filtered: new.palette_filtered,
        palette_index: 0,
        ..old
    })
    &&& new.palette_query@ == Seq::<char>::empty()
    &&& new.palette_items@.len() == 0
    &&& new.palette_filtered@.len() == 0
}

/// `new` is `old` with the filtered list following the query: the entries
/// that the query keeps, and the selection back on the first when it fell off
/// the end.
pub open spec fn palette_refiltered(old: App, new: App) -> bool {
    &&& new == (App {
        palette_filtered: new.palette_filtered,
        palette_index: if old.palette_index >= new.palette_filtered@.len() {
            0
        } else {
            old.palette_index
        },
        ..old
    })
    &&& new.palette_filtered@ == palette_hits(palette_view(old.palette_items@), old.palette_query@)
}

/// `new` and `effects` are what running the palette action `act` from `a`
/// (the palette already closed) gives.
pub open spec fn palette_ran(a: App, act: PaletteAction, new: App, effects: Seq<Effect>) -> bool {
    match act {
        PaletteAction::Connect(s) => opened(a, s, new, effects),
        PaletteAction::SwitchTab(i) => effects.len() == 0 && new == if i < a.tabs@.len() {
            App { active_tab: Some(i), mode: AppMode::Terminal, ..a }
        } else {
            a
        },
        PaletteAction::ToggleSplit => effects.len() == 0 && split_toggled(a, new),
        PaletteAction::ToggleBroadcast => effects.len() == 0 && new == (App {
            broadcast: !a.broadcast,
            ..a
        }),
        PaletteAction::CopyIp(ip) => new == a && effects == seq![
            Effect::Copy {
                source: CopySource::Text(ip),
                on_ok: Some(Note::IpCopied(ip)),
                on_fail: Some(Note::IpCopyFailed),
            },
        ],
        PaletteAction::RunCommand(cmd) => if dangerous(cmd@) {
            sent_or_confirmed(a, cmd@, new, effects)
        } else {
            &&& input_effects(
                a.broadcast,
                a.active_tab,
                vstd::utf8::encode_utf8(cmd@.push('\n')),
                effects,
            )
            &&& new == if a.active_tab is Some {
                App { mode: AppMode::Terminal, ..a }
            } else {
                a
            }
        },
        PaletteAction::ShowHelp => effects.len() == 0 && new == (App {
            prev_mode: a.mode,
            help_scroll: 0,
            mode: AppMode::Help,
            ..a
        }),
        PaletteAction::CloseTab => tab_closed(a, new, effects),
        PaletteAction::CopyLines(n) => new == a && effects == if a.active_tab is Some {
            seq![
                Effect::Copy {
                    source: CopySource::Lines(n),
                    on_ok: Some(Note::LinesCopied(n)),
                    on_fail: Some(Note::InstallClipboardTool),
                },
            ]
        } else {
            Seq::<Effect>::empty()
        },
        PaletteAction::Reconnect => new == (App { reconnect_server: None, ..a }) && effects
            == match a.reconnect_server {
            Some(p) => seq![Effect::ReconnectTab(p.0, p.1)],
            None => Seq::<Effect>::empty(),
        },
        PaletteAction::ShowDetail => effects.len() == 0 && new == with_detail(a),
    }
}

fn connect_items(cats: &Vec<Category>) -> (items: Vec<PaletteItem>)
    ensures
        palette_view(items@) == connect_entries(cats@, cats@.len() as int),
{
    let mut items: Vec<PaletteItem> = Vec::new();
    let mut i: usize = 0;
    assert(palette_view(items@) =~= connect_entries(cats@, 0));
    while i < cats.len()
        invariant
            i <= cats@.len(),
            palette_view(items@) == connect_entries(cats@, i as int),
        decreases cats@.len() - i,
    {
        let cat = &cats[i];
        let ghost base = palette_view(items@);
        let mut j: usize = 0;
        assert(base =~= base + cat.servers@.take(0).map_values(|s: Server| connect_entry(cat.name@, s)));
        while j < cat.servers.len()
            invariant
                j <= cat.servers@.len(),
                *cat == cats@[i as int],
                base == connect_entries(cats@, i as int),
                palette_view(items@) == base + cat.servers@.take(j as int).map_values(
                    |s: Server| connect_entry(cat.name@, s),
                ),
            decreases cat.servers@.len() - j,
        {
            let s = &cat.servers[j];
            let addr = s.display_addr();
            let front = concat3("Connect: ", s.name.as_str(), " (");
            let label = concat3(front.as_str(), addr.as_str(), ")");
            let ghost before = items@;
            items.push(
                PaletteItem {
                    label,
                    description: cat.name.clone(),
                    action: PaletteAction::Connect(s.duplicate()),
                },
            );
            assert(palette_view(items@) =~= palette_view(before).push(connect_entry(cat.name@, *s)));
            assert(cat.servers@.take(j + 1) =~= cat.servers@.take(j as int).push(*s));
            assert(palette_view(items@) =~= base + cat.servers@.take(j + 1).map_values(
                |s: Server| connect_entry(cat.name@, s),
            ));
            j = j + 1;
        }
        assert(cat.servers@.take(j as int) =~= cat.servers@);
        i = i + 1;
    }
    items
}

fn tab_items(tabs: &Vec<TabInfo>) -> (items: Vec<PaletteItem>)
    ensures
        palette_view(items@) == tab_entries(tabs@),
{
    let mut items: Vec<PaletteItem> = Vec::new();
    let mut i: usize = 0;
    while i < tabs.len()
        invariant
            i <= tabs@.len(),
            palette_view(items@) == tab_entries(tabs@).take(i as int),
        decreases tabs@.len() - i,
    {
        let label = concat("Tab: ", tabs[i].name.as_str());
        let num = decimal_string((i + 1) as u64);
        let description = concat("Switch to tab ", num.as_str());
        let ghost before = items@;
        items.push(PaletteItem { label, description, action: PaletteAction::SwitchTab(i) });
        assert(palette_view(items@) =~= palette_view(before).push(tab_entries(tabs@)[i as int]));
        assert(tab_entries(tabs@).take(i + 1) =~= tab_entries(tabs@).take(i as int).push(
            tab_entries(tabs@)[i as int],
        ));
        i = i + 1;
    }
    assert(tab_entries(tabs@).take(i as int) =~= tab_entries(tabs@));
    items
}

fn item(label: &str, description: &str, action: PaletteAction) -> (it: PaletteItem)
    ensures
        entry_of_item(it) == entry(label@, description@, do_of(action)),
{
    PaletteItem { label: owned(label), description: owned(description), action }
}

fn toggle_items() -> (items: Vec<PaletteItem>)
    ensures
        palette_view(items@) == toggle_entries(),
{
    let mut items: Vec<PaletteItem> = Vec::new();
    items.push(item("Split: Toggle", "Toggle split terminal layout", PaletteAction::ToggleSplit));
    items.push(item("Broadcast: Toggle", "Toggle broadcast mode", PaletteAction::ToggleBroadcast));
    assert(palette_view(items@) =~= toggle_entries());
    items
}

fn snippet_items(cmds: &Vec<CommandSnippet>) -> (items: Vec<PaletteItem>)
    ensures
        palette_view(items@) == snippet_entries(cmds@),
{
    let mut items: Vec<PaletteItem> = Vec::new();
    let mut i: usize = 0;
    while i < cmds.len()
        invariant
            i <= cmds@.len(),
            palette_view(items@) == snippet_entries(cmds@).take(i as int),
        decreases cmds@.len() - i,
    {
        let c = &cmds[i];
        let front = concat3("Run: ", c.name.as_str(), " [");
        let label = concat3(front.as_str(), c.key.as_str(), "]");
        let ghost before = items@;
        items.push(
            PaletteItem {
                label,
                description: c.command.clone(),
                action: PaletteAction::RunCommand(c.command.clone()),
            },
        );
        assert(palette_view(items@) =~= palette_view(before).push(snippet_entries(cmds@)[i as int]));
        assert(snippet_entries(cmds@).take(i + 1) =~= snippet_entries(cmds@).take(i as int).push(
            snippet_entries(cmds@)[i as int],
        ));
        i = i + 1;
    }
    assert(snippet_entries(cmds@).take(i as int) =~= snippet_entries(cmds@));
    items
}

fn fixed_items() -> (items: Vec<PaletteItem>)
    ensures
        palette_view(items@) == fixed_entries(),
{
    let mut items: Vec<PaletteItem> = Vec::new();
    items.push(
        item(
            "Copy: Screen (50 lines)",
            "Copy last 50 lines to clipboard",
            PaletteAction::CopyLines(50),
        ),
    );
    items.push(
        item(
            "Copy: Last 100 lines",
            "Copy last 100 lines to clipboard",
            PaletteAction::CopyLines(100),
        ),
    );
    items.push(
        item("View: Server details", "Show details for current server", PaletteAction::ShowDetail),
    );
    items.push(item("View: Help (F1)", "Show keyboard shortcuts", PaletteAction::ShowHelp));
    items.push(
        item("Session: Close tab (Ctrl+W)", "Close active terminal tab", PaletteAction::CloseTab),
    );
    items.push(item("Session: Reconnect", "Reconnect dead session", PaletteAction::Reconnect));
    assert(palette_view(items@) =~= fixed_entries());
    items
}

fn copy_ip_items(cats: &Vec<Category>) -> (items: Vec<PaletteItem>)
    ensures
        palette_view(items@) == copy_ip_entries(cats@, cats@.len() as int),
{
    let mut items: Vec<PaletteItem> = Vec::new();
    let mut i: usize = 0;
    assert(palette_view(items@) =~= copy_ip_entries(cats@, 0));
    while i < cats.len()
        invariant
            i <= cats@.len(),
            palette_view(items@) == copy_ip_entries(cats@, i as int),
        decreases cats@.len() - i,
    {
        let cat = &cats[i];
        let ghost base = palette_view(items@);
        let mut j: usize = 0;
        assert(base =~= base + copy_ip_upto(cat.name@, cat.servers@, 0));
        while j < cat.servers.len()
            invariant
                j <= cat.servers@.len(),
                *cat == cats@[i as int],
                base == copy_ip_entries(cats@, i as int),
                palette_view(items@) == base + copy_ip_upto(cat.name@, cat.servers@, j as int),
            decreases cat.servers@.len() - j,
        {
            let s = &cat.servers[j];
            if char_count(s.host.as_str()) > 0 {
                let front = concat3("Copy IP: ", s.name.as_str(), " (");
                let label = concat3(front.as_str(), s.host.as_str(), ")");
                let ghost before = items@;
                items.push(
                    PaletteItem {
                        label,
                        description: cat.name.clone(),
                        action: PaletteAction::CopyIp(s.host.clone()),
                    },
                );
                assert(palette_view(items@) =~= palette_view(before).push(
                    entry(
                        "Copy IP: "@ + s.name@ + " ("@ + s.host@ + ")"@,
                        cat.name@,
                        PaletteDo::CopyIp(s.host@),
                    ),
                ));
            }
            j = j + 1;
        }
        i = i + 1;
    }
    items
}

/// `new` is `old` with the palette open, every entry listed and none typed.
pub open spec fn palette_opened(old: App, new: App) -> bool {
    &&& new == (App {
        palette_query: new.palette_query,
        palette_items: new.palette_items,
        palette_filtered: new.palette_filtered,
        palette_index: 0,
        mode: AppMode::Palette,
        ..old
    })
    &&& new.palette_query@ == Seq::<char>::empty()
    &&& palette_view(new.palette_items@) == palette_entries(old)
    &&& new.palette_filtered@ == Seq::new(
        new.palette_items@.len(),
        |i: int| i as usize,
    )
}

/// `new` is `old` with `c` typed into the palette query, the list following.
pub open spec fn palette_typed(old: App, new: App, c: char) -> bool {
    &&& new.palette_query@ == old.palette_query@.push(c)
    &&& palette_refiltered(App { palette_query: new.palette_query, ..old }, new)
}

/// `new` is `old` with the last character of the palette query erased, the
/// list following.
pub open spec fn palette_erased(old: App, new: App) -> bool {
    &&& new.palette_query@ == if old.palette_query@.len() > 0 {
        old.palette_query@.drop_last()
    } else {
        old.palette_query@
    }
    &&& palette_refiltered(App { palette_query: new.palette_query, ..old }, new)
}

/// `new` is `old` with the palette selection one entry up.
pub open spec fn palette_moved_up(old: App, new: App) -> bool {
    new == (App {
        palette_index: if old.palette_index > 0 {
            (old.palette_index - 1) as usize
        } else {
            0
        },
        ..old
    })
}

/// `new` is `old` with the palette selection one entry down, stopping at the
/// last.
pub open spec fn palette_moved_down(old: App, new: App) -> bool {
    new == (App {
        palette_index: if old.palette_index + 1 < old.palette_filtered@.len() {
            (old.palette_index + 1) as usize
        } else {
            old.palette_index
        },
        ..old
    })
}

/// `new` and `effects` are what running the selected palette entry of `old`
/// gives.
pub open spec fn palette_executed(old: App, new: App, effects: Seq<Effect>) -> bool {
    if old.palette_index < old.palette_filtered@.len() {
        let act = old.palette_items@[old.palette_filtered@[old.palette_index as int] as int].action;
        exists|mid: App|
            palette_closed(old, mid) && palette_ran(mid, act, new, effects)
    } else {
        palette_closed(old, new) && effects.len() == 0
    }
}

impl App {
    /// Opens the command palette with every entry listed and none typed: a
    /// connection per server, a switch per open tab, the split and broadcast
    /// toggles, the quick commands, the copy, view and session actions, and an
    /// address copy per server with a host.
    pub fn open_palette(&mut self)
        requires
            old(self).wf(),
        ensures
            final(self).wf(),
            palette_opened(*old(self), *final(self)),
    {
        let mut items = connect_items(&self.config.categories);
        let mut tabs = tab_items(&self.tabs);
        let mut toggles = toggle_items();
        let mut snippets = snippet_items(&self.config.commands);
        let mut fixed = fixed_items();
        let mut copies = copy_ip_items(&self.config.categories);
        let ghost (a, b, c, d, e, f) = (items@, tabs@, toggles@, snippets@, fixed@, copies@);
        items.append(&mut tabs);
        items.append(&mut toggles);
        items.append(&mut snippets);
        items.append(&mut fixed);
        items.append(&mut copies);
        assert(items@ =~= a + b + c + d + e + f);
        assert(palette_view(items@) =~= palette_view(a) + palette_view(b) + palette_view(c)
            + palette_view(d) + palette_view(e) + palette_view(f));
        let n = items.len();
        let mut all: Vec<usize> = Vec::new();
        let mut i: usize = 0;
        while i < n
            invariant
                i <= n,
                all@ == Seq::new(i as nat, |k: int| k as usize),
            decreases n - i,
        {
            all.push(i);
            assert(all@ =~= Seq::new((i + 1) as nat, |k: int| k as usize));
            i = i + 1;
        }
        self.palette_query = String::new();
        self.palette_items = items;
        self.palette_filtered = all;
        self.palette_index = 0;
        self.mode = AppMode::Palette;
        proof {
            if self.split is Some {
                assert(split_ok(self.split->0, self.tabs@.len()));
            }
        }
    }

    /// Narrows the palette to the entries whose lowercase label and description
    /// hold every word of the lowercase query (all of them for an empty query).
    pub fn palette_filter(&mut self)
        requires
            old(self).wf(),
        ensures
            final(self).wf(),
            palette_refiltered(*old(self), *final(self)),
    {
        let query = to_lowercase(self.palette_query.as_str());
        let q = chars_of(query.as_str());
        let n = self.palette_items.len();
        let ghost items = palette_view(self.palette_items@);
        let mut out: Vec<usize> = Vec::new();
        let mut i: usize = 0;
        if q.len() == 0 {
            while i < n
                invariant
                    i <= n,
                    out@ == Seq::new(i as nat, |k: int| k as usize),
                decreases n - i,
            {
                out.push(i);
                assert(out@ =~= Seq::new((i + 1) as nat, |k: int| k as usize));
                i = i + 1;
            }
        } else {
            while i < n
                invariant
                    i <= n,
                    n == self.palette_items@.len(),
                    items == palette_view(self.palette_items@),
                    out@ == palette_hits_upto(items, q@, i as int),
                decreases n - i,
            {
                let it = &self.palette_items[i];
                let text = concat3(it.label.as_str(), " ", it.description.as_str());
                let lower = to_lowercase(text.as_str());
                let h = chars_of(lower.as_str());
                assert(items[i as int] == entry_of_item(self.palette_items@[i as int]));
                if all_words_occur(&h, &q) {
                    out.push(i);
                }
                i = i + 1;
            }
            proof {
                lemma_hits_bounded(items, q@, n as int);
            }
        }
        self.palette_filtered = out;
        if self.palette_index >= self.palette_filtered.len() {
            self.palette_index = 0;
        }
    }

    /// Types a character into the palette query; the list follows.
    pub fn palette_push(&mut self, c: char)
        requires
            old(self).wf(),
        ensures
            final(self).wf(),
            palette_typed(*old(self), *final(self), c),
    {
        self.palette_query = push_char(&self.palette_query, c);
        self.palette_filter();
    }

    /// Erases the last character of the palette query; the list follows.
    pub fn palette_backspace(&mut self)
        requires
            old(self).wf(),
        ensures
            final(self).wf(),
            palette_erased(*old(self), *final(self)),
    {
        self.palette_query = pop_char(&self.palette_query);
        self.palette_filter();
    }

    /// Moves the palette selection up, stopping at the first entry.
    pub fn palette_move_up(&mut self)
        ensures
            palette_moved_up(*old(self), *final(self)),
    {
        if self.palette_index > 0 {
            self.palette_index = self.palette_index - 1;
        }
    }

    /// Moves the palette selection down, stopping at the last entry.
    pub fn palette_move_down(&mut self)
        ensures
            palette_moved_down(*old(self), *final(self)),
    {
        if self.palette_index < self.palette_filtered.len() && self.palette_index + 1
            < self.palette_filtered.len() {
            self.palette_index = self.palette_index + 1;
        }
    }

    /// Closes the palette and goes back to browsing.
    pub fn close_palette(&mut self)
        ensures
            palette_closed(*old(self), *final(self)),
    {
        self.mode = AppMode::Browse;
        self.palette_query = String::new();
        self.palette_items = Vec::new();
        self.palette_filtered = Vec::new();
        self.palette_index = 0;
    }

    /// Runs the selected palette entry: the palette closes, then the entry's
    /// action is taken from there. Without a selected entry the palette just
    /// closes.
    pub fn palette_execute(&mut self) -> (effects: Vec<Effect>)
        requires
            old(self).wf(),
        ensures
            final(self).wf(),
            palette_executed(*old(self), *final(self), effects@),
    {
        if self.palette_index >= self.palette_filtered.len() {
            self.close_palette();
            return Vec::new();
        }
        let item_idx = self.palette_filtered[self.palette_index];
        let act = self.palette_items[item_idx].action.clone_action();
        self.close_palette();
        let ghost mid = *self;
        let effects = self.run_palette_action(act);
        assert(palette_closed(*old(self), mid));
        effects
    }

    fn run_palette_action(&mut self, act: PaletteAction) -> (effects: Vec<Effect>)
        requires
            old(self).wf(),
        ensures
            final(self).wf(),
            palette_ran(*old(self), act, *final(self), effects@),
    {
        let mut effects: Vec<Effect> = Vec::new();
        match act {
            PaletteAction::Connect(server) => {
                effects = self.open_terminal(&server);
                proof {
                    if self.split is Some {
                        assert(split_ok(self.split->0, self.tabs@.len()));
                    }
                }
            },
            PaletteAction::SwitchTab(i) => {
                if i < self.tabs.len() {
                    self.active_tab = Some(i);
                    self.mode = AppMode::Terminal;
                }
            },
            PaletteAction::ToggleSplit => {
                self.toggle_split();
            },
            PaletteAction::ToggleBroadcast => {
                self.toggle_broadcast();
            },
            PaletteAction::CopyIp(ip) => {
                effects.push(
                    Effect::Copy {
                        source: CopySource::Text(ip.clone()),
                        on_ok: Some(Note::IpCopied(ip.clone())),
                        on_fail: Some(Note::IpCopyFailed),
                    },
                );
            },
            PaletteAction::RunCommand(cmd) => {
                if App::is_dangerous_command(cmd.as_str()) {
                    effects = self.send_or_confirm(cmd);
                } else {
                    let line = push_char(&cmd, '\n');
                    let bytes = utf8_bytes(line.as_str());
                    effects = input_to(self.broadcast, self.active_tab, bytes);
                    if self.active_tab.is_some() {
                        self.mode = AppMode::Terminal;
                    }
                }
            },
            PaletteAction::ShowHelp => {
                self.show_help();
            },
            PaletteAction::CloseTab => {
                effects = self.close_active_tab();
            },
            PaletteAction::CopyLines(n) => {
                if self.active_tab.is_some() {
                    effects.push(
                        Effect::Copy {
                            source: CopySource::Lines(n),
                            on_ok: Some(Note::LinesCopied(n)),
                            on_fail: Some(Note::InstallClipboardTool),
                        },
                    );
                }
            },
            PaletteAction::Reconnect => {
                effects = self.reconnect_active();
            },
            PaletteAction::ShowDetail => {
                self.show_detail();
            },
        }
        effects
    }
}

impl PaletteAction {
    /// A copy of this action, field for field.
    pub fn clone_action(&self) -> (r: PaletteAction)
        ensures
            r == *self,
    {
        match self {
            PaletteAction::Connect(s) => PaletteAction::Connect(s.duplicate()),
            PaletteAction::SwitchTab(i) => PaletteAction::SwitchTab(*i),
            PaletteAction::ToggleSplit => PaletteAction::ToggleSplit,
            PaletteAction::ToggleBroadcast => PaletteAction::ToggleBroadcast,
            PaletteAction::CopyIp(ip) => PaletteAction::CopyIp(ip.clone()),
            PaletteAction::RunCommand(c) => PaletteAction::RunCommand(c.clone()),
            PaletteAction::ShowHelp => PaletteAction::ShowHelp,
            PaletteAction::CloseTab => PaletteAction::CloseTab,
            PaletteAction::CopyLines(n) => PaletteAction::CopyLines(*n),
            PaletteAction::Reconnect => PaletteAction::Reconnect,
            PaletteAction::ShowDetail => PaletteAction::ShowDetail,
        }
    }
}

} // verus!
