//! What the screen shows, decided apart from drawing it: which panel fills the
//! body, the sidebar lines, the server table's title, columns and widths, the
//! status marks and highlights, the status bar texts, and the size of the
//! terminal panes.
use vstd::prelude::*;

use crate::app::{App, AppMode, SidebarFocus, SidebarItem, SplitLayout};
use crate::config::{Category, Server};
use crate::text::{
    char_count, chars_of, concat, concat3, decimal, decimal_string, lowercase, owned, slice_chars,
    str_eq, string_from_chars, to_lowercase,
};

verus! {

/// The state of a server as its status mark shows it.
#[derive(PartialEq, Eq, Structural, Clone, Copy, Debug)]
pub enum StatusMark {
    /// deployed, online, running, active
    Up,
    /// pending, deploying, provisioning
    Pending,
    /// error, failed, offline, stopped
    Down,
    /// no status
    Blank,
    /// any other status
    Unknown,
}

/// The mark of a status already in lowercase.
pub open spec fn mark_of_lower(s: Seq<char>) -> StatusMark {
    if s == "deployed"@ || s == "online"@ || s == "running"@ || s == "active"@ {
        StatusMark::Up
    } else if s == "pending"@ || s == "deploying"@ || s == "provisioning"@ {
        StatusMark::Pending
    } else if s == "error"@ || s == "failed"@ || s == "offline"@ || s == "stopped"@ {
        StatusMark::Down
    } else if s.len() == 0 {
        StatusMark::Blank
    } else {
        StatusMark::Unknown
    }
}

/// The mark of a status, by its lowercase form.
pub open spec fn status_mark_of(status: Seq<char>) -> StatusMark {
    mark_of_lower(lowercase(status))
}

/// The mark of a status already in lowercase.
pub fn status_mark(s: &str) -> (m: StatusMark)
    ensures
        m == mark_of_lower(s@),
{
    if str_eq(s, "deployed") || str_eq(s, "online") || str_eq(s, "running") || str_eq(s, "active") {
        StatusMark::Up
    } else if str_eq(s, "pending") || str_eq(s, "deploying") || str_eq(s, "provisioning") {
        StatusMark::Pending
    } else if str_eq(s, "error") || str_eq(s, "failed") || str_eq(s, "offline") || str_eq(
        s,
        "stopped",
    ) {
        StatusMark::Down
    } else if char_count(s) == 0 {
        StatusMark::Blank
    } else {
        StatusMark::Unknown
    }
}

/// The mark shown for a server's status.
pub fn status_indicator(status: &str) -> (m: StatusMark)
    ensures
        m == status_mark_of(status@),
{
    let l = to_lowercase(status);
    status_mark(l.as_str())
}

impl StatusMark {
    /// The symbol drawn for this mark.
    pub fn glyph(&self) -> (g: &'static str)
        ensures
            g@ == match *self {
                StatusMark::Up => "●"@,
                StatusMark::Pending => "◐"@,
                StatusMark::Down => "●"@,
                StatusMark::Blank => " "@,
                StatusMark::Unknown => "○"@,
            },
    {
        match self {
            StatusMark::Up => "●",
            StatusMark::Pending => "◐",
            StatusMark::Down => "●",
            StatusMark::Blank => " ",
            StatusMark::Unknown => "○",
        }
    }
}

/// How a line of a list is highlighted.
#[derive(PartialEq, Eq, Structural, Clone, Copy, Debug)]
pub enum RowLook {
    /// The selected line of the focused list.
    Focused,
    /// The selected line of a list without the focus.
    Selected,
    Plain,
}

/// The highlight of line `index` when `selected` is the selected line.
pub fn row_style(index: usize, selected: usize, is_focused: bool) -> (r: RowLook)
    ensures
        r == if index == selected && is_focused {
            RowLook::Focused
        } else if index == selected {
            RowLook::Selected
        } else {
            RowLook::Plain
        },
{
    if index == selected && is_focused {
        RowLook::Focused
    } else if index == selected {
        RowLook::Selected
    } else {
        RowLook::Plain
    }
}

/// What fills the body beside the sidebar.
#[derive(PartialEq, Eq, Structural, Clone, Copy, Debug)]
pub enum Panel {
    /// The active terminal.
    Terminal,
    /// The results of a search over every category.
    GlobalSearch,
    /// The server list of the current category.
    ServerList,
}

/// The body panel: the terminal when one is active in terminal mode, the
/// results while searching every category, else the server list.
pub open spec fn panel_of(a: App) -> Panel {
    if a.mode == AppMode::Terminal && a.active_tab is Some {
        Panel::Terminal
    } else if a.mode == AppMode::Search && a.is_global_search {
        Panel::GlobalSearch
    } else {
        Panel::ServerList
    }
}

impl App {
    /// The panel the body shows.
    pub fn body_panel(&self) -> (p: Panel)
        ensures
            p == panel_of(*self),
    {
        if self.mode == AppMode::Terminal && self.active_tab.is_some() {
            Panel::Terminal
        } else if self.mode == AppMode::Search && self.is_global_search {
            Panel::GlobalSearch
        } else {
            Panel::ServerList
        }
    }
}

/// The columns of the server table.
#[derive(PartialEq, Eq, Structural, Clone, Copy, Debug)]
pub enum TableLayout {
    /// Status, name, mesh address, public address, subnet, user.
    Wide,
    /// Status, name, address, user.
    Medium,
    /// Name, address, user.
    Simple,
}

/// Some server of the list carries a status or a public address.
pub open spec fn has_extra_info(servers: Seq<Server>) -> bool {
    exists|i: int| 0 <= i < servers.len() && (servers[i].status@.len() > 0 || servers[i].ip_public@.len() > 0)
}

/// The table for a list `width` columns wide: all columns when it is wider
/// than 84 and some server carries extra information, the middle set with
/// extra information, else the plain one.
pub open spec fn layout_of(width: u16, extra: bool) -> TableLayout {
    let inner: int = if width >= 4 {
        width - 4
    } else {
        0
    };
    if inner > 80 && extra {
        TableLayout::Wide
    } else if extra {
        TableLayout::Medium
    } else {
        TableLayout::Simple
    }
}

/// The widths of the table's columns in order: the name takes what the fixed
/// columns leave of the width inside the borders.
pub open spec fn widths_of(layout: TableLayout, width: u16) -> Seq<u16> {
    let inner: int = if width >= 4 {
        width - 4
    } else {
        0
    };
    let rest = |fixed: int|
        if inner >= fixed {
            (inner - fixed) as u16
        } else {
            0u16
        };
    match layout {
        TableLayout::Wide => seq![2u16, rest(66), 22u16, 16u16, 18u16, 8u16],
        TableLayout::Medium => seq![2u16, rest(32), 22u16, 8u16],
        TableLayout::Simple => seq![rest(32), 22u16, 10u16],
    }
}

/// The table for the listed servers in a list `width` columns wide.
pub fn server_table_layout(servers: &Vec<&Server>, width: u16) -> (l: TableLayout)
    ensures
        l == layout_of(width, has_extra_info(servers@.map_values(|s: &Server| *s))),
{
    let ghost view = servers@.map_values(|s: &Server| *s);
    let mut extra = false;
    let mut i: usize = 0;
    while i < servers.len() && !extra
        invariant
            i <= servers@.len(),
            view == servers@.map_values(|s: &Server| *s),
            extra ==> has_extra_info(view),
            !extra ==> forall|j: int|
                0 <= j < i ==> view[j].status@.len() == 0 && view[j].ip_public@.len() == 0,
        decreases servers@.len() - i,
    {
        let s = servers[i];
        if char_count(s.status.as_str()) > 0 || char_count(s.ip_public.as_str()) > 0 {
            assert(view[i as int] == *s);
            extra = true;
        }
        i = i + 1;
    }
    let inner = if width >= 4 {
        width - 4
    } else {
        0
    };
    if inner > 80 && extra {
        TableLayout::Wide
    } else if extra {
        TableLayout::Medium
    } else {
        TableLayout::Simple
    }
}

/// The column widths of `layout` for a list `width` columns wide.
pub fn column_widths(layout: TableLayout, width: u16) -> (w: Vec<u16>)
    ensures
        w@ == widths_of(layout, width),
{
    let inner = if width >= 4 {
        width - 4
    } else {
        0
    };
    let mut w: Vec<u16> = Vec::new();
    match layout {
        TableLayout::Wide => {
            let name = if inner >= 66 {
                inner - 66
            } else {
                0
            };
            w.push(2);
            w.push(name);
            w.push(22);
            w.push(16);
            w.push(18);
            w.push(8);
        },
        TableLayout::Medium => {
            let name = if inner >= 32 {
                inner - 32
            } else {
                0
            };
            w.push(2);
            w.push(name);
            w.push(22);
            w.push(8);
        },
        TableLayout::Simple => {
            let name = if inner >= 32 {
                inner - 32
            } else {
                0
            };
            w.push(name);
            w.push(22);
            w.push(10);
        },
    }
    assert(w@ =~= widths_of(layout, width));
    w
}

/// The column widths of the search results in a list `width` columns wide:
/// the address takes 22 columns, the category 20, and the name what is left
/// inside the borders.
pub fn search_widths(width: u16) -> (w: (u16, u16, u16))
    ensures
        w == (
            if width >= 46 {
                (width - 46) as u16
            } else {
                0u16
            },
            22u16,
            20u16,
        ),
{
    let inner = if width >= 4 {
        width - 4
    } else {
        0
    };
    let name = if inner >= 42 {
        inner - 42
    } else {
        0
    };
    (name, 22, 20)
}

/// A table cell for an optional value: the value, or a dash when empty.
pub fn or_dash(v: &String) -> (r: String)
    ensures
        r@ == if v@.len() == 0 {
            "—"@
        } else {
            v@
        },
{
    if char_count(v.as_str()) == 0 {
        owned("—")
    } else {
        v.clone()
    }
}

/// The server list's title: the query being typed, the filter in force, or
/// just the name.
pub open spec fn list_title_of(a: App) -> Seq<char> {
    if a.mode == AppMode::Search {
        " Servers [/: "@ + a.search_query@ + "▎] "@
    } else if a.search_query@.len() > 0 {
        " Servers [filter: "@ + a.search_query@ + "] "@
    } else {
        " Servers "@
    }
}

impl App {
    /// The title of the server list.
    pub fn server_list_title(&self) -> (t: String)
        ensures
            t@ == list_title_of(*self),
    {
        if self.mode == AppMode::Search {
            concat3(" Servers [/: ", self.search_query.as_str(), "▎] ")
        } else if char_count(self.search_query.as_str()) > 0 {
            concat3(" Servers [filter: ", self.search_query.as_str(), "] ")
        } else {
            owned(" Servers ")
        }
    }

    /// The message of an empty server list.
    pub fn empty_list_message(&self) -> (m: &'static str)
        ensures
            m@ == if self.search_query@.len() == 0 {
                "No servers in this category"@
            } else {
                "No matches found"@
            },
    {
        if char_count(self.search_query.as_str()) == 0 {
            "No servers in this category"
        } else {
            "No matches found"
        }
    }

    /// The message of an empty result list of a search over every category.
    pub fn empty_search_message(&self) -> (m: &'static str)
        ensures
            m@ == if self.search_query@.len() == 0 {
                "Digite para buscar em todos os servidores..."@
            } else {
                "Nenhum resultado encontrado"@
            },
    {
        if char_count(self.search_query.as_str()) == 0 {
            "Digite para buscar em todos os servidores..."
        } else {
            "Nenhum resultado encontrado"
        }
    }

    /// The title of the search results: the query being typed.
    pub fn search_title(&self) -> (t: String)
        ensures
            t@ == " Busca: "@ + self.search_query@ + "▎ "@,
    {
        concat3(" Busca: ", self.search_query.as_str(), "▎ ")
    }

    /// The count under the search results.
    pub fn search_count_text(&self) -> (t: String)
        ensures
            t@ == " "@ + decimal(self.global_results@.len()) + " resultados "@,
    {
        let n = decimal_string(self.global_results.len() as u64);
        concat3(" ", n.as_str(), " resultados ")
    }

    /// `Tab <i>/<n>` for the active tab in the status bar (empty without one).
    pub fn tab_info(&self) -> (t: String)
        requires
            self.wf(),
        ensures
            t@ == match self.active_tab {
                Some(i) => "Tab "@ + decimal((i + 1) as nat) + "/"@ + decimal(self.tabs@.len()),
                None => Seq::<char>::empty(),
            },
    {
        match self.active_tab {
            Some(i) => {
                let n = self.tabs.len();
                let a = decimal_string((i + 1) as u64);
                let b = decimal_string(n as u64);
                let front = concat("Tab ", a.as_str());
                concat3(front.as_str(), "/", b.as_str())
            },
            None => String::new(),
        }
    }

    /// The session count in the status bar (empty without sessions).
    pub fn sessions_text(&self) -> (t: String)
        ensures
            t@ == if self.tabs@.len() == 0 {
                Seq::<char>::empty()
            } else {
                " ["@ + decimal(self.tabs@.len()) + "] sessões"@
            },
    {
        if self.tabs.len() == 0 {
            String::new()
        } else {
            let n = decimal_string(self.tabs.len() as u64);
            concat3(" [", n.as_str(), "] sessões")
        }
    }

    /// The title bar: the program and version, then the current category.
    pub fn title_text(&self, version: &str) -> (t: String)
        ensures
            t@ == " SoureiGate v"@ + version@ + " > "@ + if self.category_index
                < self.config.categories@.len() {
                self.config.categories@[self.category_index as int].name@
            } else {
                Seq::<char>::empty()
            },
    {
        let front = concat3(" SoureiGate v", version, " > ");
        if self.category_index < self.config.categories.len() {
            concat(front.as_str(), self.config.categories[self.category_index].name.as_str())
        } else {
            front
        }
    }
}

/// `name` without a leading `VMs > `.
pub open spec fn short_vm_name(name: Seq<char>) -> Seq<char> {
    if name.len() >= 6 && name.take(6) == crate::app::vm_prefix() {
        name.skip(6)
    } else {
        name
    }
}

/// The text of sidebar line `item` (with whether it is indented): a category
/// with its server count, the VM group with its arrow and total, a VM category
/// by its short name, the recent-connections title, or a recent server's name.
pub open spec fn sidebar_text_of(a: App, item: SidebarItem) -> (Seq<char>, bool) {
    let cats = a.config.categories@;
    match item {
        SidebarItem::Category(ci) => (
            if ci < cats.len() {
                cats[ci as int].name@ + " ("@ + decimal(cats[ci as int].servers@.len()) + ")"@
            } else {
                Seq::empty()
            },
            false,
        ),
        SidebarItem::GroupHeader { prefix, expanded, count } => (
            (if expanded {
                "▾"@
            } else {
                "▸"@
            }) + " "@ + prefix@ + " ("@ + decimal(count as nat) + ")"@,
            false,
        ),
        SidebarItem::GroupChild(ci) => (
            if ci < cats.len() {
                short_vm_name(cats[ci as int].name@) + " ("@ + decimal(cats[ci as int].servers@.len())
                    + ")"@
            } else {
                Seq::empty()
            },
            true,
        ),
        SidebarItem::RecentHeader => ("Recent"@, false),
        SidebarItem::Recent(k) => (
            if k < a.recent_connections@.len() {
                a.recent_connections@[k as int].name@
            } else {
                Seq::empty()
            },
            true,
        ),
    }
}

/// The lead of a sidebar line: an arrow on the selected line, more space on
/// an indented one.
pub open spec fn sidebar_lead(selected: bool, indent: bool) -> Seq<char> {
    if selected {
        if indent {
            "  ▸ "@
        } else {
            "▸ "@
        }
    } else if indent {
        "    "@
    } else {
        "  "@
    }
}

fn count_text(front: &str, n: usize) -> (t: String)
    ensures
        t@ == front@ + " ("@ + decimal(n as nat) + ")"@,
{
    let d = decimal_string(n as u64);
    let a = concat(front, " (");
    concat3(a.as_str(), d.as_str(), ")")
}

fn strip_vm_prefix(name: &str) -> (r: String)
    ensures
        r@ == short_vm_name(name@),
{
    let v = chars_of(name);
    if v.len() >= 6 && v[0] == 'V' && v[1] == 'M' && v[2] == 's' && v[3] == ' ' && v[4] == '>'
        && v[5] == ' ' {
        assert(v@.take(6) =~= crate::app::vm_prefix());
        let rest = slice_chars(&v, 6, v.len());
        assert(rest@ =~= v@.skip(6));
        string_from_chars(rest.as_slice())
    } else {
        assert(!(v@.len() >= 6 && v@.take(6) == crate::app::vm_prefix())) by {
            if v@.len() >= 6 && v@.take(6) == crate::app::vm_prefix() {
                assert(v@.take(6)[0] == v@[0]);
                assert(v@.take(6)[1] == v@[1]);
                assert(v@.take(6)[2] == v@[2]);
                assert(v@.take(6)[3] == v@[3]);
                assert(v@.take(6)[4] == v@[4]);
                assert(v@.take(6)[5] == v@[5]);
            }
        }
        owned(name)
    }
}

impl App {
    /// The text of sidebar line `i` and whether it is indented; the text is
    /// led by an arrow when the line is selected in the focused sidebar.
    pub fn sidebar_line(&self, i: usize) -> (r: (String, bool))
        requires
            i < self.sidebar_items@.len(),
        ensures
            ({
                let (text, indent) = sidebar_text_of(*self, self.sidebar_items@[i as int]);
                let selected = i == self.sidebar_index && self.mode == AppMode::Browse
                    && self.sidebar_focus == SidebarFocus::Sidebar;
                r.0@ == sidebar_lead(selected, indent) + text && r.1 == indent
            }),
    {
        let cats = &self.config.categories;
        let (text, indent) = match &self.sidebar_items[i] {
            SidebarItem::Category(ci) => {
                let ci = *ci;
                if ci < cats.len() {
                    (count_text(cats[ci].name.as_str(), cats[ci].servers.len()), false)
                } else {
                    (String::new(), false)
                }
            },
            SidebarItem::GroupHeader { prefix, expanded, count } => {
                let arrow = if *expanded {
                    "▾"
                } else {
                    "▸"
                };
                let head = concat3(arrow, " ", prefix.as_str());
                (count_text(head.as_str(), *count), false)
            },
            SidebarItem::GroupChild(ci) => {
                let ci = *ci;
                if ci < cats.len() {
                    let short = strip_vm_prefix(cats[ci].name.as_str());
                    (count_text(short.as_str(), cats[ci].servers.len()), true)
                } else {
                    (String::new(), true)
                }
            },
            SidebarItem::RecentHeader => (owned("Recent"), false),
            SidebarItem::Recent(k) => {
                let k = *k;
                if k < self.recent_connections.len() {
                    (self.recent_connections[k].name.clone(), true)
                } else {
                    (String::new(), true)
                }
            },
        };
        let selected = i == self.sidebar_index && self.mode == AppMode::Browse && self.sidebar_focus
            == SidebarFocus::Sidebar;
        let lead = if selected {
            if indent {
                "  ▸ "
            } else {
                "▸ "
            }
        } else if indent {
            "    "
        } else {
            "  "
        };
        (concat(lead, text.as_str()), indent)
    }
}

/// The size of each pane of `layout` in a terminal area of `cols` by `rows`
/// cells: side by side panes are half as wide, stacked ones half as high, and
/// the border takes one cell (two where the pane spans the area).
pub open spec fn pane_size_of(layout: SplitLayout, cols: u16, rows: u16) -> (u16, u16) {
    match layout {
        SplitLayout::Vertical2 => ((cols / 2 - 1) as u16, (rows - 2) as u16),
        SplitLayout::Horizontal2 => ((cols - 2) as u16, (rows / 2 - 1) as u16),
        _ => ((cols / 2 - 1) as u16, (rows / 2 - 1) as u16),
    }
}

/// The size of each pane of `layout` in a terminal area of `cols` by `rows`.
pub fn pane_size(layout: SplitLayout, cols: u16, rows: u16) -> (r: (u16, u16))
    requires
        cols >= 2,
        rows >= 2,
    ensures
        r == pane_size_of(layout, cols, rows),
{
    match layout {
        SplitLayout::Vertical2 => (cols / 2 - 1, rows - 2),
        SplitLayout::Horizontal2 => (cols - 2, rows / 2 - 1),
        _ => (cols / 2 - 1, rows / 2 - 1),
    }
}

/// The terminal area for a screen `width` by `height` with a sidebar
/// `sidebar_w` wide: what the sidebar and the borders leave.
pub fn terminal_area(width: u16, height: u16, sidebar_w: u16) -> (r: (u16, u16))
    requires
        sidebar_w <= u16::MAX - 2,
    ensures
        r.0 == if width >= sidebar_w + 2 {
            (width - sidebar_w - 2) as u16
        } else {
            0u16
        },
        r.1 == if height >= 4 {
            (height - 4) as u16
        } else {
            0u16
        },
{
    let cols = if width >= sidebar_w + 2 {
        width - (sidebar_w + 2)
    } else {
        0
    };
    let rows = if height >= 4 {
        height - 4
    } else {
        0
    };
    (cols, rows)
}

} // verus!
