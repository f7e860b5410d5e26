//! The application state: what the sidebar lists, which server is selected, the
//! open terminal tabs and their split layout, the popups and the prompts.
//!
//! Methods change the state and return the outside work that the change calls
//! for (opening an SSH session, writing to a terminal, using the clipboard) as
//! a list of [`Effect`]s; the caller performs them and reports the outcome back
//! through the matching completion method.
use vstd::prelude::*;

use crate::config::{Category, Config, Server, servers_upto, lemma_servers_upto_monotone};
use crate::text::{chars_of, owned};
use crate::filter::{filter_servers, matching, GlobalMatch, law_matching_indices_valid};

verus! {

/// How the terminal area is divided between tabs.
#[derive(PartialEq, Eq, Structural, Clone, Copy, Debug)]
pub enum SplitLayout {
    /// left | right
    Vertical2,
    /// top / bottom
    Horizontal2,
    /// one on top, two below
    Triple,
    /// two by two
    Quad,
}

/// The tabs shown side by side and which of them has the focus.
#[derive(Clone, Debug)]
pub struct SplitState {
    pub layout: SplitLayout,
    /// Tab indices, one per pane.
    pub panes: Vec<usize>,
    /// Index into `panes`.
    pub focused_pane: usize,
}

/// Which list the arrow keys move in.
#[derive(PartialEq, Eq, Structural, Clone, Copy, Debug)]
pub enum SidebarFocus {
    Sidebar,
    ServerList,
}

/// A line of the sidebar.
#[derive(Clone, Debug)]
pub enum SidebarItem {
    /// A category, by index.
    Category(usize),
    /// The collapsible header of a group of categories (the VMs).
    GroupHeader { prefix: String, expanded: bool, count: usize },
    /// A category inside the group, by index.
    GroupChild(usize),
    /// The title above the recent connections.
    RecentHeader,
    /// A recent connection, by index into the recent list.
    Recent(usize),
}

/// What a sidebar line shows, as plain values.
pub enum SidebarEntry {
    Category(usize),
    GroupHeader(Seq<char>, bool, nat),
    GroupChild(usize),
    RecentHeader,
    Recent(usize),
}

pub open spec fn entry_of(item: SidebarItem) -> SidebarEntry {
    match item {
        SidebarItem::Category(i) => SidebarEntry::Category(i),
        SidebarItem::GroupHeader { prefix, expanded, count } => SidebarEntry::GroupHeader(
            prefix@,
            expanded,
            count as nat,
        ),
        SidebarItem::GroupChild(i) => SidebarEntry::GroupChild(i),
        SidebarItem::RecentHeader => SidebarEntry::RecentHeader,
        SidebarItem::Recent(i) => SidebarEntry::Recent(i),
    }
}

pub open spec fn entries_of(items: Seq<SidebarItem>) -> Seq<SidebarEntry> {
    items.map_values(|it: SidebarItem| entry_of(it))
}

/// What the application is doing with the keyboard.
#[derive(PartialEq, Eq, Structural, Clone, Copy, Debug)]
pub enum AppMode {
    /// Moving in the sidebar or the server list.
    Browse,
    /// Typing a search.
    Search,
    /// A terminal receives the keys.
    Terminal,
    /// The server details popup.
    Detail,
    /// The command palette.
    Palette,
    /// The help screen.
    Help,
    /// The command prompt over the terminal.
    CommandInput,
    /// Asking before a dangerous command is sent.
    ConfirmDanger,
    /// The hidden arcade game.
    Doom,
}

/// Where a context menu was opened.
#[derive(PartialEq, Eq, Structural, Clone, Copy, Debug)]
pub enum ContextArea {
    Terminal,
    ServerList,
    Sidebar,
}

/// What a context menu entry does.
#[derive(PartialEq, Eq, Structural, Clone, Copy, Debug)]
pub enum ContextAction {
    CopySelection,
    CopyLines(usize),
    CopyIp,
    Connect,
    Disconnect,
    ServerDetail,
    Split,
    Broadcast,
    Help,
    Reconnect,
}

/// One entry of a context menu.
#[derive(Clone, Debug)]
pub struct ContextMenuItem {
    pub label: String,
    pub action: ContextAction,
}

/// A right-click menu.
#[derive(Clone, Debug)]
pub struct ContextMenu {
    pub x: u16,
    pub y: u16,
    pub items: Vec<ContextMenuItem>,
    pub selected: usize,
    pub area: ContextArea,
}

/// What a command palette entry does.
#[derive(Clone, Debug)]
pub enum PaletteAction {
    Connect(Server),
    SwitchTab(usize),
    ToggleSplit,
    ToggleBroadcast,
    CopyIp(String),
    RunCommand(String),
    ShowHelp,
    CloseTab,
    CopyLines(usize),
    Reconnect,
    ShowDetail,
}

/// One entry of the command palette.
#[derive(Clone, Debug)]
pub struct PaletteItem {
    pub label: String,
    pub description: String,
    pub action: PaletteAction,
}

/// What the application knows of an open terminal tab.
#[derive(Clone, Debug)]
pub struct TabInfo {
    pub name: String,
}

/// Which terminals receive input.
#[derive(PartialEq, Eq, Structural, Clone, Copy, Debug)]
pub enum InputTarget {
    /// Every open tab.
    All,
    /// The tab with this index.
    Tab(usize),
}

/// A message shown after a clipboard operation.
#[derive(Clone, Debug)]
pub enum Note {
    /// `IP copied: <ip>`
    IpCopied(String),
    /// `Failed to copy IP`
    IpCopyFailed,
    /// `<n> lines copied!`
    LinesCopied(usize),
    /// `Screen copied!`
    ScreenCopied,
    /// `Failed: install xclip (sudo apt install xclip)`
    InstallClipboardTool,
    /// `Selection copied!`
    SelectionCopied,
}

/// What is copied to the clipboard.
#[derive(Clone, Debug)]
pub enum CopySource {
    /// This text.
    Text(String),
    /// The last lines of the active tab's screen.
    Lines(usize),
    /// Every line of the active tab's screen.
    Screen,
    /// The text between the (column, row) positions (`.0`, `.1`) and
    /// (`.2`, `.3`) of the active tab's screen; nothing is copied when that
    /// text is blank.
    Selection(u16, u16, u16, u16),
}

/// Outside work that a state change calls for.
#[derive(Clone, Debug)]
pub enum Effect {
    /// Start an SSH session to this server; on success report it with
    /// [`App::terminal_opened`].
    OpenTerminal(Server),
    /// Start a new SSH session for the dead tab at this index; on success
    /// report it with [`App::tab_reconnected`], on failure call
    /// [`App::dismiss_dead`].
    ReconnectTab(usize, Server),
    /// Send these bytes to the terminal(s).
    WriteInput(InputTarget, Vec<u8>),
    /// Copy to the clipboard, then report with [`App::clipboard_done`].
    Copy { source: CopySource, on_ok: Option<Note>, on_fail: Option<Note> },
    /// Scroll the active tab back by this many lines.
    ScrollUp(usize),
    /// Resize the tab's terminal.
    Resize { tab: usize, cols: u16, rows: u16 },
    /// Start the arcade game.
    StartDoom,
    /// The tab at this index was closed: drop its session.
    TabClosed(usize),
    /// After opening this many servers, arrange the split with
    /// [`App::arrange_split_after_connect`].
    ArrangeSplit(usize),
    /// Scroll the active tab forward by this many lines.
    ScrollDown(usize),
    /// Bring the terminal(s) back to the bottom of their output.
    ScrollToBottom(InputTarget),
    /// Resize the terminals of the split panes to the current layout.
    ResizeSplit,
    /// Redraw the whole screen.
    ClearScreen,
    /// A key for the arcade game.
    GameKey(crate::keys::KeyCode),
    /// Leave the application.
    Quit,
}

/// The whole application state.
pub struct App {
    pub config: Config,
    pub mode: AppMode,
    pub sidebar_focus: SidebarFocus,
    pub running: bool,
    pub category_index: usize,
    pub sidebar_items: Vec<SidebarItem>,
    pub sidebar_index: usize,
    pub vm_expanded: bool,
    pub server_index: usize,
    pub filtered_indices: Vec<usize>,
    pub search_query: String,
    pub global_results: Vec<GlobalMatch>,
    pub global_index: usize,
    pub is_global_search: bool,
    pub tabs: Vec<TabInfo>,
    pub active_tab: Option<usize>,
    pub detail_server: Option<Server>,
    /// Most recent first, at most five, no two with the same name.
    pub recent_connections: Vec<Server>,
    pub clipboard_msg: Option<String>,
    pub broadcast: bool,
    /// (x, y, width, height) of the sidebar on screen.
    pub mouse_sidebar_area: (u16, u16, u16, u16),
    /// (x, y, width, height) of the server list (or terminal area) on screen.
    pub mouse_serverlist_area: (u16, u16, u16, u16),
    /// Screen row of the first sidebar line.
    pub mouse_sidebar_offset_y: u16,
    /// (row, x start, [(x start, x end) of each tab]) of the tab bar.
    pub mouse_tab_bar: Option<(u16, u16, Vec<(u16, u16)>)>,
    pub split: Option<SplitState>,
    pub palette_query: String,
    pub palette_items: Vec<PaletteItem>,
    pub palette_filtered: Vec<usize>,
    pub palette_index: usize,
    /// Positions in the filtered server list.
    pub selected_servers: Vec<usize>,
    pub reconnect_server: Option<(usize, Server)>,
    pub help_scroll: usize,
    pub prev_mode: AppMode,
    pub command_input: String,
    pub context_menu: Option<ContextMenu>,
    pub mouse_selecting: bool,
    pub mouse_select_start: Option<(u16, u16)>,
    pub mouse_select_end: Option<(u16, u16)>,
    pub danger_command: Option<String>,
    pub danger_broadcast: bool,
    pub gate_online: bool,
}

/// The split panes point at open tabs, and the focused pane exists whenever
/// there are panes.
pub open spec fn split_ok(s: SplitState, ntabs: nat) -> bool {
    &&& forall|k: int| 0 <= k < s.panes@.len() ==> #[trigger] s.panes@[k] < ntabs
    &&& (s.panes@.len() == 0 || s.focused_pane < s.panes@.len())
}

/// The servers of category `ci` (none when it does not exist).
pub open spec fn servers_of(cats: Seq<Category>, ci: usize) -> Seq<Server> {
    if ci < cats.len() {
        cats[ci as int].servers@
    } else {
        Seq::empty()
    }
}

impl App {
    /// The servers of the selected category (none when it does not exist).
    pub open spec fn servers_shown(&self) -> Seq<Server> {
        servers_of(self.config.categories@, self.category_index)
    }

    /// The state is consistent: the filtered list points into the selected
    /// category, the active tab and the split panes point at open tabs, and the
    /// palette's filtered list points at palette entries.
    pub open spec fn wf(&self) -> bool {
        &&& self.wf_base()
        &&& forall|k: int|
            0 <= k < self.filtered_indices@.len() ==> #[trigger] self.filtered_indices@[k]
                < self.servers_shown().len()
    }

    /// Everything `wf` asks except that the filtered list points into the
    /// selected category.
    pub open spec fn wf_base(&self) -> bool {
        &&& self.config.wf()
        &&& (self.active_tab matches Some(i) ==> i < self.tabs@.len())
        &&& (self.split matches Some(s) ==> split_ok(s, self.tabs@.len()))
        &&& forall|k: int|
            0 <= k < self.palette_filtered@.len() ==> #[trigger] self.palette_filtered@[k]
                < self.palette_items@.len()
    }

    /// The server at position `pos` of the filtered list.
    pub open spec fn filtered_server(&self, pos: int) -> Server {
        self.servers_shown()[self.filtered_indices@[pos] as int]
    }
}

/// `"VMs > "`: categories named with this prefix belong to the VM group.
pub open spec fn vm_prefix() -> Seq<char> {
    seq!['V', 'M', 's', ' ', '>', ' ']
}

/// `"VMs"`: the name of the VM group.
pub open spec fn vm_group_name() -> Seq<char> {
    seq!['V', 'M', 's']
}

/// A category is grouped under "VMs" when its name is `VMs` or starts with `VMs > `.
pub open spec fn is_vm_category(name: Seq<char>) -> bool {
    (name.len() >= 6 && name.take(6) == vm_prefix()) || name == vm_group_name()
}

/// Sidebar lines of the categories among the first `n` that are not VMs.
pub open spec fn plain_entries(cats: Seq<Category>, n: int) -> Seq<SidebarEntry>
    decreases n,
{
    if n <= 0 {
        Seq::empty()
    } else if is_vm_category(cats[n - 1].name@) {
        plain_entries(cats, n - 1)
    } else {
        plain_entries(cats, n - 1).push(SidebarEntry::Category((n - 1) as usize))
    }
}

/// Indices of the VM categories among the first `n`.
pub open spec fn vm_indices(cats: Seq<Category>, n: int) -> Seq<usize>
    decreases n,
{
    if n <= 0 {
        Seq::empty()
    } else if is_vm_category(cats[n - 1].name@) {
        vm_indices(cats, n - 1).push((n - 1) as usize)
    } else {
        vm_indices(cats, n - 1)
    }
}

/// Number of servers in the VM categories among the first `n`.
pub open spec fn vm_servers(cats: Seq<Category>, n: int) -> nat
    decreases n,
{
    if n <= 0 {
        0
    } else if is_vm_category(cats[n - 1].name@) {
        vm_servers(cats, n - 1) + cats[n - 1].servers@.len()
    } else {
        vm_servers(cats, n - 1)
    }
}

proof fn lemma_vm_servers_bounded(cats: Seq<Category>, n: int)
    requires
        0 <= n <= cats.len(),
    ensures
        vm_servers(cats, n) <= servers_upto(cats, n),
    decreases n,
{
    if n > 0 {
        lemma_vm_servers_bounded(cats, n - 1);
    }
}

/// The recent-connections section: a header and one line per connection.
pub open spec fn recent_entries(k: nat) -> Seq<SidebarEntry> {
    if k == 0 {
        Seq::empty()
    } else {
        seq![SidebarEntry::RecentHeader] + Seq::new(k, |i: int| SidebarEntry::Recent(i as usize))
    }
}

/// The sidebar: recent connections, the categories that are not VMs, then the
/// VM group header with the total of its servers, followed by the VM categories
/// when the group is expanded.
pub open spec fn sidebar_layout(nrecent: nat, cats: Seq<Category>, expanded: bool) -> Seq<
    SidebarEntry,
> {
    let vms = vm_indices(cats, cats.len() as int);
    recent_entries(nrecent) + plain_entries(cats, cats.len() as int) + if vms.len() == 0 {
        Seq::empty()
    } else {
        seq![
            SidebarEntry::GroupHeader(
                vm_group_name(),
                expanded,
                vm_servers(cats, cats.len() as int),
            ),
        ] + if expanded {
            vms.map_values(|i: usize| SidebarEntry::GroupChild(i))
        } else {
            Seq::empty()
        }
    }
}

/// Whether a category with this name belongs to the VM group.
pub fn is_vm_name(name: &String) -> (b: bool)
    ensures
        b == is_vm_category(name@),
{
    let c = chars_of(name.as_str());
    if c.len() == 3 && c[0] == 'V' && c[1] == 'M' && c[2] == 's' {
        assert(c@ =~= vm_group_name());
        return true;
    }
    assert(c@ != vm_group_name()) by {
        if c@ == vm_group_name() {
            assert(c@[0] == 'V' && c@[1] == 'M' && c@[2] == 's');
        }
    }
    if c.len() >= 6 && c[0] == 'V' && c[1] == 'M' && c[2] == 's' && c[3] == ' ' && c[4] == '>'
        && c[5] == ' ' {
        assert(c@.take(6) =~= vm_prefix());
        true
    } else {
        assert(!(c@.len() >= 6 && c@.take(6) == vm_prefix())) by {
            if c@.len() >= 6 && c@.take(6) == vm_prefix() {
                assert(c@.take(6)[0] == c@[0]);
                assert(c@.take(6)[1] == c@[1]);
                assert(c@.take(6)[2] == c@[2]);
                assert(c@.take(6)[3] == c@[3]);
                assert(c@.take(6)[4] == c@[4]);
                assert(c@.take(6)[5] == c@[5]);
            }
        }
        false
    }
}

proof fn lemma_entries_append(a: Seq<SidebarItem>, b: Seq<SidebarItem>)
    ensures
        entries_of(a + b) == entries_of(a) + entries_of(b),
{
    assert(entries_of(a + b) =~= entries_of(a) + entries_of(b));
}

/// The recent-connections section for `nrec` connections.
fn recent_section(nrec: usize) -> (items: Vec<SidebarItem>)
    ensures
        entries_of(items@) == recent_entries(nrec as nat),
{
    let mut items: Vec<SidebarItem> = Vec::new();
    if nrec == 0 {
        assert(entries_of(items@) =~= recent_entries(0));
        return items;
    }
    items.push(SidebarItem::RecentHeader);
    let mut i: usize = 0;
    assert(entries_of(items@) =~= seq![SidebarEntry::RecentHeader] + Seq::new(
        0,
        |k: int| SidebarEntry::Recent(k as usize),
    ));
    while i < nrec
        invariant
            i <= nrec,
            entries_of(items@) == seq![SidebarEntry::RecentHeader] + Seq::new(
                i as nat,
                |k: int| SidebarEntry::Recent(k as usize),
            ),
        decreases nrec - i,
    {
        let ghost before = items@;
        items.push(SidebarItem::Recent(i));
        assert(entries_of(items@) =~= entries_of(before).push(SidebarEntry::Recent(i)));
        assert(entries_of(items@) =~= seq![SidebarEntry::RecentHeader] + Seq::new(
            (i + 1) as nat,
            |k: int| SidebarEntry::Recent(k as usize),
        ));
        i = i + 1;
    }
    items
}

/// The lines of the categories that are not VMs, with the indices of the VM
/// categories and their total number of servers.
fn category_section(cats: &Vec<Category>) -> (r: (Vec<SidebarItem>, Vec<usize>, usize))
    requires
        crate::config::total_servers(cats@) <= usize::MAX,
    ensures
        entries_of(r.0@) == plain_entries(cats@, cats@.len() as int),
        r.1@ == vm_indices(cats@, cats@.len() as int),
        r.2 == vm_servers(cats@, cats@.len() as int),
{
    let mut items: Vec<SidebarItem> = Vec::new();
    let mut vm_total: usize = 0;
    let mut vm_idx: Vec<usize> = Vec::new();
    let ncat = cats.len();
    let mut i: usize = 0;
    assert(entries_of(items@) =~= plain_entries(cats@, 0));
    while i < ncat
        invariant
            i <= ncat,
            ncat == cats@.len(),
            crate::config::total_servers(cats@) <= usize::MAX,
            entries_of(items@) == plain_entries(cats@, i as int),
            vm_idx@ == vm_indices(cats@, i as int),
            vm_total == vm_servers(cats@, i as int),
        decreases ncat - i,
    {
        let cat = &cats[i];
        if is_vm_name(&cat.name) {
            proof {
                lemma_vm_servers_bounded(cats@, i + 1);
                lemma_servers_upto_monotone(cats@, i + 1, cats@.len() as int);
            }
            vm_total = vm_total + cat.servers.len();
            vm_idx.push(i);
        } else {
            let ghost before = items@;
            items.push(SidebarItem::Category(i));
            assert(entries_of(items@) =~= entries_of(before).push(SidebarEntry::Category(i)));
        }
        i = i + 1;
    }
    (items, vm_idx, vm_total)
}

/// The VM group: its header and, when expanded, its categories.
fn vm_section(vm_idx: &Vec<usize>, vm_total: usize, expanded: bool) -> (items: Vec<SidebarItem>)
    requires
        vm_idx@.len() > 0,
    ensures
        entries_of(items@) == seq![
            SidebarEntry::GroupHeader(vm_group_name(), expanded, vm_total as nat),
        ] + if expanded {
            vm_idx@.map_values(|i: usize| SidebarEntry::GroupChild(i))
        } else {
            Seq::empty()
        },
{
    let mut items: Vec<SidebarItem> = Vec::new();
    let prefix = owned("VMs");
    proof {
        reveal_strlit("VMs");
    }
    assert(prefix@ =~= vm_group_name());
    items.push(SidebarItem::GroupHeader { prefix, expanded, count: vm_total });
    let ghost with_header = entries_of(items@);
    assert(with_header =~= seq![
        SidebarEntry::GroupHeader(vm_group_name(), expanded, vm_total as nat),
    ]);
    if expanded {
        let mut k: usize = 0;
        assert(with_header =~= with_header + vm_idx@.take(0).map_values(
            |i: usize| SidebarEntry::GroupChild(i),
        ));
        while k < vm_idx.len()
            invariant
                k <= vm_idx@.len(),
                entries_of(items@) == with_header + vm_idx@.take(k as int).map_values(
                    |i: usize| SidebarEntry::GroupChild(i),
                ),
            decreases vm_idx@.len() - k,
        {
            let ghost before = items@;
            items.push(SidebarItem::GroupChild(vm_idx[k]));
            assert(entries_of(items@) =~= entries_of(before).push(
                SidebarEntry::GroupChild(vm_idx@[k as int]),
            ));
            assert(vm_idx@.take(k + 1) =~= vm_idx@.take(k as int).push(vm_idx@[k as int]));
            assert(entries_of(items@) =~= with_header + vm_idx@.take(k + 1).map_values(
                |i: usize| SidebarEntry::GroupChild(i),
            ));
            k = k + 1;
        }
        assert(vm_idx@.take(vm_idx@.len() as int) =~= vm_idx@);
    } else {
        assert(with_header + Seq::<SidebarEntry>::empty() =~= with_header);
    }
    items
}

/// The sidebar lines for this many recent connections, these categories and
/// this state of the VM group.
pub fn sidebar_items_for(nrec: usize, cats: &Vec<Category>, expanded: bool) -> (items: Vec<SidebarItem>)
    requires
        crate::config::total_servers(cats@) <= usize::MAX,
    ensures
        entries_of(items@) == sidebar_layout(nrec as nat, cats@, expanded),
{
    let mut items = recent_section(nrec);
    let (mut plain, vm_idx, vm_total) = category_section(cats);
    let ghost a = items@;
    let ghost b = plain@;
    items.append(&mut plain);
    proof {
        lemma_entries_append(a, b);
    }
    if vm_idx.len() > 0 {
        let mut vms = vm_section(&vm_idx, vm_total, expanded);
        let ghost c = items@;
        let ghost d = vms@;
        items.append(&mut vms);
        proof {
            lemma_entries_append(c, d);
        }
        assert(entries_of(items@) =~= sidebar_layout(nrec as nat, cats@, expanded));
    } else {
        assert(entries_of(items@) =~= sidebar_layout(nrec as nat, cats@, expanded));
    }
    items
}

impl App {
    /// Rebuilds the sidebar lines from the recent connections, the categories
    /// and whether the VM group is expanded; nothing else changes.
    pub fn rebuild_sidebar(&mut self)
        requires
            old(self).config.wf(),
        ensures
            *final(self) == (App { sidebar_items: final(self).sidebar_items, ..*old(self) }),
            entries_of(final(self).sidebar_items@) == sidebar_layout(
                old(self).recent_connections@.len(),
                old(self).config.categories@,
                old(self).vm_expanded,
            ),
    {
        let items = sidebar_items_for(
            self.recent_connections.len(),
            &self.config.categories,
            self.vm_expanded,
        );
        self.sidebar_items = items;
    }
}

} // verus!
