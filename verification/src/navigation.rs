//! Moving around the sidebar and the server list, searching, selecting servers,
//! and the small popups and prompts.
use vstd::prelude::*;

use crate::app::{App, AppMode, PaletteItem, SidebarFocus, SidebarItem, TabInfo, entries_of, sidebar_layout};
use crate::config::{Config, Server};
use crate::filter::{filter_servers, law_empty_query_keeps_all, law_matching_indices_valid, matching, GlobalMatch};
use crate::text::{pop_char, push_char};

verus! {

/// `i` kept inside a list of `len` positions: past the end it becomes the last
/// position (zero for an empty list).
pub open spec fn clamp_index(i: usize, len: nat) -> usize {
    if i >= len {
        if len == 0 {
            0
        } else {
            (len - 1) as usize
        }
    } else {
        i
    }
}

/// The category that sidebar line `idx` stands for, if any.
pub open spec fn category_at(items: Seq<SidebarItem>, idx: usize) -> Option<usize> {
    if idx < items.len() {
        match items[idx as int] {
            SidebarItem::Category(i) => Some(i),
            SidebarItem::GroupChild(i) => Some(i),
            _ => None,
        }
    } else {
        None
    }
}

/// `new` is `old` with the server list filtered again by the current query and
/// the selection kept inside it.
pub open spec fn refiltered(old: App, new: App) -> bool {
    &&& new == (App {
        filtered_indices: new.filtered_indices,
        server_index: new.server_index,
        ..old
    })
    &&& new.filtered_indices@ == matching(old.servers_shown(), old.search_query@)
    &&& new.server_index == clamp_index(old.server_index, new.filtered_indices@.len())
}

/// `new` is `old` after choosing category `index`: when it exists, it becomes
/// the current category with an empty query, every server listed and the first
/// one selected; otherwise nothing changes.
pub open spec fn category_selected(old: App, index: usize, new: App) -> bool {
    if index < old.config.categories@.len() {
        &&& new == (App {
            category_index: index,
            server_index: 0,
            search_query: new.search_query,
            filtered_indices: new.filtered_indices,
            ..old
        })
        &&& new.search_query@ == Seq::<char>::empty()
        &&& new.filtered_indices@ == matching(
            old.config.categories@[index as int].servers@,
            Seq::empty(),
        )
    } else {
        new == old
    }
}

/// `new` is `old` after following the sidebar selection: when the selected line
/// is a category, that category is chosen.
pub open spec fn synced(old: App, new: App) -> bool {
    match category_at(old.sidebar_items@, old.sidebar_index) {
        Some(ci) => category_selected(old, ci, new),
        None => new == old,
    }
}

/// `a` with the details popup open on the selected server, when one is selected.
pub open spec fn with_detail(a: App) -> App {
    if a.server_index < a.filtered_indices@.len() {
        App { detail_server: Some(a.filtered_server(a.server_index as int)), mode: AppMode::Detail, ..a }
    } else {
        a
    }
}

/// Position of the first occurrence of `x` in `s`, if it occurs.
pub open spec fn first_pos(s: Seq<usize>, x: usize, p: int) -> bool {
    0 <= p < s.len() && s[p] == x && forall|j: int| 0 <= j < p ==> s[j] != x
}

/// `new` is `old` after moving up in the focused list; in the sidebar the
/// category follows the selection.
pub open spec fn moved_up(old: App, new: App) -> bool {
    match old.sidebar_focus {
        SidebarFocus::Sidebar => if old.sidebar_index > 0 {
            synced(App { sidebar_index: (old.sidebar_index - 1) as usize, ..old }, new)
        } else {
            new == old
        },
        SidebarFocus::ServerList => new == (App {
            server_index: if old.server_index > 0 { (old.server_index - 1) as usize } else { 0 },
            ..old
        }),
    }
}

/// `new` is `old` after moving down in the focused list, stopping at the last
/// line; in the sidebar the category follows the selection.
pub open spec fn moved_down(old: App, new: App) -> bool {
    match old.sidebar_focus {
        SidebarFocus::Sidebar => if old.sidebar_index + 1 < old.sidebar_items@.len() {
            synced(App { sidebar_index: (old.sidebar_index + 1) as usize, ..old }, new)
        } else {
            new == old
        },
        SidebarFocus::ServerList => new == (App {
            server_index: if old.server_index + 1 < old.filtered_indices@.len() {
                (old.server_index + 1) as usize
            } else {
                old.server_index
            },
            ..old
        }),
    }
}

/// `new` is `old` with the first line of the focused list selected.
pub open spec fn jumped_top(old: App, new: App) -> bool {
    match old.sidebar_focus {
        SidebarFocus::Sidebar => synced(App { sidebar_index: 0, ..old }, new),
        SidebarFocus::ServerList => new == (App { server_index: 0, ..old }),
    }
}

/// `new` is `old` with the last line of the focused list selected.
pub open spec fn jumped_bottom(old: App, new: App) -> bool {
    match old.sidebar_focus {
        SidebarFocus::Sidebar => synced(
            App { sidebar_index: clamp_index(usize::MAX, old.sidebar_items@.len()), ..old },
            new,
        ),
        SidebarFocus::ServerList => new == (App {
            server_index: clamp_index(usize::MAX, old.filtered_indices@.len()),
            ..old
        }),
    }
}

/// `new` is `old` with the selected position of the server list marked, or
/// unmarked when it was marked.
pub open spec fn select_toggled(old: App, new: App) -> bool {
    &&& new == (App { selected_servers: new.selected_servers, ..old })
    &&& old.server_index >= old.filtered_indices@.len() ==> new.selected_servers@
        == old.selected_servers@
    &&& old.server_index < old.filtered_indices@.len() ==> if old.selected_servers@.contains(old.server_index) {
        exists|p: int|
            first_pos(old.selected_servers@, old.server_index, p)
                && new.selected_servers@ == old.selected_servers@.remove(p)
    } else {
        new.selected_servers@ == old.selected_servers@.push(old.server_index)
    }
}

/// `new` is `old` with `c` typed into the command prompt.
pub open spec fn command_typed(old: App, new: App, c: char) -> bool {
    &&& new == (App { command_input: new.command_input, ..old })
    &&& new.command_input@ == old.command_input@.push(c)
}

/// `new` is `old` with the last character of the command prompt erased.
pub open spec fn command_erased(old: App, new: App) -> bool {
    &&& new == (App { command_input: new.command_input, ..old })
    &&& new.command_input@ == if old.command_input@.len() > 0 {
        old.command_input@.drop_last()
    } else {
        old.command_input@
    }
}

/// `new` is `old` one search result up.
pub open spec fn global_moved_up(old: App, new: App) -> bool {
    new == (App {
        global_index: if old.global_index > 0 { (old.global_index - 1) as usize } else { 0 },
        ..old
    })
}

/// `new` is `old` one search result down, stopping at the last.
pub open spec fn global_moved_down(old: App, new: App) -> bool {
    new == (App {
        global_index: if old.global_index + 1 < old.global_results@.len() {
            (old.global_index + 1) as usize
        } else {
            old.global_index
        },
        ..old
    })
}

/// `new` is `old` after a click on sidebar row `row`: the line under it is
/// selected in the focused sidebar and browsed.
pub open spec fn sidebar_clicked(old: App, new: App, row: u16) -> bool {
    if row >= old.mouse_sidebar_offset_y && ((row - old.mouse_sidebar_offset_y) as usize) < old.sidebar_items@.len() {
        synced(App {
            sidebar_index: (row - old.mouse_sidebar_offset_y) as usize,
            sidebar_focus: SidebarFocus::Sidebar,
            mode: AppMode::Browse,
            ..old
        }, new)
    } else {
        new == old
    }
}

/// `new` is `old` after a click on server list row `row` (below the border
/// and the header): the server under it is selected in the focused list.
pub open spec fn serverlist_clicked(old: App, new: App, row: u16) -> bool {
    new == if row > old.mouse_serverlist_area.1 + 1
        && ((row - old.mouse_serverlist_area.1 - 2) as usize) < old.filtered_indices@.len() {
        App {
            server_index: (row - old.mouse_serverlist_area.1 - 2) as usize,
            sidebar_focus: SidebarFocus::ServerList,
            mode: AppMode::Browse,
            ..old
        }
    } else {
        old
    }
}

/// `new` is `old` with the server list scrolled one line up or down.
pub open spec fn serverlist_scrolled(old: App, new: App, up: bool) -> bool {
    new == (App {
        server_index: if up {
            if old.server_index > 0 { (old.server_index - 1) as usize } else { 0 }
        } else if old.server_index + 1 < old.filtered_indices@.len() {
            (old.server_index + 1) as usize
        } else {
            old.server_index
        },
        ..old
    })
}

/// `new` is `old` with the sidebar scrolled one line up or down, the category
/// following.
pub open spec fn sidebar_scrolled(old: App, new: App, up: bool) -> bool {
    if up {
        if old.sidebar_index > 0 {
            synced(App { sidebar_index: (old.sidebar_index - 1) as usize, ..old }, new)
        } else {
            new == old
        }
    } else if old.sidebar_index + 1 < old.sidebar_items@.len() {
        synced(App { sidebar_index: (old.sidebar_index + 1) as usize, ..old }, new)
    } else {
        new == old
    }
}

impl App {
    /// A fresh state for this inventory: browsing the first category with all
    /// its servers listed, the sidebar built, nothing open.
    pub fn new(config: Config) -> (app: App)
        requires
            config.wf(),
        ensures
            app.wf(),
            app == (App {
                config,
                mode: AppMode::Browse,
                sidebar_focus: SidebarFocus::Sidebar,
                running: true,
                category_index: 0,
                sidebar_items: app.sidebar_items,
                sidebar_index: 0,
                vm_expanded: false,
                server_index: 0,
                filtered_indices: app.filtered_indices,
                search_query: app.search_query,
                global_results: app.global_results,
                global_index: 0,
                is_global_search: false,
                tabs: app.tabs,
                active_tab: None,
                detail_server: None,
                recent_connections: app.recent_connections,
                clipboard_msg: None,
                broadcast: false,
                mouse_sidebar_area: (0, 0, 0, 0),
                mouse_serverlist_area: (0, 0, 0, 0),
                mouse_sidebar_offset_y: 0,
                mouse_tab_bar: None,
                split: None,
                palette_query: app.palette_query,
                palette_items: app.palette_items,
                palette_filtered: app.palette_filtered,
                palette_index: 0,
                selected_servers: app.selected_servers,
                reconnect_server: None,
                help_scroll: 0,
                prev_mode: AppMode::Browse,
                command_input: app.command_input,
                context_menu: None,
                mouse_selecting: false,
                mouse_select_start: None,
                mouse_select_end: None,
                danger_command: None,
                danger_broadcast: false,
                gate_online: true,
            }),
            entries_of(app.sidebar_items@) == sidebar_layout(0, config.categories@, false),
            app.filtered_indices@ == if config.categories@.len() == 0 {
                Seq::<usize>::empty()
            } else {
                Seq::new(config.categories@[0].servers@.len(), |i: int| i as usize)
            },
            app.search_query@ == Seq::<char>::empty(),
            app.global_results@ == Seq::<GlobalMatch>::empty(),
            app.tabs@ == Seq::<TabInfo>::empty(),
            app.recent_connections@ == Seq::<Server>::empty(),
            app.palette_query@ == Seq::<char>::empty(),
            app.palette_items@ == Seq::<PaletteItem>::empty(),
            app.palette_filtered@ == Seq::<usize>::empty(),
            app.selected_servers@ == Seq::<usize>::empty(),
            app.command_input@ == Seq::<char>::empty(),
    {
        let mut filtered: Vec<usize> = Vec::new();
        if config.categories.len() > 0 {
            let n = config.categories[0].servers.len();
            let mut i: usize = 0;
            while i < n
                invariant
                    i <= n,
                    filtered@ == Seq::new(i as nat, |k: int| k as usize),
                decreases n - i,
            {
                filtered.push(i);
                assert(filtered@ =~= Seq::new((i + 1) as nat, |k: int| k as usize));
                i = i + 1;
            }
        }
        let mut app = App {
            config,
            mode: AppMode::Browse,
            sidebar_focus: SidebarFocus::Sidebar,
            running: true,
            category_index: 0,
            sidebar_items: Vec::new(),
            sidebar_index: 0,
            vm_expanded: false,
            server_index: 0,
            filtered_indices: filtered,
            search_query: String::new(),
            global_results: Vec::new(),
            global_index: 0,
            is_global_search: false,
            tabs: Vec::new(),
            active_tab: None,
            detail_server: None,
            recent_connections: Vec::new(),
            clipboard_msg: None,
            broadcast: false,
            mouse_sidebar_area: (0, 0, 0, 0),
            mouse_serverlist_area: (0, 0, 0, 0),
            mouse_sidebar_offset_y: 0,
            mouse_tab_bar: None,
            split: None,
            palette_query: String::new(),
            palette_items: Vec::new(),
            palette_filtered: Vec::new(),
            palette_index: 0,
            selected_servers: Vec::new(),
            reconnect_server: None,
            help_scroll: 0,
            prev_mode: AppMode::Browse,
            command_input: String::new(),
            context_menu: None,
            mouse_selecting: false,
            mouse_select_start: None,
            mouse_select_end: None,
            danger_command: None,
            danger_broadcast: false,
            gate_online: true,
        };
        app.rebuild_sidebar();
        app
    }

    /// The servers of the selected category; none when it does not exist.
    pub fn current_servers(&self) -> (r: &[Server])
        ensures
            r@ == self.servers_shown(),
    {
        if self.category_index < self.config.categories.len() {
            self.config.categories[self.category_index].servers.as_slice()
        } else {
            &[]
        }
    }

    /// The listed servers, in list order.
    pub fn filtered_servers(&self) -> (r: Vec<&Server>)
        requires
            self.wf(),
        ensures
            r@.len() == self.filtered_indices@.len(),
            forall|k: int| 0 <= k < r@.len() ==> *r@[k] == self.filtered_server(k),
    {
        let servers = self.current_servers();
        let mut r: Vec<&Server> = Vec::new();
        let mut k: usize = 0;
        while k < self.filtered_indices.len()
            invariant
                self.wf(),
                servers@ == self.servers_shown(),
                k <= self.filtered_indices@.len(),
                r@.len() == k,
                forall|j: int| 0 <= j < k ==> *r@[j] == self.filtered_server(j),
            decreases self.filtered_indices@.len() - k,
        {
            let i = self.filtered_indices[k];
            r.push(&servers[i]);
            k = k + 1;
        }
        r
    }

    /// Filters the server list again by the current query, keeping the
    /// selection inside the list.
    pub fn refilter(&mut self)
        requires
            old(self).wf_base(),
        ensures
            final(self).wf(),
            refiltered(*old(self), *final(self)),
    {
        let servers = self.current_servers();
        let f = filter_servers(servers, self.search_query.as_str());
        let _n = servers.len();
        proof {
            law_matching_indices_valid(self.servers_shown(), self.search_query@);
        }
        self.filtered_indices = f;
        if self.server_index >= self.filtered_indices.len() {
            self.server_index = if self.filtered_indices.len() == 0 {
                0
            } else {
                self.filtered_indices.len() - 1
            };
        }
    }

    /// Makes category `index` the current one, listing all its servers and
    /// selecting the first; does nothing when there is no such category.
    pub fn select_category(&mut self, index: usize)
        requires
            old(self).wf(),
        ensures
            final(self).wf(),
            category_selected(*old(self), index, *final(self)),
    {
        if index < self.config.categories.len() {
            self.category_index = index;
            self.server_index = 0;
            self.search_query = String::new();
            self.refilter();
            let _n = self.config.categories[index].servers.len();
            proof {
                law_empty_query_keeps_all(
                    self.config.categories@[index as int].servers@,
                    self.config.categories@[index as int].servers@.len() as int,
                );
            }
        }
    }

    /// The category of the selected sidebar line, if it is one.
    fn selected_category_index(&self) -> (r: Option<usize>)
        ensures
            r == category_at(self.sidebar_items@, self.sidebar_index),
    {
        if self.sidebar_index < self.sidebar_items.len() {
            match &self.sidebar_items[self.sidebar_index] {
                SidebarItem::Category(i) => Some(*i),
                SidebarItem::GroupChild(i) => Some(*i),
                _ => None,
            }
        } else {
            None
        }
    }

    /// Shows the category of the selected sidebar line, if it is one.
    fn sync_category_from_sidebar(&mut self)
        requires
            old(self).wf(),
        ensures
            final(self).wf(),
            synced(*old(self), *final(self)),
    {
        if let Some(ci) = self.selected_category_index() {
            self.select_category(ci);
        }
    }

    /// Moves the selection up in the focused list; in the sidebar the category
    /// follows the selection.
    pub fn move_up(&mut self)
        requires
            old(self).wf(),
        ensures
            final(self).wf(),
            moved_up(*old(self), *final(self)),
    {
        match self.sidebar_focus {
            SidebarFocus::Sidebar => {
                if self.sidebar_index > 0 {
                    self.sidebar_index = self.sidebar_index - 1;
                    self.sync_category_from_sidebar();
                }
            },
            SidebarFocus::ServerList => {
                if self.server_index > 0 {
                    self.server_index = self.server_index - 1;
                }
            },
        }
    }

    /// Moves the selection down in the focused list, stopping at the last line;
    /// in the sidebar the category follows the selection.
    pub fn move_down(&mut self)
        requires
            old(self).wf(),
        ensures
            final(self).wf(),
            moved_down(*old(self), *final(self)),
    {
        match self.sidebar_focus {
            SidebarFocus::Sidebar => {
                if self.sidebar_index < self.sidebar_items.len() && self.sidebar_index + 1 < self.sidebar_items.len() {
                    self.sidebar_index = self.sidebar_index + 1;
                    self.sync_category_from_sidebar();
                }
            },
            SidebarFocus::ServerList => {
                if self.server_index < self.filtered_indices.len() && self.server_index + 1 < self.filtered_indices.len() {
                    self.server_index = self.server_index + 1;
                }
            },
        }
    }

    /// Selects the first line of the focused list.
    pub fn jump_top(&mut self)
        requires
            old(self).wf(),
        ensures
            final(self).wf(),
            jumped_top(*old(self), *final(self)),
    {
        match self.sidebar_focus {
            SidebarFocus::Sidebar => {
                self.sidebar_index = 0;
                self.sync_category_from_sidebar();
            },
            SidebarFocus::ServerList => {
                self.server_index = 0;
            },
        }
    }

    /// Selects the last line of the focused list.
    pub fn jump_bottom(&mut self)
        requires
            old(self).wf(),
        ensures
            final(self).wf(),
            jumped_bottom(*old(self), *final(self)),
    {
        match self.sidebar_focus {
            SidebarFocus::Sidebar => {
                self.sidebar_index = if self.sidebar_items.len() == 0 { 0 } else { self.sidebar_items.len() - 1 };
                self.sync_category_from_sidebar();
            },
            SidebarFocus::ServerList => {
                self.server_index = if self.filtered_indices.len() == 0 { 0 } else { self.filtered_indices.len() - 1 };
            },
        }
    }

    /// Switches the focus between the sidebar and the server list.
    pub fn toggle_sidebar_focus(&mut self)
        ensures
            *final(self) == (App {
                sidebar_focus: match old(self).sidebar_focus {
                    SidebarFocus::Sidebar => SidebarFocus::ServerList,
                    SidebarFocus::ServerList => SidebarFocus::Sidebar,
                },
                ..*old(self)
            }),
    {
        self.sidebar_focus = match self.sidebar_focus {
            SidebarFocus::Sidebar => SidebarFocus::ServerList,
            SidebarFocus::ServerList => SidebarFocus::Sidebar,
        };
    }

    /// Opens the details popup for the selected server, if one is selected.
    pub fn show_detail(&mut self)
        requires
            old(self).wf(),
        ensures
            final(self).wf(),
            *final(self) == with_detail(*old(self)),
    {
        if self.server_index < self.filtered_indices.len() {
            let real_index = self.filtered_indices[self.server_index];
            let server = self.current_servers()[real_index].duplicate();
            self.detail_server = Some(server);
            self.mode = AppMode::Detail;
        }
    }

    /// Closes the details popup and goes back to browsing.
    pub fn close_detail(&mut self)
        ensures
            *final(self) == (App { detail_server: None, mode: AppMode::Browse, ..*old(self) }),
    {
        self.detail_server = None;
        self.mode = AppMode::Browse;
    }

    /// The recent connections, most recent first.
    pub fn recent_servers(&self) -> (r: &[Server])
        ensures
            r@ == self.recent_connections@,
    {
        self.recent_connections.as_slice()
    }

    /// Removes the clipboard message.
    pub fn clear_clipboard_msg(&mut self)
        ensures
            *final(self) == (App { clipboard_msg: None, ..*old(self) }),
    {
        self.clipboard_msg = None;
    }

    /// Marks or unmarks the selected position of the server list for a
    /// multi-connection.
    pub fn toggle_select(&mut self)
        ensures
            select_toggled(*old(self), *final(self)),
    {
        if self.server_index < self.filtered_indices.len() {
            let idx = self.server_index;
            let mut p: usize = 0;
            while p < self.selected_servers.len() && self.selected_servers[p] != idx
                invariant
                    p <= self.selected_servers@.len(),
                    forall|j: int| 0 <= j < p ==> self.selected_servers@[j] != idx,
                decreases self.selected_servers@.len() - p,
            {
                p = p + 1;
            }
            if p < self.selected_servers.len() && self.selected_servers[p] == idx {
                assert(first_pos(self.selected_servers@, idx, p as int));
                self.selected_servers.remove(p);
            } else {
                assert(!self.selected_servers@.contains(idx));
                self.selected_servers.push(idx);
            }
        }
    }

    /// Whether any server is marked.
    pub fn has_selection(&self) -> (b: bool)
        ensures
            b == (self.selected_servers@.len() > 0),
    {
        self.selected_servers.len() > 0
    }

    /// Whether position `idx` of the server list is marked.
    pub fn is_selected(&self, idx: usize) -> (b: bool)
        ensures
            b == self.selected_servers@.contains(idx),
    {
        let mut k: usize = 0;
        while k < self.selected_servers.len()
            invariant
                k <= self.selected_servers@.len(),
                forall|j: int| 0 <= j < k ==> self.selected_servers@[j] != idx,
            decreases self.selected_servers@.len() - k,
        {
            if self.selected_servers[k] == idx {
                return true;
            }
            k = k + 1;
        }
        false
    }

    /// Opens the help screen, remembering the mode to return to.
    pub fn show_help(&mut self)
        ensures
            *final(self) == (App {
                prev_mode: old(self).mode,
                help_scroll: 0,
                mode: AppMode::Help,
                ..*old(self)
            }),
    {
        self.prev_mode = self.mode;
        self.help_scroll = 0;
        self.mode = AppMode::Help;
    }

    /// Closes the help screen, back to the mode it was opened from.
    pub fn close_help(&mut self)
        ensures
            *final(self) == (App { mode: old(self).prev_mode, ..*old(self) }),
    {
        self.mode = self.prev_mode;
    }

    /// Opens the command prompt, empty.
    pub fn open_command_input(&mut self)
        ensures
            *final(self) == (App { command_input: final(self).command_input, mode: AppMode::CommandInput, ..*old(self) }),
            final(self).command_input@ == Seq::<char>::empty(),
    {
        self.command_input = String::new();
        self.mode = AppMode::CommandInput;
    }

    /// Types a character into the command prompt.
    pub fn command_input_push(&mut self, c: char)
        ensures
            command_typed(*old(self), *final(self), c),
    {
        self.command_input = push_char(&self.command_input, c);
    }

    /// Erases the last character of the command prompt.
    pub fn command_input_backspace(&mut self)
        ensures
            command_erased(*old(self), *final(self)),
    {
        self.command_input = pop_char(&self.command_input);
    }

    /// Leaves the command prompt without running anything.
    pub fn cancel_command_input(&mut self)
        ensures
            *final(self) == (App { command_input: final(self).command_input, mode: AppMode::Terminal, ..*old(self) }),
            final(self).command_input@ == Seq::<char>::empty(),
    {
        self.command_input = String::new();
        self.mode = AppMode::Terminal;
    }

    /// Moves up in the search results.
    pub fn global_move_up(&mut self)
        ensures
            global_moved_up(*old(self), *final(self)),
    {
        if self.global_index > 0 {
            self.global_index = self.global_index - 1;
        }
    }

    /// Moves down in the search results, stopping at the last.
    pub fn global_move_down(&mut self)
        ensures
            global_moved_down(*old(self), *final(self)),
    {
        if self.global_index < self.global_results.len() && self.global_index + 1 < self.global_results.len() {
            self.global_index = self.global_index + 1;
        }
    }

    /// Goes back to browsing.
    pub fn switch_to_browse(&mut self)
        ensures
            *final(self) == (App { mode: AppMode::Browse, ..*old(self) }),
    {
        self.mode = AppMode::Browse;
    }

    /// Shows the terminal, when a tab is open.
    pub fn switch_to_terminal(&mut self)
        ensures
            *final(self) == if old(self).active_tab is Some {
                App { mode: AppMode::Terminal, ..*old(self) }
            } else {
                *old(self)
            },
    {
        if self.active_tab.is_some() {
            self.mode = AppMode::Terminal;
        }
    }

    /// Turns sending input to every tab on or off.
    pub fn toggle_broadcast(&mut self)
        ensures
            *final(self) == (App { broadcast: !old(self).broadcast, ..*old(self) }),
    {
        self.broadcast = !self.broadcast;
    }

    /// Whether the terminal area is split.
    pub fn is_split(&self) -> (b: bool)
        ensures
            b == self.split is Some,
    {
        self.split.is_some()
    }

    /// Always false: the servers are those of the configuration file.
    pub fn is_api_mode(&self) -> (b: bool)
        ensures
            !b,
    {
        false
    }

    /// The open tab that receives input, if any.
    pub fn active_session(&self) -> (r: Option<&TabInfo>)
        requires
            self.wf(),
        ensures
            r == match self.active_tab {
                Some(i) => Some(&self.tabs@[i as int]),
                None => None,
            },
    {
        match self.active_tab {
            Some(i) => Some(&self.tabs[i]),
            None => None,
        }
    }

    /// A click on sidebar row `row`: selects that line and browses it.
    pub fn mouse_click_sidebar(&mut self, row: u16)
        requires
            old(self).wf(),
        ensures
            final(self).wf(),
            sidebar_clicked(*old(self), *final(self), row),
    {
        let offset_y = self.mouse_sidebar_offset_y;
        if row < offset_y {
            return;
        }
        let idx = (row - offset_y) as usize;
        if idx < self.sidebar_items.len() {
            self.sidebar_index = idx;
            self.sidebar_focus = SidebarFocus::Sidebar;
            self.mode = AppMode::Browse;
            self.sync_category_from_sidebar();
        }
    }

    /// A click on screen row `row` of the server list (below its border and
    /// header line): selects that server.
    pub fn mouse_click_serverlist(&mut self, row: u16)
        requires
            old(self).mouse_serverlist_area.1 < u16::MAX,
        ensures
            serverlist_clicked(*old(self), *final(self), row),
    {
        let sy = self.mouse_serverlist_area.1;
        if row <= sy + 1 {
            return;
        }
        let idx = (row - sy - 2) as usize;
        if idx < self.filtered_indices.len() {
            self.server_index = idx;
            self.sidebar_focus = SidebarFocus::ServerList;
            self.mode = AppMode::Browse;
        }
    }

    /// The mouse wheel over the server list.
    pub fn mouse_scroll_serverlist(&mut self, up: bool)
        ensures
            serverlist_scrolled(*old(self), *final(self), up),
    {
        if up {
            if self.server_index > 0 {
                self.server_index = self.server_index - 1;
            }
        } else if self.server_index < self.filtered_indices.len() && self.server_index + 1 < self.filtered_indices.len() {
            self.server_index = self.server_index + 1;
        }
    }

    /// The mouse wheel over the sidebar; the category follows the selection.
    pub fn mouse_scroll_sidebar(&mut self, up: bool)
        requires
            old(self).wf(),
        ensures
            final(self).wf(),
            sidebar_scrolled(*old(self), *final(self), up),
    {
        if up {
            if self.sidebar_index > 0 {
                self.sidebar_index = self.sidebar_index - 1;
                self.sync_category_from_sidebar();
            }
        } else if self.sidebar_index < self.sidebar_items.len() && self.sidebar_index + 1 < self.sidebar_items.len() {
            self.sidebar_index = self.sidebar_index + 1;
            self.sync_category_from_sidebar();
        }
    }
}

} // verus!
