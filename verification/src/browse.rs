//! Acting on the selection: entering a sidebar line or connecting to servers,
//! going back, searching, and copying a server's address.
use vstd::prelude::*;

use crate::app::{App, AppMode, CopySource, Effect, Note, SidebarFocus, SidebarItem, entries_of, servers_of, sidebar_layout};
use crate::config::Server;
use crate::filter::{global_pairs, global_search, hits_for, matching};
use crate::navigation::{clamp_index, refiltered};
use crate::tabs::{pushed_all, pushed_recent};
use crate::text::{char_count, concat, decimal, decimal_string, owned, pop_char, push_char};

verus! {

/// `new` and `effects` are what connecting to `server` from `old` gives: the
/// server goes first in the recent list, the sidebar follows, and a session is
/// requested.
pub open spec fn opened(old: App, server: Server, new: App, effects: Seq<Effect>) -> bool {
    &&& new == (App {
        recent_connections: new.recent_connections,
        sidebar_items: new.sidebar_items,
        ..old
    })
    &&& new.recent_connections@ == pushed_recent(old.recent_connections@, server)
    &&& entries_of(new.sidebar_items@) == sidebar_layout(
        new.recent_connections@.len(),
        old.config.categories@,
        old.vm_expanded,
    )
    &&& effects == seq![Effect::OpenTerminal(server)]
}

/// The marked servers in marking order, skipping marks past the end of the list.
pub open spec fn marked_servers(a: App, marks: Seq<usize>) -> Seq<Server>
    decreases marks.len(),
{
    if marks.len() == 0 {
        Seq::empty()
    } else if marks.last() < a.filtered_indices@.len() {
        marked_servers(a, marks.drop_last()).push(a.filtered_server(marks.last() as int))
    } else {
        marked_servers(a, marks.drop_last())
    }
}

proof fn lemma_marked_len(a: App, marks: Seq<usize>)
    ensures
        marked_servers(a, marks).len() <= marks.len(),
    decreases marks.len(),
{
    if marks.len() > 0 {
        lemma_marked_len(a, marks.drop_last());
    }
}

/// `new` and `effects` are what connecting to the marked servers of `old` gives:
/// the marks are cleared, each server goes into the recent list in turn, a
/// session is requested for each, and then the split is arranged for them.
pub open spec fn connected_marked(old: App, new: App, effects: Seq<Effect>) -> bool {
    let servers = marked_servers(old, old.selected_servers@);
    &&& new == (App {
        selected_servers: new.selected_servers,
        recent_connections: new.recent_connections,
        sidebar_items: new.sidebar_items,
        ..old
    })
    &&& new.selected_servers@ == Seq::<usize>::empty()
    &&& new.recent_connections@ == pushed_all(old.recent_connections@, servers)
    &&& if servers.len() == 0 {
        new.sidebar_items == old.sidebar_items
    } else {
        entries_of(new.sidebar_items@) == sidebar_layout(
            new.recent_connections@.len(),
            old.config.categories@,
            old.vm_expanded,
        )
    }
    &&& effects == servers.map_values(|s: Server| Effect::OpenTerminal(s)).push(
        Effect::ArrangeSplit(servers.len() as usize),
    )
}

/// `new` and `effects` are what Enter on the focused list of `old` gives. In the
/// sidebar: a group header opens or closes its group, a recent connection is
/// connected to, a category moves the focus to its server list, anything else
/// does nothing. In the server list: the marked servers are connected to, or
/// else the selected one.
pub open spec fn entered(old: App, new: App, effects: Seq<Effect>) -> bool {
    match old.sidebar_focus {
        SidebarFocus::Sidebar => if old.sidebar_index < old.sidebar_items@.len() {
            match old.sidebar_items@[old.sidebar_index as int] {
                SidebarItem::GroupHeader { .. } => {
                    &&& new == (App {
                        vm_expanded: !old.vm_expanded,
                        sidebar_items: new.sidebar_items,
                        ..old
                    })
                    &&& entries_of(new.sidebar_items@) == sidebar_layout(
                        old.recent_connections@.len(),
                        old.config.categories@,
                        !old.vm_expanded,
                    )
                    &&& effects.len() == 0
                },
                SidebarItem::RecentHeader => new == old && effects.len() == 0,
                SidebarItem::Recent(k) => if k < old.recent_connections@.len() {
                    opened(old, old.recent_connections@[k as int], new, effects)
                } else {
                    new == old && effects.len() == 0
                },
                _ => {
                    &&& new == (App {
                        sidebar_focus: SidebarFocus::ServerList,
                        server_index: 0,
                        ..old
                    })
                    &&& effects.len() == 0
                },
            }
        } else {
            new == old && effects.len() == 0
        },
        SidebarFocus::ServerList => if old.selected_servers@.len() > 0 {
            connected_marked(old, new, effects)
        } else if old.server_index < old.filtered_indices@.len() {
            opened(old, old.filtered_server(old.server_index as int), new, effects)
        } else {
            new == old && effects.len() == 0
        },
    }
}

/// The copy of the selected server's host, when a server is selected and its
/// host is not empty.
pub open spec fn ip_copy_effects(a: App) -> Seq<Effect> {
    if a.server_index < a.filtered_indices@.len() && a.filtered_server(a.server_index as int).host@.len() > 0 {
        let host = a.filtered_server(a.server_index as int).host;
        seq![
            Effect::Copy {
                source: CopySource::Text(host),
                on_ok: Some(Note::IpCopied(host)),
                on_fail: Some(Note::IpCopyFailed),
            },
        ]
    } else {
        Seq::<Effect>::empty()
    }
}

/// The message a clipboard note shows.
pub open spec fn note_text(n: Note) -> Seq<char> {
    match n {
        Note::IpCopied(ip) => "IP copied: "@ + ip@,
        Note::IpCopyFailed => "Failed to copy IP"@,
        Note::LinesCopied(k) => decimal(k as nat) + " lines copied!"@,
        Note::ScreenCopied => "Screen copied!"@,
        Note::InstallClipboardTool => "Failed: install xclip (sudo apt install xclip)"@,
        Note::SelectionCopied => "Selection copied!"@,
    }
}

impl Note {
    /// The message this note shows.
    pub fn text(&self) -> (r: String)
        ensures
            r@ == note_text(*self),
    {
        match self {
            Note::IpCopied(ip) => concat("IP copied: ", ip.as_str()),
            Note::IpCopyFailed => owned("Failed to copy IP"),
            Note::LinesCopied(k) => {
                let d = decimal_string(*k as u64);
                concat(d.as_str(), " lines copied!")
            },
            Note::ScreenCopied => owned("Screen copied!"),
            Note::InstallClipboardTool => owned("Failed: install xclip (sudo apt install xclip)"),
            Note::SelectionCopied => owned("Selection copied!"),
        }
    }
}

/// `new` is `old` after Escape: the search, popup, palette, help, prompt or
/// game that is open closes, or the focus moves from the server list back to
/// the sidebar.
pub open spec fn went_back(old: App, new: App) -> bool {
    match old.mode {
        AppMode::Search => new == (App { mode: AppMode::Browse, ..old }),
        AppMode::Detail => new == (App { detail_server: None, mode: AppMode::Browse, ..old }),
        AppMode::Browse => new == (App { sidebar_focus: SidebarFocus::Sidebar, ..old }),
        AppMode::Terminal => new == old,
        AppMode::Palette => crate::palette::palette_closed(old, new),
        AppMode::Help => new == (App { mode: old.prev_mode, ..old }),
        AppMode::CommandInput => {
            &&& new == (App { command_input: new.command_input, mode: AppMode::Terminal, ..old })
            &&& new.command_input@ == Seq::<char>::empty()
        },
        AppMode::ConfirmDanger => new == (App {
            danger_command: None,
            danger_broadcast: false,
            mode: AppMode::Terminal,
            ..old
        }),
        AppMode::Doom => new == (App { mode: AppMode::Terminal, ..old }),
    }
}

/// `new` is `old` with a search started: from the sidebar over every category,
/// starting empty; from the server list on the current filter.
pub open spec fn search_started(old: App, new: App) -> bool {
    if old.sidebar_focus == SidebarFocus::Sidebar {
        &&& new == (App {
            mode: AppMode::Search,
            is_global_search: true,
            search_query: new.search_query,
            global_results: new.global_results,
            global_index: 0,
            ..old
        })
        &&& new.search_query@ == Seq::<char>::empty()
        &&& new.global_results@.len() == 0
    } else {
        new == (App { mode: AppMode::Search, is_global_search: false, ..old })
    }
}

/// `new` is `old` with `c` typed into the search, the results following.
pub open spec fn search_typed(old: App, new: App, c: char) -> bool {
    &&& new.search_query@ == old.search_query@.push(c)
    &&& searched(old, new)
}

/// `new` is `old` with the last character of the search erased, the results
/// following.
pub open spec fn search_erased(old: App, new: App) -> bool {
    &&& new.search_query@ == if old.search_query@.len() > 0 {
        old.search_query@.drop_last()
    } else {
        old.search_query@
    }
    &&& searched(old, new)
}

/// `new` is `old` after Enter in the search (see [`App::confirm_search`]).
pub open spec fn search_confirmed(old: App, new: App) -> bool {
    if !old.is_global_search {
        new == (App { mode: AppMode::Browse, ..old })
    } else if old.global_index < old.global_results@.len() {
        let m = old.global_results@[old.global_index as int];
        &&& new == (App {
            mode: AppMode::Browse,
            category_index: m.category_index,
            server_index: new.server_index,
            search_query: new.search_query,
            filtered_indices: new.filtered_indices,
            sidebar_focus: SidebarFocus::ServerList,
            is_global_search: false,
            global_results: new.global_results,
            ..old
        })
        &&& new.search_query@ == Seq::<char>::empty()
        &&& new.filtered_indices@ == matching(
            servers_of(old.config.categories@, m.category_index),
            Seq::empty(),
        )
        &&& new.server_index == clamp_index(m.server_index, new.filtered_indices@.len())
        &&& new.global_results@.len() == 0
    } else {
        &&& new == (App {
            mode: AppMode::Browse,
            is_global_search: false,
            global_results: new.global_results,
            ..old
        })
        &&& new.global_results@.len() == 0
    }
}

/// `new` and `effects` are what connecting to the selected hit of a search
/// over every category gives.
pub open spec fn global_connected(old: App, new: App, effects: Seq<Effect>) -> bool {
    if old.global_index < old.global_results@.len() {
        let m = old.global_results@[old.global_index as int];
        exists|mid: App|
            opened(mid, m.server, new, effects) && mid == (App {
                mode: AppMode::Browse,
                is_global_search: false,
                global_results: mid.global_results,
                ..old
            }) && mid.global_results@.len() == 0
    } else {
        new == old && effects.len() == 0
    }
}

impl App {
    /// Enter on the focused list. In the sidebar: a group header opens or
    /// closes its group, a recent connection is connected to, a category moves
    /// the focus to its server list. In the server list: the marked servers are
    /// connected to, or else the selected one.
    pub fn enter_nav(&mut self) -> (effects: Vec<Effect>)
        requires
            old(self).wf(),
        ensures
            final(self).wf(),
            entered(*old(self), *final(self), effects@),
    {
        match self.sidebar_focus {
            SidebarFocus::Sidebar => {
                if self.sidebar_index >= self.sidebar_items.len() {
                    return Vec::new();
                }
                match &self.sidebar_items[self.sidebar_index] {
                    SidebarItem::GroupHeader { .. } => {
                        self.vm_expanded = !self.vm_expanded;
                        self.rebuild_sidebar();
                        Vec::new()
                    },
                    SidebarItem::RecentHeader => Vec::new(),
                    SidebarItem::Recent(k) => {
                        let k = *k;
                        if k < self.recent_connections.len() {
                            let server = self.recent_connections[k].duplicate();
                            let e = self.open_terminal(&server);
                            proof {
                                if self.split is Some {
                                    assert(crate::app::split_ok(self.split->0, self.tabs@.len()));
                                }
                            }
                            e
                        } else {
                            Vec::new()
                        }
                    },
                    _ => {
                        self.sidebar_focus = SidebarFocus::ServerList;
                        self.server_index = 0;
                        Vec::new()
                    },
                }
            },
            SidebarFocus::ServerList => {
                if self.has_selection() {
                    self.connect_selected()
                } else if self.server_index < self.filtered_indices.len() {
                    let real_index = self.filtered_indices[self.server_index];
                    let server = self.current_servers()[real_index].duplicate();
                    self.open_terminal(&server)
                } else {
                    Vec::new()
                }
            },
        }
    }

    /// Connects to every marked server, clearing the marks, then asks for the
    /// split to be arranged for them.
    pub fn connect_selected(&mut self) -> (effects: Vec<Effect>)
        requires
            old(self).wf(),
        ensures
            final(self).wf(),
            connected_marked(*old(self), *final(self), effects@),
    {
        let mut marks: Vec<usize> = Vec::new();
        std::mem::swap(&mut marks, &mut self.selected_servers);
        let ghost a = *old(self);
        let mut effects: Vec<Effect> = Vec::new();
        let mut count: usize = 0;
        let mut k: usize = 0;
        assert(marks@.take(0) =~= Seq::<usize>::empty());
        while k < marks.len()
            invariant
                k <= marks@.len(),
                marks@ == a.selected_servers@,
                self.wf(),
                *self == (App {
                    selected_servers: self.selected_servers,
                    recent_connections: self.recent_connections,
                    sidebar_items: self.sidebar_items,
                    ..a
                }),
                self.selected_servers@ == Seq::<usize>::empty(),
                self.recent_connections@ == pushed_all(a.recent_connections@, marked_servers(a, marks@.take(k as int))),
                if marked_servers(a, marks@.take(k as int)).len() == 0 {
                    self.sidebar_items == a.sidebar_items
                } else {
                    entries_of(self.sidebar_items@) == sidebar_layout(
                        self.recent_connections@.len(),
                        a.config.categories@,
                        a.vm_expanded,
                    )
                },
                count == marked_servers(a, marks@.take(k as int)).len(),
                effects@ == marked_servers(a, marks@.take(k as int)).map_values(|s: Server| Effect::OpenTerminal(s)),
            decreases marks@.len() - k,
        {
            let i = marks[k];
            let ghost prev = marked_servers(a, marks@.take(k as int));
            assert(marks@.take(k + 1).drop_last() =~= marks@.take(k as int));
            assert(marks@.take(k + 1).last() == i);
            proof {
                lemma_marked_len(a, marks@.take(k as int));
            }
            if i < self.filtered_indices.len() {
                let real_index = self.filtered_indices[i];
                let server = self.current_servers()[real_index].duplicate();
                assert(server == a.filtered_server(i as int));
                self.push_recent(&server);
                effects.push(Effect::OpenTerminal(server));
                count = count + 1;
                assert(marked_servers(a, marks@.take(k + 1)) == prev.push(a.filtered_server(i as int)));
                assert(prev.push(server).drop_last() =~= prev);
                assert(pushed_all(a.recent_connections@, prev.push(server)) == pushed_recent(
                    pushed_all(a.recent_connections@, prev),
                    server,
                ));
                assert(effects@ =~= marked_servers(a, marks@.take(k + 1)).map_values(|s: Server| Effect::OpenTerminal(s)));
                proof {
                    if self.split is Some {
                        assert(crate::app::split_ok(self.split->0, self.tabs@.len()));
                    }
                }
            }
            k = k + 1;
        }
        assert(marks@.take(marks@.len() as int) =~= marks@);
        effects.push(Effect::ArrangeSplit(count));
        effects
    }

    /// Escape: leaves the search, popup, palette, help, prompt or game that is
    /// open, or moves the focus from the server list back to the sidebar.
    pub fn go_back_nav(&mut self)
        requires
            old(self).wf(),
        ensures
            final(self).wf(),
            went_back(*old(self), *final(self)),
    {
        match self.mode {
            AppMode::Search => {
                self.mode = AppMode::Browse;
            },
            AppMode::Detail => {
                self.close_detail();
            },
            AppMode::Browse => {
                if self.sidebar_focus == SidebarFocus::ServerList {
                    self.sidebar_focus = SidebarFocus::Sidebar;
                }
            },
            AppMode::Terminal => {},
            AppMode::Palette => {
                self.close_palette();
            },
            AppMode::Help => {
                self.close_help();
            },
            AppMode::CommandInput => {
                self.cancel_command_input();
            },
            AppMode::ConfirmDanger => {
                self.cancel_danger();
            },
            AppMode::Doom => {
                self.mode = AppMode::Terminal;
            },
        }
    }

    /// Starts typing a search: from the sidebar it searches every category
    /// (starting empty), from the server list it edits the current filter.
    pub fn enter_search(&mut self)
        ensures
            search_started(*old(self), *final(self)),
    {
        self.mode = AppMode::Search;
        if self.sidebar_focus == SidebarFocus::Sidebar {
            self.is_global_search = true;
            self.search_query = String::new();
            self.global_results = Vec::new();
            self.global_index = 0;
        } else {
            self.is_global_search = false;
        }
    }

    fn research(&mut self)
        requires
            old(self).wf(),
        ensures
            final(self).wf(),
            if old(self).is_global_search {
                &&& *final(self) == (App {
                    global_results: final(self).global_results,
                    global_index: 0,
                    ..*old(self)
                })
                &&& hits_for(
                    old(self).config.categories@,
                    global_pairs(old(self).config.categories@, old(self).search_query@),
                    final(self).global_results@,
                )
                &&& final(self).wf()
            } else {
                refiltered(*old(self), *final(self))
            },
    {
        if self.is_global_search {
            self.global_results = global_search(self.config.categories.as_slice(), self.search_query.as_str());
            self.global_index = 0;
        } else {
            self.refilter();
        }
    }

    /// Types a character into the search: the results (over every category, or
    /// the filtered list) follow the new query.
    pub fn search_push(&mut self, c: char)
        requires
            old(self).wf(),
        ensures
            final(self).wf(),
            search_typed(*old(self), *final(self), c),
    {
        self.search_query = push_char(&self.search_query, c);
        self.research();
    }

    /// Erases the last character of the search: the results follow.
    pub fn search_backspace(&mut self)
        requires
            old(self).wf(),
        ensures
            final(self).wf(),
            search_erased(*old(self), *final(self)),
    {
        self.search_query = pop_char(&self.search_query);
        self.research();
    }

    /// Enter in the search. A search over every category goes to the category
    /// and server of the selected hit (listing that category in full) and ends;
    /// a filter search just returns to browsing with the filter kept.
    pub fn confirm_search(&mut self)
        requires
            old(self).wf(),
        ensures
            final(self).wf(),
            search_confirmed(*old(self), *final(self)),
    {
        self.mode = AppMode::Browse;
        if self.is_global_search {
            if self.global_index < self.global_results.len() {
                let ci = self.global_results[self.global_index].category_index;
                let si = self.global_results[self.global_index].server_index;
                self.category_index = ci;
                self.server_index = si;
                self.search_query = String::new();
                self.refilter();
                self.sidebar_focus = SidebarFocus::ServerList;
            }
            self.is_global_search = false;
            self.global_results = Vec::new();
        }
    }

    /// Connects directly to the selected hit of a search over every category.
    pub fn global_connect(&mut self) -> (effects: Vec<Effect>)
        requires
            old(self).wf(),
        ensures
            final(self).wf(),
            global_connected(*old(self), *final(self), effects@),
    {
        if self.global_index < self.global_results.len() {
            let server = self.global_results[self.global_index].server.duplicate();
            self.mode = AppMode::Browse;
            self.is_global_search = false;
            self.global_results = Vec::new();
            let ghost mid = *self;
            let e = self.open_terminal(&server);
            proof {
                if self.split is Some {
                    assert(crate::app::split_ok(self.split->0, self.tabs@.len()));
                }
            }
            assert(opened(mid, server, *self, e@));
            e
        } else {
            Vec::new()
        }
    }

    /// Copies the selected server's host to the clipboard (nothing when the
    /// host is empty); the previous clipboard message is cleared first.
    pub fn copy_ip(&mut self) -> (effects: Vec<Effect>)
        requires
            old(self).wf(),
        ensures
            final(self).wf(),
            *final(self) == (App { clipboard_msg: None, ..*old(self) }),
            effects@ == ip_copy_effects(*old(self)),
    {
        self.clipboard_msg = None;
        let mut effects: Vec<Effect> = Vec::new();
        if self.server_index < self.filtered_indices.len() {
            let real_index = self.filtered_indices[self.server_index];
            let host = &self.current_servers()[real_index].host;
            if char_count(host.as_str()) > 0 {
                effects.push(
                    Effect::Copy {
                        source: CopySource::Text(host.clone()),
                        on_ok: Some(Note::IpCopied(host.clone())),
                        on_fail: Some(Note::IpCopyFailed),
                    },
                );
            }
        }
        effects
    }

    /// The outcome of a clipboard copy: shows `on_ok` when it worked and
    /// `on_fail` when it did not; without a note the message is left alone.
    pub fn clipboard_done(&mut self, ok: bool, on_ok: Option<Note>, on_fail: Option<Note>)
        ensures
            *final(self) == (App { clipboard_msg: final(self).clipboard_msg, ..*old(self) }),
            (match if ok { on_ok } else { on_fail } {
                Some(n) => final(self).clipboard_msg matches Some(m) && m@ == note_text(n),
                None => final(self).clipboard_msg == old(self).clipboard_msg,
            }),
    {
        let note = if ok { on_ok } else { on_fail };
        if let Some(n) = note {
            self.clipboard_msg = Some(n.text());
        }
    }
}

/// `new` is `old` with the results of the (edited) query brought up to date:
/// the hits over every category in a search over every category, else the
/// filtered server list.
pub open spec fn searched(old: App, new: App) -> bool {
    if old.is_global_search {
        &&& new == (App {
            search_query: new.search_query,
            global_results: new.global_results,
            global_index: 0,
            ..old
        })
        &&& hits_for(old.config.categories@, global_pairs(old.config.categories@, new.search_query@), new.global_results@)
    } else {
        refiltered(App { search_query: new.search_query, ..old }, new)
    }
}

} // verus!
