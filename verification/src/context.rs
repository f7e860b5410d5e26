//! Right-click menus: what they list where they open, moving in them, and what
//! their entries do.
use vstd::prelude::*;

use crate::app::{App, AppMode, ContextAction, ContextArea, ContextMenu, ContextMenuItem, CopySource, Effect, Note, split_ok};
use crate::browse::{entered, ip_copy_effects};
use crate::navigation::with_detail;
use crate::tabs::{split_toggled, tab_closed};
use crate::text::owned;

verus! {

/// Width of a context menu on screen, borders included.
pub const MENU_WIDTH: u16 = 22;

/// The entries of a menu as (label, action) pairs.
pub open spec fn menu_view(items: Seq<ContextMenuItem>) -> Seq<(Seq<char>, ContextAction)> {
    items.map_values(|it: ContextMenuItem| (it.label@, it.action))
}

/// The terminal menu: for a dead session, reconnect or close; otherwise copy
/// (when text is selected), copy 50 and 100 lines, close, split (with two tabs
/// or more) and broadcast; help in every case.
pub open spec fn terminal_menu(dead: bool, has_selection: bool, ntabs: nat) -> Seq<(Seq<char>, ContextAction)> {
    if dead {
        seq![
            ("Reconnect"@, ContextAction::Reconnect),
            ("Close tab"@, ContextAction::Disconnect),
            ("Help"@, ContextAction::Help),
        ]
    } else {
        (if has_selection {
            seq![("Copy"@, ContextAction::CopySelection)]
        } else {
            Seq::empty()
        }) + seq![
            ("Copy 50 lines"@, ContextAction::CopyLines(50)),
            ("Copy 100 lines"@, ContextAction::CopyLines(100)),
            ("Close tab"@, ContextAction::Disconnect),
        ] + (if ntabs >= 2 {
            seq![("Split"@, ContextAction::Split)]
        } else {
            Seq::empty()
        }) + seq![("Broadcast"@, ContextAction::Broadcast), ("Help"@, ContextAction::Help)]
    }
}

/// The server list menu.
pub open spec fn serverlist_menu() -> Seq<(Seq<char>, ContextAction)> {
    seq![
        ("Connect"@, ContextAction::Connect),
        ("Copy IP"@, ContextAction::CopyIp),
        ("Details"@, ContextAction::ServerDetail),
        ("Help"@, ContextAction::Help),
    ]
}

/// The sidebar menu.
pub open spec fn sidebar_menu() -> Seq<(Seq<char>, ContextAction)> {
    seq![("Open"@, ContextAction::Connect), ("Help"@, ContextAction::Help)]
}

/// `new` is `old` with a menu open at (`x`, `y`) in `area`, listing `items`,
/// its first entry selected.
pub open spec fn menu_opened(
    old: App,
    x: u16,
    y: u16,
    area: ContextArea,
    items: Seq<(Seq<char>, ContextAction)>,
    new: App,
) -> bool {
    &&& new == (App { context_menu: new.context_menu, ..old })
    &&& new.context_menu matches Some(m) && m.x == x && m.y == y && m.selected == 0 && m.area
        == area && menu_view(m.items@) == items
}

/// `new` and `effects` are what the menu action `act` does from `a` (the menu
/// already closed).
pub open spec fn context_ran(a: App, act: ContextAction, new: App, effects: Seq<Effect>) -> bool {
    match act {
        ContextAction::CopySelection => {
            &&& new == (App { mouse_select_start: None, mouse_select_end: None, ..a })
            &&& effects == match (a.mouse_select_start, a.mouse_select_end, a.active_tab) {
                (Some(s), Some(e), Some(_)) => seq![
                    Effect::Copy {
                        source: CopySource::Selection(s.0, s.1, e.0, e.1),
                        on_ok: Some(Note::SelectionCopied),
                        on_fail: None,
                    },
                ],
                _ => Seq::<Effect>::empty(),
            }
        },
        ContextAction::CopyLines(n) => new == a && effects == if a.active_tab is Some {
            seq![
                Effect::Copy {
                    source: CopySource::Lines(n),
                    on_ok: Some(Note::LinesCopied(n)),
                    on_fail: None,
                },
            ]
        } else {
            Seq::<Effect>::empty()
        },
        ContextAction::CopyIp => new == (App { clipboard_msg: None, ..a }) && effects
            == ip_copy_effects(a),
        ContextAction::Connect => entered(a, new, effects),
        ContextAction::Disconnect => tab_closed(a, new, effects),
        ContextAction::ServerDetail => new == with_detail(a) && effects.len() == 0,
        ContextAction::Split => split_toggled(a, new) && effects.len() == 0,
        ContextAction::Broadcast => new == (App { broadcast: !a.broadcast, ..a })
            && effects.len() == 0,
        ContextAction::Help => new == (App {
            prev_mode: a.mode,
            help_scroll: 0,
            mode: AppMode::Help,
            ..a
        }) && effects.len() == 0,
        ContextAction::Reconnect => new == (App { reconnect_server: None, ..a }) && effects
            == match a.reconnect_server {
            Some(p) => seq![Effect::ReconnectTab(p.0, p.1)],
            None => Seq::<Effect>::empty(),
        },
    }
}

/// `new` and `effects` are what running the selected entry of `old`'s menu
/// gives: the menu closes, then the entry's action is taken (nothing when no
/// entry is selected; nothing at all without a menu).
pub open spec fn menu_executed(old: App, new: App, effects: Seq<Effect>) -> bool {
    match old.context_menu {
        None => new == old && effects.len() == 0,
        Some(m) => {
            let a = App { context_menu: None, ..old };
            if m.selected < m.items@.len() {
                context_ran(a, m.items@[m.selected as int].action, new, effects)
            } else {
                new == a && effects.len() == 0
            }
        },
    }
}

/// The menu fits on the screen's coordinates: its right and bottom edges do
/// not pass the largest `u16`.
pub open spec fn menu_fits(m: ContextMenu) -> bool {
    m.x + MENU_WIDTH <= u16::MAX && m.y + m.items@.len() + 2 <= u16::MAX
}

/// (`mx`, `my`) falls inside the menu's box, borders included.
pub open spec fn inside_menu(m: ContextMenu, mx: u16, my: u16) -> bool {
    m.x <= mx < m.x + MENU_WIDTH && m.y <= my < m.y + m.items@.len() + 2
}

/// The entry under row `my`: the rows start below the top border.
pub open spec fn menu_row(m: ContextMenu, my: u16) -> int {
    if my >= m.y + 1 {
        my - m.y - 1
    } else {
        0
    }
}

fn menu_item(label: &str, action: ContextAction) -> (it: ContextMenuItem)
    ensures
        it.label@ == label@,
        it.action == action,
{
    ContextMenuItem { label: owned(label), action }
}

impl App {
    /// Opens the terminal's menu at (`x`, `y`); `active_dead` tells whether the
    /// active session has ended.
    pub fn open_context_menu_terminal(&mut self, x: u16, y: u16, active_dead: bool)
        ensures
            menu_opened(
                *old(self),
                x,
                y,
                ContextArea::Terminal,
                terminal_menu(
                    active_dead,
                    old(self).mouse_select_start is Some && old(self).mouse_select_end is Some,
                    old(self).tabs@.len(),
                ),
                *final(self),
            ),
    {
        let mut items: Vec<ContextMenuItem> = Vec::new();
        if active_dead {
            items.push(menu_item("Reconnect", ContextAction::Reconnect));
            items.push(menu_item("Close tab", ContextAction::Disconnect));
        } else {
            if self.mouse_select_start.is_some() && self.mouse_select_end.is_some() {
                items.push(menu_item("Copy", ContextAction::CopySelection));
            }
            items.push(menu_item("Copy 50 lines", ContextAction::CopyLines(50)));
            items.push(menu_item("Copy 100 lines", ContextAction::CopyLines(100)));
            items.push(menu_item("Close tab", ContextAction::Disconnect));
            if self.tabs.len() >= 2 {
                items.push(menu_item("Split", ContextAction::Split));
            }
            items.push(menu_item("Broadcast", ContextAction::Broadcast));
        }
        items.push(menu_item("Help", ContextAction::Help));
        assert(menu_view(items@) =~= terminal_menu(
            active_dead,
            self.mouse_select_start is Some && self.mouse_select_end is Some,
            self.tabs@.len(),
        ));
        self.context_menu = Some(ContextMenu { x, y, items, selected: 0, area: ContextArea::Terminal });
    }

    /// Opens the server list's menu at (`x`, `y`).
    pub fn open_context_menu_serverlist(&mut self, x: u16, y: u16)
        ensures
            menu_opened(*old(self), x, y, ContextArea::ServerList, serverlist_menu(), *final(self)),
    {
        let mut items: Vec<ContextMenuItem> = Vec::new();
        items.push(menu_item("Connect", ContextAction::Connect));
        items.push(menu_item("Copy IP", ContextAction::CopyIp));
        items.push(menu_item("Details", ContextAction::ServerDetail));
        items.push(menu_item("Help", ContextAction::Help));
        assert(menu_view(items@) =~= serverlist_menu());
        self.context_menu = Some(ContextMenu { x, y, items, selected: 0, area: ContextArea::ServerList });
    }

    /// Opens the sidebar's menu at (`x`, `y`).
    pub fn open_context_menu_sidebar(&mut self, x: u16, y: u16)
        ensures
            menu_opened(*old(self), x, y, ContextArea::Sidebar, sidebar_menu(), *final(self)),
    {
        let mut items: Vec<ContextMenuItem> = Vec::new();
        items.push(menu_item("Open", ContextAction::Connect));
        items.push(menu_item("Help", ContextAction::Help));
        assert(menu_view(items@) =~= sidebar_menu());
        self.context_menu = Some(ContextMenu { x, y, items, selected: 0, area: ContextArea::Sidebar });
    }

    /// Moves the menu selection up, stopping at the first entry.
    pub fn context_menu_up(&mut self)
        ensures
            *final(self) == match old(self).context_menu {
                Some(m) => App {
                    context_menu: Some(
                        ContextMenu {
                            selected: if m.selected > 0 {
                                (m.selected - 1) as usize
                            } else {
                                0
                            },
                            ..m
                        },
                    ),
                    ..*old(self)
                },
                None => *old(self),
            },
    {
        if let Some(mut menu) = self.context_menu.take() {
            if menu.selected > 0 {
                menu.selected = menu.selected - 1;
            }
            self.context_menu = Some(menu);
        }
    }

    /// Moves the menu selection down, stopping at the last entry.
    pub fn context_menu_down(&mut self)
        ensures
            *final(self) == match old(self).context_menu {
                Some(m) => App {
                    context_menu: Some(
                        ContextMenu {
                            selected: if m.selected + 1 < m.items@.len() {
                                (m.selected + 1) as usize
                            } else {
                                m.selected
                            },
                            ..m
                        },
                    ),
                    ..*old(self)
                },
                None => *old(self),
            },
    {
        if let Some(mut menu) = self.context_menu.take() {
            if menu.selected < menu.items.len() && menu.selected + 1 < menu.items.len() {
                menu.selected = menu.selected + 1;
            }
            self.context_menu = Some(menu);
        }
    }

    /// Closes the menu.
    pub fn close_context_menu(&mut self)
        ensures
            *final(self) == (App { context_menu: None, ..*old(self) }),
    {
        self.context_menu = None;
    }

    /// Runs the selected menu entry; the menu closes first.
    pub fn context_menu_execute(&mut self) -> (effects: Vec<Effect>)
        requires
            old(self).wf(),
        ensures
            final(self).wf(),
            menu_executed(*old(self), *final(self), effects@),
    {
        let menu = match self.context_menu.take() {
            Some(m) => m,
            None => {
                return Vec::new();
            },
        };
        if menu.selected >= menu.items.len() {
            return Vec::new();
        }
        let action = menu.items[menu.selected].action;
        self.run_context_action(action)
    }

    fn run_context_action(&mut self, act: ContextAction) -> (effects: Vec<Effect>)
        requires
            old(self).wf(),
        ensures
            final(self).wf(),
            context_ran(*old(self), act, *final(self), effects@),
    {
        let mut effects: Vec<Effect> = Vec::new();
        match act {
            ContextAction::CopySelection => {
                if let (Some(s), Some(e), Some(_)) = (
                    self.mouse_select_start,
                    self.mouse_select_end,
                    self.active_tab,
                ) {
                    effects.push(
                        Effect::Copy {
                            source: CopySource::Selection(s.0, s.1, e.0, e.1),
                            on_ok: Some(Note::SelectionCopied),
                            on_fail: None,
                        },
                    );
                }
                self.mouse_select_start = None;
                self.mouse_select_end = None;
            },
            ContextAction::CopyLines(n) => {
                if self.active_tab.is_some() {
                    effects.push(
                        Effect::Copy {
                            source: CopySource::Lines(n),
                            on_ok: Some(Note::LinesCopied(n)),
                            on_fail: None,
                        },
                    );
                }
            },
            ContextAction::CopyIp => {
                effects = self.copy_ip();
            },
            ContextAction::Connect => {
                effects = self.enter_nav();
            },
            ContextAction::Disconnect => {
                effects = self.close_active_tab();
            },
            ContextAction::ServerDetail => {
                self.show_detail();
            },
            ContextAction::Split => {
                self.toggle_split();
            },
            ContextAction::Broadcast => {
                self.toggle_broadcast();
            },
            ContextAction::Help => {
                self.show_help();
            },
            ContextAction::Reconnect => {
                effects = self.reconnect_active();
            },
        }
        effects
    }

    /// A click while a menu is open: on an entry it runs that entry, anywhere
    /// else it closes the menu. Returns whether a menu was open (the click was
    /// taken), with the effects of the entry run.
    pub fn context_menu_click(&mut self, mx: u16, my: u16) -> (r: (bool, Vec<Effect>))
        requires
            old(self).wf(),
            old(self).context_menu matches Some(m) ==> menu_fits(m),
        ensures
            final(self).wf(),
            match old(self).context_menu {
                None => !r.0 && *final(self) == *old(self) && r.1@.len() == 0,
                Some(m) => {
                    &&& r.0
                    &&& if inside_menu(m, mx, my) && menu_row(m, my) < m.items@.len() {
                        context_ran(
                            App { context_menu: None, ..*old(self) },
                            m.items@[menu_row(m, my)].action,
                            *final(self),
                            r.1@,
                        )
                    } else {
                        *final(self) == (App { context_menu: None, ..*old(self) }) && r.1@.len()
                            == 0
                    }
                },
            },
    {
        let menu = match self.context_menu.take() {
            Some(m) => m,
            None => {
                return (false, Vec::new());
            },
        };
        let n = menu.items.len();
        let menu_h: u16 = (n + 2) as u16;
        if mx >= menu.x && mx < menu.x + MENU_WIDTH && my >= menu.y && my < menu.y + menu_h {
            let idx: usize = if my >= menu.y + 1 {
                (my - (menu.y + 1)) as usize
            } else {
                0
            };
            if idx < n {
                let action = menu.items[idx].action;
                let effects = self.run_context_action(action);
                return (true, effects);
            }
        }
        (true, Vec::new())
    }
}

} // verus!
