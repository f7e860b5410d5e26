//! One key press at a time: the key is looked up for the current mode (see
//! [`crate::keys::key_action`]) and the operation it names is carried out on
//! the state; the outside work it calls for comes back as effects.
use vstd::prelude::*;

use crate::app::{App, AppMode, Effect, InputTarget, SidebarFocus, SplitState};
use crate::browse::{
    entered, global_connected, ip_copy_effects, search_confirmed, search_erased, search_started,
    search_typed, went_back,
};
use crate::commands::{commanded, danger_confirmed};
use crate::keys::{Key, Op, OpView, key_action, key_op, op_view};
use crate::navigation::{
    command_erased, command_typed, global_moved_down, global_moved_up, jumped_bottom, jumped_top,
    moved_down, moved_up, select_toggled, serverlist_clicked, serverlist_scrolled, sidebar_clicked,
    sidebar_scrolled, with_detail,
};
use crate::palette::{
    palette_closed, palette_erased, palette_executed, palette_moved_down, palette_moved_up,
    palette_opened, palette_typed,
};
use crate::tabs::{
    input_effects, input_to, pane_clicked, split_toggled, tab_advanced, tab_clicked, tab_closed,
    tab_retreated,
};

verus! {

/// The effects of a key typed into the terminal: its bytes go to every tab in
/// broadcast mode, else to the active tab, and those tabs come back to the
/// bottom of their output.
pub open spec fn typed_effects(a: App, bytes: Seq<u8>, effects: Seq<Effect>) -> bool {
    if a.broadcast {
        &&& effects.len() == 2
        &&& effects[0] matches Effect::WriteInput(InputTarget::All, b) && b@ == bytes
        &&& effects[1] == Effect::ScrollToBottom(InputTarget::All)
    } else {
        match a.active_tab {
            Some(i) => {
                &&& effects.len() == 2
                &&& effects[0] matches Effect::WriteInput(InputTarget::Tab(t), b) && t == i && b@
                    == bytes
                &&& effects[1] == Effect::ScrollToBottom(InputTarget::Tab(i))
            },
            None => effects.len() == 0,
        }
    }
}

/// `effects` are `inner` followed by a redraw of the whole screen.
pub open spec fn then_clear(inner: Seq<Effect>, effects: Seq<Effect>) -> bool {
    effects == inner.push(Effect::ClearScreen)
}

/// `new` and `effects` are what operation `op` does from `a`.
pub open spec fn op_done(a: App, op: OpView, new: App, effects: Seq<Effect>) -> bool {
    match op {
        OpView::Nothing => new == a && effects.len() == 0,
        OpView::Quit => new == a && effects == seq![Effect::Quit],
        OpView::Reconnect => new == (App { reconnect_server: None, ..a }) && then_clear(
            match a.reconnect_server {
                Some(p) => seq![Effect::ReconnectTab(p.0, p.1)],
                None => Seq::<Effect>::empty(),
            },
            effects,
        ),
        OpView::DismissDead => effects.len() >= 1 && then_clear(effects.drop_last(), effects)
            && tab_closed(App { reconnect_server: None, ..a }, new, effects.drop_last()),
        OpView::ShowHelp => new == (App {
            prev_mode: a.mode,
            help_scroll: 0,
            mode: AppMode::Help,
            ..a
        }) && effects.len() == 0,
        OpView::ScrollBack(n) => new == a && effects == if a.active_tab is Some {
            seq![Effect::ScrollUp(n)]
        } else {
            Seq::<Effect>::empty()
        },
        OpView::ScrollForward(n) => new == a && effects == if a.active_tab is Some {
            seq![Effect::ScrollDown(n)]
        } else {
            Seq::<Effect>::empty()
        },
        OpView::ToggleSplit => split_toggled(a, new) && then_clear(
            if new.split is Some {
                seq![Effect::ResizeSplit]
            } else {
                Seq::<Effect>::empty()
            },
            effects,
        ),
        OpView::FocusNextPane => effects.len() == 0 && new == match a.split {
            Some(s) => {
                let f = ((s.focused_pane + 1) % (s.panes@.len() as int)) as usize;
                App {
                    split: Some(SplitState { focused_pane: f, ..s }),
                    active_tab: Some(s.panes@[f as int]),
                    ..a
                }
            },
            None => a,
        },
        OpView::FocusPrevPane => effects.len() == 0 && new == match a.split {
            Some(s) => {
                let f: usize = if s.focused_pane == 0 {
                    (s.panes@.len() - 1) as usize
                } else {
                    (s.focused_pane - 1) as usize
                };
                App {
                    split: Some(SplitState { focused_pane: f, ..s }),
                    active_tab: Some(s.panes@[f as int]),
                    ..a
                }
            },
            None => a,
        },
        OpView::ToggleBroadcast => new == (App { broadcast: !a.broadcast, ..a }) && effects.len()
            == 0,
        OpView::SendText(b) => new == a && input_effects(a.broadcast, a.active_tab, b, effects),
        OpView::TypeKey(b) => new == a && typed_effects(a, b, effects),
        OpView::SwitchToBrowse => new == (App { mode: AppMode::Browse, ..a }) && effects.len()
            == 0,
        OpView::SwitchToTerminal => effects.len() == 0 && new == if a.active_tab is Some {
            App { mode: AppMode::Terminal, ..a }
        } else {
            a
        },
        OpView::OpenPalette => palette_opened(a, new) && effects.len() == 0,
        OpView::CloseTab => effects.len() >= 1 && then_clear(effects.drop_last(), effects)
            && tab_closed(a, new, effects.drop_last()),
        OpView::NextTab => tab_advanced(a, new) && effects.len() == 0,
        OpView::PrevTab => tab_retreated(a, new) && effects.len() == 0,
        OpView::CloseHelp => new == (App { mode: a.prev_mode, ..a }) && effects.len() == 0,
        OpView::HelpUp(n) => effects.len() == 0 && new == (App {
            help_scroll: if a.help_scroll >= n {
                (a.help_scroll - n) as usize
            } else {
                0
            },
            ..a
        }),
        OpView::HelpDown(n) => effects.len() == 0 && new == (App {
            help_scroll: if a.help_scroll + n <= usize::MAX {
                (a.help_scroll + n) as usize
            } else {
                usize::MAX
            },
            ..a
        }),
        OpView::GoBack => went_back(a, new) && effects.len() == 0,
        OpView::GlobalConnect => effects.len() >= 1 && then_clear(effects.drop_last(), effects)
            && global_connected(a, new, effects.drop_last()),
        OpView::ConfirmSearch => search_confirmed(a, new) && effects.len() == 0,
        OpView::SearchBackspace => search_erased(a, new) && effects.len() == 0,
        OpView::GlobalUp => global_moved_up(a, new) && effects.len() == 0,
        OpView::GlobalDown => global_moved_down(a, new) && effects.len() == 0,
        OpView::SearchPush(c) => search_typed(a, new, c) && effects.len() == 0,
        OpView::CloseDetail => new == (App { detail_server: None, mode: AppMode::Browse, ..a })
            && effects.len() == 0,
        OpView::ClosePalette => palette_closed(a, new) && effects.len() == 0,
        OpView::PaletteExecute => if new.mode == AppMode::Terminal {
            effects.len() >= 1 && then_clear(effects.drop_last(), effects) && palette_executed(
                a,
                new,
                effects.drop_last(),
            )
        } else {
            palette_executed(a, new, effects)
        },
        OpView::PaletteUp => palette_moved_up(a, new) && effects.len() == 0,
        OpView::PaletteDown => palette_moved_down(a, new) && effects.len() == 0,
        OpView::PaletteBackspace => palette_erased(a, new) && effects.len() == 0,
        OpView::PalettePush(c) => palette_typed(a, new, c) && effects.len() == 0,
        OpView::MoveDown => moved_down(a, new) && effects.len() == 0,
        OpView::MoveUp => moved_up(a, new) && effects.len() == 0,
        OpView::JumpTop => jumped_top(a, new) && effects.len() == 0,
        OpView::JumpBottom => jumped_bottom(a, new) && effects.len() == 0,
        OpView::EnterNav => if new.mode != a.mode {
            effects.len() >= 1 && then_clear(effects.drop_last(), effects) && entered(
                a,
                new,
                effects.drop_last(),
            )
        } else {
            entered(a, new, effects)
        },
        OpView::ToggleSelect => select_toggled(a, new) && effects.len() == 0,
        OpView::EnterSearch => search_started(a, new) && effects.len() == 0,
        OpView::ShowDetail => new == with_detail(a) && effects.len() == 0,
        OpView::CopyIp => new == (App { clipboard_msg: None, ..a }) && effects == ip_copy_effects(
            a,
        ),
        OpView::ToggleSidebarFocus => effects.len() == 0 && new == (App {
            sidebar_focus: match a.sidebar_focus {
                SidebarFocus::Sidebar => SidebarFocus::ServerList,
                SidebarFocus::ServerList => SidebarFocus::Sidebar,
            },
            ..a
        }),
        OpView::ExecuteCommand => commanded(a, new, effects),
        OpView::CancelCommand => effects.len() == 0 && new == (App {
            command_input: new.command_input,
            mode: AppMode::Terminal,
            ..a
        }) && new.command_input@ == Seq::<char>::empty(),
        OpView::CommandBackspace => command_erased(a, new) && effects.len() == 0,
        OpView::CommandPush(c) => command_typed(a, new, c) && effects.len() == 0,
        OpView::ConfirmDanger => danger_confirmed(a, new, effects),
        OpView::CancelDanger => effects.len() == 0 && new == (App {
            danger_command: None,
            danger_broadcast: false,
            mode: AppMode::Terminal,
            ..a
        }),
        OpView::Game(k) => new == a && effects == seq![Effect::GameKey(k)],
    }
}

/// The split, when there is one, has panes.
pub open spec fn panes_present(a: App) -> bool {
    a.split matches Some(s) ==> s.panes@.len() > 0
}

/// The operation moves between tabs or panes, which needs a split with panes.
pub open spec fn needs_panes(op: OpView) -> bool {
    op is FocusNextPane || op is FocusPrevPane || op is NextTab || op is PrevTab
}

impl Op {
    /// Whether the operation moves between tabs or panes.
    pub fn needs_panes(&self) -> (b: bool)
        ensures
            b == needs_panes(op_view(*self)),
    {
        match self {
            Op::FocusNextPane | Op::FocusPrevPane | Op::NextTab | Op::PrevTab => true,
            _ => false,
        }
    }
}

/// What handling `key` does from `old`: in the list view the clipboard
/// message goes first; then the key's operation for the mode (see
/// [`key_action`]) is carried out.
pub open spec fn key_handled(old: App, key: Key, dead: bool, new: App, effects: Seq<Effect>) -> bool {
    let a = if old.mode == AppMode::Browse {
        App { clipboard_msg: None, ..old }
    } else {
        old
    };
    op_done(
        a,
        key_action(old.mode, key, dead, old.is_global_search && old.global_results@.len() > 0),
        new,
        effects,
    )
}

/// What the mouse did.
#[derive(PartialEq, Eq, Structural, Clone, Copy, Debug)]
pub enum MouseKind {
    /// The left button went down.
    LeftDown,
    ScrollUp,
    ScrollDown,
    /// Anything else.
    Other,
}

/// A mouse event at a cell of the screen.
#[derive(PartialEq, Eq, Structural, Clone, Copy, Debug)]
pub struct Mouse {
    pub kind: MouseKind,
    pub column: u16,
    pub row: u16,
}

/// Two clicks at the same cell less than this many milliseconds apart make a
/// double click.
pub const DOUBLE_CLICK_MS: u64 = 400;

/// Whether a click at (`x`, `y`) completes a double click: the last click,
/// `last.2` milliseconds ago, was at the same cell and recent enough.
pub fn is_double_click(last: Option<(u16, u16, u64)>, x: u16, y: u16) -> (b: bool)
    ensures
        b == (last matches Some(l) && l.0 == x && l.1 == y && l.2 < DOUBLE_CLICK_MS),
{
    match last {
        Some((lx, ly, ms)) => lx == x && ly == y && ms < DOUBLE_CLICK_MS,
        None => false,
    }
}

/// The screen area (x, y, width, height) holds the cell (`x`, `y`).
pub open spec fn in_area(a: (u16, u16, u16, u16), x: u16, y: u16) -> bool {
    a.0 <= x < a.0 + a.2 && a.1 <= y < a.1 + a.3
}

/// The area's right and bottom edges are screen coordinates.
pub open spec fn area_fits(a: (u16, u16, u16, u16)) -> bool {
    a.0 + a.2 <= u16::MAX && a.1 + a.3 <= u16::MAX
}

fn area_holds(a: (u16, u16, u16, u16), x: u16, y: u16) -> (b: bool)
    requires
        area_fits(a),
    ensures
        b == in_area(a, x, y),
{
    x >= a.0 && x < a.0 + a.2 && y >= a.1 && y < a.1 + a.3
}

/// `new` and `effects` are what entering the selection of `mid` gives, with
/// the screen redrawn when that shows the terminal.
pub open spec fn entered_and_shown(mid: App, new: App, effects: Seq<Effect>) -> bool {
    if new.mode == AppMode::Terminal {
        effects.len() >= 1 && then_clear(effects.drop_last(), effects) && entered(
            mid,
            new,
            effects.drop_last(),
        )
    } else {
        entered(mid, new, effects)
    }
}

/// `new` and `effects` are what mouse event `m` does from `old` (`double`: it
/// completes a double click). A click selects the sidebar line or the server
/// under it (the server list only while browsing), and a double click also
/// enters it; over a terminal a click on the tab bar switches tabs and a click
/// in a split focuses the pane. The wheel scrolls the list under it.
pub open spec fn mouse_handled(old: App, m: Mouse, double: bool, new: App, effects: Seq<Effect>) -> bool {
    let in_sidebar = in_area(old.mouse_sidebar_area, m.column, m.row);
    let in_list = in_area(old.mouse_serverlist_area, m.column, m.row);
    match m.kind {
        MouseKind::LeftDown => if double {
            if in_sidebar {
                exists|mid: App| sidebar_clicked(old, mid, m.row) && entered_and_shown(mid, new, effects)
            } else if in_list && old.mode == AppMode::Browse {
                exists|mid: App|
                    serverlist_clicked(old, mid, m.row) && entered_and_shown(mid, new, effects)
            } else {
                new == old && effects.len() == 0
            }
        } else {
            &&& effects.len() == 0
            &&& if in_sidebar {
                sidebar_clicked(old, new, m.row)
            } else if in_list && old.mode == AppMode::Browse {
                serverlist_clicked(old, new, m.row)
            } else if old.mode == AppMode::Terminal {
                if old.mouse_tab_bar matches Some(bar) && bar.0 == m.row {
                    tab_clicked(old, new, m.column)
                } else if old.split is Some {
                    pane_clicked(old, new, m.column, m.row)
                } else {
                    new == old
                }
            } else {
                new == old
            }
        },
        MouseKind::ScrollUp | MouseKind::ScrollDown => {
            let up = m.kind == MouseKind::ScrollUp;
            &&& effects.len() == 0
            &&& if in_sidebar {
                sidebar_scrolled(old, new, up)
            } else if in_list {
                serverlist_scrolled(old, new, up)
            } else {
                new == old
            }
        },
        MouseKind::Other => new == old && effects.len() == 0,
    }
}

fn clear_after(mut effects: Vec<Effect>) -> (r: Vec<Effect>)
    ensures
        then_clear(effects@, r@),
        r@.len() >= 1,
        r@.drop_last() == effects@,
{
    let ghost before = effects@;
    effects.push(Effect::ClearScreen);
    assert(effects@.drop_last() =~= before);
    effects
}

impl App {
    /// Whether the split, when there is one, has panes.
    pub fn panes_present(&self) -> (b: bool)
        ensures
            b == panes_present(*self),
    {
        match &self.split {
            Some(s) => s.panes.len() > 0,
            None => true,
        }
    }

    /// Carries out operation `op`.
    pub fn apply(&mut self, op: Op) -> (effects: Vec<Effect>)
        requires
            old(self).wf(),
            needs_panes(op_view(op)) ==> panes_present(*old(self)),
        ensures
            final(self).wf(),
            op_done(*old(self), op_view(op), *final(self), effects@),
    {
        match op {
            Op::Nothing
            | Op::Quit
            | Op::Reconnect
            | Op::DismissDead
            | Op::ShowHelp
            | Op::ScrollBack(..)
            | Op::ScrollForward(..)
            | Op::ToggleSplit
            | Op::FocusNextPane
            | Op::FocusPrevPane
            | Op::ToggleBroadcast
            | Op::SendText(..)
            | Op::TypeKey(..)
            | Op::SwitchToBrowse
            | Op::SwitchToTerminal
            | Op::OpenPalette
            | Op::CloseTab
            | Op::NextTab
            | Op::PrevTab
            | Op::Game(..) => self.apply_terminal(op),
            Op::CloseHelp
            | Op::HelpUp(..)
            | Op::HelpDown(..)
            | Op::GoBack
            | Op::GlobalConnect
            | Op::ConfirmSearch
            | Op::SearchBackspace
            | Op::GlobalUp
            | Op::GlobalDown
            | Op::SearchPush(..)
            | Op::CloseDetail => self.apply_search(op),
            Op::ClosePalette
            | Op::PaletteExecute
            | Op::PaletteUp
            | Op::PaletteDown
            | Op::PaletteBackspace
            | Op::PalettePush(..) => self.apply_palette(op),
            Op::MoveDown
            | Op::MoveUp
            | Op::JumpTop
            | Op::JumpBottom
            | Op::EnterNav
            | Op::ToggleSelect
            | Op::EnterSearch
            | Op::ShowDetail
            | Op::CopyIp
            | Op::ToggleSidebarFocus => self.apply_browse(op),
            Op::ExecuteCommand
            | Op::CancelCommand
            | Op::CommandBackspace
            | Op::CommandPush(..)
            | Op::ConfirmDanger
            | Op::CancelDanger => self.apply_prompt(op),
        }
    }

    /// Carries out an operation over a terminal, or that leave or switch views.
    fn apply_terminal(&mut self, op: Op) -> (effects: Vec<Effect>)
        requires
            old(self).wf(),
            needs_panes(op_view(op)) ==> panes_present(*old(self)),
            op_view(op) is Nothing
                || op_view(op) is Quit
                || op_view(op) is Reconnect
                || op_view(op) is DismissDead
                || op_view(op) is ShowHelp
                || op_view(op) is ScrollBack
                || op_view(op) is ScrollForward
                || op_view(op) is ToggleSplit
                || op_view(op) is FocusNextPane
                || op_view(op) is FocusPrevPane
                || op_view(op) is ToggleBroadcast
                || op_view(op) is SendText
                || op_view(op) is TypeKey
                || op_view(op) is SwitchToBrowse
                || op_view(op) is SwitchToTerminal
                || op_view(op) is OpenPalette
                || op_view(op) is CloseTab
                || op_view(op) is NextTab
                || op_view(op) is PrevTab
                || op_view(op) is Game,
        ensures
            final(self).wf(),
            op_done(*old(self), op_view(op), *final(self), effects@),
    {
        match op {
            Op::Nothing => Vec::new(),
            Op::Quit => {
                let mut e: Vec<Effect> = Vec::new();
                e.push(Effect::Quit);
                e
            },
            Op::Reconnect => clear_after(self.reconnect_active()),
            Op::DismissDead => clear_after(self.dismiss_dead()),
            Op::ShowHelp => {
                self.show_help();
                Vec::new()
            },
            Op::ScrollBack(n) => {
                let mut e: Vec<Effect> = Vec::new();
                if self.active_tab.is_some() {
                    e.push(Effect::ScrollUp(n));
                }
                e
            },
            Op::ScrollForward(n) => {
                let mut e: Vec<Effect> = Vec::new();
                if self.active_tab.is_some() {
                    e.push(Effect::ScrollDown(n));
                }
                e
            },
            Op::ToggleSplit => {
                self.toggle_split();
                let mut e: Vec<Effect> = Vec::new();
                if self.split.is_some() {
                    e.push(Effect::ResizeSplit);
                }
                clear_after(e)
            },
            Op::FocusNextPane => {
                self.focus_pane(true);
                Vec::new()
            },
            Op::FocusPrevPane => {
                self.focus_pane(false);
                Vec::new()
            },
            Op::ToggleBroadcast => {
                self.toggle_broadcast();
                Vec::new()
            },
            Op::SendText(b) => input_to(self.broadcast, self.active_tab, b),
            Op::TypeKey(b) => {
                let mut e: Vec<Effect> = Vec::new();
                if self.broadcast {
                    e.push(Effect::WriteInput(InputTarget::All, b));
                    e.push(Effect::ScrollToBottom(InputTarget::All));
                } else if let Some(i) = self.active_tab {
                    e.push(Effect::WriteInput(InputTarget::Tab(i), b));
                    e.push(Effect::ScrollToBottom(InputTarget::Tab(i)));
                }
                e
            },
            Op::SwitchToBrowse => {
                self.switch_to_browse();
                Vec::new()
            },
            Op::SwitchToTerminal => {
                self.switch_to_terminal();
                Vec::new()
            },
            Op::OpenPalette => {
                self.open_palette();
                Vec::new()
            },
            Op::CloseTab => clear_after(self.close_active_tab()),
            Op::NextTab => {
                self.next_tab();
                Vec::new()
            },
            Op::PrevTab => {
                self.prev_tab();
                Vec::new()
            },
            Op::Game(k) => {
                let mut e: Vec<Effect> = Vec::new();
                e.push(Effect::GameKey(k));
                e
            },
            _ => Vec::new(),
        }
    }

    /// Carries out an operation of the help, the search and the details popup.
    fn apply_search(&mut self, op: Op) -> (effects: Vec<Effect>)
        requires
            old(self).wf(),
            op_view(op) is CloseHelp
                || op_view(op) is HelpUp
                || op_view(op) is HelpDown
                || op_view(op) is GoBack
                || op_view(op) is GlobalConnect
                || op_view(op) is ConfirmSearch
                || op_view(op) is SearchBackspace
                || op_view(op) is GlobalUp
                || op_view(op) is GlobalDown
                || op_view(op) is SearchPush
                || op_view(op) is CloseDetail,
        ensures
            final(self).wf(),
            op_done(*old(self), op_view(op), *final(self), effects@),
    {
        match op {
            Op::CloseHelp => {
                self.close_help();
                Vec::new()
            },
            Op::HelpUp(n) => {
                self.help_scroll = if self.help_scroll >= n {
                    self.help_scroll - n
                } else {
                    0
                };
                Vec::new()
            },
            Op::HelpDown(n) => {
                self.help_scroll = self.help_scroll.saturating_add(n);
                Vec::new()
            },
            Op::GoBack => {
                self.go_back_nav();
                Vec::new()
            },
            Op::GlobalConnect => clear_after(self.global_connect()),
            Op::ConfirmSearch => {
                self.confirm_search();
                Vec::new()
            },
            Op::SearchBackspace => {
                self.search_backspace();
                Vec::new()
            },
            Op::GlobalUp => {
                self.global_move_up();
                Vec::new()
            },
            Op::GlobalDown => {
                self.global_move_down();
                Vec::new()
            },
            Op::SearchPush(c) => {
                self.search_push(c);
                Vec::new()
            },
            Op::CloseDetail => {
                self.close_detail();
                Vec::new()
            },
            _ => Vec::new(),
        }
    }

    /// Carries out an operation of the palette.
    fn apply_palette(&mut self, op: Op) -> (effects: Vec<Effect>)
        requires
            old(self).wf(),
            op_view(op) is ClosePalette
                || op_view(op) is PaletteExecute
                || op_view(op) is PaletteUp
                || op_view(op) is PaletteDown
                || op_view(op) is PaletteBackspace
                || op_view(op) is PalettePush,
        ensures
            final(self).wf(),
            op_done(*old(self), op_view(op), *final(self), effects@),
    {
        match op {
            Op::ClosePalette => {
                self.close_palette();
                Vec::new()
            },
            Op::PaletteExecute => {
                let e = self.palette_execute();
                if self.mode == AppMode::Terminal {
                    clear_after(e)
                } else {
                    e
                }
            },
            Op::PaletteUp => {
                self.palette_move_up();
                Vec::new()
            },
            Op::PaletteDown => {
                self.palette_move_down();
                Vec::new()
            },
            Op::PaletteBackspace => {
                self.palette_backspace();
                Vec::new()
            },
            Op::PalettePush(c) => {
                self.palette_push(c);
                Vec::new()
            },
            _ => Vec::new(),
        }
    }

    /// Carries out an operation of the lists.
    fn apply_browse(&mut self, op: Op) -> (effects: Vec<Effect>)
        requires
            old(self).wf(),
            op_view(op) is MoveDown
                || op_view(op) is MoveUp
                || op_view(op) is JumpTop
                || op_view(op) is JumpBottom
                || op_view(op) is EnterNav
                || op_view(op) is ToggleSelect
                || op_view(op) is EnterSearch
                || op_view(op) is ShowDetail
                || op_view(op) is CopyIp
                || op_view(op) is ToggleSidebarFocus,
        ensures
            final(self).wf(),
            op_done(*old(self), op_view(op), *final(self), effects@),
    {
        match op {
            Op::MoveDown => {
                self.move_down();
                Vec::new()
            },
            Op::MoveUp => {
                self.move_up();
                Vec::new()
            },
            Op::JumpTop => {
                self.jump_top();
                Vec::new()
            },
            Op::JumpBottom => {
                self.jump_bottom();
                Vec::new()
            },
            Op::EnterNav => {
                let before = self.mode;
                let e = self.enter_nav();
                if self.mode != before {
                    clear_after(e)
                } else {
                    e
                }
            },
            Op::ToggleSelect => {
                self.toggle_select();
                Vec::new()
            },
            Op::EnterSearch => {
                self.enter_search();
                Vec::new()
            },
            Op::ShowDetail => {
                self.show_detail();
                Vec::new()
            },
            Op::CopyIp => self.copy_ip(),
            Op::ToggleSidebarFocus => {
                self.toggle_sidebar_focus();
                Vec::new()
            },
            _ => Vec::new(),
        }
    }

    /// Carries out an operation of the command prompt and the danger confirmation.
    fn apply_prompt(&mut self, op: Op) -> (effects: Vec<Effect>)
        requires
            old(self).wf(),
            op_view(op) is ExecuteCommand
                || op_view(op) is CancelCommand
                || op_view(op) is CommandBackspace
                || op_view(op) is CommandPush
                || op_view(op) is ConfirmDanger
                || op_view(op) is CancelDanger,
        ensures
            final(self).wf(),
            op_done(*old(self), op_view(op), *final(self), effects@),
    {
        match op {
            Op::ExecuteCommand => self.execute_command_input(),
            Op::CancelCommand => {
                self.cancel_command_input();
                Vec::new()
            },
            Op::CommandBackspace => {
                self.command_input_backspace();
                Vec::new()
            },
            Op::CommandPush(c) => {
                self.command_input_push(c);
                Vec::new()
            },
            Op::ConfirmDanger => self.confirm_danger(),
            Op::CancelDanger => {
                self.cancel_danger();
                Vec::new()
            },
            _ => Vec::new(),
        }
    }

    /// Moves the focus to the next (`forward`) or previous pane of the split,
    /// wrapping around; the pane's tab becomes active.
    fn focus_pane(&mut self, forward: bool)
        requires
            old(self).wf(),
            panes_present(*old(self)),
        ensures
            final(self).wf(),
            op_done(
                *old(self),
                if forward {
                    OpView::FocusNextPane
                } else {
                    OpView::FocusPrevPane
                },
                *final(self),
                Seq::empty(),
            ),
    {
        if let Some(mut s) = self.split.take() {
            let len = s.panes.len();
            let f = if forward {
                (s.focused_pane + 1) % len
            } else if s.focused_pane == 0 {
                len - 1
            } else {
                s.focused_pane - 1
            };
            s.focused_pane = f;
            self.active_tab = Some(s.panes[f]);
            self.split = Some(s);
        }
    }

    /// Handles a mouse event; `double` tells whether it completes a double
    /// click (see [`is_double_click`]).
    pub fn handle_mouse(&mut self, m: Mouse, double: bool) -> (effects: Vec<Effect>)
        requires
            old(self).wf(),
            area_fits(old(self).mouse_sidebar_area),
            area_fits(old(self).mouse_serverlist_area),
            old(self).mouse_serverlist_area.1 < u16::MAX,
        ensures
            final(self).wf(),
            mouse_handled(*old(self), m, double, *final(self), effects@),
    {
        let in_sidebar = area_holds(self.mouse_sidebar_area, m.column, m.row);
        let in_list = area_holds(self.mouse_serverlist_area, m.column, m.row);
        match m.kind {
            MouseKind::LeftDown => {
                if double {
                    if in_sidebar || (in_list && self.mode == AppMode::Browse) {
                        let ghost before = *self;
                        if in_sidebar {
                            self.mouse_click_sidebar(m.row);
                        } else {
                            self.mouse_click_serverlist(m.row);
                        }
                        let ghost mid = *self;
                        assert(mid.wf());
                        let e = self.enter_nav();
                        let r = if self.mode == AppMode::Terminal {
                            clear_after(e)
                        } else {
                            e
                        };
                        assert(entered_and_shown(mid, *self, r@));
                        assert(in_sidebar ==> sidebar_clicked(before, mid, m.row));
                        assert(!in_sidebar ==> serverlist_clicked(before, mid, m.row));
                        r
                    } else {
                        Vec::new()
                    }
                } else {
                    if in_sidebar {
                        self.mouse_click_sidebar(m.row);
                    } else if in_list && self.mode == AppMode::Browse {
                        self.mouse_click_serverlist(m.row);
                    } else if self.mode == AppMode::Terminal {
                        let on_tab_bar = match &self.mouse_tab_bar {
                            Some(bar) => bar.0 == m.row,
                            None => false,
                        };
                        if on_tab_bar {
                            self.mouse_click_tab(m.column);
                        } else if self.split.is_some() {
                            self.mouse_click_split_pane(m.column, m.row);
                        }
                    }
                    Vec::new()
                }
            },
            MouseKind::ScrollUp | MouseKind::ScrollDown => {
                let up = m.kind == MouseKind::ScrollUp;
                if in_sidebar {
                    self.mouse_scroll_sidebar(up);
                } else if in_list {
                    self.mouse_scroll_serverlist(up);
                }
                Vec::new()
            },
            MouseKind::Other => Vec::new(),
        }
    }

    /// Whether the key moves between tabs or panes in the current mode (see
    /// [`needs_panes`]).
    pub fn key_needs_panes(&self, key: Key, active_dead: bool) -> (b: bool)
        ensures
            b == needs_panes(
                key_action(
                    self.mode,
                    key,
                    active_dead,
                    self.is_global_search && self.global_results@.len() > 0,
                ),
            ),
    {
        let global_hits = self.is_global_search && self.global_results.len() > 0;
        key_op(self.mode, key, active_dead, global_hits).needs_panes()
    }

    /// Handles a key press; `active_dead` tells whether the active session has
    /// ended.
    pub fn handle_key(&mut self, key: Key, active_dead: bool) -> (effects: Vec<Effect>)
        requires
            old(self).wf(),
            needs_panes(
                key_action(
                    old(self).mode,
                    key,
                    active_dead,
                    old(self).is_global_search && old(self).global_results@.len() > 0,
                ),
            ) ==> panes_present(*old(self)),
        ensures
            final(self).wf(),
            key_handled(*old(self), key, active_dead, *final(self), effects@),
    {
        let global_hits = self.is_global_search && self.global_results.len() > 0;
        let op = key_op(self.mode, key, active_dead, global_hits);
        if self.mode == AppMode::Browse {
            self.clipboard_msg = None;
        }
        self.apply(op)
    }
}

} // verus!
