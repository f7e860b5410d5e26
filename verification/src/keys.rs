//! Keys: the bytes a key sends to a remote terminal, and what each key does
//! in each mode of the application.
use vstd::prelude::*;

use crate::app::AppMode;
use crate::text::{push_char, utf8_bytes};

verus! {

/// A key, as the terminal reports it.
#[derive(PartialEq, Eq, Structural, Clone, Copy, Debug)]
pub enum KeyCode {
    Char(char),
    Enter,
    Backspace,
    Delete,
    Tab,
    BackTab,
    Esc,
    Up,
    Down,
    Left,
    Right,
    Home,
    End,
    PageUp,
    PageDown,
    /// Function key `F<n>`.
    F(u8),
    /// Any other key.
    Other,
}

/// A key press with its modifiers.
#[derive(PartialEq, Eq, Structural, Clone, Copy, Debug)]
pub struct Key {
    pub code: KeyCode,
    pub ctrl: bool,
    pub shift: bool,
    pub alt: bool,
}

/// `ESC` followed by `tail`.
pub open spec fn esc(tail: Seq<u8>) -> Seq<u8> {
    seq![27u8] + tail
}

/// `ESC [` followed by `tail`.
pub open spec fn csi(tail: Seq<u8>) -> Seq<u8> {
    esc(seq![91u8] + tail)
}

/// An ASCII letter.
pub open spec fn ascii_letter(c: char) -> bool {
    ('a' <= c && c <= 'z') || ('A' <= c && c <= 'Z')
}

/// The control byte of a letter: `Ctrl+A` is 1, ..., `Ctrl+Z` is 26, either case.
pub open spec fn ctrl_byte(c: char) -> u8 {
    if 'A' <= c && c <= 'Z' {
        (c as int - 'A' as int + 1) as u8
    } else {
        (c as int - 'a' as int + 1) as u8
    }
}

/// The bytes a key sends to the remote terminal, in xterm's encoding: none
/// for keys it has no sequence for.
pub open spec fn key_bytes(code: KeyCode, ctrl: bool, shift: bool, alt: bool) -> Option<Seq<u8>> {
    match code {
        KeyCode::Enter => Some(seq![13u8]),
        KeyCode::Backspace => Some(seq![127u8]),
        KeyCode::Delete => Some(csi(seq![51u8, 126u8])),
        KeyCode::Tab => Some(
            if shift {
                csi(seq![90u8])
            } else {
                seq![9u8]
            },
        ),
        KeyCode::Esc => Some(seq![27u8]),
        KeyCode::Up => Some(csi(seq![65u8])),
        KeyCode::Down => Some(csi(seq![66u8])),
        KeyCode::Right => Some(csi(seq![67u8])),
        KeyCode::Left => Some(csi(seq![68u8])),
        KeyCode::Home => Some(csi(seq![72u8])),
        KeyCode::End => Some(csi(seq![70u8])),
        KeyCode::PageUp => Some(csi(seq![53u8, 126u8])),
        KeyCode::PageDown => Some(csi(seq![54u8, 126u8])),
        KeyCode::F(n) => if n == 1 {
            Some(esc(seq![79u8, 80u8]))
        } else if n == 2 {
            Some(esc(seq![79u8, 81u8]))
        } else if n == 3 {
            Some(esc(seq![79u8, 82u8]))
        } else if n == 4 {
            Some(esc(seq![79u8, 83u8]))
        } else if n == 5 {
            Some(csi(seq![49u8, 53u8, 126u8]))
        } else if n == 6 {
            Some(csi(seq![49u8, 55u8, 126u8]))
        } else if n == 7 {
            Some(csi(seq![49u8, 56u8, 126u8]))
        } else if n == 8 {
            Some(csi(seq![49u8, 57u8, 126u8]))
        } else if n == 9 {
            Some(csi(seq![50u8, 48u8, 126u8]))
        } else if n == 10 {
            Some(csi(seq![50u8, 49u8, 126u8]))
        } else if n == 11 {
            Some(csi(seq![50u8, 51u8, 126u8]))
        } else if n == 12 {
            Some(csi(seq![50u8, 52u8, 126u8]))
        } else {
            None
        },
        KeyCode::Char(c) => if ctrl && ascii_letter(c) {
            Some(seq![ctrl_byte(c)])
        } else if ctrl && c == '[' {
            Some(seq![27u8])
        } else if alt {
            Some(seq![27u8] + vstd::utf8::encode_utf8(seq![c]))
        } else {
            Some(vstd::utf8::encode_utf8(seq![c]))
        },
        _ => None,
    }
}

/// The UTF-8 bytes of `c`.
fn char_bytes(c: char) -> (v: Vec<u8>)
    ensures
        v@ == vstd::utf8::encode_utf8(seq![c]),
{
    let s = push_char(&String::new(), c);
    assert(s@ =~= seq![c]);
    utf8_bytes(s.as_str())
}

/// The bytes a key sends to the remote terminal (see [`key_bytes`]).
pub fn key_to_bytes(code: KeyCode, ctrl: bool, shift: bool, alt: bool) -> (r: Option<Vec<u8>>)
    ensures
        match key_bytes(code, ctrl, shift, alt) {
            Some(b) => r matches Some(v) && v@ == b,
            None => r is None,
        },
{
    let mut v: Vec<u8> = Vec::new();
    match code {
        KeyCode::Enter => {
            v.push(13);
        },
        KeyCode::Backspace => {
            v.push(127);
        },
        KeyCode::Delete => {
            v.push(27);
            v.push(91);
            v.push(51);
            v.push(126);
        },
        KeyCode::Tab => {
            if shift {
                v.push(27);
                v.push(91);
                v.push(90);
            } else {
                v.push(9);
            }
        },
        KeyCode::Esc => {
            v.push(27);
        },
        KeyCode::Up | KeyCode::Down | KeyCode::Right | KeyCode::Left | KeyCode::Home
        | KeyCode::End => {
            v.push(27);
            v.push(91);
            v.push(
                match code {
                    KeyCode::Up => 65,
                    KeyCode::Down => 66,
                    KeyCode::Right => 67,
                    KeyCode::Left => 68,
                    KeyCode::Home => 72,
                    _ => 70,
                },
            );
        },
        KeyCode::PageUp => {
            v.push(27);
            v.push(91);
            v.push(53);
            v.push(126);
        },
        KeyCode::PageDown => {
            v.push(27);
            v.push(91);
            v.push(54);
            v.push(126);
        },
        KeyCode::F(n) => {
            if n >= 1 && n <= 4 {
                v.push(27);
                v.push(79);
                v.push(79 + n);
            } else if n >= 5 && n <= 12 {
                v.push(27);
                v.push(91);
                let (d1, d2): (u8, u8) = if n == 5 {
                    (49, 53)
                } else if n == 6 {
                    (49, 55)
                } else if n == 7 {
                    (49, 56)
                } else if n == 8 {
                    (49, 57)
                } else if n == 9 {
                    (50, 48)
                } else if n == 10 {
                    (50, 49)
                } else if n == 11 {
                    (50, 51)
                } else {
                    (50, 52)
                };
                v.push(d1);
                v.push(d2);
                v.push(126);
            } else {
                return None;
            }
        },
        KeyCode::Char(c) => {
            let letter = ('a' <= c && c <= 'z') || ('A' <= c && c <= 'Z');
            if ctrl && letter {
                let b: u8 = if 'A' <= c && c <= 'Z' {
                    (c as u32 - 'A' as u32 + 1) as u8
                } else {
                    (c as u32 - 'a' as u32 + 1) as u8
                };
                v.push(b);
            } else if ctrl && c == '[' {
                v.push(27);
            } else {
                if alt {
                    v.push(27);
                }
                let mut cb = char_bytes(c);
                v.append(&mut cb);
            }
        },
        _ => {
            return None;
        },
    }
    assert(match key_bytes(code, ctrl, shift, alt) {
        Some(b) => v@ =~= b,
        None => false,
    });
    Some(v)
}

/// What a key asks of the application.
#[derive(Clone, Debug)]
pub enum Op {
    /// The key does nothing.
    Nothing,
    /// Leave the application.
    Quit,
    /// Reconnect the dead active session.
    Reconnect,
    /// Close the dead active session.
    DismissDead,
    ShowHelp,
    /// Scroll the terminal back this many lines.
    ScrollBack(usize),
    /// Scroll the terminal forward this many lines.
    ScrollForward(usize),
    ToggleSplit,
    /// Focus the next pane of the split.
    FocusNextPane,
    /// Focus the previous pane of the split.
    FocusPrevPane,
    ToggleBroadcast,
    /// Type this command line into the terminal(s).
    SendText(Vec<u8>),
    /// Send a key's bytes to the terminal(s), back at the bottom of their output.
    TypeKey(Vec<u8>),
    SwitchToBrowse,
    SwitchToTerminal,
    OpenPalette,
    CloseTab,
    NextTab,
    PrevTab,
    CloseHelp,
    /// Scroll the help this many lines up.
    HelpUp(usize),
    /// Scroll the help this many lines down.
    HelpDown(usize),
    GoBack,
    GlobalConnect,
    ConfirmSearch,
    SearchBackspace,
    GlobalUp,
    GlobalDown,
    SearchPush(char),
    CloseDetail,
    ClosePalette,
    PaletteExecute,
    PaletteUp,
    PaletteDown,
    PaletteBackspace,
    PalettePush(char),
    MoveDown,
    MoveUp,
    JumpTop,
    JumpBottom,
    EnterNav,
    ToggleSelect,
    EnterSearch,
    ShowDetail,
    CopyIp,
    ToggleSidebarFocus,
    ExecuteCommand,
    CancelCommand,
    CommandBackspace,
    CommandPush(char),
    ConfirmDanger,
    CancelDanger,
    /// A key of the arcade game.
    Game(KeyCode),
}

/// What an operation is, as plain values (the bytes of the sending ones by
/// their content).
pub enum OpView {
    Nothing,
    Quit,
    Reconnect,
    DismissDead,
    ShowHelp,
    ScrollBack(usize),
    ScrollForward(usize),
    ToggleSplit,
    FocusNextPane,
    FocusPrevPane,
    ToggleBroadcast,
    SendText(Seq<u8>),
    TypeKey(Seq<u8>),
    SwitchToBrowse,
    SwitchToTerminal,
    OpenPalette,
    CloseTab,
    NextTab,
    PrevTab,
    CloseHelp,
    HelpUp(usize),
    HelpDown(usize),
    GoBack,
    GlobalConnect,
    ConfirmSearch,
    SearchBackspace,
    GlobalUp,
    GlobalDown,
    SearchPush(char),
    CloseDetail,
    ClosePalette,
    PaletteExecute,
    PaletteUp,
    PaletteDown,
    PaletteBackspace,
    PalettePush(char),
    MoveDown,
    MoveUp,
    JumpTop,
    JumpBottom,
    EnterNav,
    ToggleSelect,
    EnterSearch,
    ShowDetail,
    CopyIp,
    ToggleSidebarFocus,
    ExecuteCommand,
    CancelCommand,
    CommandBackspace,
    CommandPush(char),
    ConfirmDanger,
    CancelDanger,
    Game(KeyCode),
}

pub open spec fn op_view(op: Op) -> OpView {
    match op {
        Op::Nothing => OpView::Nothing,
        Op::Quit => OpView::Quit,
        Op::Reconnect => OpView::Reconnect,
        Op::DismissDead => OpView::DismissDead,
        Op::ShowHelp => OpView::ShowHelp,
        Op::ScrollBack(n) => OpView::ScrollBack(n),
        Op::ScrollForward(n) => OpView::ScrollForward(n),
        Op::ToggleSplit => OpView::ToggleSplit,
        Op::FocusNextPane => OpView::FocusNextPane,
        Op::FocusPrevPane => OpView::FocusPrevPane,
        Op::ToggleBroadcast => OpView::ToggleBroadcast,
        Op::SendText(b) => OpView::SendText(b@),
        Op::TypeKey(b) => OpView::TypeKey(b@),
        Op::SwitchToBrowse => OpView::SwitchToBrowse,
        Op::SwitchToTerminal => OpView::SwitchToTerminal,
        Op::OpenPalette => OpView::OpenPalette,
        Op::CloseTab => OpView::CloseTab,
        Op::NextTab => OpView::NextTab,
        Op::PrevTab => OpView::PrevTab,
        Op::CloseHelp => OpView::CloseHelp,
        Op::HelpUp(n) => OpView::HelpUp(n),
        Op::HelpDown(n) => OpView::HelpDown(n),
        Op::GoBack => OpView::GoBack,
        Op::GlobalConnect => OpView::GlobalConnect,
        Op::ConfirmSearch => OpView::ConfirmSearch,
        Op::SearchBackspace => OpView::SearchBackspace,
        Op::GlobalUp => OpView::GlobalUp,
        Op::GlobalDown => OpView::GlobalDown,
        Op::SearchPush(c) => OpView::SearchPush(c),
        Op::CloseDetail => OpView::CloseDetail,
        Op::ClosePalette => OpView::ClosePalette,
        Op::PaletteExecute => OpView::PaletteExecute,
        Op::PaletteUp => OpView::PaletteUp,
        Op::PaletteDown => OpView::PaletteDown,
        Op::PaletteBackspace => OpView::PaletteBackspace,
        Op::PalettePush(c) => OpView::PalettePush(c),
        Op::MoveDown => OpView::MoveDown,
        Op::MoveUp => OpView::MoveUp,
        Op::JumpTop => OpView::JumpTop,
        Op::JumpBottom => OpView::JumpBottom,
        Op::EnterNav => OpView::EnterNav,
        Op::ToggleSelect => OpView::ToggleSelect,
        Op::EnterSearch => OpView::EnterSearch,
        Op::ShowDetail => OpView::ShowDetail,
        Op::CopyIp => OpView::CopyIp,
        Op::ToggleSidebarFocus => OpView::ToggleSidebarFocus,
        Op::ExecuteCommand => OpView::ExecuteCommand,
        Op::CancelCommand => OpView::CancelCommand,
        Op::CommandBackspace => OpView::CommandBackspace,
        Op::CommandPush(c) => OpView::CommandPush(c),
        Op::ConfirmDanger => OpView::ConfirmDanger,
        Op::CancelDanger => OpView::CancelDanger,
        Op::Game(k) => OpView::Game(k),
    }
}

/// What a key does over a terminal: with the session dead, Enter reconnects
/// and Esc closes it; otherwise F1 is help, Shift+PageUp/PageDown scroll, F2
/// cycles the split, F3/F4 move between panes, F5 toggles broadcast, F6-F8
/// type `htop`, `docker ps -a` and `journalctl -f --no-pager`, Ctrl+B goes
/// to the list, Ctrl+P opens the palette, Ctrl+W closes the tab, Ctrl+Tab and
/// Ctrl+BackTab change tab, and any other key goes to the terminal.
pub open spec fn terminal_key(key: Key, dead: bool) -> OpView {
    if dead {
        match key.code {
            KeyCode::Enter => OpView::Reconnect,
            KeyCode::Esc => OpView::DismissDead,
            _ => OpView::Nothing,
        }
    } else if key.code == KeyCode::F(1) {
        OpView::ShowHelp
    } else if key.shift && key.code == KeyCode::PageUp {
        OpView::ScrollBack(10)
    } else if key.shift && key.code == KeyCode::PageDown {
        OpView::ScrollForward(10)
    } else if key.code == KeyCode::F(2) {
        OpView::ToggleSplit
    } else if key.code == KeyCode::F(3) {
        OpView::FocusNextPane
    } else if key.code == KeyCode::F(4) {
        OpView::FocusPrevPane
    } else if key.code == KeyCode::F(5) {
        OpView::ToggleBroadcast
    } else if key.code == KeyCode::F(6) {
        OpView::SendText("htop\n"@.map_values(|c: char| c as u8))
    } else if key.code == KeyCode::F(7) {
        OpView::SendText("docker ps -a\n"@.map_values(|c: char| c as u8))
    } else if key.code == KeyCode::F(8) {
        OpView::SendText("journalctl -f --no-pager\n"@.map_values(|c: char| c as u8))
    } else if key.ctrl && key.code == KeyCode::Char('b') {
        OpView::SwitchToBrowse
    } else if key.ctrl && key.code == KeyCode::Char('p') {
        OpView::OpenPalette
    } else if key.ctrl && key.code == KeyCode::Char('w') {
        OpView::CloseTab
    } else if key.ctrl && key.code == KeyCode::Tab {
        OpView::NextTab
    } else if key.ctrl && key.code == KeyCode::BackTab {
        OpView::PrevTab
    } else {
        match key_bytes(key.code, key.ctrl, key.shift, key.alt) {
            Some(b) => OpView::TypeKey(b),
            None => OpView::Nothing,
        }
    }
}

/// What a key does in the list view: Ctrl+C quits, Ctrl+P opens the palette,
/// Ctrl+T shows the terminal; `q` quits, `j`/`k` and the arrows move, `g`/`G`
/// jump to the top and bottom, `l`, Right and Enter enter, `h`, Left and Esc
/// go back, Space marks, `/` searches, `i` shows details, `c` copies the
/// address, Tab switches list, F1 is help.
pub open spec fn browse_key(key: Key) -> OpView {
    if key.ctrl && key.code == KeyCode::Char('c') {
        OpView::Quit
    } else if key.ctrl && key.code == KeyCode::Char('p') {
        OpView::OpenPalette
    } else if key.ctrl && key.code == KeyCode::Char('t') {
        OpView::SwitchToTerminal
    } else {
        match key.code {
            KeyCode::Char(c) => if c == 'q' {
                OpView::Quit
            } else if c == 'j' {
                OpView::MoveDown
            } else if c == 'k' {
                OpView::MoveUp
            } else if c == 'g' {
                OpView::JumpTop
            } else if c == 'G' {
                OpView::JumpBottom
            } else if c == 'l' {
                OpView::EnterNav
            } else if c == 'h' {
                OpView::GoBack
            } else if c == ' ' {
                OpView::ToggleSelect
            } else if c == '/' {
                OpView::EnterSearch
            } else if c == 'i' {
                OpView::ShowDetail
            } else if c == 'c' {
                OpView::CopyIp
            } else {
                OpView::Nothing
            },
            KeyCode::Down => OpView::MoveDown,
            KeyCode::Up => OpView::MoveUp,
            KeyCode::Right | KeyCode::Enter => OpView::EnterNav,
            KeyCode::Left | KeyCode::Esc => OpView::GoBack,
            KeyCode::Tab => OpView::ToggleSidebarFocus,
            KeyCode::F(n) => if n == 1 {
                OpView::ShowHelp
            } else {
                OpView::Nothing
            },
            _ => OpView::Nothing,
        }
    }
}

/// What key `key` does in mode `mode` (`dead`: the active session has ended;
/// `global_hits`: a search over every category has results).
pub open spec fn key_action(mode: AppMode, key: Key, dead: bool, global_hits: bool) -> OpView {
    match mode {
        AppMode::Terminal => terminal_key(key, dead),
        AppMode::Help => match key.code {
            KeyCode::Esc => OpView::CloseHelp,
            KeyCode::F(n) => if n == 1 {
                OpView::CloseHelp
            } else {
                OpView::Nothing
            },
            KeyCode::Char(c) => if c == 'q' {
                OpView::CloseHelp
            } else if c == 'k' {
                OpView::HelpUp(1)
            } else if c == 'j' {
                OpView::HelpDown(1)
            } else {
                OpView::Nothing
            },
            KeyCode::Up => OpView::HelpUp(1),
            KeyCode::Down => OpView::HelpDown(1),
            KeyCode::PageUp => OpView::HelpUp(10),
            KeyCode::PageDown => OpView::HelpDown(10),
            _ => OpView::Nothing,
        },
        AppMode::Search => match key.code {
            KeyCode::F(n) => if n == 1 {
                OpView::ShowHelp
            } else {
                OpView::Nothing
            },
            KeyCode::Esc => OpView::GoBack,
            KeyCode::Enter => if global_hits {
                OpView::GlobalConnect
            } else {
                OpView::ConfirmSearch
            },
            KeyCode::Backspace => OpView::SearchBackspace,
            KeyCode::Up => OpView::GlobalUp,
            KeyCode::Down => OpView::GlobalDown,
            KeyCode::Char(c) => OpView::SearchPush(c),
            _ => OpView::Nothing,
        },
        AppMode::Detail => match key.code {
            KeyCode::Esc => OpView::CloseDetail,
            KeyCode::Char(c) => if c == 'i' {
                OpView::CloseDetail
            } else {
                OpView::Nothing
            },
            _ => OpView::Nothing,
        },
        AppMode::Palette => match key.code {
            KeyCode::Esc => OpView::ClosePalette,
            KeyCode::Enter => OpView::PaletteExecute,
            KeyCode::Up => OpView::PaletteUp,
            KeyCode::Down => OpView::PaletteDown,
            KeyCode::Backspace => OpView::PaletteBackspace,
            KeyCode::Char(c) => OpView::PalettePush(c),
            _ => OpView::Nothing,
        },
        AppMode::Browse => browse_key(key),
        AppMode::CommandInput => match key.code {
            KeyCode::Enter => OpView::ExecuteCommand,
            KeyCode::Esc => OpView::CancelCommand,
            KeyCode::Backspace => OpView::CommandBackspace,
            KeyCode::Char(c) => OpView::CommandPush(c),
            _ => OpView::Nothing,
        },
        AppMode::ConfirmDanger => match key.code {
            KeyCode::Enter => OpView::ConfirmDanger,
            KeyCode::Esc => OpView::CancelDanger,
            KeyCode::Char(c) => if c == 'y' || c == 'Y' {
                OpView::ConfirmDanger
            } else if c == 'n' || c == 'N' {
                OpView::CancelDanger
            } else {
                OpView::Nothing
            },
            _ => OpView::Nothing,
        },
        AppMode::Doom => match key.code {
            KeyCode::Esc => OpView::GoBack,
            _ => OpView::Game(key.code),
        },
    }
}

fn ascii_bytes(s: &str) -> (v: Vec<u8>)
    requires
        forall|i: int| 0 <= i < s@.len() ==> (s@[i] as u32) < 128,
    ensures
        v@ == s@.map_values(|c: char| c as u8),
{
    let cs = crate::text::chars_of(s);
    let mut v: Vec<u8> = Vec::new();
    let mut i: usize = 0;
    while i < cs.len()
        invariant
            i <= cs@.len(),
            cs@ == s@,
            forall|j: int| 0 <= j < s@.len() ==> (s@[j] as u32) < 128,
            v@ == s@.take(i as int).map_values(|c: char| c as u8),
        decreases cs@.len() - i,
    {
        let c = cs[i];
        v.push(c as u8);
        assert(s@.take(i + 1) =~= s@.take(i as int).push(c));
        assert(v@ =~= s@.take(i + 1).map_values(|c: char| c as u8));
        i = i + 1;
    }
    assert(s@.take(i as int) =~= s@);
    v
}

fn text_op(s: &str) -> (op: Op)
    requires
        forall|i: int| 0 <= i < s@.len() ==> (s@[i] as u32) < 128,
    ensures
        op_view(op) == OpView::SendText(s@.map_values(|c: char| c as u8)),
{
    Op::SendText(ascii_bytes(s))
}

/// What a key does over a terminal (see [`terminal_key`]).
fn terminal_op(key: Key, dead: bool) -> (op: Op)
    ensures
        op_view(op) == terminal_key(key, dead),
{
    if dead {
        return match key.code {
            KeyCode::Enter => Op::Reconnect,
            KeyCode::Esc => Op::DismissDead,
            _ => Op::Nothing,
        };
    }
    if key.code == KeyCode::F(1) {
        Op::ShowHelp
    } else if key.shift && key.code == KeyCode::PageUp {
        Op::ScrollBack(10)
    } else if key.shift && key.code == KeyCode::PageDown {
        Op::ScrollForward(10)
    } else if key.code == KeyCode::F(2) {
        Op::ToggleSplit
    } else if key.code == KeyCode::F(3) {
        Op::FocusNextPane
    } else if key.code == KeyCode::F(4) {
        Op::FocusPrevPane
    } else if key.code == KeyCode::F(5) {
        Op::ToggleBroadcast
    } else if key.code == KeyCode::F(6) {
        proof {
            reveal_strlit("htop\n");
        }
        text_op("htop\n")
    } else if key.code == KeyCode::F(7) {
        proof {
            reveal_strlit("docker ps -a\n");
        }
        text_op("docker ps -a\n")
    } else if key.code == KeyCode::F(8) {
        proof {
            reveal_strlit("journalctl -f --no-pager\n");
        }
        text_op("journalctl -f --no-pager\n")
    } else if key.ctrl && key.code == KeyCode::Char('b') {
        Op::SwitchToBrowse
    } else if key.ctrl && key.code == KeyCode::Char('p') {
        Op::OpenPalette
    } else if key.ctrl && key.code == KeyCode::Char('w') {
        Op::CloseTab
    } else if key.ctrl && key.code == KeyCode::Tab {
        Op::NextTab
    } else if key.ctrl && key.code == KeyCode::BackTab {
        Op::PrevTab
    } else {
        match key_to_bytes(key.code, key.ctrl, key.shift, key.alt) {
            Some(b) => Op::TypeKey(b),
            None => Op::Nothing,
        }
    }
}

fn browse_op(key: Key) -> (op: Op)
    ensures
        op_view(op) == browse_key(key),
{
    if key.ctrl && key.code == KeyCode::Char('c') {
        Op::Quit
    } else if key.ctrl && key.code == KeyCode::Char('p') {
        Op::OpenPalette
    } else if key.ctrl && key.code == KeyCode::Char('t') {
        Op::SwitchToTerminal
    } else {
        match key.code {
            KeyCode::Char(c) => if c == 'q' {
                Op::Quit
            } else if c == 'j' {
                Op::MoveDown
            } else if c == 'k' {
                Op::MoveUp
            } else if c == 'g' {
                Op::JumpTop
            } else if c == 'G' {
                Op::JumpBottom
            } else if c == 'l' {
                Op::EnterNav
            } else if c == 'h' {
                Op::GoBack
            } else if c == ' ' {
                Op::ToggleSelect
            } else if c == '/' {
                Op::EnterSearch
            } else if c == 'i' {
                Op::ShowDetail
            } else if c == 'c' {
                Op::CopyIp
            } else {
                Op::Nothing
            },
            KeyCode::Down => Op::MoveDown,
            KeyCode::Up => Op::MoveUp,
            KeyCode::Right | KeyCode::Enter => Op::EnterNav,
            KeyCode::Left | KeyCode::Esc => Op::GoBack,
            KeyCode::Tab => Op::ToggleSidebarFocus,
            KeyCode::F(n) => if n == 1 {
                Op::ShowHelp
            } else {
                Op::Nothing
            },
            _ => Op::Nothing,
        }
    }
}

/// What key `key` does in mode `mode` (see [`key_action`]).
pub fn key_op(mode: AppMode, key: Key, dead: bool, global_hits: bool) -> (op: Op)
    ensures
        op_view(op) == key_action(mode, key, dead, global_hits),
{
    match mode {
        AppMode::Terminal => terminal_op(key, dead),
        AppMode::Help => match key.code {
            KeyCode::Esc => Op::CloseHelp,
            KeyCode::F(n) => if n == 1 {
                Op::CloseHelp
            } else {
                Op::Nothing
            },
            KeyCode::Char(c) => if c == 'q' {
                Op::CloseHelp
            } else if c == 'k' {
                Op::HelpUp(1)
            } else if c == 'j' {
                Op::HelpDown(1)
            } else {
                Op::Nothing
            },
            KeyCode::Up => Op::HelpUp(1),
            KeyCode::Down => Op::HelpDown(1),
            KeyCode::PageUp => Op::HelpUp(10),
            KeyCode::PageDown => Op::HelpDown(10),
            _ => Op::Nothing,
        },
        AppMode::Search => match key.code {
            KeyCode::F(n) => if n == 1 {
                Op::ShowHelp
            } else {
                Op::Nothing
            },
            KeyCode::Esc => Op::GoBack,
            KeyCode::Enter => if global_hits {
                Op::GlobalConnect
            } else {
                Op::ConfirmSearch
            },
            KeyCode::Backspace => Op::SearchBackspace,
            KeyCode::Up => Op::GlobalUp,
            KeyCode::Down => Op::GlobalDown,
            KeyCode::Char(c) => Op::SearchPush(c),
            _ => Op::Nothing,
        },
        AppMode::Detail => match key.code {
            KeyCode::Esc => Op::CloseDetail,
            KeyCode::Char(c) => if c == 'i' {
                Op::CloseDetail
            } else {
                Op::Nothing
            },
            _ => Op::Nothing,
        },
        AppMode::Palette => match key.code {
            KeyCode::Esc => Op::ClosePalette,
            KeyCode::Enter => Op::PaletteExecute,
            KeyCode::Up => Op::PaletteUp,
            KeyCode::Down => Op::PaletteDown,
            KeyCode::Backspace => Op::PaletteBackspace,
            KeyCode::Char(c) => Op::PalettePush(c),
            _ => Op::Nothing,
        },
        AppMode::Browse => browse_op(key),
        AppMode::CommandInput => match key.code {
            KeyCode::Enter => Op::ExecuteCommand,
            KeyCode::Esc => Op::CancelCommand,
            KeyCode::Backspace => Op::CommandBackspace,
            KeyCode::Char(c) => Op::CommandPush(c),
            _ => Op::Nothing,
        },
        AppMode::ConfirmDanger => match key.code {
            KeyCode::Enter => Op::ConfirmDanger,
            KeyCode::Esc => Op::CancelDanger,
            KeyCode::Char(c) => if c == 'y' || c == 'Y' {
                Op::ConfirmDanger
            } else if c == 'n' || c == 'N' {
                Op::CancelDanger
            } else {
                Op::Nothing
            },
            _ => Op::Nothing,
        },
        AppMode::Doom => match key.code {
            KeyCode::Esc => Op::GoBack,
            _ => Op::Game(key.code),
        },
    }
}

} // verus!
