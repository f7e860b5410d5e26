//! The command prompt over the terminal (`:copy`, `:run`, `:split`, ...) and the
//! guard that asks before a dangerous command is sent.
use vstd::prelude::*;

use crate::app::{App, AppMode, CopySource, Effect, Note};
use crate::tabs::{input_effects, input_to, split_toggled, tab_closed};
use crate::text::{
    chars_of, contains, has_char, lowercase, push_char, slice_chars, str_contains, str_eq,
    string_from_chars, to_lowercase, trim, trim_chars, trim_str, utf8_bytes,
};
use crate::version::{all_digits, decimal_value, is_digit, unsigned_digits};

verus! {

/// Text (already in lowercase) that holds one of the known dangerous
/// patterns.
pub open spec fn danger_in(l: Seq<char>) -> bool {
    ||| contains(l, "reboot"@)
    ||| contains(l, "shutdown"@)
    ||| contains(l, "poweroff"@)
    ||| contains(l, "halt"@)
    ||| contains(l, "rm -rf"@)
    ||| contains(l, "rm -r /"@)
    ||| contains(l, "rmdir"@)
    ||| contains(l, "mkfs"@)
    ||| contains(l, "dd if="@)
    ||| contains(l, "fdisk"@)
    ||| contains(l, "iptables -f"@)
    ||| contains(l, "iptables -x"@)
    ||| contains(l, "systemctl stop"@)
    ||| contains(l, "systemctl disable"@)
    ||| contains(l, "kill -9"@)
    ||| contains(l, "killall"@)
    ||| contains(l, "chmod 777"@)
    ||| contains(l, "chmod -r"@)
    ||| contains(l, "> /dev/sda"@)
    ||| contains(l, "> /dev/null"@)
}

/// A command that can wipe, stop or cut off a machine: its lowercase form
/// holds one of the known dangerous patterns.
pub open spec fn dangerous(cmd: Seq<char>) -> bool {
    danger_in(lowercase(cmd))
}

/// `new` and `effects` are what sending the command line `cmd` from `a` gives:
/// a dangerous command waits for confirmation (remembering whether it was to
/// go to every tab); any other is typed, with a newline, into every tab in
/// broadcast mode or else into the active tab.
pub open spec fn sent_or_confirmed(a: App, cmd: Seq<char>, new: App, effects: Seq<Effect>) -> bool {
    if dangerous(cmd) {
        &&& new == (App {
            danger_command: new.danger_command,
            danger_broadcast: a.broadcast,
            mode: AppMode::ConfirmDanger,
            ..a
        })
        &&& new.danger_command matches Some(c) && c@ == cmd
        &&& effects.len() == 0
    } else {
        &&& new == a
        &&& input_effects(a.broadcast, a.active_tab, vstd::utf8::encode_utf8(cmd.push('\n')), effects)
    }
}

/// Index of the first `' '` of `s` at or after `i`, or `s.len()`.
pub open spec fn space_from(s: Seq<char>, i: int) -> int
    decreases s.len() - i,
{
    if i < 0 || i >= s.len() {
        s.len() as int
    } else if s[i] == ' ' {
        i
    } else {
        space_from(s, i + 1)
    }
}

/// The command word of a prompt line: what comes before the first space.
pub open spec fn command_head(s: Seq<char>) -> Seq<char> {
    s.take(space_from(s, 0))
}

/// The argument of a prompt line: what comes after the first space, trimmed
/// (empty without a space).
pub open spec fn command_arg(s: Seq<char>) -> Seq<char> {
    let k = space_from(s, 0);
    if k < s.len() {
        trim(s.skip(k + 1))
    } else {
        Seq::empty()
    }
}

/// What `s.parse::<usize>()` gives, as an `Option`: an optional `'+'`, at
/// least one ASCII digit and nothing else, and a value that fits.
pub open spec fn parse_usize(s: Seq<char>) -> Option<usize> {
    let d = unsigned_digits(s);
    if d.len() > 0 && all_digits(d) && decimal_value(d) <= usize::MAX {
        Some(decimal_value(d) as usize)
    } else {
        None
    }
}

/// The count written in `s`, or `dflt` when `s` is not a count.
pub open spec fn count_or(s: Seq<char>, dflt: usize) -> usize {
    match parse_usize(s) {
        Some(n) => n,
        None => dflt,
    }
}

/// The commands of the prompt.
#[derive(PartialEq, Eq, Structural, Clone, Copy, Debug)]
pub enum CommandKind {
    /// `copy`, `c`, `cp`: copy the last lines of the screen, or all of it.
    Copy,
    /// `scroll`, `s`: scroll back.
    Scroll,
    /// `run`, `r`, `!`: type a shell command.
    Run,
    /// `doom`: the arcade game.
    Doom,
    /// `split`, `sp`: cycle the split layout.
    Split,
    /// `broadcast`, `bc`: toggle sending to every tab.
    Broadcast,
    /// `close`, `q`: close the tab.
    Close,
    /// `help`, `h`, `?`: the help screen.
    Help,
    /// Anything else: the whole line is a shell command.
    Shell,
}

/// Which command a (lowercase) command word names.
pub open spec fn command_kind(w: Seq<char>) -> CommandKind {
    if w == "copy"@ || w == "c"@ || w == "cp"@ {
        CommandKind::Copy
    } else if w == "scroll"@ || w == "s"@ {
        CommandKind::Scroll
    } else if w == "run"@ || w == "r"@ || w == "!"@ {
        CommandKind::Run
    } else if w == "doom"@ {
        CommandKind::Doom
    } else if w == "split"@ || w == "sp"@ {
        CommandKind::Split
    } else if w == "broadcast"@ || w == "bc"@ {
        CommandKind::Broadcast
    } else if w == "close"@ || w == "q"@ {
        CommandKind::Close
    } else if w == "help"@ || w == "h"@ || w == "?"@ {
        CommandKind::Help
    } else {
        CommandKind::Shell
    }
}

/// The copy request of `:copy n`: the last `n` lines, noted as that many
/// lines copied, or as the screen copied for a count of zero (zero lines are
/// copied then).
pub open spec fn copy_lines_effect(n: usize) -> Effect {
    Effect::Copy {
        source: CopySource::Lines(n),
        on_ok: Some(
            if n > 0 {
                Note::LinesCopied(n)
            } else {
                Note::ScreenCopied
            },
        ),
        on_fail: Some(Note::InstallClipboardTool),
    }
}

/// The copy request of `:copy` with no count: the whole screen.
pub open spec fn copy_screen_effect() -> Effect {
    Effect::Copy {
        source: CopySource::Screen,
        on_ok: Some(Note::ScreenCopied),
        on_fail: Some(Note::InstallClipboardTool),
    }
}

/// The copy request of `:copy` with argument `arg`: the last `n` lines for a
/// count `n`, the whole screen when the argument is not a count.
pub open spec fn copy_effect(arg: Seq<char>) -> Effect {
    match parse_usize(arg) {
        Some(n) => copy_lines_effect(n),
        None => copy_screen_effect(),
    }
}

/// `new` and `effects` are what running the prompt line of `old` gives. The
/// prompt is emptied and the terminal shown; then the trimmed line's first word,
/// in lowercase, picks the command and the rest, trimmed, is its argument.
pub open spec fn commanded(old: App, new: App, effects: Seq<Effect>) -> bool {
    let input = trim(old.command_input@);
    let mid = App { command_input: new.command_input, mode: AppMode::Terminal, ..old };
    &&& new.command_input@ == Seq::<char>::empty()
    &&& if input.len() == 0 {
        new == mid && effects.len() == 0
    } else {
        let arg = command_arg(input);
        match command_kind(lowercase(command_head(input))) {
            CommandKind::Copy => {
                &&& new == mid
                &&& effects == if mid.active_tab is Some {
                    seq![copy_effect(arg)]
                } else {
                    Seq::<Effect>::empty()
                }
            },
            CommandKind::Scroll => {
                &&& new == mid
                &&& effects == if mid.active_tab is Some {
                    seq![Effect::ScrollUp(count_or(arg, 10))]
                } else {
                    Seq::<Effect>::empty()
                }
            },
            CommandKind::Run => if arg.len() == 0 {
                new == mid && effects.len() == 0
            } else {
                sent_or_confirmed(mid, arg, new, effects)
            },
            CommandKind::Doom => new == (App { mode: AppMode::Doom, ..mid }) && effects == seq![
                Effect::StartDoom,
            ],
            CommandKind::Split => split_toggled(mid, new) && effects.len() == 0,
            CommandKind::Broadcast => new == (App { broadcast: !mid.broadcast, ..mid })
                && effects.len() == 0,
            CommandKind::Close => tab_closed(mid, new, effects),
            CommandKind::Help => new == (App {
                prev_mode: AppMode::Terminal,
                help_scroll: 0,
                mode: AppMode::Help,
                ..mid
            }) && effects.len() == 0,
            CommandKind::Shell => sent_or_confirmed(mid, input, new, effects),
        }
    }
}

/// The command a command word names.
pub fn classify(w: &str) -> (k: CommandKind)
    ensures
        k == command_kind(w@),
{
    if str_eq(w, "copy") || str_eq(w, "c") || str_eq(w, "cp") {
        CommandKind::Copy
    } else if str_eq(w, "scroll") || str_eq(w, "s") {
        CommandKind::Scroll
    } else if str_eq(w, "run") || str_eq(w, "r") || str_eq(w, "!") {
        CommandKind::Run
    } else if str_eq(w, "doom") {
        CommandKind::Doom
    } else if str_eq(w, "split") || str_eq(w, "sp") {
        CommandKind::Split
    } else if str_eq(w, "broadcast") || str_eq(w, "bc") {
        CommandKind::Broadcast
    } else if str_eq(w, "close") || str_eq(w, "q") {
        CommandKind::Close
    } else if str_eq(w, "help") || str_eq(w, "h") || str_eq(w, "?") {
        CommandKind::Help
    } else {
        CommandKind::Shell
    }
}

/// Parses a count as `str::parse::<usize>` does; `None` where it fails.
pub fn parse_count(s: &Vec<char>) -> (r: Option<usize>)
    ensures
        r == parse_usize(s@),
{
    let n = s.len();
    let start: usize = if n > 0 && s[0] == '+' { 1 } else { 0 };
    let ghost d = unsigned_digits(s@);
    assert(d =~= s@.skip(start as int));
    if start == n {
        return None;
    }
    let mut val: u128 = 0;
    let mut too_big = false;
    let mut k: usize = start;
    while k < n
        invariant
            start <= k <= n,
            n == s@.len(),
            start < n,
            d == unsigned_digits(s@),
            d =~= s@.skip(start as int),
            forall|j: int| start <= j < k ==> is_digit(#[trigger] s@[j]),
            !too_big ==> val == decimal_value(d.take(k - start)) && val <= usize::MAX,
            too_big ==> decimal_value(d.take(k - start)) > usize::MAX,
        decreases n - k,
    {
        let c = s[k];
        if !('0' <= c && c <= '9') {
            assert(!all_digits(d)) by {
                assert(d[k - start] == c);
                assert(!is_digit(d[k - start]));
            }
            return None;
        }
        let digit = (c as u32 - '0' as u32) as u128;
        assert(d.take(k + 1 - start).drop_last() =~= d.take(k - start));
        assert(d.take(k + 1 - start).last() == c);
        if !too_big {
            val = val * 10 + digit;
            if val > usize::MAX as u128 {
                too_big = true;
            }
        }
        k = k + 1;
    }
    assert(d.take(n - start) =~= d);
    assert(all_digits(d));
    if too_big {
        None
    } else {
        Some(val as usize)
    }
}

/// Index of the first `' '` in `v`, or its length.
fn first_space(v: &Vec<char>) -> (k: usize)
    ensures
        k == space_from(v@, 0),
        k <= v@.len(),
{
    let mut k: usize = 0;
    while k < v.len() && v[k] != ' '
        invariant
            k <= v@.len(),
            space_from(v@, 0) == space_from(v@, k as int),
        decreases v@.len() - k,
    {
        k = k + 1;
    }
    k
}

/// `new` and `effects` are what confirming the held dangerous command of
/// `old` gives.
pub open spec fn danger_confirmed(old: App, new: App, effects: Seq<Effect>) -> bool {
    &&& new == (App {
        danger_command: None,
        danger_broadcast: false,
        mode: AppMode::Terminal,
        ..old
    })
    &&& match old.danger_command {
        Some(cmd) => input_effects(
            old.danger_broadcast,
            old.active_tab,
            if cmd@.contains('\n') || old.mode != AppMode::ConfirmDanger {
                vstd::utf8::encode_utf8(cmd@.push('\n'))
            } else {
                seq![13u8]
            },
            effects,
        ),
        None => effects.len() == 0,
    }
}

/// Whether lowercase text `l` holds one of the known dangerous patterns.
pub fn has_danger_pattern(l: &str) -> (b: bool)
    ensures
        b == danger_in(l@),
{
    str_contains(l, "reboot") || str_contains(l, "shutdown") || str_contains(l, "poweroff")
        || str_contains(l, "halt") || str_contains(l, "rm -rf") || str_contains(l, "rm -r /")
        || str_contains(l, "rmdir") || str_contains(l, "mkfs") || str_contains(l, "dd if=")
        || str_contains(l, "fdisk") || str_contains(l, "iptables -f") || str_contains(
        l,
        "iptables -x",
    ) || str_contains(l, "systemctl stop") || str_contains(l, "systemctl disable")
        || str_contains(l, "kill -9") || str_contains(l, "killall") || str_contains(
        l,
        "chmod 777",
    ) || str_contains(l, "chmod -r") || str_contains(l, "> /dev/sda") || str_contains(
        l,
        "> /dev/null",
    )
}

impl App {
    /// Whether `cmd` looks dangerous: its lowercase form contains `reboot`,
    /// `shutdown`, `rm -rf`, `mkfs`, `dd if=`, `kill -9` or another of the known
    /// patterns.
    pub fn is_dangerous_command(cmd: &str) -> (b: bool)
        ensures
            b == dangerous(cmd@),
    {
        let lower = to_lowercase(cmd);
        has_danger_pattern(lower.as_str())
    }

    /// Sends the command line `cmd`, or holds it for confirmation when it is
    /// dangerous.
    pub fn send_or_confirm(&mut self, cmd: String) -> (effects: Vec<Effect>)
        ensures
            sent_or_confirmed(*old(self), cmd@, *final(self), effects@),
    {
        if App::is_dangerous_command(cmd.as_str()) {
            self.danger_command = Some(cmd);
            self.danger_broadcast = self.broadcast;
            self.mode = AppMode::ConfirmDanger;
            Vec::new()
        } else {
            let line = push_char(&cmd, '\n');
            let bytes = utf8_bytes(line.as_str());
            input_to(self.broadcast, self.active_tab, bytes)
        }
    }

    /// Runs the prompt line: `copy [n]` (the last `n` lines, the whole screen
    /// without a count; `copy 0` copies nothing but notes the screen copied),
    /// `scroll [n]` (10 by default), `run <cmd>`, `doom`, `split`, `broadcast`,
    /// `close` and `help` (each with its short forms); any other
    /// line is typed into the terminal as a shell command. Dangerous commands
    /// wait for confirmation.
    pub fn execute_command_input(&mut self) -> (effects: Vec<Effect>)
        requires
            old(self).wf(),
        ensures
            final(self).wf(),
            commanded(*old(self), *final(self), effects@),
    {
        let input = trim_str(self.command_input.as_str());
        self.command_input = String::new();
        self.mode = AppMode::Terminal;
        let iv = chars_of(input.as_str());
        if iv.len() == 0 {
            return Vec::new();
        }
        let sp = first_space(&iv);
        let head_chars = slice_chars(&iv, 0, sp);
        assert(head_chars@ =~= iv@.take(sp as int));
        let head = string_from_chars(head_chars.as_slice());
        let cmd = to_lowercase(head.as_str());
        let arg: Vec<char> = if sp < iv.len() {
            let rest = slice_chars(&iv, sp + 1, iv.len());
            assert(rest@ =~= iv@.skip(sp + 1));
            trim_chars(&rest)
        } else {
            Vec::new()
        };
        assert(arg@ == command_arg(input@));
        let kind = classify(cmd.as_str());
        let mut effects: Vec<Effect> = Vec::new();
        match kind {
            CommandKind::Copy => {
                let count = parse_count(&arg);
                if self.active_tab.is_some() {
                    let (source, note) = match count {
                        Some(n) => if n > 0 {
                            (CopySource::Lines(n), Note::LinesCopied(n))
                        } else {
                            (CopySource::Lines(0), Note::ScreenCopied)
                        },
                        None => (CopySource::Screen, Note::ScreenCopied),
                    };
                    effects.push(
                        Effect::Copy {
                            source,
                            on_ok: Some(note),
                            on_fail: Some(Note::InstallClipboardTool),
                        },
                    );
                }
            },
            CommandKind::Scroll => {
                let n = match parse_count(&arg) {
                    Some(k) => k,
                    None => 10,
                };
                if self.active_tab.is_some() {
                    effects.push(Effect::ScrollUp(n));
                }
            },
            CommandKind::Run => {
                if arg.len() > 0 {
                    let a = string_from_chars(arg.as_slice());
                    effects = self.send_or_confirm(a);
                }
            },
            CommandKind::Doom => {
                self.mode = AppMode::Doom;
                effects.push(Effect::StartDoom);
            },
            CommandKind::Split => {
                self.toggle_split();
            },
            CommandKind::Broadcast => {
                self.toggle_broadcast();
            },
            CommandKind::Close => {
                effects = self.close_active_tab();
            },
            CommandKind::Help => {
                self.show_help();
            },
            CommandKind::Shell => {
                effects = self.send_or_confirm(input);
            },
        }
        effects
    }

    /// The dangerous command was confirmed: it is sent to the tab(s) it was
    /// meant for. A command typed at the prompt or picked in the palette is sent
    /// with a newline; one already typed into the terminal (the confirmation was
    /// asked when Enter was pressed there) only gets the carriage return. Then
    /// the terminal is shown.
    pub fn confirm_danger(&mut self) -> (effects: Vec<Effect>)
        ensures
            danger_confirmed(*old(self), *final(self), effects@),
    {
        let mut effects: Vec<Effect> = Vec::new();
        if let Some(cmd) = self.danger_command.take() {
            let from_terminal = self.mode == AppMode::ConfirmDanger;
            let bytes = if has_char(cmd.as_str(), '\n') || !from_terminal {
                let line = push_char(&cmd, '\n');
                utf8_bytes(line.as_str())
            } else {
                let mut b: Vec<u8> = Vec::new();
                b.push(13u8);
                assert(b@ =~= seq![13u8]);
                b
            };
            effects = input_to(self.danger_broadcast, self.active_tab, bytes);
        }
        self.danger_broadcast = false;
        self.mode = AppMode::Terminal;
        effects
    }

    /// The dangerous command was refused: it is dropped and the terminal shown.
    pub fn cancel_danger(&mut self)
        ensures
            *final(self) == (App {
                danger_command: None,
                danger_broadcast: false,
                mode: AppMode::Terminal,
                ..*old(self)
            }),
    {
        self.danger_command = None;
        self.danger_broadcast = false;
        self.mode = AppMode::Terminal;
    }
}

} // verus!
