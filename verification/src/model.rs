//! The abstract state of the interface and what each key does to it.

use vstd::prelude::*;
use vstd::view::View as _;
use crate::amount::xmr_text;
use crate::app::{App, Chord, Key, KeyAction, KeyCode, Mode, SendField, View};
use crate::text::{trim, trim_start, word_prefix};
use crate::wallet::SnapshotView;
use vstd::utf8::{decode_utf8, encode_utf8, is_char_boundary};

verus! {

/// `App` read as values.
#[verifier::ext_equal]
pub struct AppView {
    pub wallet_name: Seq<char>,
    pub daemon: Seq<char>,
    pub mode: Mode,
    pub view: View,
    pub password: Seq<char>,
    pub command: Seq<char>,
    pub status: Seq<char>,
    pub error: Option<Seq<char>>,
    pub snapshot: Option<SnapshotView>,
    pub busy: bool,
    pub selected: usize,
    pub send_address: Seq<char>,
    pub send_amount: Seq<char>,
    pub send_field: SendField,
    pub confirm_text: Seq<char>,
    pub chord: Chord,
    pub unlocked: bool,
    pub completion: Option<(Seq<char>, usize)>,
}

impl vstd::view::View for App {
    type V = AppView;

    open spec fn view(&self) -> AppView {
        AppView {
            wallet_name: self.wallet_name@,
            daemon: self.daemon@,
            mode: self.mode,
            view: self.view,
            password: self.password@,
            command: self.command@,
            status: self.status@,
            error: match self.error {
                Some(e) => Some(e@),
                None => None,
            },
            snapshot: match self.snapshot {
                Some(s) => Some(s@),
                None => None,
            },
            busy: self.busy,
            selected: self.selected,
            send_address: self.send_address@,
            send_amount: self.send_amount@,
            send_field: self.send_field,
            confirm_text: self.confirm_text@,
            chord: self.chord,
            unlocked: self.unlocked,
            completion: match self.completion {
                Some((p, i)) => Some((p@, i)),
                None => None,
            },
        }
    }
}

/// `s` without its last character, if it has one.
pub open spec fn pop_last(s: Seq<char>) -> Seq<char> {
    if s.len() > 0 {
        s.drop_last()
    } else {
        s
    }
}

/// The number of transfers in the snapshot (none before the first refresh).
pub open spec fn transfer_count(s: AppView) -> nat {
    match s.snapshot {
        Some(snap) => snap.transfers.len(),
        None => 0,
    }
}

/// In normal mode the key moves the selection in the transfer list: `j`,
/// `k`, Down or Up with no chord pending.
pub open spec fn normal_key_moves(s: AppView, key: Key) -> bool {
    &&& s.chord == Chord::Nothing
    &&& key.code == KeyCode::Char('j') || key.code == KeyCode::Char('k') || key.code
        == KeyCode::Down || key.code == KeyCode::Up
}

/// The key moves the selection in the transfer list.
pub open spec fn moves_selection(s: AppView, key: Key) -> bool {
    s.mode == Mode::Normal && normal_key_moves(s, key)
}

/// The selection points at a transfer, or is 0.
pub open spec fn wf(s: AppView) -> bool {
    s.selected == 0 || s.selected < transfer_count(s)
}

/// The tab after `v`, wrapping around.
pub open spec fn next_view_of(v: View) -> View {
    match v {
        View::Dashboard => View::Transfers,
        View::Transfers => View::Send,
        View::Send => View::Help,
        View::Help => View::Dashboard,
    }
}

/// The tab before `v`, wrapping around.
pub open spec fn prev_view_of(v: View) -> View {
    match v {
        View::Dashboard => View::Help,
        View::Help => View::Send,
        View::Send => View::Transfers,
        View::Transfers => View::Dashboard,
    }
}

pub open spec fn clamp(x: int, lo: int, hi: int) -> int {
    if x < lo {
        lo
    } else if x > hi {
        hi
    } else {
        x
    }
}

/// The selection moved by `delta`, held within the transfer list.
pub open spec fn moved(s: AppView, delta: int) -> AppView {
    let len = transfer_count(s);
    if len == 0 {
        s
    } else {
        AppView { selected: clamp(s.selected + delta, 0, len - 1) as usize, ..s }
    }
}

/// The selection on the last transfer (`G`).
pub open spec fn to_last(s: AppView) -> AppView {
    match s.snapshot {
        Some(snap) => AppView {
            selected: if snap.transfers.len() > 0 {
                (snap.transfers.len() - 1) as usize
            } else {
                0
            },
            ..s
        },
        None => s,
    }
}

/// The send-form field that typing edits.
pub open spec fn active_text(s: AppView) -> Seq<char> {
    match s.send_field {
        SendField::Address => s.send_address,
        SendField::Amount => s.send_amount,
    }
}

/// `s` with the active send-form field set to `t`.
pub open spec fn with_active_text(s: AppView, t: Seq<char>) -> AppView {
    match s.send_field {
        SendField::Address => AppView { send_address: t, ..s },
        SendField::Amount => AppView { send_amount: t, ..s },
    }
}

/// The key in password mode.
pub open spec fn password_step(s: AppView, key: Key) -> (AppView, KeyAction) {
    match key.code {
        KeyCode::Enter => (s, KeyAction::Unlock),
        KeyCode::Esc => (s, KeyAction::Quit),
        KeyCode::Backspace => (AppView { password: pop_last(s.password), ..s }, KeyAction::Nothing),
        KeyCode::Char(c) => if c == 'c' && key.ctrl {
            (s, KeyAction::Quit)
        } else if !key.ctrl {
            (AppView { password: s.password.push(c), ..s }, KeyAction::Nothing)
        } else {
            (s, KeyAction::Nothing)
        },
        _ => (s, KeyAction::Nothing),
    }
}

/// The key in normal mode when no chord is pending.
pub open spec fn normal_plain_step(s: AppView, key: Key) -> (AppView, KeyAction) {
    match key.code {
        KeyCode::Char(c) => if c == ':' {
            (
                AppView { mode: Mode::Command, command: Seq::empty(), completion: None, ..s },
                KeyAction::Nothing,
            )
        } else if c == 'i' && s.view == View::Send {
            (
                AppView { mode: Mode::Insert, status: "INSERT  tab=field  esc=normal"@, ..s },
                KeyAction::Nothing,
            )
        } else if c == 'g' {
            (AppView { chord: Chord::G, ..s }, KeyAction::Nothing)
        } else if c == 'y' {
            (AppView { chord: Chord::Y, ..s }, KeyAction::Nothing)
        } else if c == 'r' {
            (s, KeyAction::Reload)
        } else if c == '?' {
            (AppView { view: View::Help, ..s }, KeyAction::Nothing)
        } else if c == '1' {
            (AppView { view: View::Dashboard, ..s }, KeyAction::Nothing)
        } else if c == '2' {
            (AppView { view: View::Transfers, ..s }, KeyAction::Nothing)
        } else if c == '3' {
            (AppView { view: View::Send, ..s }, KeyAction::Nothing)
        } else if c == 'j' {
            (moved(s, 1), KeyAction::Nothing)
        } else if c == 'k' {
            (moved(s, -1), KeyAction::Nothing)
        } else if c == 'G' {
            (to_last(s), KeyAction::Nothing)
        } else if c == 'q' {
            (
                AppView { mode: Mode::Command, command: "q"@, completion: None, ..s },
                KeyAction::Nothing,
            )
        } else {
            (s, KeyAction::Nothing)
        },
        KeyCode::Tab => (AppView { view: next_view_of(s.view), ..s }, KeyAction::Nothing),
        KeyCode::BackTab => (AppView { view: prev_view_of(s.view), ..s }, KeyAction::Nothing),
        KeyCode::Down => (moved(s, 1), KeyAction::Nothing),
        KeyCode::Up => (moved(s, -1), KeyAction::Nothing),
        _ => (s, KeyAction::Nothing),
    }
}

/// The key in normal mode: the second key of a `g` or `y` chord, or a
/// plain key.
pub open spec fn normal_step(s: AppView, key: Key) -> (AppView, KeyAction) {
    let c = AppView { chord: Chord::Nothing, ..s };
    if s.chord == Chord::G {
        match key.code {
            KeyCode::Char(ch) => if ch == 'g' {
                (AppView { selected: 0, ..c }, KeyAction::Nothing)
            } else if ch == 't' {
                (AppView { view: next_view_of(s.view), ..c }, KeyAction::Nothing)
            } else if ch == 'T' {
                (AppView { view: prev_view_of(s.view), ..c }, KeyAction::Nothing)
            } else {
                (c, KeyAction::Nothing)
            },
            _ => (c, KeyAction::Nothing),
        }
    } else if s.chord == Chord::Y {
        if key.code == KeyCode::Char('y') {
            (c, KeyAction::Yank)
        } else {
            (c, KeyAction::Nothing)
        }
    } else {
        normal_plain_step(s, key)
    }
}

/// The key in insert mode, on the send form.
pub open spec fn insert_step(s: AppView, key: Key) -> (AppView, KeyAction) {
    match key.code {
        KeyCode::Esc => (AppView { mode: Mode::Normal, status: "NORMAL"@, ..s }, KeyAction::Nothing),
        KeyCode::Tab => (
            AppView {
                send_field: match s.send_field {
                    SendField::Address => SendField::Amount,
                    SendField::Amount => SendField::Address,
                },
                ..s
            },
            KeyAction::Nothing,
        ),
        KeyCode::Backspace => (with_active_text(s, pop_last(active_text(s))), KeyAction::Nothing),
        KeyCode::Enter => (AppView { mode: Mode::Normal, ..s }, KeyAction::PromptSend),
        KeyCode::Char(c) => if !key.ctrl {
            (with_active_text(s, active_text(s).push(c)), KeyAction::Nothing)
        } else {
            (s, KeyAction::Nothing)
        },
        _ => (s, KeyAction::Nothing),
    }
}

/// The command word of a trimmed command line and the rest of the line,
/// trimmed: the line splits at its first white space character.
pub open spec fn split_command(line: Seq<char>) -> (Seq<char>, Seq<char>) {
    let cmd = word_prefix(line);
    if cmd.len() == line.len() {
        (line, Seq::empty())
    } else {
        (cmd, trim(line.skip(cmd.len() as int + 1)))
    }
}

/// The first two white-space separated words of `s`, if it has two.
pub open spec fn two_words(s: Seq<char>) -> Option<(Seq<char>, Seq<char>)> {
    let t1 = trim_start(s);
    let w1 = word_prefix(t1);
    let t2 = trim_start(t1.skip(w1.len() as int));
    let w2 = word_prefix(t2);
    if w1.len() > 0 && w2.len() > 0 {
        Some((w1, w2))
    } else {
        None
    }
}

/// What the command line `raw` does, run from normal mode.
pub open spec fn command_effect(s: AppView, raw: Seq<char>) -> (AppView, KeyAction) {
    let (cmd, rest) = split_command(trim(raw));
    if cmd == "q"@ || cmd == "quit"@ || cmd == "q!"@ {
        (s, KeyAction::Quit)
    } else if cmd == "refresh"@ || cmd == "sync"@ || cmd == "redraw"@ {
        (s, KeyAction::Reload)
    } else if cmd == "help"@ || cmd == "h"@ {
        (AppView { view: View::Help, ..s }, KeyAction::Nothing)
    } else if cmd == "address"@ {
        (AppView { view: View::Dashboard, ..s }, KeyAction::Yank)
    } else if cmd == "balance"@ {
        let d = AppView { view: View::Dashboard, ..s };
        match s.snapshot {
            Some(snap) => (
                AppView {
                    status: "balance "@ + xmr_text(snap.balance) + "  unlocked "@ + xmr_text(
                        snap.unlocked,
                    ),
                    ..d
                },
                KeyAction::Nothing,
            ),
            None => (d, KeyAction::Nothing),
        }
    } else if cmd == "transfers"@ || cmd == "history"@ {
        (AppView { view: View::Transfers, ..s }, KeyAction::Nothing)
    } else if cmd == "send"@ && rest.len() == 0 {
        (AppView { view: View::Send, mode: Mode::Insert, ..s }, KeyAction::Nothing)
    } else if cmd == "send"@ {
        match two_words(rest) {
            Some((addr, amount)) => (
                AppView { send_address: addr, send_amount: amount, ..s },
                KeyAction::PromptSend,
            ),
            None => (
                AppView { error: Some("usage: :send <address> <amount>"@), ..s },
                KeyAction::Nothing,
            ),
        }
    } else if cmd == "tabn"@ || cmd == "bn"@ {
        (AppView { view: next_view_of(s.view), ..s }, KeyAction::Nothing)
    } else if cmd == "tabp"@ || cmd == "bp"@ {
        (AppView { view: prev_view_of(s.view), ..s }, KeyAction::Nothing)
    } else {
        (AppView { error: Some("unknown command: "@ + cmd), ..s }, KeyAction::Nothing)
    }
}

/// The words that `:` commands start with, in the order that completion
/// offers them.
pub open spec fn command_words() -> Seq<Seq<char>> {
    seq![
        "address"@,
        "balance"@,
        "bn"@,
        "bp"@,
        "h"@,
        "help"@,
        "history"@,
        "q"@,
        "q!"@,
        "quit"@,
        "redraw"@,
        "refresh"@,
        "send"@,
        "sync"@,
        "tabn"@,
        "tabp"@,
        "transfers"@,
    ]
}

/// `w` begins with `p`.
pub open spec fn starts_with(w: Seq<char>, p: Seq<char>) -> bool {
    p.len() <= w.len() && w.take(p.len() as int) == p
}

/// The words of `ws` that begin with `p`, in order.
pub open spec fn completions(ws: Seq<Seq<char>>, p: Seq<char>) -> Seq<Seq<char>>
    decreases ws.len(),
{
    if ws.len() == 0 {
        Seq::empty()
    } else {
        let rest = completions(ws.drop_last(), p);
        if starts_with(ws.last(), p) {
            rest.push(ws.last())
        } else {
            rest
        }
    }
}

/// The command words that complete `p`.
pub open spec fn command_completions(p: Seq<char>) -> Seq<Seq<char>> {
    completions(command_words(), p)
}

/// A completion is under way: the command line shows candidate `i` of the
/// words that complete the prefix `p` typed before the first Tab.
pub open spec fn completing(s: AppView) -> bool {
    match s.completion {
        Some((p, i)) => i < command_completions(p).len() && command_completions(p)[i as int]
            == s.command,
        None => false,
    }
}

/// Tab (`forward`) or Shift-Tab on the command line: while a completion is
/// under way, the next (or previous) candidate, wrapping around; otherwise
/// the first (or last) command word that begins with the line, remembering
/// the line as the prefix. A line that no command word begins with stays.
pub open spec fn completion_step(s: AppView, forward: bool) -> AppView {
    match s.completion {
        Some((p, i)) if completing(s) => {
            let m = command_completions(p);
            let j: int = if forward {
                if i + 1 < m.len() {
                    i + 1
                } else {
                    0
                }
            } else {
                if i > 0 {
                    i - 1
                } else {
                    m.len() - 1
                }
            };
            AppView { command: m[j], completion: Some((p, j as usize)), ..s }
        },
        _ => {
            let m = command_completions(s.command);
            if m.len() == 0 {
                s
            } else {
                let j: int = if forward {
                    0
                } else {
                    m.len() - 1
                };
                AppView { command: m[j], completion: Some((s.command, j as usize)), ..s }
            }
        },
    }
}

/// The key in command mode, while a `:` line is typed. Editing the line
/// ends a completion.
pub open spec fn command_step(s: AppView, key: Key) -> (AppView, KeyAction) {
    match key.code {
        KeyCode::Esc => (
            AppView { mode: Mode::Normal, command: Seq::empty(), completion: None, ..s },
            KeyAction::Nothing,
        ),
        KeyCode::Backspace => if s.command.len() == 0 {
            (AppView { mode: Mode::Normal, completion: None, ..s }, KeyAction::Nothing)
        } else {
            (AppView { command: s.command.drop_last(), completion: None, ..s }, KeyAction::Nothing)
        },
        KeyCode::Enter => command_effect(
            AppView { command: Seq::empty(), mode: Mode::Normal, completion: None, ..s },
            s.command,
        ),
        KeyCode::Tab => (completion_step(s, true), KeyAction::Nothing),
        KeyCode::BackTab => (completion_step(s, false), KeyAction::Nothing),
        KeyCode::Char(c) => if !key.ctrl {
            (AppView { command: s.command.push(c), completion: None, ..s }, KeyAction::Nothing)
        } else {
            (s, KeyAction::Nothing)
        },
        _ => (s, KeyAction::Nothing),
    }
}

/// The key while a transfer waits for confirmation.
pub open spec fn confirm_step(s: AppView, key: Key) -> (AppView, KeyAction) {
    match key.code {
        KeyCode::Esc => (
            AppView { mode: Mode::Normal, status: "transfer cancelled"@, ..s },
            KeyAction::Nothing,
        ),
        KeyCode::Enter => (s, KeyAction::DoSend),
        KeyCode::Char(c) => if c == 'n' || c == 'N' {
            (AppView { mode: Mode::Normal, status: "transfer cancelled"@, ..s }, KeyAction::Nothing)
        } else if c == 'y' || c == 'Y' {
            (s, KeyAction::DoSend)
        } else {
            (s, KeyAction::Nothing)
        },
        _ => (s, KeyAction::Nothing),
    }
}

/// Control-C quits in every mode; any other key goes to the current mode.
pub open spec fn key_step(s: AppView, key: Key) -> (AppView, KeyAction) {
    if key.code == KeyCode::Char('c') && key.ctrl {
        (s, KeyAction::Quit)
    } else {
        match s.mode {
            Mode::Password => password_step(s, key),
            Mode::Command => command_step(s, key),
            Mode::Insert => insert_step(s, key),
            Mode::Confirm => confirm_step(s, key),
            Mode::Normal => normal_step(s, key),
        }
    }
}

/// The UTF-8 encoding of `s` fits in memory, and cutting it to `keep` bytes
/// at each end falls on character boundaries, or it is short enough to be
/// kept whole.
pub open spec fn truncatable(s: Seq<char>, keep: nat) -> bool {
    let b = encode_utf8(s);
    &&& b.len() <= usize::MAX
    &&& b.len() <= 2 * keep + 3 || (is_char_boundary(b, keep as int) && is_char_boundary(
        b,
        b.len() - keep,
    ))
}

/// `s` if its UTF-8 encoding has at most `2 * keep + 3` bytes; otherwise its
/// first and last `keep` bytes around an ellipsis.
pub open spec fn truncated(s: Seq<char>, keep: nat) -> Seq<char> {
    let b = encode_utf8(s);
    if b.len() <= 2 * keep + 3 {
        s
    } else {
        decode_utf8(b.subrange(0, keep as int)) + seq!['…'] + decode_utf8(
            b.subrange(b.len() - keep, b.len() as int),
        )
    }
}

/// Asking to confirm the transfer in the send form.
pub open spec fn prompt_effect(s: AppView) -> AppView {
    if s.send_address.len() == 0 || s.send_amount.len() == 0 {
        AppView { error: Some("address and amount required"@), ..s }
    } else {
        AppView {
            confirm_text: "send "@ + trim(s.send_amount) + " XMR to "@ + truncated(s.send_address, 18)
                + " ?"@,
            mode: Mode::Confirm,
            status: "y confirm / n cancel"@,
            ..s
        }
    }
}

/// The text that yanking copies: the selected transaction id on the
/// transfers tab, else the wallet address; nothing before the first refresh.
pub open spec fn yank_text(s: AppView) -> Option<Seq<char>> {
    match s.snapshot {
        Some(snap) => if s.view == View::Transfers && s.selected < snap.transfers.len() {
            Some(snap.transfers[s.selected as int].txid)
        } else {
            Some(snap.address)
        },
        None => None,
    }
}

/// The state after a refresh returned `snap`: the selection is pulled back
/// onto the list when the list shrank.
pub open spec fn synced(s: AppView, snap: SnapshotView) -> AppView {
    let len = snap.transfers.len();
    AppView {
        selected: if s.selected >= len {
            if len > 0 {
                (len - 1) as usize
            } else {
                0
            }
        } else {
            s.selected
        },
        snapshot: Some(snap),
        error: None,
        status: "synced"@,
        busy: false,
        ..s
    }
}

} // verus!
