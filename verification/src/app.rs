//! The interface state and the key handling of its modal, vim-like front
//! end: every key becomes a change of state and an action for the caller.

use vstd::prelude::*;
use vstd::view::View as _;
use crate::amount::format_xmr;
use crate::model::{
    command_completions, command_effect, moves_selection, normal_key_moves, command_step, command_words, completion_step,
    completions, confirm_step, starts_with, insert_step, key_step, moved, next_view_of,
    normal_step, password_step, prev_view_of, prompt_effect, split_command, synced,
    transfer_count, truncatable, truncated, two_words, wf, yank_text, AppView,
};
use crate::text::{
    chars_of, copy_str, lemma_skip_word_prefix, lemma_skip_ws_trims, pop_char, push_char,
    push_str, skip_word, skip_ws, string_of, text_is, trim, trim_range, trim_str,
};
use crate::laws::law_keys_keep_selection_valid;
use crate::wallet::{Snapshot, TransferRow};
use vstd::utf8::encode_utf8_decode_utf8;

verus! {

/// How keys are read.
#[derive(Clone, Copy, PartialEq, Eq, Structural, Debug)]
pub enum Mode {
    Password,
    Normal,
    Insert,
    Command,
    Confirm,
}

/// The tab on screen.
#[derive(Clone, Copy, PartialEq, Eq, Structural, Debug)]
pub enum View {
    Dashboard,
    Transfers,
    Send,
    Help,
}

/// The send-form field that typing edits.
#[derive(Clone, Copy, PartialEq, Eq, Structural, Debug)]
pub enum SendField {
    Address,
    Amount,
}

/// The first key of a two-key command, while the second is awaited.
#[derive(Clone, Copy, PartialEq, Eq, Structural, Debug)]
pub enum Chord {
    Nothing,
    G,
    Y,
}

/// Whether the event loop goes on.
#[derive(Clone, Copy, PartialEq, Eq, Structural, Debug)]
pub enum Outcome {
    Continue,
    Quit,
}

/// What the caller does after a key.
#[derive(Clone, Copy, PartialEq, Eq, Structural, Debug)]
pub enum KeyAction {
    Nothing,
    Quit,
    Unlock,
    Reload,
    Yank,
    PromptSend,
    DoSend,
}

/// A key as the handlers read it.
#[derive(Clone, Copy, PartialEq, Eq, Structural, Debug)]
pub enum KeyCode {
    Char(char),
    Enter,
    Esc,
    Backspace,
    Tab,
    BackTab,
    Up,
    Down,
    Other,
}

/// A key press: its code and whether Control was held.
#[derive(Clone, Copy, PartialEq, Eq, Structural, Debug)]
pub struct Key {
    pub code: KeyCode,
    pub ctrl: bool,
}

/// The whole state of the interface.
pub struct App {
    pub wallet_name: String,
    pub daemon: String,
    pub mode: Mode,
    pub view: View,
    pub password: String,
    pub command: String,
    pub status: String,
    pub error: Option<String>,
    pub snapshot: Option<Snapshot>,
    pub busy: bool,
    pub selected: usize,
    pub send_address: String,
    pub send_amount: String,
    pub send_field: SendField,
    pub confirm_text: String,
    pub chord: Chord,
    pub unlocked: bool,
    /// The prefix being completed on the command line and the candidate
    /// shown.
    pub completion: Option<(String, usize)>,
}

impl App {
    /// A locked interface that asks for the wallet password.
    pub fn new(wallet_name: String, daemon: String) -> (app: App)
        ensures
            app@ == (AppView {
                wallet_name: wallet_name@,
                daemon: daemon@,
                mode: Mode::Password,
                view: View::Dashboard,
                password: Seq::empty(),
                command: Seq::empty(),
                status: "enter wallet password"@,
                error: None,
                snapshot: None,
                busy: false,
                selected: 0,
                send_address: Seq::empty(),
                send_amount: Seq::empty(),
                send_field: SendField::Address,
                confirm_text: Seq::empty(),
                chord: Chord::Nothing,
                unlocked: false,
                completion: None,
            }),
            wf(app@),
    {
        App {
            wallet_name,
            daemon,
            mode: Mode::Password,
            view: View::Dashboard,
            password: String::new(),
            command: String::new(),
            status: copy_str("enter wallet password"),
            error: None,
            snapshot: None,
            busy: false,
            selected: 0,
            send_address: String::new(),
            send_amount: String::new(),
            send_field: SendField::Address,
            confirm_text: String::new(),
            chord: Chord::Nothing,
            unlocked: false,
            completion: None,
        }
    }

    /// The transfer under the selection, if any.
    pub fn selected_transfer(&self) -> (r: Option<&TransferRow>)
        ensures
            r is Some <==> (self.snapshot is Some && self.selected
                < self.snapshot->0.transfers@.len()),
            r is Some ==> *r->0 == self.snapshot->0.transfers@[self.selected as int],
    {
        match &self.snapshot {
            Some(snap) => {
                if self.selected < snap.transfers.len() {
                    Some(&snap.transfers[self.selected])
                } else {
                    None
                }
            },
            None => None,
        }
    }

    /// Whether `key` would move the selection in the transfer list.
    pub fn key_moves_selection(&self, key: Key) -> (r: bool)
        ensures
            r == moves_selection(self@, key),
    {
        self.mode == Mode::Normal && self.chord == Chord::Nothing && (key.code == KeyCode::Char('j')
            || key.code == KeyCode::Char('k') || key.code == KeyCode::Down || key.code
            == KeyCode::Up)
    }

    /// Whether the periodic tick refreshes: once unlocked, and not while
    /// another request is under way.
    pub fn refresh_on_tick(&self) -> (r: bool)
        ensures
            r == (self.unlocked && !self.busy),
    {
        self.unlocked && !self.busy
    }

    /// Reads one key: changes the state and says what the caller does next.
    pub fn handle_key(&mut self, key: Key) -> (r: KeyAction)
        requires
            wf(old(self)@),
            transfer_count(old(self)@) <= i32::MAX || !moves_selection(old(self)@, key),
        ensures
            final(self)@ == key_step(old(self)@, key).0,
            r == key_step(old(self)@, key).1,
            wf(final(self)@),
            final(self)@.snapshot == old(self)@.snapshot,
    {
        proof {
            law_keys_keep_selection_valid(old(self)@, key);
        }
        if key.code == KeyCode::Char('c') && key.ctrl {
            return KeyAction::Quit;
        }
        match self.mode {
            Mode::Password => self.handle_password(key),
            Mode::Command => self.handle_command(key),
            Mode::Insert => self.handle_insert(key),
            Mode::Confirm => self.handle_confirm(key),
            Mode::Normal => self.handle_normal(key),
        }
    }

    /// Asks to confirm the transfer in the send form, or reports that the
    /// form is incomplete.
    pub fn prompt_send(&mut self)
        requires
            truncatable(old(self).send_address@, 18),
        ensures
            final(self)@ == prompt_effect(old(self)@),
    {
        if self.send_address.as_str().is_empty() || self.send_amount.as_str().is_empty() {
            self.error = Some(copy_str("address and amount required"));
            return ;
        }
        let mut t = copy_str("send ");
        let amount = trim_str(self.send_amount.as_str());
        push_str(&mut t, amount.as_str());
        push_str(&mut t, " XMR to ");
        let addr = truncate(self.send_address.as_str(), 18);
        push_str(&mut t, addr.as_str());
        push_str(&mut t, " ?");
        self.confirm_text = t;
        self.mode = Mode::Confirm;
        self.status = copy_str("y confirm / n cancel");
    }

    /// What yanking copies, if anything.
    pub fn yank_target(&self) -> (r: Option<String>)
        ensures
            match yank_text(self@) {
                Some(t) => r matches Some(x) && x@ == t,
                None => r is None,
            },
    {
        match &self.snapshot {
            Some(snap) => {
                if self.view == View::Transfers && self.selected < snap.transfers.len() {
                    Some(snap.transfers[self.selected].txid.clone())
                } else {
                    Some(snap.address.clone())
                }
            },
            None => None,
        }
    }

    /// Reports a yank of `text`: copied to the clipboard, or not.
    pub fn record_yank(&mut self, text: &String, copied: bool)
        ensures
            final(self)@ == (AppView {
                status: (if copied {
                    "yanked "@
                } else {
                    "yank failed, value: "@
                }) + text@,
                ..old(self)@
            }),
    {
        let mut m = if copied {
            copy_str("yanked ")
        } else {
            copy_str("yank failed, value: ")
        };
        push_str(&mut m, text.as_str());
        self.status = m;
    }

    /// A refresh begins.
    pub fn reload_started(&mut self)
        ensures
            final(self)@ == (AppView { busy: true, status: "refresh…"@, ..old(self)@ }),
    {
        self.busy = true;
        self.status = copy_str("refresh…");
    }

    /// A refresh ended with a snapshot, or with an error message.
    pub fn reload_finished(&mut self, result: Result<Snapshot, String>)
        ensures
            match result {
                Ok(snap) => final(self)@ == synced(old(self)@, snap@),
                Err(e) => final(self)@ == (AppView {
                    error: Some(e@),
                    status: "refresh failed"@,
                    busy: false,
                    ..old(self)@
                }),
            },
    {
        match result {
            Ok(snap) => {
                let len = snap.transfers.len();
                if self.selected >= len {
                    self.selected = if len > 0 {
                        len - 1
                    } else {
                        0
                    };
                }
                self.snapshot = Some(snap);
                self.error = None;
                self.status = copy_str("synced");
            },
            Err(e) => {
                self.error = Some(e);
                self.status = copy_str("refresh failed");
            },
        }
        self.busy = false;
    }

    /// Opening the wallet begins; the caller hands `password` to the server.
    pub fn unlock_started(&mut self)
        ensures
            final(self)@ == (AppView { busy: true, status: "opening wallet…"@, ..old(self)@ }),
    {
        self.busy = true;
        self.status = copy_str("opening wallet…");
    }

    /// Opening the wallet ended. The password is forgotten either way. On
    /// success the result is `true` and the caller refreshes next, which
    /// ends the busy state; on failure the password is asked for again.
    pub fn unlock_finished(&mut self, result: Result<(), String>) -> (reload: bool)
        ensures
            reload == result is Ok,
            match result {
                Ok(_) => final(self)@ == (AppView {
                    password: Seq::empty(),
                    unlocked: true,
                    mode: Mode::Normal,
                    status: "wallet unlocked"@,
                    error: None,
                    ..old(self)@
                }),
                Err(e) => final(self)@ == (AppView {
                    password: Seq::empty(),
                    error: Some(e@),
                    status: "wrong password or RPC error"@,
                    mode: Mode::Password,
                    busy: false,
                    ..old(self)@
                }),
            },
    {
        self.password = String::new();
        match result {
            Ok(()) => {
                self.unlocked = true;
                self.mode = Mode::Normal;
                self.status = copy_str("wallet unlocked");
                self.error = None;
                true
            },
            Err(e) => {
                self.error = Some(e);
                self.status = copy_str("wrong password or RPC error");
                self.mode = Mode::Password;
                self.busy = false;
                false
            },
        }
    }

    /// Broadcasting the transfer begins; the result is the trimmed address
    /// and amount to hand to the server.
    pub fn send_started(&mut self) -> (r: (String, String))
        ensures
            final(self)@ == (AppView {
                busy: true,
                mode: Mode::Normal,
                status: "broadcasting…"@,
                ..old(self)@
            }),
            r.0@ == trim(old(self)@.send_address),
            r.1@ == trim(old(self)@.send_amount),
    {
        self.busy = true;
        self.mode = Mode::Normal;
        self.status = copy_str("broadcasting…");
        (trim_str(self.send_address.as_str()), trim_str(self.send_amount.as_str()))
    }

    /// Broadcasting ended with a transaction id, or with an error message.
    /// On success the amount is cleared, the result is `true` and the caller
    /// refreshes next, which ends the busy state.
    pub fn send_finished(&mut self, result: Result<String, String>) -> (reload: bool)
        ensures
            reload == result is Ok,
            match result {
                Ok(txid) => final(self)@ == (AppView {
                    error: None,
                    status: "sent  txid "@ + txid@,
                    send_amount: Seq::empty(),
                    ..old(self)@
                }),
                Err(e) => final(self)@ == (AppView {
                    error: Some(e@),
                    status: "transfer failed"@,
                    busy: false,
                    ..old(self)@
                }),
            },
    {
        match result {
            Ok(txid) => {
                self.error = None;
                let mut m = copy_str("sent  txid ");
                push_str(&mut m, txid.as_str());
                self.status = m;
                self.send_amount = String::new();
                true
            },
            Err(e) => {
                self.error = Some(e);
                self.status = copy_str("transfer failed");
                self.busy = false;
                false
            },
        }
    }

    fn handle_password(&mut self, key: Key) -> (r: KeyAction)
        ensures
            final(self)@ == password_step(old(self)@, key).0,
            r == password_step(old(self)@, key).1,
    {
        match key.code {
            KeyCode::Enter => KeyAction::Unlock,
            KeyCode::Esc => KeyAction::Quit,
            KeyCode::Backspace => {
                pop_char(&mut self.password);
                KeyAction::Nothing
            },
            KeyCode::Char(c) => {
                if c == 'c' && key.ctrl {
                    KeyAction::Quit
                } else if !key.ctrl {
                    push_char(&mut self.password, c);
                    KeyAction::Nothing
                } else {
                    KeyAction::Nothing
                }
            },
            _ => KeyAction::Nothing,
        }
    }

    /// Reads one key in normal mode.
    pub fn handle_normal(&mut self, key: Key) -> (r: KeyAction)
        requires
            wf(old(self)@),
            transfer_count(old(self)@) <= i32::MAX || !normal_key_moves(old(self)@, key),
        ensures
            final(self)@ == normal_step(old(self)@, key).0,
            r == normal_step(old(self)@, key).1,
    {
        if self.chord == Chord::G {
            self.chord = Chord::Nothing;
            return match key.code {
                KeyCode::Char(ch) => {
                    if ch == 'g' {
                        self.selected = 0;
                    } else if ch == 't' {
                        self.next_view();
                    } else if ch == 'T' {
                        self.prev_view();
                    }
                    KeyAction::Nothing
                },
                _ => KeyAction::Nothing,
            };
        }
        if self.chord == Chord::Y {
            self.chord = Chord::Nothing;
            if key.code == KeyCode::Char('y') {
                return KeyAction::Yank;
            }
            return KeyAction::Nothing;
        }
        match key.code {
            KeyCode::Char(c) => {
                if c == ':' {
                    self.mode = Mode::Command;
                    self.command = String::new();
                    self.completion = None;
                    KeyAction::Nothing
                } else if c == 'i' && self.view == View::Send {
                    self.mode = Mode::Insert;
                    self.status = copy_str("INSERT  tab=field  esc=normal");
                    KeyAction::Nothing
                } else if c == 'g' {
                    self.chord = Chord::G;
                    KeyAction::Nothing
                } else if c == 'y' {
                    self.chord = Chord::Y;
                    KeyAction::Nothing
                } else if c == 'r' {
                    KeyAction::Reload
                } else if c == '?' {
                    self.view = View::Help;
                    KeyAction::Nothing
                } else if c == '1' {
                    self.view = View::Dashboard;
                    KeyAction::Nothing
                } else if c == '2' {
                    self.view = View::Transfers;
                    KeyAction::Nothing
                } else if c == '3' {
                    self.view = View::Send;
                    KeyAction::Nothing
                } else if c == 'j' {
                    self.move_sel(1);
                    KeyAction::Nothing
                } else if c == 'k' {
                    self.move_sel(-1);
                    KeyAction::Nothing
                } else if c == 'G' {
                    match &self.snapshot {
                        Some(snap) => {
                            let len = snap.transfers.len();
                            self.selected = if len > 0 {
                                len - 1
                            } else {
                                0
                            };
                        },
                        None => {},
                    }
                    KeyAction::Nothing
                } else if c == 'q' {
                    self.mode = Mode::Command;
                    self.command = copy_str("q");
                    self.completion = None;
                    KeyAction::Nothing
                } else {
                    KeyAction::Nothing
                }
            },
            KeyCode::Tab => {
                self.next_view();
                KeyAction::Nothing
            },
            KeyCode::BackTab => {
                self.prev_view();
                KeyAction::Nothing
            },
            KeyCode::Down => {
                self.move_sel(1);
                KeyAction::Nothing
            },
            KeyCode::Up => {
                self.move_sel(-1);
                KeyAction::Nothing
            },
            _ => KeyAction::Nothing,
        }
    }

    fn handle_insert(&mut self, key: Key) -> (r: KeyAction)
        ensures
            final(self)@ == insert_step(old(self)@, key).0,
            r == insert_step(old(self)@, key).1,
    {
        match key.code {
            KeyCode::Esc => {
                self.mode = Mode::Normal;
                self.status = copy_str("NORMAL");
                KeyAction::Nothing
            },
            KeyCode::Tab => {
                self.send_field = match self.send_field {
                    SendField::Address => SendField::Amount,
                    SendField::Amount => SendField::Address,
                };
                KeyAction::Nothing
            },
            KeyCode::Backspace => {
                match self.send_field {
                    SendField::Address => {
                        pop_char(&mut self.send_address);
                    },
                    SendField::Amount => {
                        pop_char(&mut self.send_amount);
                    },
                }
                KeyAction::Nothing
            },
            KeyCode::Enter => {
                self.mode = Mode::Normal;
                KeyAction::PromptSend
            },
            KeyCode::Char(c) => {
                if !key.ctrl {
                    match self.send_field {
                        SendField::Address => push_char(&mut self.send_address, c),
                        SendField::Amount => push_char(&mut self.send_amount, c),
                    }
                }
                KeyAction::Nothing
            },
            _ => KeyAction::Nothing,
        }
    }

    fn handle_command(&mut self, key: Key) -> (r: KeyAction)
        ensures
            final(self)@ == command_step(old(self)@, key).0,
            r == command_step(old(self)@, key).1,
    {
        match key.code {
            KeyCode::Esc => {
                self.mode = Mode::Normal;
                self.command = String::new();
                self.completion = None;
                KeyAction::Nothing
            },
            KeyCode::Backspace => {
                if self.command.as_str().is_empty() {
                    self.mode = Mode::Normal;
                } else {
                    pop_char(&mut self.command);
                }
                self.completion = None;
                KeyAction::Nothing
            },
            KeyCode::Enter => {
                let cmd = self.command.clone();
                self.command = String::new();
                self.mode = Mode::Normal;
                self.completion = None;
                self.run_command(&cmd)
            },
            KeyCode::Tab => {
                self.complete(true);
                KeyAction::Nothing
            },
            KeyCode::BackTab => {
                self.complete(false);
                KeyAction::Nothing
            },
            KeyCode::Char(c) => {
                if !key.ctrl {
                    push_char(&mut self.command, c);
                    self.completion = None;
                }
                KeyAction::Nothing
            },
            _ => KeyAction::Nothing,
        }
    }

    /// Completes the command word on the command line, forward (Tab) or
    /// backward (Shift-Tab).
    fn complete(&mut self, forward: bool)
        ensures
            final(self)@ == completion_step(old(self)@, forward),
    {
        let current = match &self.completion {
            Some((p, i)) => Some((p.clone(), *i)),
            None => None,
        };
        match current {
            Some((p, i)) => {
                let pv = chars_of(p.as_str());
                let m = matching_words(&pv);
                if i < m.len() && m[i] == self.command {
                    let j = if forward {
                        if i + 1 < m.len() {
                            i + 1
                        } else {
                            0
                        }
                    } else {
                        if i > 0 {
                            i - 1
                        } else {
                            m.len() - 1
                        }
                    };
                    self.command = m[j].clone();
                    self.completion = Some((p, j));
                    return ;
                }
            },
            None => {},
        }
        let cv = chars_of(self.command.as_str());
        let m = matching_words(&cv);
        if m.len() == 0 {
            return ;
        }
        let j = if forward {
            0
        } else {
            m.len() - 1
        };
        let prefix = self.command.clone();
        self.command = m[j].clone();
        self.completion = Some((prefix, j));
    }

    fn handle_confirm(&mut self, key: Key) -> (r: KeyAction)
        ensures
            final(self)@ == confirm_step(old(self)@, key).0,
            r == confirm_step(old(self)@, key).1,
    {
        match key.code {
            KeyCode::Esc => {
                self.mode = Mode::Normal;
                self.status = copy_str("transfer cancelled");
                KeyAction::Nothing
            },
            KeyCode::Enter => KeyAction::DoSend,
            KeyCode::Char(c) => {
                if c == 'n' || c == 'N' {
                    self.mode = Mode::Normal;
                    self.status = copy_str("transfer cancelled");
                    KeyAction::Nothing
                } else if c == 'y' || c == 'Y' {
                    KeyAction::DoSend
                } else {
                    KeyAction::Nothing
                }
            },
            _ => KeyAction::Nothing,
        }
    }

    fn move_sel(&mut self, delta: i32)
        requires
            wf(old(self)@),
            transfer_count(old(self)@) <= i32::MAX,
            delta == 1 || delta == -1,
        ensures
            final(self)@ == moved(old(self)@, delta as int),
    {
        let len: usize = match &self.snapshot {
            Some(snap) => snap.transfers.len(),
            None => 0,
        };
        if len == 0 {
            return ;
        }
        let last = (len - 1) as i32;
        let cur = self.selected as i32 + delta;
        let next = if cur < 0 {
            0
        } else if cur > last {
            last
        } else {
            cur
        };
        self.selected = next as usize;
    }

    /// Moves to the next tab.
    pub fn next_view(&mut self)
        ensures
            final(self)@ == (AppView { view: next_view_of(old(self)@.view), ..old(self)@ }),
    {
        self.view = match self.view {
            View::Dashboard => View::Transfers,
            View::Transfers => View::Send,
            View::Send => View::Help,
            View::Help => View::Dashboard,
        };
    }

    /// Moves to the previous tab.
    pub fn prev_view(&mut self)
        ensures
            final(self)@ == (AppView { view: prev_view_of(old(self)@.view), ..old(self)@ }),
    {
        self.view = match self.view {
            View::Dashboard => View::Help,
            View::Help => View::Send,
            View::Send => View::Transfers,
            View::Transfers => View::Dashboard,
        };
    }

    fn run_command(&mut self, raw: &String) -> (r: KeyAction)
        ensures
            final(self)@ == command_effect(old(self)@, raw@).0,
            r == command_effect(old(self)@, raw@).1,
    {
        let v = chars_of(raw.as_str());
        let (a, e, ra, rb) = split_line(&v);
        let cmd = string_of(&v, a, e);
        let ghost rest = v@.subrange(ra as int, rb as int);
        if text_is(&cmd, "q") || text_is(&cmd, "quit") || text_is(&cmd, "q!") {
            KeyAction::Quit
        } else if text_is(&cmd, "refresh") || text_is(&cmd, "sync") || text_is(&cmd, "redraw") {
            KeyAction::Reload
        } else if text_is(&cmd, "help") || text_is(&cmd, "h") {
            self.view = View::Help;
            KeyAction::Nothing
        } else if text_is(&cmd, "address") {
            self.view = View::Dashboard;
            KeyAction::Yank
        } else if text_is(&cmd, "balance") {
            self.view = View::Dashboard;
            match &self.snapshot {
                Some(snap) => {
                    let mut m = copy_str("balance ");
                    let b1 = format_xmr(snap.balance);
                    push_str(&mut m, b1.as_str());
                    push_str(&mut m, "  unlocked ");
                    let b2 = format_xmr(snap.unlocked);
                    push_str(&mut m, b2.as_str());
                    self.status = m;
                },
                None => {},
            }
            KeyAction::Nothing
        } else if text_is(&cmd, "transfers") || text_is(&cmd, "history") {
            self.view = View::Transfers;
            KeyAction::Nothing
        } else if text_is(&cmd, "send") && ra == rb {
            self.view = View::Send;
            self.mode = Mode::Insert;
            KeyAction::Nothing
        } else if text_is(&cmd, "send") {
            match first_two_words(&v, ra, rb) {
                Some((addr, amount)) => {
                    self.send_address = addr;
                    self.send_amount = amount;
                    KeyAction::PromptSend
                },
                None => {
                    self.error = Some(copy_str("usage: :send <address> <amount>"));
                    KeyAction::Nothing
                },
            }
        } else if text_is(&cmd, "tabn") || text_is(&cmd, "bn") {
            self.next_view();
            KeyAction::Nothing
        } else if text_is(&cmd, "tabp") || text_is(&cmd, "bp") {
            self.prev_view();
            KeyAction::Nothing
        } else {
            let mut m = copy_str("unknown command: ");
            push_str(&mut m, cmd.as_str());
            self.error = Some(m);
            KeyAction::Nothing
        }
    }
}

/// Splits the command line `v` into its command word `v[r.0..r.1]` and the
/// trimmed rest `v[r.2..r.3]`.
fn split_line(v: &Vec<char>) -> (r: (usize, usize, usize, usize))
    ensures
        r.0 <= r.1 <= v@.len(),
        r.2 <= r.3 <= v@.len(),
        v@.subrange(r.0 as int, r.1 as int) == split_command(trim(v@)).0,
        v@.subrange(r.2 as int, r.3 as int) == split_command(trim(v@)).1,
{
    let n = v.len();
    let (a, b) = trim_range(v, 0, n);
    let e = skip_word(v, a, b);
    let (ra, rb) = if e < b {
        trim_range(v, e + 1, b)
    } else {
        (b, b)
    };
    proof {
        let line = v@.subrange(a as int, b as int);
        assert(v@.subrange(0, n as int) =~= v@);
        lemma_skip_word_prefix(v@, a as int, b as int, e as int);
        if e < b {
            assert(line.skip(e - a + 1) =~= v@.subrange(e + 1, b as int));
        } else {
            assert(v@.subrange(ra as int, rb as int) =~= Seq::<char>::empty());
            assert(v@.subrange(a as int, e as int) =~= line);
        }
    }
    (a, e, ra, rb)
}

/// The first two white-space separated words of `v[from..to]`.
fn first_two_words(v: &Vec<char>, from: usize, to: usize) -> (r: Option<(String, String)>)
    requires
        from <= to <= v@.len(),
    ensures
        match two_words(v@.subrange(from as int, to as int)) {
            Some((w1, w2)) => r matches Some((x, y)) && x@ == w1 && y@ == w2,
            None => r is None,
        },
{
    let i1 = skip_ws(v, from, to);
    let j1 = skip_word(v, i1, to);
    let i2 = skip_ws(v, j1, to);
    let j2 = skip_word(v, i2, to);
    proof {
        lemma_skip_ws_trims(v@, from as int, to as int, i1 as int);
        lemma_skip_word_prefix(v@, i1 as int, to as int, j1 as int);
        let t1 = v@.subrange(i1 as int, to as int);
        assert(t1.skip(j1 - i1) =~= v@.subrange(j1 as int, to as int));
        lemma_skip_ws_trims(v@, j1 as int, to as int, i2 as int);
        lemma_skip_word_prefix(v@, i2 as int, to as int, j2 as int);
    }
    if j1 > i1 && j2 > i2 {
        Some((string_of(v, i1, j1), string_of(v, i2, j2)))
    } else {
        None
    }
}

/// `s` cut to its first and last `keep` bytes around an ellipsis, when its
/// UTF-8 encoding is longer than `2 * keep + 3` bytes.
pub fn truncate(s: &str, keep: usize) -> (r: String)
    requires
        keep <= (usize::MAX - 3) / 2,
        truncatable(s@, keep as nat),
    ensures
        r@ == truncated(s@, keep as nat),
{
    let len = s.len();
    if len <= keep * 2 + 3 {
        copy_str(s)
    } else {
        let (head, _) = s.split_at(keep);
        let (_, tail) = s.split_at(len - keep);
        proof {
            encode_utf8_decode_utf8(head@);
            encode_utf8_decode_utf8(tail@);
        }
        let mut r = copy_str(head);
        push_char(&mut r, '…');
        push_str(&mut r, tail);
        r
    }
}

/// Command word `i`, in the order of `command_words`.
fn command_word(i: usize) -> (r: &'static str)
    requires
        i < command_words().len(),
    ensures
        r@ == command_words()[i as int],
{
    if i == 0 {
        "address"
    } else if i == 1 {
        "balance"
    } else if i == 2 {
        "bn"
    } else if i == 3 {
        "bp"
    } else if i == 4 {
        "h"
    } else if i == 5 {
        "help"
    } else if i == 6 {
        "history"
    } else if i == 7 {
        "q"
    } else if i == 8 {
        "q!"
    } else if i == 9 {
        "quit"
    } else if i == 10 {
        "redraw"
    } else if i == 11 {
        "refresh"
    } else if i == 12 {
        "send"
    } else if i == 13 {
        "sync"
    } else if i == 14 {
        "tabn"
    } else if i == 15 {
        "tabp"
    } else {
        "transfers"
    }
}

/// Whether `w` begins with `p`.
fn begins_with(w: &Vec<char>, p: &Vec<char>) -> (r: bool)
    ensures
        r == starts_with(w@, p@),
{
    if p.len() > w.len() {
        return false;
    }
    let mut i: usize = 0;
    while i < p.len()
        invariant
            p@.len() <= w@.len(),
            i <= p@.len(),
            forall|k: int| 0 <= k < i ==> w@[k] == p@[k],
        decreases p@.len() - i,
    {
        if w[i] != p[i] {
            assert(w@.take(p@.len() as int)[i as int] != p@[i as int]);
            return false;
        }
        i = i + 1;
    }
    assert(w@.take(p@.len() as int) =~= p@);
    true
}

/// The command words that begin with `p`, in order.
fn matching_words(p: &Vec<char>) -> (r: Vec<String>)
    ensures
        r@.len() == command_completions(p@).len(),
        forall|k: int| 0 <= k < r@.len() ==> #[trigger] r@[k]@ == command_completions(p@)[k],
{
    let n: usize = 17;
    assert(command_words().len() == 17);
    let mut r: Vec<String> = Vec::new();
    let mut i: usize = 0;
    assert(command_words().take(0) =~= Seq::<Seq<char>>::empty());
    while i < n
        invariant
            n == command_words().len(),
            i <= n,
            r@.len() == completions(command_words().take(i as int), p@).len(),
            forall|k: int|
                0 <= k < r@.len() ==> #[trigger] r@[k]@ == completions(
                    command_words().take(i as int),
                    p@,
                )[k],
        decreases n - i,
    {
        let w = command_word(i);
        let wv = chars_of(w);
        let ghost before = command_words().take(i as int);
        proof {
            assert(command_words().take(i + 1).drop_last() =~= before);
            assert(command_words().take(i + 1).last() == command_words()[i as int]);
        }
        if begins_with(&wv, p) {
            r.push(copy_str(w));
        }
        i = i + 1;
    }
    assert(command_words().take(17) =~= command_words());
    r
}

} // verus!
