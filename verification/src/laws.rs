//! Properties of the interface that span several keys or steps.

use vstd::prelude::*;
use vstd::view::View as _;
use crate::app::{Chord, Key, KeyAction, KeyCode, Mode, SendField, View};
use crate::model::{
    command_effect, command_step, confirm_step, insert_step, key_step, moved, next_view_of,
    normal_plain_step, normal_step, password_step, prev_view_of, prompt_effect, synced,
    transfer_count, wf, AppView, command_completions, command_words, completing, completions,
    completion_step, starts_with, split_command, yank_text,
};
use crate::wallet::SnapshotView;
use crate::amount::{
    decimal, fixed_digits, is_digit, lemma_decimal_reads_back, lemma_fixed_digits_zero,
    lemma_no_underscores, lemma_strip_all_zeros, unsigned_digits, xmr_input, xmr_text,
    XmrInputView, PICO_PER_XMR,
};
use crate::text::{is_ws, trim, trim_end, trim_start};

verus! {

/// Control-C quits from every mode and changes nothing.
pub proof fn law_ctrl_c_quits(s: AppView, c: char)
    requires
        c == 'c',
    ensures
        key_step(s, Key { code: KeyCode::Char(c), ctrl: true }) == (s, KeyAction::Quit),
{
}

/// The previous tab of the next tab, and the next tab of the previous tab,
/// is the tab itself.
pub proof fn law_tabs_inverse(v: View)
    ensures
        prev_view_of(next_view_of(v)) == v,
        next_view_of(prev_view_of(v)) == v,
{
}

/// Four steps to the next tab come back to the same tab.
pub proof fn law_tabs_cycle(v: View)
    ensures
        next_view_of(next_view_of(next_view_of(next_view_of(v)))) == v,
{
}

/// No key changes the snapshot, and every key keeps the selection on the
/// transfer list (or at 0).
pub proof fn law_keys_keep_selection_valid(s: AppView, key: Key)
    requires
        wf(s),
    ensures
        key_step(s, key).0.snapshot == s.snapshot,
        wf(key_step(s, key).0),
{
    if !(key.code == KeyCode::Char('c') && key.ctrl) {
        match s.mode {
            Mode::Password => lemma_password_keeps(s, key),
            Mode::Command => lemma_command_keeps(s, key),
            Mode::Insert => lemma_insert_keeps(s, key),
            Mode::Confirm => lemma_confirm_keeps(s, key),
            Mode::Normal => lemma_normal_keeps(s, key),
        }
    }
}

proof fn lemma_password_keeps(s: AppView, key: Key)
    requires
        wf(s),
    ensures
        password_step(s, key).0.snapshot == s.snapshot,
        password_step(s, key).0.selected == s.selected,
{
}

proof fn lemma_command_keeps(s: AppView, key: Key)
    requires
        wf(s),
    ensures
        command_step(s, key).0.snapshot == s.snapshot,
        command_step(s, key).0.selected == s.selected,
{
}

proof fn lemma_insert_keeps(s: AppView, key: Key)
    requires
        wf(s),
    ensures
        insert_step(s, key).0.snapshot == s.snapshot,
        insert_step(s, key).0.selected == s.selected,
{
}

proof fn lemma_confirm_keeps(s: AppView, key: Key)
    requires
        wf(s),
    ensures
        confirm_step(s, key).0.snapshot == s.snapshot,
        confirm_step(s, key).0.selected == s.selected,
{
}

proof fn lemma_normal_keeps(s: AppView, key: Key)
    requires
        wf(s),
    ensures
        normal_step(s, key).0.snapshot == s.snapshot,
        wf(normal_step(s, key).0),
{
    if s.chord == Chord::Nothing {
        lemma_normal_plain_keeps(s, key);
    }
}

proof fn lemma_normal_plain_keeps(s: AppView, key: Key)
    requires
        wf(s),
        s.chord == Chord::Nothing,
    ensures
        normal_plain_step(s, key).0.snapshot == s.snapshot,
        wf(normal_plain_step(s, key).0),
{
}

/// A refresh leaves the selection on the new transfer list (or at 0).
pub proof fn law_refresh_keeps_selection_valid(s: AppView, snap: SnapshotView)
    ensures
        wf(synced(s, snap)),
        transfer_count(synced(s, snap)) == snap.transfers.len(),
{
}

/// In the modes that take text, a typed character and a Backspace cancel
/// out (on a command line where no completion is under way).
pub proof fn law_type_then_erase(s: AppView, c: char)
    requires
        s.mode == Mode::Password || s.mode == Mode::Insert || s.mode == Mode::Command,
        s.completion is None,
    ensures
        key_step(key_step(s, Key { code: KeyCode::Char(c), ctrl: false }).0, Key {
            code: KeyCode::Backspace,
            ctrl: false,
        }) == (s, KeyAction::Nothing),
{
    let t = key_step(s, Key { code: KeyCode::Char(c), ctrl: false }).0;
    if s.mode == Mode::Password {
        assert(t.password.drop_last() =~= s.password);
    } else if s.mode == Mode::Command {
        assert(t.command.drop_last() =~= s.command);
    } else if s.send_field == SendField::Address {
        assert(t.send_address.drop_last() =~= s.send_address);
    } else {
        assert(t.send_amount.drop_last() =~= s.send_amount);
    }
}

/// `y` twice in normal mode asks to yank, and leaves no chord pending.
pub proof fn law_yy_yanks(s: AppView)
    requires
        s.mode == Mode::Normal,
        s.chord == Chord::Nothing,
    ensures
        ({
            let y = Key { code: KeyCode::Char('y'), ctrl: false };
            let t = key_step(key_step(s, y).0, y);
            t.1 == KeyAction::Yank && t.0 == s
        }),
{
}

/// `g` twice in normal mode selects the first transfer.
pub proof fn law_gg_selects_first(s: AppView)
    requires
        s.mode == Mode::Normal,
        s.chord == Chord::Nothing,
    ensures
        ({
            let g = Key { code: KeyCode::Char('g'), ctrl: false };
            let t = key_step(key_step(s, g).0, g);
            t.1 == KeyAction::Nothing && t.0 == AppView { selected: 0, ..s }
        }),
{
}

/// Moving down and back up returns to the same transfer, away from the end
/// of the list.
pub proof fn law_down_up(s: AppView)
    requires
        s.selected + 1 < transfer_count(s) <= i32::MAX,
    ensures
        moved(moved(s, 1), -1) == s,
{
    let t = moved(s, 1);
    assert(t.selected == s.selected + 1);
    assert(transfer_count(t) == transfer_count(s));
    assert(moved(t, -1).selected == s.selected);
    assert(moved(t, -1) =~= s);
}

/// Escape leaves command mode for normal mode with an empty command line
/// and no completion.
pub proof fn law_escape_command(s: AppView)
    requires
        s.mode == Mode::Command,
    ensures
        key_step(s, Key { code: KeyCode::Esc, ctrl: false }) == (
            AppView { mode: Mode::Normal, command: Seq::empty(), completion: None, ..s },
            KeyAction::Nothing,
        ),
{
}

/// Enter in command mode clears the command line and returns to normal
/// mode, except `:send` alone, which opens the send form for typing.
pub proof fn law_enter_runs_command(s: AppView)
    requires
        s.mode == Mode::Command,
    ensures
        ({
            let t = key_step(s, Key { code: KeyCode::Enter, ctrl: false }).0;
            &&& t.command.len() == 0
            &&& t.mode == Mode::Normal || (t.mode == Mode::Insert && t.view == View::Send)
        }),
{
}

/// A whole number of XMR typed as digits reads as that many XMR in
/// piconero, and that amount shows as the same digits followed by `.0`.
pub proof fn law_whole_xmr_round_trip(n: nat)
    requires
        n * PICO_PER_XMR <= u64::MAX,
    ensures
        xmr_input(decimal(n)) == XmrInputView::Pico((n * PICO_PER_XMR) as u64),
        xmr_text((n * PICO_PER_XMR) as u64) == decimal(n) + seq!['.', '0'],
{
    let s = decimal(n);
    lemma_decimal_reads_back(n);
    assert forall|i: int| 0 <= i < s.len() implies #[trigger] s[i] != '_' && !is_ws(s[i]) by {
        assert(is_digit(s[i]));
    }
    assert(!is_ws(s[0]));
    assert(trim_start(s) == s);
    assert(!is_ws(s.last()));
    assert(trim_end(s) == s);
    lemma_no_underscores(s);
    assert(is_digit(s[0]));
    assert(unsigned_digits(s) == s);
    let p = (n * PICO_PER_XMR) as u64;
    assert(p / PICO_PER_XMR == n && p % PICO_PER_XMR == 0) by (nonlinear_arith)
        requires
            p == n * PICO_PER_XMR,
            PICO_PER_XMR == 1_000_000_000_000u64,
    ;
    lemma_fixed_digits_zero(12);
    lemma_strip_all_zeros(fixed_digits(0, 12));
}

/// `:send <address> <amount>` asks for confirmation: the transfer it
/// prompts for always has both fields filled in.
pub proof fn law_send_command_asks_confirmation(s: AppView, raw: Seq<char>)
    requires
        command_effect(s, raw).1 == KeyAction::PromptSend,
    ensures
        prompt_effect(command_effect(s, raw).0).mode == Mode::Confirm,
{
}

/// `g` then `t` moves to the next tab, and `g` then `T` to the previous one;
/// nothing else changes and no chord is left pending.
pub proof fn law_g_t_changes_tab(s: AppView)
    requires
        s.mode == Mode::Normal,
        s.chord == Chord::Nothing,
    ensures
        ({
            let g = Key { code: KeyCode::Char('g'), ctrl: false };
            let after = key_step(s, g).0;
            &&& key_step(after, Key { code: KeyCode::Char('t'), ctrl: false }) == (
                AppView { view: next_view_of(s.view), ..s },
                KeyAction::Nothing,
            )
            &&& key_step(after, Key { code: KeyCode::Char('T'), ctrl: false }) == (
                AppView { view: prev_view_of(s.view), ..s },
                KeyAction::Nothing,
            )
        }),
{
}

/// `G` selects the last transfer, and does nothing before the first
/// refresh.
pub proof fn law_shift_g_selects_last(s: AppView)
    requires
        s.mode == Mode::Normal,
        s.chord == Chord::Nothing,
    ensures
        ({
            let t = key_step(s, Key { code: KeyCode::Char('G'), ctrl: false });
            &&& t.1 == KeyAction::Nothing
            &&& match s.snapshot {
                Some(snap) => t.0 == AppView {
                    selected: if snap.transfers.len() > 0 {
                        (snap.transfers.len() - 1) as usize
                    } else {
                        0
                    },
                    ..s
                },
                None => t.0 == s,
            }
        }),
{
}

/// After `y`, a second key other than `y` is consumed: it changes nothing
/// but clearing the chord.
pub proof fn law_y_then_other_is_consumed(s: AppView, key: Key)
    requires
        s.mode == Mode::Normal,
        s.chord == Chord::Nothing,
        key.code != KeyCode::Char('y'),
        !(key.code == KeyCode::Char('c') && key.ctrl),
    ensures
        key_step(key_step(s, Key { code: KeyCode::Char('y'), ctrl: false }).0, key) == (
            s,
            KeyAction::Nothing,
        ),
{
}

/// The candidates of a completion are command words that begin with the
/// prefix.
pub proof fn lemma_completions_sound(ws: Seq<Seq<char>>, p: Seq<char>)
    ensures
        completions(ws, p).len() <= ws.len(),
        forall|k: int|
            0 <= k < completions(ws, p).len() ==> ws.contains(#[trigger] completions(ws, p)[k])
                && starts_with(completions(ws, p)[k], p),
    decreases ws.len(),
{
    if ws.len() > 0 {
        lemma_completions_sound(ws.drop_last(), p);
        let c = completions(ws, p);
        assert forall|k: int| 0 <= k < c.len() implies ws.contains(#[trigger] c[k]) && starts_with(
            c[k],
            p,
        ) by {
            let r = completions(ws.drop_last(), p);
            if k < r.len() {
                assert(c[k] == r[k]);
                let m = choose|m: int| 0 <= m < ws.drop_last().len() && ws.drop_last()[m] == r[k];
                assert(ws[m] == r[k]);
            } else {
                assert(c[k] == ws.last());
                assert(ws[ws.len() - 1] == ws.last());
            }
        }
    }
}

/// Tab and Shift-Tab on the command line either leave it as it is, when no
/// command word begins with it, or put a command word there that begins
/// with the prefix being completed.
pub proof fn law_completion_gives_command_word(s: AppView, forward: bool)
    requires
        s.mode == Mode::Command,
    ensures
        ({
            let t = key_step(
                s,
                Key { code: if forward { KeyCode::Tab } else { KeyCode::BackTab }, ctrl: false },
            ).0;
            t == s || (completing(t) && command_words().contains(t.command) && match t.completion {
                Some((p, _)) => starts_with(t.command, p),
                None => false,
            })
        }),
{
    let key = Key { code: if forward { KeyCode::Tab } else { KeyCode::BackTab }, ctrl: false };
    assert(key_step(s, key).0 == completion_step(s, forward));
    assert(command_words().len() == 17);
    let t = completion_step(s, forward);
    match s.completion {
        Some((p, i)) => {
            lemma_completions_sound(command_words(), p);
        },
        None => {},
    }
    lemma_completions_sound(command_words(), s.command);
    if t != s {
        match t.completion {
            Some((p, j)) => {
                assert(j < command_completions(p).len());
                assert(command_completions(p)[j as int] == t.command);
            },
            None => {},
        }
    }
}

/// A prefix that one command word alone begins with completes to that word,
/// with Tab or Shift-Tab.
pub proof fn law_unique_prefix_completes(s: AppView, w: Seq<char>)
    requires
        s.mode == Mode::Command,
        !completing(s),
        command_completions(s.command) == seq![w],
    ensures
        key_step(s, Key { code: KeyCode::Tab, ctrl: false }).0.command == w,
        key_step(s, Key { code: KeyCode::BackTab, ctrl: false }).0.command == w,
{
}

/// While a completion is under way, Tab and Shift-Tab undo each other.
pub proof fn law_tab_backtab_inverse(s: AppView)
    requires
        s.mode == Mode::Command,
        completing(s),
    ensures
        ({
            let tab = Key { code: KeyCode::Tab, ctrl: false };
            let back = Key { code: KeyCode::BackTab, ctrl: false };
            &&& key_step(key_step(s, tab).0, back).0 == s
            &&& key_step(key_step(s, back).0, tab).0 == s
        }),
{
    let tab = Key { code: KeyCode::Tab, ctrl: false };
    let back = Key { code: KeyCode::BackTab, ctrl: false };
    let p = s.completion.unwrap().0;
    let i = s.completion.unwrap().1;
    let m = command_completions(p);
    assert(command_words().len() == 17);
    lemma_completions_sound(command_words(), p);
    let f = completion_step(s, true);
    let b = completion_step(s, false);
    assert(key_step(s, tab).0 == f);
    assert(key_step(s, back).0 == b);
    assert(completing(f));
    assert(completing(b));
    assert(key_step(f, back).0 == completion_step(f, false));
    assert(key_step(b, tab).0 == completion_step(b, true));
    assert(completion_step(f, false) =~= s);
    assert(completion_step(b, true) =~= s);
}

/// A refresh that returns `n` transfers keeps the selection where it was
/// when it is still on the list, and otherwise moves it to the last
/// transfer (0 for an empty list); it installs the new snapshot, clears the
/// error and ends the busy state.
pub proof fn law_refresh_keeps_selection(s: AppView, snap: SnapshotView)
    ensures
        ({
            let n = snap.transfers.len();
            let t = synced(s, snap);
            &&& s.selected < n ==> t.selected == s.selected
            &&& s.selected >= n && n > 0 ==> t.selected == n - 1
            &&& n == 0 ==> t.selected == 0
            &&& t.snapshot == Some(snap)
            &&& t.error is None
            &&& !t.busy
            &&& t.view == s.view && t.mode == s.mode
        }),
{
}

/// While a transfer waits for confirmation, Esc, `n` and `N` cancel it
/// alike: back to normal mode with the status "transfer cancelled" and
/// nothing to do; `y`, `Y` and Enter send it and change nothing.
pub proof fn law_confirm_keys(s: AppView)
    requires
        s.mode == Mode::Confirm,
    ensures
        ({
            let esc = key_step(s, Key { code: KeyCode::Esc, ctrl: false });
            let n = key_step(s, Key { code: KeyCode::Char('n'), ctrl: false });
            let big_n = key_step(s, Key { code: KeyCode::Char('N'), ctrl: false });
            &&& esc == n
            &&& big_n == n
            &&& esc.0.mode == Mode::Normal
            &&& esc.0.status == "transfer cancelled"@
            &&& esc.1 == KeyAction::Nothing
            &&& esc.0 == AppView { mode: Mode::Normal, status: "transfer cancelled"@, ..s }
            &&& key_step(s, Key { code: KeyCode::Enter, ctrl: false }) == (s, KeyAction::DoSend)
            &&& key_step(s, Key { code: KeyCode::Char('y'), ctrl: false }) == (s, KeyAction::DoSend)
            &&& key_step(s, Key { code: KeyCode::Char('Y'), ctrl: false }) == (s, KeyAction::DoSend)
        }),
{
}

/// A transfer is only put up for confirmation with both the address and the
/// amount filled in; with either empty, the form reports "address and
/// amount required" and nothing else changes.
pub proof fn law_prompt_needs_address_and_amount(s: AppView)
    ensures
        s.mode != Mode::Confirm ==> (prompt_effect(s).mode == Mode::Confirm <==> (
        s.send_address.len() > 0 && s.send_amount.len() > 0)),
        (s.send_address.len() > 0 && s.send_amount.len() > 0) ==> prompt_effect(s).mode
            == Mode::Confirm,
        (s.send_address.len() == 0 || s.send_amount.len() == 0) ==> prompt_effect(s) == (AppView {
            error: Some("address and amount required"@),
            ..s
        }),
        (s.send_address.len() > 0 && s.send_amount.len() > 0) ==> prompt_effect(s).error == s.error,
{
}

/// `yy` copies the selected transaction id on the transfers tab, and the
/// wallet address on every other tab (or with no transfer selected);
/// nothing only before the first refresh.
pub proof fn law_yank_target(s: AppView)
    ensures
        yank_text(s) is None <==> s.snapshot is None,
        match s.snapshot {
            Some(snap) => if s.view == View::Transfers && s.selected < snap.transfers.len() {
                yank_text(s) == Some(snap.transfers[s.selected as int].txid)
            } else {
                yank_text(s) == Some(snap.address)
            },
            None => true,
        },
        s.view != View::Transfers && s.snapshot is Some ==> (yank_text(s) == Some(
            s.snapshot->0.address,
        )),
{
}

/// A `:` line does what its command word says, whatever follows the word,
/// and the two spellings of a command act alike: `tabp`/`bp` go to the
/// previous tab, `tabn`/`bn` to the next, `help`/`h` to help,
/// `transfers`/`history` to the transfers tab, `q`/`quit`/`q!` quit,
/// `refresh`/`sync`/`redraw` refresh and `address` yanks on the dashboard.
pub proof fn law_command_words(s: AppView, raw: Seq<char>)
    ensures
        ({
            let cmd = split_command(trim(raw)).0;
            let t = command_effect(s, raw);
            &&& (cmd == "tabp"@ || cmd == "bp"@) ==> t == (
                AppView { view: prev_view_of(s.view), ..s },
                KeyAction::Nothing,
            )
            &&& (cmd == "tabn"@ || cmd == "bn"@) ==> t == (
                AppView { view: next_view_of(s.view), ..s },
                KeyAction::Nothing,
            )
            &&& (cmd == "help"@ || cmd == "h"@) ==> t == (
                AppView { view: View::Help, ..s },
                KeyAction::Nothing,
            )
            &&& (cmd == "transfers"@ || cmd == "history"@) ==> t == (
                AppView { view: View::Transfers, ..s },
                KeyAction::Nothing,
            )
            &&& (cmd == "q"@ || cmd == "quit"@ || cmd == "q!"@) ==> t == (s, KeyAction::Quit)
            &&& (cmd == "refresh"@ || cmd == "sync"@ || cmd == "redraw"@) ==> t == (
                s,
                KeyAction::Reload,
            )
            &&& cmd == "address"@ ==> t == (
                AppView { view: View::Dashboard, ..s },
                KeyAction::Yank,
            )
        }),
{
    reveal_strlit("q");
    reveal_strlit("quit");
    reveal_strlit("q!");
    reveal_strlit("refresh");
    reveal_strlit("sync");
    reveal_strlit("redraw");
    reveal_strlit("help");
    reveal_strlit("h");
    reveal_strlit("address");
    reveal_strlit("balance");
    reveal_strlit("transfers");
    reveal_strlit("history");
    reveal_strlit("send");
    reveal_strlit("tabn");
    reveal_strlit("bn");
    reveal_strlit("tabp");
    reveal_strlit("bp");
    assert("q"@.len() != "quit"@.len());
    assert("q"@.len() != "q!"@.len());
    assert("q"@.len() != "refresh"@.len());
    assert("q"@.len() != "sync"@.len());
    assert("q"@.len() != "redraw"@.len());
    assert("q"@.len() != "help"@.len());
    assert("q"@[0] != "h"@[0]);
    assert("q"@.len() != "address"@.len());
    assert("q"@.len() != "balance"@.len());
    assert("q"@.len() != "transfers"@.len());
    assert("q"@.len() != "history"@.len());
    assert("q"@.len() != "send"@.len());
    assert("q"@.len() != "tabn"@.len());
    assert("q"@.len() != "bn"@.len());
    assert("q"@.len() != "tabp"@.len());
    assert("q"@.len() != "bp"@.len());
    assert("quit"@.len() != "q!"@.len());
    assert("quit"@.len() != "refresh"@.len());
    assert("quit"@[0] != "sync"@[0]);
    assert("quit"@.len() != "redraw"@.len());
    assert("quit"@[0] != "help"@[0]);
    assert("quit"@.len() != "h"@.len());
    assert("quit"@.len() != "address"@.len());
    assert("quit"@.len() != "balance"@.len());
    assert("quit"@.len() != "transfers"@.len());
    assert("quit"@.len() != "history"@.len());
    assert("quit"@[0] != "send"@[0]);
    assert("quit"@[0] != "tabn"@[0]);
    assert("quit"@.len() != "bn"@.len());
    assert("quit"@[0] != "tabp"@[0]);
    assert("quit"@.len() != "bp"@.len());
    assert("q!"@.len() != "refresh"@.len());
    assert("q!"@.len() != "sync"@.len());
    assert("q!"@.len() != "redraw"@.len());
    assert("q!"@.len() != "help"@.len());
    assert("q!"@.len() != "h"@.len());
    assert("q!"@.len() != "address"@.len());
    assert("q!"@.len() != "balance"@.len());
    assert("q!"@.len() != "transfers"@.len());
    assert("q!"@.len() != "history"@.len());
    assert("q!"@.len() != "send"@.len());
    assert("q!"@.len() != "tabn"@.len());
    assert("q!"@[0] != "bn"@[0]);
    assert("q!"@.len() != "tabp"@.len());
    assert("q!"@[0] != "bp"@[0]);
    assert("refresh"@.len() != "sync"@.len());
    assert("refresh"@.len() != "redraw"@.len());
    assert("refresh"@.len() != "help"@.len());
    assert("refresh"@.len() != "h"@.len());
    assert("refresh"@[0] != "address"@[0]);
    assert("refresh"@[0] != "balance"@[0]);
    assert("refresh"@.len() != "transfers"@.len());
    assert("refresh"@[0] != "history"@[0]);
    assert("refresh"@.len() != "send"@.len());
    assert("refresh"@.len() != "tabn"@.len());
    assert("refresh"@.len() != "bn"@.len());
    assert("refresh"@.len() != "tabp"@.len());
    assert("refresh"@.len() != "bp"@.len());
    assert("sync"@.len() != "redraw"@.len());
    assert("sync"@[0] != "help"@[0]);
    assert("sync"@.len() != "h"@.len());
    assert("sync"@.len() != "address"@.len());
    assert("sync"@.len() != "balance"@.len());
    assert("sync"@.len() != "transfers"@.len());
    assert("sync"@.len() != "history"@.len());
    assert("sync"@[1] != "send"@[1]);
    assert("sync"@[0] != "tabn"@[0]);
    assert("sync"@.len() != "bn"@.len());
    assert("sync"@[0] != "tabp"@[0]);
    assert("sync"@.len() != "bp"@.len());
    assert("redraw"@.len() != "help"@.len());
    assert("redraw"@.len() != "h"@.len());
    assert("redraw"@.len() != "address"@.len());
    assert("redraw"@.len() != "balance"@.len());
    assert("redraw"@.len() != "transfers"@.len());
    assert("redraw"@.len() != "history"@.len());
    assert("redraw"@.len() != "send"@.len());
    assert("redraw"@.len() != "tabn"@.len());
    assert("redraw"@.len() != "bn"@.len());
    assert("redraw"@.len() != "tabp"@.len());
    assert("redraw"@.len() != "bp"@.len());
    assert("help"@.len() != "h"@.len());
    assert("help"@.len() != "address"@.len());
    assert("help"@.len() != "balance"@.len());
    assert("help"@.len() != "transfers"@.len());
    assert("help"@.len() != "history"@.len());
    assert("help"@[0] != "send"@[0]);
    assert("help"@[0] != "tabn"@[0]);
    assert("help"@.len() != "bn"@.len());
    assert("help"@[0] != "tabp"@[0]);
    assert("help"@.len() != "bp"@.len());
    assert("h"@.len() != "address"@.len());
    assert("h"@.len() != "balance"@.len());
    assert("h"@.len() != "transfers"@.len());
    assert("h"@.len() != "history"@.len());
    assert("h"@.len() != "send"@.len());
    assert("h"@.len() != "tabn"@.len());
    assert("h"@.len() != "bn"@.len());
    assert("h"@.len() != "tabp"@.len());
    assert("h"@.len() != "bp"@.len());
    assert("address"@[0] != "balance"@[0]);
    assert("address"@.len() != "transfers"@.len());
    assert("address"@[0] != "history"@[0]);
    assert("address"@.len() != "send"@.len());
    assert("address"@.len() != "tabn"@.len());
    assert("address"@.len() != "bn"@.len());
    assert("address"@.len() != "tabp"@.len());
    assert("address"@.len() != "bp"@.len());
    assert("balance"@.len() != "transfers"@.len());
    assert("balance"@[0] != "history"@[0]);
    assert("balance"@.len() != "send"@.len());
    assert("balance"@.len() != "tabn"@.len());
    assert("balance"@.len() != "bn"@.len());
    assert("balance"@.len() != "tabp"@.len());
    assert("balance"@.len() != "bp"@.len());
    assert("transfers"@.len() != "history"@.len());
    assert("transfers"@.len() != "send"@.len());
    assert("transfers"@.len() != "tabn"@.len());
    assert("transfers"@.len() != "bn"@.len());
    assert("transfers"@.len() != "tabp"@.len());
    assert("transfers"@.len() != "bp"@.len());
    assert("history"@.len() != "send"@.len());
    assert("history"@.len() != "tabn"@.len());
    assert("history"@.len() != "bn"@.len());
    assert("history"@.len() != "tabp"@.len());
    assert("history"@.len() != "bp"@.len());
    assert("send"@[0] != "tabn"@[0]);
    assert("send"@.len() != "bn"@.len());
    assert("send"@[0] != "tabp"@[0]);
    assert("send"@.len() != "bp"@.len());
    assert("tabn"@.len() != "bn"@.len());
    assert("tabn"@[3] != "tabp"@[3]);
    assert("tabn"@.len() != "bp"@.len());
    assert("bn"@.len() != "tabp"@.len());
    assert("bn"@[1] != "bp"@[1]);
    assert("tabp"@.len() != "bp"@.len());
}

} // verus!
