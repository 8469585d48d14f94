use xmrtui::app::{App, Chord, Key, KeyAction, KeyCode, Mode, SendField, View};
use xmrtui::wallet::{Snapshot, TransferRow};

fn ch(c: char) -> Key {
    Key { code: KeyCode::Char(c), ctrl: false }
}

fn code(code: KeyCode) -> Key {
    Key { code, ctrl: false }
}

fn row(ts: &str, txid: &str) -> TransferRow {
    TransferRow {
        kind: "in".to_string(),
        amount: 1,
        fee: 0,
        confirmations: Some(3),
        timestamp: ts.to_string(),
        txid: txid.to_string(),
        address: "addr".to_string(),
    }
}

fn snapshot(n: usize) -> Snapshot {
    Snapshot {
        address: "4wallet".to_string(),
        balance: 1_500_000_000_000,
        unlocked: 250_000_000_000,
        height: 42,
        transfers: (0..n).map(|i| row("2024-01-01 00:00", &format!("tx{i}"))).collect(),
    }
}

fn unlocked_app(n: usize) -> App {
    let mut app = App::new("wallet_1".to_string(), "node:18089".to_string());
    app.mode = Mode::Normal;
    app.unlocked = true;
    app.snapshot = Some(snapshot(n));
    app
}

fn typed(app: &mut App, text: &str) {
    for c in text.chars() {
        assert!(matches!(app.handle_key(ch(c)), KeyAction::Nothing));
    }
}

#[test]
fn new_app_asks_for_password() {
    let app = App::new("w".to_string(), "d".to_string());
    assert_eq!(app.mode, Mode::Password);
    assert_eq!(app.view, View::Dashboard);
    assert_eq!(app.status, "enter wallet password");
    assert!(app.snapshot.is_none());
    assert_eq!(app.selected, 0);
    assert!(!app.unlocked);
}

#[test]
fn password_typing_and_unlock() {
    let mut app = App::new("w".to_string(), "d".to_string());
    typed(&mut app, "hunter2");
    assert_eq!(app.password, "hunter2");
    assert_eq!(app.handle_key(code(KeyCode::Backspace)), KeyAction::Nothing);
    assert_eq!(app.password, "hunter");
    assert_eq!(app.handle_key(Key { code: KeyCode::Char('x'), ctrl: true }), KeyAction::Nothing);
    assert_eq!(app.password, "hunter");
    assert_eq!(app.handle_key(code(KeyCode::Enter)), KeyAction::Unlock);
    assert_eq!(app.handle_key(code(KeyCode::Esc)), KeyAction::Quit);
}

#[test]
fn ctrl_c_quits_everywhere() {
    for mode in [Mode::Password, Mode::Normal, Mode::Insert, Mode::Command, Mode::Confirm] {
        let mut app = unlocked_app(0);
        app.mode = mode;
        assert_eq!(app.handle_key(Key { code: KeyCode::Char('c'), ctrl: true }), KeyAction::Quit);
        assert_eq!(app.mode, mode);
    }
}

#[test]
fn number_keys_pick_tabs() {
    let mut app = unlocked_app(0);
    app.handle_key(ch('2'));
    assert_eq!(app.view, View::Transfers);
    app.handle_key(ch('3'));
    assert_eq!(app.view, View::Send);
    app.handle_key(ch('1'));
    assert_eq!(app.view, View::Dashboard);
    app.handle_key(ch('?'));
    assert_eq!(app.view, View::Help);
}

#[test]
fn gt_and_g_shift_t_cycle_tabs() {
    let mut app = unlocked_app(0);
    app.handle_key(ch('g'));
    assert_eq!(app.chord, Chord::G);
    app.handle_key(ch('t'));
    assert_eq!(app.view, View::Transfers);
    assert_eq!(app.chord, Chord::Nothing);
    app.handle_key(ch('g'));
    app.handle_key(ch('T'));
    app.handle_key(ch('g'));
    app.handle_key(ch('T'));
    assert_eq!(app.view, View::Help);
    app.handle_key(code(KeyCode::Tab));
    assert_eq!(app.view, View::Dashboard);
    app.handle_key(code(KeyCode::BackTab));
    assert_eq!(app.view, View::Help);
}

#[test]
fn j_k_gg_and_shift_g_move_in_list() {
    let mut app = unlocked_app(3);
    app.handle_key(ch('j'));
    assert_eq!(app.selected, 1);
    app.handle_key(code(KeyCode::Down));
    app.handle_key(ch('j'));
    assert_eq!(app.selected, 2);
    app.handle_key(ch('k'));
    assert_eq!(app.selected, 1);
    app.handle_key(ch('g'));
    app.handle_key(ch('g'));
    assert_eq!(app.selected, 0);
    app.handle_key(code(KeyCode::Up));
    assert_eq!(app.selected, 0);
    app.handle_key(ch('G'));
    assert_eq!(app.selected, 2);
}

#[test]
fn moving_in_an_empty_list_stays_at_zero() {
    let mut app = unlocked_app(0);
    app.handle_key(ch('j'));
    app.handle_key(ch('G'));
    assert_eq!(app.selected, 0);
    let mut locked = App::new("w".to_string(), "d".to_string());
    locked.mode = Mode::Normal;
    locked.handle_key(ch('G'));
    assert_eq!(locked.selected, 0);
}

#[test]
fn r_reloads_and_yy_yanks() {
    let mut app = unlocked_app(0);
    assert_eq!(app.handle_key(ch('r')), KeyAction::Reload);
    assert_eq!(app.handle_key(ch('y')), KeyAction::Nothing);
    assert_eq!(app.handle_key(ch('y')), KeyAction::Yank);
    assert_eq!(app.handle_key(ch('y')), KeyAction::Nothing);
    assert_eq!(app.handle_key(ch('x')), KeyAction::Nothing);
    assert_eq!(app.chord, Chord::Nothing);
}

#[test]
fn i_opens_insert_only_on_send_tab() {
    let mut app = unlocked_app(0);
    app.handle_key(ch('i'));
    assert_eq!(app.mode, Mode::Normal);
    app.handle_key(ch('3'));
    app.handle_key(ch('i'));
    assert_eq!(app.mode, Mode::Insert);
    assert_eq!(app.status, "INSERT  tab=field  esc=normal");
}

#[test]
fn insert_mode_edits_send_form() {
    let mut app = unlocked_app(0);
    app.view = View::Send;
    app.mode = Mode::Insert;
    typed(&mut app, "4abc");
    app.handle_key(code(KeyCode::Backspace));
    assert_eq!(app.send_address, "4ab");
    app.handle_key(code(KeyCode::Tab));
    assert_eq!(app.send_field, SendField::Amount);
    typed(&mut app, "0.5");
    assert_eq!(app.send_amount, "0.5");
    app.handle_key(code(KeyCode::Tab));
    assert_eq!(app.send_field, SendField::Address);
    assert_eq!(app.handle_key(code(KeyCode::Enter)), KeyAction::PromptSend);
    assert_eq!(app.mode, Mode::Normal);
    app.mode = Mode::Insert;
    app.handle_key(code(KeyCode::Esc));
    assert_eq!(app.mode, Mode::Normal);
    assert_eq!(app.status, "NORMAL");
}

fn run(app: &mut App, line: &str) -> KeyAction {
    assert_eq!(app.handle_key(ch(':')), KeyAction::Nothing);
    assert_eq!(app.mode, Mode::Command);
    typed(app, line);
    let action = app.handle_key(code(KeyCode::Enter));
    assert!(app.command.is_empty());
    action
}

#[test]
fn colon_q_quits() {
    let mut app = unlocked_app(0);
    assert_eq!(run(&mut app, "q"), KeyAction::Quit);
    assert_eq!(run(&mut app, "quit"), KeyAction::Quit);
    assert_eq!(run(&mut app, "q!"), KeyAction::Quit);
    assert_eq!(app.mode, Mode::Normal);
}

#[test]
fn q_key_prefills_quit_command() {
    let mut app = unlocked_app(0);
    app.handle_key(ch('q'));
    assert_eq!(app.mode, Mode::Command);
    assert_eq!(app.command, "q");
    assert_eq!(app.handle_key(code(KeyCode::Enter)), KeyAction::Quit);
}

#[test]
fn colon_refresh_reloads() {
    let mut app = unlocked_app(0);
    assert_eq!(run(&mut app, "refresh"), KeyAction::Reload);
    assert_eq!(run(&mut app, "sync"), KeyAction::Reload);
    assert_eq!(run(&mut app, "  redraw  "), KeyAction::Reload);
}

#[test]
fn colon_views_and_tabs() {
    let mut app = unlocked_app(0);
    assert_eq!(run(&mut app, "help"), KeyAction::Nothing);
    assert_eq!(app.view, View::Help);
    assert_eq!(run(&mut app, "transfers"), KeyAction::Nothing);
    assert_eq!(app.view, View::Transfers);
    assert_eq!(run(&mut app, "tabn"), KeyAction::Nothing);
    assert_eq!(app.view, View::Send);
    assert_eq!(run(&mut app, "bp"), KeyAction::Nothing);
    assert_eq!(app.view, View::Transfers);
    assert_eq!(run(&mut app, "address"), KeyAction::Yank);
    assert_eq!(app.view, View::Dashboard);
}

#[test]
fn colon_balance_prints_balances() {
    let mut app = unlocked_app(0);
    app.view = View::Help;
    assert_eq!(run(&mut app, "balance"), KeyAction::Nothing);
    assert_eq!(app.view, View::Dashboard);
    assert_eq!(app.status, "balance 1.5  unlocked 0.25");
}

#[test]
fn colon_send_with_arguments_prompts() {
    let mut app = unlocked_app(0);
    assert_eq!(run(&mut app, "send  4abc \t 0.1 extra"), KeyAction::PromptSend);
    assert_eq!(app.send_address, "4abc");
    assert_eq!(app.send_amount, "0.1");
    assert_eq!(app.mode, Mode::Normal);
}

#[test]
fn colon_send_alone_opens_form() {
    let mut app = unlocked_app(0);
    assert_eq!(run(&mut app, "send   "), KeyAction::Nothing);
    assert_eq!(app.view, View::Send);
    assert_eq!(app.mode, Mode::Insert);
}

#[test]
fn colon_send_with_one_argument_shows_usage() {
    let mut app = unlocked_app(0);
    assert_eq!(run(&mut app, "send 4abc"), KeyAction::Nothing);
    assert_eq!(app.error.as_deref(), Some("usage: :send <address> <amount>"));
}

#[test]
fn unknown_command_is_reported() {
    let mut app = unlocked_app(0);
    assert_eq!(run(&mut app, " frobnicate now"), KeyAction::Nothing);
    assert_eq!(app.error.as_deref(), Some("unknown command: frobnicate"));
    assert_eq!(run(&mut app, ""), KeyAction::Nothing);
    assert_eq!(app.error.as_deref(), Some("unknown command: "));
}

#[test]
fn command_line_editing() {
    let mut app = unlocked_app(0);
    app.handle_key(ch(':'));
    typed(&mut app, "ab");
    app.handle_key(code(KeyCode::Backspace));
    assert_eq!(app.command, "a");
    app.handle_key(code(KeyCode::Backspace));
    assert_eq!(app.mode, Mode::Command);
    app.handle_key(code(KeyCode::Backspace));
    assert_eq!(app.mode, Mode::Normal);
    app.handle_key(ch(':'));
    typed(&mut app, "xyz");
    app.handle_key(code(KeyCode::Esc));
    assert_eq!(app.mode, Mode::Normal);
    assert!(app.command.is_empty());
}

#[test]
fn confirm_mode_sends_or_cancels() {
    let mut app = unlocked_app(0);
    app.mode = Mode::Confirm;
    assert_eq!(app.handle_key(ch('y')), KeyAction::DoSend);
    assert_eq!(app.handle_key(ch('Y')), KeyAction::DoSend);
    assert_eq!(app.handle_key(code(KeyCode::Enter)), KeyAction::DoSend);
    assert_eq!(app.handle_key(ch('x')), KeyAction::Nothing);
    assert_eq!(app.handle_key(ch('n')), KeyAction::Nothing);
    assert_eq!(app.mode, Mode::Normal);
    assert_eq!(app.status, "transfer cancelled");
}

#[test]
fn type_then_erase_restores_state() {
    for mode in [Mode::Password, Mode::Insert, Mode::Command] {
        let mut app = unlocked_app(0);
        app.mode = mode;
        app.handle_key(ch('a'));
        app.handle_key(ch('é'));
        app.handle_key(code(KeyCode::Backspace));
        assert_eq!(app.password.len() + app.command.len() + app.send_address.len(), 1);
        app.handle_key(code(KeyCode::Backspace));
        assert!(app.password.is_empty() && app.command.is_empty() && app.send_address.is_empty());
        assert_eq!(app.mode, mode);
    }
}

#[test]
fn colon_send_asks_y_n_then_sends() {
    let mut app = unlocked_app(0);
    assert_eq!(run(&mut app, "send 4abc 0.25"), KeyAction::PromptSend);
    app.prompt_send();
    assert_eq!(app.mode, Mode::Confirm);
    assert_eq!(app.confirm_text, "send 0.25 XMR to 4abc ?");
    assert_eq!(app.handle_key(ch('y')), KeyAction::DoSend);
}

#[test]
fn four_tabs_come_back_around() {
    let mut app = unlocked_app(0);
    for view in [View::Dashboard, View::Transfers, View::Send, View::Help] {
        app.view = view;
        for _ in 0..4 {
            app.handle_key(code(KeyCode::Tab));
        }
        assert_eq!(app.view, view);
        app.handle_key(code(KeyCode::Tab));
        app.handle_key(code(KeyCode::BackTab));
        assert_eq!(app.view, view);
    }
}

#[test]
fn tab_completes_command_word() {
    let mut app = unlocked_app(0);
    app.mode = Mode::Command;
    app.command = "ref".to_string();
    assert_eq!(app.handle_key(code(KeyCode::Tab)), KeyAction::Nothing);
    assert_eq!(app.command, "refresh");
    assert_eq!(app.mode, Mode::Command);
    assert_eq!(app.handle_key(code(KeyCode::Enter)), KeyAction::Reload);
}

#[test]
fn tab_cycles_through_candidates_and_shift_tab_goes_back() {
    let mut app = unlocked_app(0);
    app.handle_key(ch(':'));
    typed(&mut app, "t");
    app.handle_key(code(KeyCode::Tab));
    assert_eq!(app.command, "tabn");
    app.handle_key(code(KeyCode::Tab));
    assert_eq!(app.command, "tabp");
    app.handle_key(code(KeyCode::Tab));
    assert_eq!(app.command, "transfers");
    app.handle_key(code(KeyCode::Tab));
    assert_eq!(app.command, "tabn");
    app.handle_key(code(KeyCode::BackTab));
    assert_eq!(app.command, "transfers");
    app.handle_key(code(KeyCode::BackTab));
    assert_eq!(app.command, "tabp");
}

#[test]
fn shift_tab_starts_from_last_candidate() {
    let mut app = unlocked_app(0);
    app.handle_key(ch(':'));
    typed(&mut app, "q");
    app.handle_key(code(KeyCode::BackTab));
    assert_eq!(app.command, "quit");
    app.handle_key(code(KeyCode::BackTab));
    assert_eq!(app.command, "q!");
}

#[test]
fn typing_restarts_completion() {
    let mut app = unlocked_app(0);
    app.handle_key(ch(':'));
    typed(&mut app, "h");
    app.handle_key(code(KeyCode::Tab));
    assert_eq!(app.command, "h");
    app.handle_key(code(KeyCode::Tab));
    assert_eq!(app.command, "help");
    app.handle_key(code(KeyCode::Backspace));
    assert_eq!(app.command, "hel");
    assert!(app.completion.is_none());
    app.handle_key(code(KeyCode::Tab));
    assert_eq!(app.command, "help");
    app.handle_key(code(KeyCode::Tab));
    assert_eq!(app.command, "help");
}

#[test]
fn tab_leaves_a_line_no_command_begins_with() {
    let mut app = unlocked_app(0);
    app.handle_key(ch(':'));
    typed(&mut app, "send 4a");
    app.handle_key(code(KeyCode::Tab));
    assert_eq!(app.command, "send 4a");
    assert!(app.completion.is_none());
    app.handle_key(code(KeyCode::Esc));
    app.handle_key(ch(':'));
    app.handle_key(code(KeyCode::Tab));
    assert_eq!(app.command, "address");
}

#[test]
fn y_then_other_key_is_consumed() {
    let mut app = unlocked_app(0);
    app.handle_key(ch('y'));
    assert_eq!(app.handle_key(ch('2')), KeyAction::Nothing);
    assert_eq!(app.view, View::Dashboard);
    assert_eq!(app.chord, Chord::Nothing);
}

#[test]
fn tick_refreshes_only_when_unlocked_and_idle() {
    let mut app = unlocked_app(0);
    assert!(app.refresh_on_tick());
    app.busy = true;
    assert!(!app.refresh_on_tick());
    let locked = App::new("w".to_string(), "d".to_string());
    assert!(!locked.refresh_on_tick());
}

#[test]
fn only_list_moves_move_the_selection() {
    let mut app = unlocked_app(2);
    assert!(app.key_moves_selection(ch('j')));
    assert!(app.key_moves_selection(code(KeyCode::Up)));
    assert!(!app.key_moves_selection(ch('g')));
    app.handle_key(ch('g'));
    assert!(!app.key_moves_selection(ch('j')));
    app.handle_key(ch('g'));
    app.mode = Mode::Insert;
    assert!(!app.key_moves_selection(ch('j')));
}

#[test]
fn normal_mode_and_tab_steps_directly() {
    let mut app = unlocked_app(3);
    assert_eq!(app.handle_normal(ch('g')), KeyAction::Nothing);
    assert_eq!(app.handle_normal(ch('t')), KeyAction::Nothing);
    assert_eq!(app.view, View::Transfers);
    assert_eq!(app.chord, Chord::Nothing);
    app.handle_normal(ch('G'));
    assert_eq!(app.selected, 2);
    app.next_view();
    app.prev_view();
    assert_eq!(app.view, View::Transfers);
}
