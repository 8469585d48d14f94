use xmrtui::app::{App, Mode, View};
use xmrtui::app::truncate;
use xmrtui::layout::{centered, display_field, Area};
use xmrtui::paths::{expand_tilde, split_wallet_path, wallet_name};
use xmrtui::transfers::{assemble_snapshot, collect_transfers, transfer_row, RawTransfer, TransferCategory};
use xmrtui::wallet::{Snapshot, TransferRow};

const ADDRESS: &str =
    "4ADT1BtbxqEWeMKp9GgPr2NeyJXXtNxvoDawpyA4WpzFcGcoHUvXeijE66DNfohE9r1bQYaBiQjEtKE7CtkTdLwiDznFzra";

fn raw(category: TransferCategory, ts: &str, txid: Vec<u8>) -> RawTransfer {
    RawTransfer {
        category,
        amount: 5,
        fee: 1,
        confirmations: None,
        timestamp: ts.to_string(),
        txid,
        address: "a".to_string(),
    }
}

fn row(ts: &str, txid: &str) -> TransferRow {
    transfer_row(raw(TransferCategory::In, ts, vec![])).with_txid(txid)
}

trait WithTxid {
    fn with_txid(self, txid: &str) -> Self;
}

impl WithTxid for TransferRow {
    fn with_txid(mut self, txid: &str) -> Self {
        self.txid = txid.to_string();
        self
    }
}

fn app_with(rows: Vec<TransferRow>) -> App {
    let mut app = App::new("w".to_string(), "d".to_string());
    app.mode = Mode::Normal;
    app.snapshot = Some(Snapshot {
        address: "4wallet".to_string(),
        balance: 0,
        unlocked: 0,
        height: 1,
        transfers: rows,
    });
    app
}

#[test]
fn transfer_rows_name_category_and_hex_txid() {
    let r = transfer_row(raw(TransferCategory::Out, "2024-05-01 10:00", vec![0xab, 0x01, 0xff]));
    assert_eq!(r.kind, "out");
    assert_eq!(r.txid, "ab01ff");
    assert_eq!(r.amount, 5);
    assert_eq!(r.fee, 1);
    assert_eq!(r.timestamp, "2024-05-01 10:00");
    for (c, name) in [
        (TransferCategory::In, "in"),
        (TransferCategory::Pending, "pending"),
        (TransferCategory::Failed, "failed"),
        (TransferCategory::Pool, "pool"),
        (TransferCategory::Block, "block"),
    ] {
        assert_eq!(transfer_row(raw(c, "", vec![])).kind, name);
    }
}

#[test]
fn transfers_are_newest_first_and_stable() {
    let rows = collect_transfers(vec![
        raw(TransferCategory::In, "2024-01-02 00:00", vec![1]),
        raw(TransferCategory::Out, "2024-03-01 00:00", vec![2]),
        raw(TransferCategory::Pool, "2024-01-02 00:00", vec![3]),
        raw(TransferCategory::In, "2023-12-31 23:59", vec![4]),
        raw(TransferCategory::Pending, "2024-03-01 00:00", vec![5]),
    ]);
    let ids: Vec<&str> = rows.iter().map(|r| r.txid.as_str()).collect();
    assert_eq!(ids, vec!["02", "05", "01", "03", "04"]);
}

#[test]
fn snapshot_defaults_for_failed_calls() {
    let s = assemble_snapshot(None, None, None, None);
    assert_eq!(s.height, 0);
    assert_eq!(s.address, "(unavailable)");
    assert_eq!((s.balance, s.unlocked), (0, 0));
    assert!(s.transfers.is_empty());
    let s = assemble_snapshot(Some(7), Some("4x".to_string()), Some((3, 2)), Some(vec![]));
    assert_eq!(s.height, 7);
    assert_eq!(s.address, "4x");
    assert_eq!((s.balance, s.unlocked), (3, 2));
}

#[test]
fn reload_pulls_selection_back_onto_list() {
    let mut app = app_with(vec![row("a", "1"), row("b", "2"), row("c", "3")]);
    app.selected = 2;
    app.reload_started();
    assert!(app.busy);
    assert_eq!(app.status, "refresh…");
    app.reload_finished(Ok(Snapshot {
        address: "x".to_string(),
        balance: 0,
        unlocked: 0,
        height: 2,
        transfers: vec![row("a", "1")],
    }));
    assert_eq!(app.selected, 0);
    assert_eq!(app.status, "synced");
    assert!(!app.busy);
    assert!(app.error.is_none());
    app.reload_finished(Err("boom".to_string()));
    assert_eq!(app.error.as_deref(), Some("boom"));
    assert_eq!(app.status, "refresh failed");
    assert_eq!(app.snapshot.as_ref().unwrap().height, 2);
}

#[test]
fn unlock_forgets_password() {
    let mut app = App::new("w".to_string(), "d".to_string());
    app.password = "secret".to_string();
    app.unlock_started();
    assert!(app.busy);
    assert_eq!(app.status, "opening wallet…");
    assert!(!app.unlock_finished(Err("bad".to_string())));
    assert!(app.password.is_empty());
    assert_eq!(app.mode, Mode::Password);
    assert_eq!(app.status, "wrong password or RPC error");
    assert!(!app.busy);
    app.password = "secret".to_string();
    assert!(app.unlock_finished(Ok(())));
    assert!(app.password.is_empty());
    assert!(app.unlocked);
    assert_eq!(app.mode, Mode::Normal);
    assert_eq!(app.status, "wallet unlocked");
}

#[test]
fn prompt_send_needs_both_fields() {
    let mut app = app_with(vec![]);
    app.send_address = ADDRESS.to_string();
    app.prompt_send();
    assert_eq!(app.error.as_deref(), Some("address and amount required"));
    assert_eq!(app.mode, Mode::Normal);
    app.send_amount = "  0.5 ".to_string();
    app.prompt_send();
    assert_eq!(app.mode, Mode::Confirm);
    assert_eq!(app.confirm_text, "send 0.5 XMR to 4ADT1BtbxqEWeMKp9G…KE7CtkTdLwiDznFzra ?");
    assert_eq!(app.status, "y confirm / n cancel");
}

#[test]
fn send_steps() {
    let mut app = app_with(vec![]);
    app.send_address = format!(" {ADDRESS} ");
    app.send_amount = " 1 ".to_string();
    app.mode = Mode::Confirm;
    let (a, m) = app.send_started();
    assert_eq!(a, ADDRESS);
    assert_eq!(m, "1");
    assert_eq!(app.mode, Mode::Normal);
    assert_eq!(app.status, "broadcasting…");
    assert!(app.send_finished(Ok("abcd".to_string())));
    assert_eq!(app.status, "sent  txid abcd");
    assert!(app.send_amount.is_empty());
    assert!(!app.send_finished(Err("no funds".to_string())));
    assert_eq!(app.status, "transfer failed");
    assert_eq!(app.error.as_deref(), Some("no funds"));
    assert!(!app.busy);
}

#[test]
fn yank_picks_txid_or_address() {
    let mut app = app_with(vec![row("a", "t0"), row("b", "t1")]);
    assert_eq!(app.yank_target().as_deref(), Some("4wallet"));
    app.view = View::Transfers;
    app.selected = 1;
    assert_eq!(app.yank_target().as_deref(), Some("t1"));
    assert_eq!(app.selected_transfer().unwrap().txid, "t1");
    app.record_yank(&"t1".to_string(), true);
    assert_eq!(app.status, "yanked t1");
    app.record_yank(&"t1".to_string(), false);
    assert_eq!(app.status, "yank failed, value: t1");
    let locked = App::new("w".to_string(), "d".to_string());
    assert!(locked.yank_target().is_none());
    assert!(locked.selected_transfer().is_none());
}

#[test]
fn truncate_keeps_ends() {
    assert_eq!(truncate("short", 18), "short");
    assert_eq!(truncate("abcdefghij", 3), "abc…hij");
    assert_eq!(truncate("abcdefghi", 3), "abcdefghi");
    assert_eq!(truncate(ADDRESS, 18), "4ADT1BtbxqEWeMKp9G…KE7CtkTdLwiDznFzra");
}

#[test]
fn wallet_path_splits_into_dir_and_name() {
    assert_eq!(
        split_wallet_path("/home/u/Monero/wallets/wallet_1.keys"),
        Some(("/home/u/Monero/wallets".to_string(), "wallet_1".to_string()))
    );
    assert_eq!(split_wallet_path("/w.keys.keys"), Some(("/".to_string(), "w".to_string())));
    assert_eq!(split_wallet_path("/a/b"), Some(("/a".to_string(), "b".to_string())));
    assert_eq!(split_wallet_path("/"), None);
}

#[test]
fn tilde_expands_to_home() {
    assert_eq!(expand_tilde("~/Monero/w", Some("/home/u")), "/home/u/Monero/w");
    assert_eq!(expand_tilde("~/w", Some("/home/u/")), "/home/u/w");
    assert_eq!(expand_tilde("~/", Some("/home/u")), "/home/u/");
    assert_eq!(expand_tilde("~//etc/w", Some("/home/u")), "/etc/w");
    assert_eq!(expand_tilde("~/w", None), "~/w");
    assert_eq!(expand_tilde("/abs/~/w", Some("/home/u")), "/abs/~/w");
    assert_eq!(expand_tilde("~user/w", Some("/home/u")), "~user/w");
}

#[test]
fn centered_box() {
    let a = Area { x: 2, y: 1, width: 100, height: 30 };
    assert_eq!(centered(a, 60, 7), Area { x: 22, y: 12, width: 60, height: 7 });
    assert_eq!(centered(Area { x: 0, y: 0, width: 40, height: 5 }, 60, 7), Area { x: 0, y: 0, width: 40, height: 5 });
    assert_eq!(
        centered(Area { x: 65000, y: 0, width: 1000, height: 5 }, 10, 5),
        Area { x: 65495, y: 0, width: 10, height: 5 }
    );
}

#[test]
fn send_field_text() {
    let mut app = app_with(vec![]);
    assert_eq!(display_field("", &app, xmrtui::app::SendField::Address), "…");
    app.mode = Mode::Insert;
    assert_eq!(display_field("", &app, xmrtui::app::SendField::Address), "▌");
    assert_eq!(display_field("4a", &app, xmrtui::app::SendField::Address), "4a▌");
    assert_eq!(display_field("4a", &app, xmrtui::app::SendField::Amount), "4a");
}

#[test]
fn wallet_name_drops_keys_suffixes() {
    assert_eq!(wallet_name("wallet_1.keys"), "wallet_1");
    assert_eq!(wallet_name("w.keys.keys"), "w");
    assert_eq!(wallet_name("w.key"), "w.key");
    assert_eq!(wallet_name(".keys"), "");
}
