use xmrtui::amount::format_xmr;
use xmrtui::screen::{title_line, transfer_line};
use xmrtui::wallet::TransferRow;

fn row(kind: &str, amount: u64, confirmations: Option<u64>) -> TransferRow {
    TransferRow {
        kind: kind.to_string(),
        amount,
        fee: 0,
        confirmations,
        timestamp: "2024-01-02 03:04".to_string(),
        txid: "ab".to_string(),
        address: "4a".to_string(),
    }
}

fn expected(r: &TransferRow, selected: bool) -> String {
    let marker = if selected { "❯ " } else { "  " };
    let sign = if r.kind == "out" { "-" } else { "+" };
    format!(
        "{marker}{:<8} {sign}{:>14} XMR  {:>4}c  {}",
        r.kind,
        format_xmr(r.amount),
        r.confirmations.unwrap_or(0),
        r.timestamp,
    )
}

#[test]
fn transfer_lines_match_list_layout() {
    let rows = [
        row("out", 1_500_000_000_000, Some(12)),
        row("in", 7, None),
        row("pending", 123_456_789_000_000_000, Some(123_456)),
        row("confirmed", 0, Some(1)),
    ];
    for r in &rows {
        assert_eq!(transfer_line(r, true), expected(r, true));
        assert_eq!(transfer_line(r, false), expected(r, false));
    }
    assert_eq!(
        transfer_line(&rows[0], false),
        "  out      -           1.5 XMR    12c  2024-01-02 03:04"
    );
}

#[test]
fn tab_title_shows_height_or_locked() {
    assert_eq!(title_line("wallet_1", Some(3_100_200)), " xmrtui · wallet_1 · height 3100200 ");
    assert_eq!(title_line("wallet_1", None), " xmrtui · wallet_1 · locked ");
}
