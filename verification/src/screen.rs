//! The text of the lines the screen shows.

use vstd::prelude::*;
use crate::amount::{decimal, decimal_chars, format_xmr, xmr_text};
use crate::text::{copy_str, push_char, push_str, string_of, text_is};
use crate::wallet::{TransferRow, TransferRowView};

verus! {

/// `n` spaces.
pub open spec fn spaces(n: nat) -> Seq<char> {
    Seq::new(n, |i: int| ' ')
}

/// `s` padded with spaces on the right to `w` characters (`{:<w}`).
pub open spec fn pad_end(s: Seq<char>, w: nat) -> Seq<char> {
    if s.len() >= w {
        s
    } else {
        s + spaces((w - s.len()) as nat)
    }
}

/// `s` padded with spaces on the left to `w` characters (`{:>w}`).
pub open spec fn pad_start(s: Seq<char>, w: nat) -> Seq<char> {
    if s.len() >= w {
        s
    } else {
        spaces((w - s.len()) as nat) + s
    }
}

fn push_spaces(r: &mut String, n: usize)
    ensures
        final(r)@ == old(r)@ + spaces(n as nat),
{
    let mut i: usize = 0;
    while i < n
        invariant
            i <= n,
            r@ == old(r)@ + spaces(i as nat),
        decreases n - i,
    {
        push_char(r, ' ');
        i = i + 1;
        assert(r@ =~= old(r)@ + spaces(i as nat));
    }
}

fn push_padded_end(r: &mut String, s: &Vec<char>, w: usize)
    ensures
        final(r)@ == old(r)@ + pad_end(s@, w as nat),
{
    let t = string_of(s, 0, s.len());
    proof {
        assert(s@.subrange(0, s@.len() as int) =~= s@);
    }
    push_str(r, t.as_str());
    if s.len() < w {
        push_spaces(r, w - s.len());
    }
    assert(r@ =~= old(r)@ + pad_end(s@, w as nat));
}

fn push_padded_start(r: &mut String, s: &Vec<char>, w: usize)
    ensures
        final(r)@ == old(r)@ + pad_start(s@, w as nat),
{
    if s.len() < w {
        push_spaces(r, w - s.len());
    }
    let t = string_of(s, 0, s.len());
    proof {
        assert(s@.subrange(0, s@.len() as int) =~= s@);
    }
    push_str(r, t.as_str());
    assert(r@ =~= old(r)@ + pad_start(s@, w as nat));
}

/// The line of a transfer in the transfers list: a marker on the
/// selected one, its category, the signed amount, confirmations and time.
pub open spec fn transfer_line_text(row: TransferRowView, selected: bool) -> Seq<char> {
    (if selected {
        seq!['❯', ' ']
    } else {
        seq![' ', ' ']
    }) + pad_end(row.kind, 8) + seq![' '] + (if row.kind == "out"@ {
        seq!['-']
    } else {
        seq!['+']
    }) + pad_start(xmr_text(row.amount), 14) + " XMR  "@ + pad_start(
        decimal(
            match row.confirmations {
                Some(c) => c as nat,
                None => 0,
            },
        ),
        4,
    ) + "c  "@ + row.timestamp
}

/// The line of `row` in the transfers list.
pub fn transfer_line(row: &TransferRow, selected: bool) -> (r: String)
    ensures
        r@ == transfer_line_text(row@, selected),
{
    let mut r = String::new();
    if selected {
        push_char(&mut r, '❯');
    } else {
        push_char(&mut r, ' ');
    }
    push_char(&mut r, ' ');
    let kind: Vec<char> = crate::text::chars_of(row.kind.as_str());
    push_padded_end(&mut r, &kind, 8);
    push_char(&mut r, ' ');
    if text_is(&row.kind, "out") {
        push_char(&mut r, '-');
    } else {
        push_char(&mut r, '+');
    }
    let amount = format_xmr(row.amount);
    let av = crate::text::chars_of(amount.as_str());
    push_padded_start(&mut r, &av, 14);
    push_str(&mut r, " XMR  ");
    let conf = match row.confirmations {
        Some(c) => c,
        None => 0,
    };
    let cv = decimal_chars(conf);
    push_padded_start(&mut r, &cv, 4);
    push_str(&mut r, "c  ");
    push_str(&mut r, row.timestamp.as_str());
    proof {
        assert(r@ =~= transfer_line_text(row@, selected));
    }
    r
}

/// The title of the tab bar: the wallet's name and the chain height, or
/// `locked` before the first refresh.
pub open spec fn title_text(wallet_name: Seq<char>, height: Option<u64>) -> Seq<char> {
    " xmrtui · "@ + wallet_name + " · "@ + match height {
        Some(h) => "height "@ + decimal(h as nat),
        None => "locked"@,
    } + " "@
}

/// The title of the tab bar.
pub fn title_line(wallet_name: &str, height: Option<u64>) -> (r: String)
    ensures
        r@ == title_text(wallet_name@, height),
{
    let mut r = copy_str(" xmrtui · ");
    push_str(&mut r, wallet_name);
    push_str(&mut r, " · ");
    match height {
        Some(h) => {
            push_str(&mut r, "height ");
            let d = decimal_chars(h);
            let t = string_of(&d, 0, d.len());
            proof {
                assert(d@.subrange(0, d@.len() as int) =~= d@);
            }
            push_str(&mut r, t.as_str());
        },
        None => push_str(&mut r, "locked"),
    }
    push_str(&mut r, " ");
    proof {
        assert(r@ =~= title_text(wallet_name@, height));
    }
    r
}

} // verus!
