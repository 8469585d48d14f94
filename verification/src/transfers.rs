//! Transfer rows from what the wallet RPC server reports, newest first, and
//! the snapshot that a refresh builds.

use vstd::prelude::*;
use crate::amount::digit;
use crate::order::{
    lemma_text_le_transitive, lemma_text_lt_asymmetric, text_less, text_lt,
};
use crate::text::{chars_of, copy_str};
use crate::wallet::{Snapshot, TransferRow, TransferRowView};

verus! {

/// The lowercase hexadecimal digit of `d` (below 16).
pub open spec fn hex_digit(d: nat) -> char {
    if d < 10 {
        digit(d)
    } else if d == 10 {
        'a'
    } else if d == 11 {
        'b'
    } else if d == 12 {
        'c'
    } else if d == 13 {
        'd'
    } else if d == 14 {
        'e'
    } else {
        'f'
    }
}

/// Lowercase hex of `b`: two digits per byte, the high half first.
pub open spec fn hex_lower(b: Seq<u8>) -> Seq<char>
    decreases b.len(),
{
    if b.len() == 0 {
        Seq::empty()
    } else {
        seq![hex_digit((b[0] / 16) as nat), hex_digit((b[0] % 16) as nat)] + hex_lower(
            b.drop_first(),
        )
    }
}

/// `hex::encode`: the bytes as lowercase hex, two characters per byte, the
/// high half first.
#[verifier::external_body]
fn hex_encode(data: &[u8]) -> (r: String)
    ensures
        r@ == hex_lower(data@),
{
    hex::encode(data)
}

/// The category the server files a transfer under.
#[derive(Clone, Copy, PartialEq, Eq, Structural, Debug)]
pub enum TransferCategory {
    In,
    Out,
    Pending,
    Failed,
    Pool,
    Block,
}

/// The name of a category in the transfers list.
pub open spec fn category_name(c: TransferCategory) -> Seq<char> {
    match c {
        TransferCategory::In => "in"@,
        TransferCategory::Out => "out"@,
        TransferCategory::Pending => "pending"@,
        TransferCategory::Failed => "failed"@,
        TransferCategory::Pool => "pool"@,
        TransferCategory::Block => "block"@,
    }
}

/// A transfer as the server reports it.
pub struct RawTransfer {
    pub category: TransferCategory,
    /// Piconero.
    pub amount: u64,
    /// Piconero.
    pub fee: u64,
    pub confirmations: Option<u64>,
    /// Already rendered as `YYYY-MM-DD HH:MM`.
    pub timestamp: String,
    /// The transaction id's bytes.
    pub txid: Vec<u8>,
    pub address: String,
}

/// The row that shows `raw`.
pub open spec fn row_of(raw: RawTransfer) -> TransferRowView {
    TransferRowView {
        kind: category_name(raw.category),
        amount: raw.amount,
        fee: raw.fee,
        confirmations: raw.confirmations,
        timestamp: raw.timestamp@,
        txid: hex_lower(raw.txid@),
        address: raw.address@,
    }
}

/// The row that shows `raw`: its category named, its transaction id in hex.
pub fn transfer_row(raw: RawTransfer) -> (r: TransferRow)
    ensures
        r@ == row_of(raw),
{
    let kind = match raw.category {
        TransferCategory::In => copy_str("in"),
        TransferCategory::Out => copy_str("out"),
        TransferCategory::Pending => copy_str("pending"),
        TransferCategory::Failed => copy_str("failed"),
        TransferCategory::Pool => copy_str("pool"),
        TransferCategory::Block => copy_str("block"),
    };
    let txid = hex_encode(raw.txid.as_slice());
    TransferRow {
        kind,
        amount: raw.amount,
        fee: raw.fee,
        confirmations: raw.confirmations,
        timestamp: raw.timestamp,
        txid,
        address: raw.address,
    }
}

/// `p` lists each of `0..n` once.
pub open spec fn is_permutation(p: Seq<int>, n: nat) -> bool {
    &&& p.len() == n
    &&& forall|k: int| 0 <= k < n ==> 0 <= #[trigger] p[k] < n
    &&& forall|a: int, b: int| 0 <= a < b < n ==> p[a] != p[b]
}

/// `output` holds the rows of `input` by `p`, newest timestamp first, rows
/// with equal timestamps in their input order: a stable sort by timestamp,
/// descending.
pub open spec fn newest_first_by(
    input: Seq<TransferRowView>,
    output: Seq<TransferRowView>,
    p: Seq<int>,
) -> bool {
    &&& is_permutation(p, input.len())
    &&& output.len() == input.len()
    &&& forall|k: int| 0 <= k < output.len() ==> #[trigger] output[k] == input[p[k]]
    &&& forall|a: int, b: int|
        0 <= a < b < output.len() ==> !text_lt(output[a].timestamp, output[b].timestamp)
    &&& forall|a: int, b: int|
        0 <= a < b < output.len() && output[a].timestamp == output[b].timestamp ==> p[a] < p[b]
}

/// `output` is `input` sorted newest first, stably.
pub open spec fn newest_first(input: Seq<TransferRowView>, output: Seq<TransferRowView>) -> bool {
    exists|p: Seq<int>| newest_first_by(input, output, p)
}

pub open spec fn row_views(rows: Seq<TransferRow>) -> Seq<TransferRowView> {
    rows.map_values(|r: TransferRow| r@)
}

/// The indices of `keys`, ordered as a stable sort by key, descending.
fn newest_order(keys: &Vec<Vec<char>>) -> (order: Vec<usize>)
    ensures
        order@.len() == keys@.len(),
        forall|k: int| 0 <= k < order@.len() ==> #[trigger] order@[k] < keys@.len(),
        forall|a: int, b: int| 0 <= a < b < order@.len() ==> order@[a] != order@[b],
        forall|a: int, b: int|
            0 <= a < b < order@.len() ==> !text_lt(keys@[order@[a] as int]@, keys@[order@[b] as int]@),
        forall|a: int, b: int|
            0 <= a < b < order@.len() && keys@[order@[a] as int]@ == keys@[order@[b] as int]@
                ==> order@[a] < order@[b],
{
    let n = keys.len();
    let mut order: Vec<usize> = Vec::new();
    let mut i: usize = 0;
    while i < n
        invariant
            i <= n == keys@.len(),
            order@.len() == i,
            forall|k: int| 0 <= k < i ==> #[trigger] order@[k] < i,
            forall|a: int, b: int| 0 <= a < b < i ==> order@[a] != order@[b],
            forall|a: int, b: int|
                0 <= a < b < i ==> !text_lt(keys@[order@[a] as int]@, keys@[order@[b] as int]@),
            forall|a: int, b: int|
                0 <= a < b < i && keys@[order@[a] as int]@ == keys@[order@[b] as int]@ ==> order@[a]
                    < order@[b],
        decreases n - i,
    {
        let mut j = i;
        while j > 0 && text_less(&keys[order[j - 1]], &keys[i])
            invariant
                i < n == keys@.len(),
                order@.len() == i,
                j <= i,
                forall|k: int| 0 <= k < i ==> #[trigger] order@[k] < i,
                forall|t: int| j <= t < i ==> text_lt(keys@[order@[t] as int]@, keys@[i as int]@),
            decreases j,
        {
            j = j - 1;
        }
        let ghost old_order = order@;
        let ghost x = keys@[i as int]@;
        order.insert(j, i);
        proof {
            assert(order@ == old_order.take(j as int).push(i) + old_order.skip(j as int));
            assert forall|k: int| 0 <= k < i + 1 implies #[trigger] order@[k] < i + 1 by {
                if k < j {
                    assert(order@[k] == old_order[k]);
                } else if k > j {
                    assert(order@[k] == old_order[k - 1]);
                }
            }
            assert forall|a: int, b: int| 0 <= a < b < i + 1 implies order@[a] != order@[b] by {
                if b < j {
                    assert(order@[a] == old_order[a] && order@[b] == old_order[b]);
                } else if b == j {
                    assert(order@[a] == old_order[a]);
                    assert(old_order[a] < i);
                } else if a < j {
                    assert(order@[a] == old_order[a] && order@[b] == old_order[b - 1]);
                } else if a == j {
                    assert(order@[b] == old_order[b - 1]);
                    assert(old_order[b - 1] < i);
                } else {
                    assert(order@[a] == old_order[a - 1] && order@[b] == old_order[b - 1]);
                }
            }
            assert forall|a: int, b: int| 0 <= a < b < i + 1 implies !text_lt(
                keys@[order@[a] as int]@,
                keys@[order@[b] as int]@,
            ) && (keys@[order@[a] as int]@ == keys@[order@[b] as int]@ ==> order@[a]
                < order@[b]) by {
                if b < j {
                    assert(order@[a] == old_order[a] && order@[b] == old_order[b]);
                } else if b == j {
                    assert(order@[a] == old_order[a]);
                    assert(old_order[a] < i);
                    assert(!text_lt(keys@[old_order[j - 1] as int]@, x));
                    if a < j - 1 {
                        assert(!text_lt(
                            keys@[old_order[a] as int]@,
                            keys@[old_order[j - 1] as int]@,
                        ));
                        lemma_text_le_transitive(
                            keys@[old_order[a] as int]@,
                            keys@[old_order[j - 1] as int]@,
                            x,
                        );
                    }
                } else if a < j {
                    assert(order@[a] == old_order[a] && order@[b] == old_order[b - 1]);
                } else if a == j {
                    assert(order@[b] == old_order[b - 1]);
                    assert(text_lt(keys@[old_order[b - 1] as int]@, x));
                    lemma_text_lt_asymmetric(keys@[old_order[b - 1] as int]@, x);
                } else {
                    assert(order@[a] == old_order[a - 1] && order@[b] == old_order[b - 1]);
                }
            }
        }
        i = i + 1;
    }
    order
}

/// The rows sorted newest first; rows with equal timestamps keep their
/// order.
pub fn sort_newest_first(rows: &Vec<TransferRow>) -> (r: Vec<TransferRow>)
    ensures
        newest_first(row_views(rows@), row_views(r@)),
{
    let n = rows.len();
    let mut keys: Vec<Vec<char>> = Vec::new();
    let mut i: usize = 0;
    while i < n
        invariant
            i <= n == rows@.len(),
            keys@.len() == i,
            forall|k: int| 0 <= k < i ==> #[trigger] keys@[k]@ == rows@[k].timestamp@,
        decreases n - i,
    {
        keys.push(chars_of(rows[i].timestamp.as_str()));
        i = i + 1;
    }
    let order = newest_order(&keys);
    let mut out: Vec<TransferRow> = Vec::new();
    let mut k: usize = 0;
    while k < n
        invariant
            k <= n == rows@.len() == order@.len() == keys@.len(),
            out@.len() == k,
            forall|m: int| 0 <= m < n ==> #[trigger] order@[m] < n,
            forall|m: int| 0 <= m < k ==> #[trigger] out@[m]@ == rows@[order@[m] as int]@,
        decreases n - k,
    {
        out.push(rows[order[k]].duplicate());
        k = k + 1;
    }
    proof {
        let p = order@.map_values(|x: usize| x as int);
        let input = row_views(rows@);
        let output = row_views(out@);
        assert forall|a: int, b: int| 0 <= a < b < n implies !text_lt(
            output[a].timestamp,
            output[b].timestamp,
        ) && (output[a].timestamp == output[b].timestamp ==> p[a] < p[b]) by {
            assert(keys@[order@[a] as int]@ == rows@[order@[a] as int].timestamp@);
            assert(keys@[order@[b] as int]@ == rows@[order@[b] as int].timestamp@);
        }
        assert(newest_first_by(input, output, p));
    }
    out
}

/// The rows of what the server reported, newest first; transfers with equal
/// timestamps keep the order in which they were reported.
pub fn collect_transfers(raw: Vec<RawTransfer>) -> (r: Vec<TransferRow>)
    ensures
        newest_first(raw@.map_values(|t: RawTransfer| row_of(t)), row_views(r@)),
{
    let ghost input = raw@;
    let mut rows: Vec<TransferRow> = Vec::new();
    for t in it: raw
        invariant
            it.seq() == input,
            rows@.len() == it.index(),
            forall|m: int| 0 <= m < rows@.len() ==> #[trigger] rows@[m]@ == row_of(input[m]),
    {
        rows.push(transfer_row(t));
    }
    proof {
        assert(row_views(rows@) =~= input.map_values(|t: RawTransfer| row_of(t)));
    }
    sort_newest_first(&rows)
}

/// The snapshot a refresh builds from what the server answered: height 0,
/// address `(unavailable)`, zero balances and no transfers stand in for the
/// calls that failed.
pub fn assemble_snapshot(
    height: Option<u64>,
    address: Option<String>,
    balances: Option<(u64, u64)>,
    transfers: Option<Vec<RawTransfer>>,
) -> (r: Snapshot)
    ensures
        r.height == (match height {
            Some(h) => h,
            None => 0,
        }),
        r.address@ == (match address {
            Some(a) => a@,
            None => "(unavailable)"@,
        }),
        (r.balance, r.unlocked) == (match balances {
            Some(b) => b,
            None => (0u64, 0u64),
        }),
        match transfers {
            Some(t) => newest_first(t@.map_values(|x: RawTransfer| row_of(x)), row_views(r.transfers@)),
            None => r.transfers@.len() == 0,
        },
{
    let (balance, unlocked) = match balances {
        Some(b) => b,
        None => (0, 0),
    };
    Snapshot {
        address: match address {
            Some(a) => a,
            None => copy_str("(unavailable)"),
        },
        balance,
        unlocked,
        height: match height {
            Some(h) => h,
            None => 0,
        },
        transfers: match transfers {
            Some(t) => collect_transfers(t),
            None => Vec::new(),
        },
    }
}

} // verus!
