//! Monero amounts as text: piconero to "whole.fraction" XMR, and the whole
//! XMR amounts a user may type.

use vstd::prelude::*;
use crate::text::{chars_of, string_of, trim, trim_range};

verus! {

/// Piconero in one XMR.
pub const PICO_PER_XMR: u64 = 1_000_000_000_000u64;

/// The decimal digit character of `d`.
pub open spec fn digit(d: nat) -> char {
    if d == 0 {
        '0'
    } else if d == 1 {
        '1'
    } else if d == 2 {
        '2'
    } else if d == 3 {
        '3'
    } else if d == 4 {
        '4'
    } else if d == 5 {
        '5'
    } else if d == 6 {
        '6'
    } else if d == 7 {
        '7'
    } else if d == 8 {
        '8'
    } else {
        '9'
    }
}

/// The decimal notation of `n`, without leading zeros.
pub open spec fn decimal(n: nat) -> Seq<char>
    decreases n,
{
    if n < 10 {
        seq![digit(n)]
    } else {
        decimal(n / 10).push(digit(n % 10))
    }
}

/// The last `w` decimal digits of `n`, padded with leading zeros.
pub open spec fn fixed_digits(n: nat, w: nat) -> Seq<char>
    decreases w,
{
    if w == 0 {
        Seq::empty()
    } else {
        fixed_digits(n / 10, (w - 1) as nat).push(digit(n % 10))
    }
}

/// `s` without trailing `'0'`s, keeping at least one character.
pub open spec fn strip_zeros(s: Seq<char>) -> Seq<char>
    decreases s.len(),
{
    if s.len() > 1 && s.last() == '0' {
        strip_zeros(s.drop_last())
    } else {
        s
    }
}

/// How an amount of `pico` piconero reads in XMR: the whole part, a dot, and
/// the twelve fractional digits without trailing zeros (at least one digit).
pub open spec fn xmr_text(pico: u64) -> Seq<char> {
    decimal((pico / PICO_PER_XMR) as nat) + seq!['.'] + strip_zeros(
        fixed_digits((pico % PICO_PER_XMR) as nat, 12),
    )
}

fn digit_char(d: u64) -> (c: char)
    requires
        d < 10,
    ensures
        c == digit(d as nat),
{
    if d == 0 {
        '0'
    } else if d == 1 {
        '1'
    } else if d == 2 {
        '2'
    } else if d == 3 {
        '3'
    } else if d == 4 {
        '4'
    } else if d == 5 {
        '5'
    } else if d == 6 {
        '6'
    } else if d == 7 {
        '7'
    } else if d == 8 {
        '8'
    } else {
        '9'
    }
}

/// The decimal digits of `n`.
pub fn decimal_chars(n: u64) -> (v: Vec<char>)
    ensures
        v@ == decimal(n as nat),
    decreases n,
{
    if n < 10 {
        let mut v = Vec::new();
        v.push(digit_char(n));
        proof {
            assert(v@ =~= seq![digit(n as nat)]);
        }
        v
    } else {
        let mut v = decimal_chars(n / 10);
        v.push(digit_char(n % 10));
        v
    }
}

fn fixed_chars(n: u64, w: usize) -> (v: Vec<char>)
    ensures
        v@ == fixed_digits(n as nat, w as nat),
    decreases w,
{
    if w == 0 {
        Vec::new()
    } else {
        let mut v = fixed_chars(n / 10, w - 1);
        v.push(digit_char(n % 10));
        v
    }
}

fn strip_zero_chars(v: &mut Vec<char>)
    ensures
        final(v)@ == strip_zeros(old(v)@),
{
    while v.len() > 1 && v[v.len() - 1] == '0'
        invariant
            strip_zeros(v@) == strip_zeros(old(v)@),
        decreases v@.len(),
    {
        v.pop();
    }
}

/// Renders `pico` piconero as XMR text, such as `1.5` or `0.000000000001`.
pub fn format_xmr(pico: u64) -> (r: String)
    ensures
        r@ == xmr_text(pico),
{
    let whole = pico / PICO_PER_XMR;
    let frac = pico % PICO_PER_XMR;
    let mut v = decimal_chars(whole);
    v.push('.');
    let mut f = fixed_chars(frac, 12);
    strip_zero_chars(&mut f);
    let ghost head = v@;
    let mut i: usize = 0;
    while i < f.len()
        invariant
            0 <= i <= f@.len(),
            v@ == head + f@.take(i as int),
        decreases f@.len() - i,
    {
        v.push(f[i]);
        assert(f@.take(i + 1) == f@.take(i as int).push(f@[i as int]));
        i = i + 1;
    }
    proof {
        assert(f@.take(f@.len() as int) =~= f@);
    }
    string_of(&v, 0, v.len())
}

/// A typed amount, read the way integers are read: whole XMR, or text that
/// only a decimal-fraction reading can take.
pub enum XmrInput {
    /// Nothing but white space and underscores.
    Empty,
    /// Whole XMR beyond what a `u64` of piconero holds.
    Overflow,
    /// Whole XMR, in piconero.
    Pico(u64),
    /// Not an unsigned integer: the text without white space at the ends
    /// and without underscores.
    Decimal(String),
}

pub enum XmrInputView {
    Empty,
    Overflow,
    Pico(u64),
    Decimal(Seq<char>),
}

impl View for XmrInput {
    type V = XmrInputView;

    open spec fn view(&self) -> XmrInputView {
        match self {
            XmrInput::Empty => XmrInputView::Empty,
            XmrInput::Overflow => XmrInputView::Overflow,
            XmrInput::Pico(p) => XmrInputView::Pico(*p),
            XmrInput::Decimal(t) => XmrInputView::Decimal(t@),
        }
    }
}

/// `s` without its `'_'` characters.
pub open spec fn remove_underscores(s: Seq<char>) -> Seq<char>
    decreases s.len(),
{
    if s.len() == 0 {
        s
    } else if s.last() == '_' {
        remove_underscores(s.drop_last())
    } else {
        remove_underscores(s.drop_last()).push(s.last())
    }
}

/// Whether `c` is an ASCII decimal digit.
pub open spec fn is_digit(c: char) -> bool {
    c == '0' || c == '1' || c == '2' || c == '3' || c == '4' || c == '5' || c == '6' || c == '7'
        || c == '8' || c == '9'
}

/// The value of the decimal digit `c`.
pub open spec fn digit_value(c: char) -> nat {
    if c == '1' {
        1
    } else if c == '2' {
        2
    } else if c == '3' {
        3
    } else if c == '4' {
        4
    } else if c == '5' {
        5
    } else if c == '6' {
        6
    } else if c == '7' {
        7
    } else if c == '8' {
        8
    } else if c == '9' {
        9
    } else {
        0
    }
}

fn digit_of(c: char) -> (r: Option<u64>)
    ensures
        is_digit(c) ==> r == Some(digit_value(c) as u64),
        !is_digit(c) ==> r is None,
{
    if c == '0' {
        Some(0)
    } else if c == '1' {
        Some(1)
    } else if c == '2' {
        Some(2)
    } else if c == '3' {
        Some(3)
    } else if c == '4' {
        Some(4)
    } else if c == '5' {
        Some(5)
    } else if c == '6' {
        Some(6)
    } else if c == '7' {
        Some(7)
    } else if c == '8' {
        Some(8)
    } else if c == '9' {
        Some(9)
    } else {
        None
    }
}

/// The number that the decimal digits `s` denote (0 for no digits).
pub open spec fn digits_value(s: Seq<char>) -> nat
    decreases s.len(),
{
    if s.len() == 0 {
        0
    } else {
        digits_value(s.drop_last()) * 10 + digit_value(s.last())
    }
}

/// `t` without a leading `+`.
pub open spec fn unsigned_digits(t: Seq<char>) -> Seq<char> {
    if t.len() > 0 && t[0] == '+' {
        t.drop_first()
    } else {
        t
    }
}

/// The value of `t` read as a `u64` (`str::parse::<u64>`): an optional `+`,
/// then one or more decimal digits, at most `u64::MAX`.
pub open spec fn u64_text(t: Seq<char>) -> Option<nat> {
    let d = unsigned_digits(t);
    if d.len() > 0 && (forall|i: int| 0 <= i < d.len() ==> is_digit(#[trigger] d[i]))
        && digits_value(d) <= u64::MAX {
        Some(digits_value(d))
    } else {
        None
    }
}

/// How a typed amount reads: white space at the ends and underscores are
/// ignored, and an integer counts whole XMR (`1` is one XMR, not one
/// piconero).
pub open spec fn xmr_input(s: Seq<char>) -> XmrInputView {
    let c = remove_underscores(trim(s));
    if c.len() == 0 {
        XmrInputView::Empty
    } else {
        match u64_text(c) {
            Some(v) => if v * PICO_PER_XMR <= u64::MAX {
                XmrInputView::Pico((v * PICO_PER_XMR) as u64)
            } else {
                XmrInputView::Overflow
            },
            None => XmrInputView::Decimal(c),
        }
    }
}

/// A prefix of digits denotes no more than the whole.
pub proof fn lemma_digits_value_prefix(d: Seq<char>, k: int)
    requires
        0 <= k <= d.len(),
        forall|i: int| 0 <= i < d.len() ==> is_digit(#[trigger] d[i]),
    ensures
        digits_value(d.take(k)) <= digits_value(d),
    decreases d.len() - k,
{
    if k == d.len() {
        assert(d.take(k) =~= d);
    } else {
        lemma_digits_value_prefix(d, k + 1);
        assert(d.take(k + 1).drop_last() =~= d.take(k));
        assert(is_digit(d[k]));
    }
}

/// Reads `c` as a `u64`, as `str::parse::<u64>` does.
fn parse_u64(c: &Vec<char>) -> (r: Option<u64>)
    ensures
        match u64_text(c@) {
            Some(v) => r == Some(v as u64),
            None => r is None,
        },
{
    let n = c.len();
    let st: usize = if n > 0 && c[0] == '+' {
        1
    } else {
        0
    };
    let ghost d = unsigned_digits(c@);
    assert(d =~= c@.subrange(st as int, n as int));
    if st == n {
        return None;
    }
    let mut acc: u64 = 0;
    let mut i = st;
    while i < n
        invariant
            st <= i <= n == c@.len(),
            d == c@.subrange(st as int, n as int),
            d == unsigned_digits(c@),
            forall|j: int| st <= j < i ==> is_digit(#[trigger] c@[j]),
            acc == digits_value(d.take(i - st)),
        decreases n - i,
    {
        let ch = c[i];
        proof {
            assert(d.take(i - st + 1).drop_last() =~= d.take(i - st));
            assert(d[i - st] == ch);
        }
        let dv = match digit_of(ch) {
            Some(x) => x,
            None => {
                proof {
                    assert(!is_digit(d[i - st]));
                    assert(u64_text(c@) is None);
                }
                return None;
            },
        };
        proof {
            assert(digits_value(d.take(i - st + 1)) == acc * 10 + dv);
        }
        match acc.checked_mul(10) {
            Some(m) => match m.checked_add(dv) {
                Some(next) => {
                    acc = next;
                },
                None => {
                    proof {
                        if forall|j: int| 0 <= j < d.len() ==> is_digit(#[trigger] d[j]) {
                            lemma_digits_value_prefix(d, i - st + 1);
                        }
                        assert(u64_text(c@) is None);
                    }
                    return None;
                },
            },
            None => {
                proof {
                    if forall|j: int| 0 <= j < d.len() ==> is_digit(#[trigger] d[j]) {
                        lemma_digits_value_prefix(d, i - st + 1);
                    }
                    assert(u64_text(c@) is None);
                }
                return None;
            },
        }
        i = i + 1;
    }
    proof {
        assert(d.take(n - st) =~= d);
        assert forall|j: int| 0 <= j < d.len() implies is_digit(#[trigger] d[j]) by {
            assert(d[j] == c@[j + st]);
        }
    }
    Some(acc)
}

/// Reads a typed amount as whole XMR; the text that only a decimal-fraction
/// reading can take is handed back cleaned.
pub fn parse_xmr(s: &str) -> (r: XmrInput)
    ensures
        r@ == xmr_input(s@),
{
    let v = chars_of(s);
    let (a, b) = trim_range(&v, 0, v.len());
    proof {
        assert(v@.subrange(0, v@.len() as int) =~= v@);
    }
    let mut c: Vec<char> = Vec::new();
    let mut i = a;
    while i < b
        invariant
            a <= i <= b <= v@.len(),
            c@ == remove_underscores(v@.subrange(a as int, i as int)),
        decreases b - i,
    {
        proof {
            assert(v@.subrange(a as int, i + 1).drop_last() =~= v@.subrange(a as int, i as int));
        }
        if v[i] != '_' {
            c.push(v[i]);
        }
        i = i + 1;
    }
    if c.len() == 0 {
        return XmrInput::Empty;
    }
    match parse_u64(&c) {
        Some(n) => match n.checked_mul(PICO_PER_XMR) {
            Some(p) => XmrInput::Pico(p),
            None => XmrInput::Overflow,
        },
        None => {
            let t = string_of(&c, 0, c.len());
            proof {
                assert(c@.subrange(0, c@.len() as int) =~= c@);
            }
            XmrInput::Decimal(t)
        },
    }
}

/// The decimal notation of a number is its digits alone, and reads back as
/// the number.
pub proof fn lemma_decimal_reads_back(n: nat)
    ensures
        decimal(n).len() > 0,
        forall|i: int| 0 <= i < decimal(n).len() ==> is_digit(#[trigger] decimal(n)[i]),
        digits_value(decimal(n)) == n,
    decreases n,
{
    if n >= 10 {
        lemma_decimal_reads_back(n / 10);
        let s = decimal(n);
        assert(s.drop_last() =~= decimal(n / 10));
        assert(digit_value(digit(n % 10)) == n % 10);
        assert(digits_value(s) == digits_value(decimal(n / 10)) * 10 + n % 10);
        assert((n / 10) * 10 + n % 10 == n) by (nonlinear_arith);
        assert forall|i: int| 0 <= i < s.len() implies is_digit(#[trigger] s[i]) by {
            if i < s.len() - 1 {
                assert(s[i] == decimal(n / 10)[i]);
            }
        }
    } else {
        assert(seq![digit(n)].drop_last() =~= Seq::<char>::empty());
        assert(digit_value(digit(n)) == n);
        assert(digits_value(Seq::<char>::empty()) == 0);
        assert(digits_value(seq![digit(n)]) == n);
    }
}

/// Removing underscores from a text without any changes nothing.
pub proof fn lemma_no_underscores(s: Seq<char>)
    requires
        forall|i: int| 0 <= i < s.len() ==> #[trigger] s[i] != '_',
    ensures
        remove_underscores(s) == s,
    decreases s.len(),
{
    if s.len() > 0 {
        lemma_no_underscores(s.drop_last());
        assert(s.drop_last().push(s.last()) =~= s);
    }
}

/// Twelve zero digits.
pub proof fn lemma_fixed_digits_zero(w: nat)
    ensures
        fixed_digits(0, w).len() == w,
        forall|i: int| 0 <= i < w ==> #[trigger] fixed_digits(0, w)[i] == '0',
    decreases w,
{
    if w > 0 {
        lemma_fixed_digits_zero((w - 1) as nat);
    }
}

/// Stripping trailing zeros from zeros leaves one.
pub proof fn lemma_strip_all_zeros(s: Seq<char>)
    requires
        s.len() > 0,
        forall|i: int| 0 <= i < s.len() ==> #[trigger] s[i] == '0',
    ensures
        strip_zeros(s) == seq!['0'],
    decreases s.len(),
{
    if s.len() > 1 {
        lemma_strip_all_zeros(s.drop_last());
    } else {
        assert(s =~= seq!['0']);
    }
}

} // verus!
