//! Amounts of money as whole cents, and their fixed two-decimal text form.

use vstd::prelude::*;
use crate::text::{digit, digit_char, nat_text, push_char, push_nat};

verus! {

pub open spec fn is_digit(c: char) -> bool {
    '0' <= c && c <= '9'
}

pub open spec fn digit_value(c: char) -> int {
    c as int - '0' as int
}

/// The number written by a string of decimal digits, most significant first.
pub open spec fn digits_value(s: Seq<char>) -> int
    decreases s.len(),
{
    if s.len() == 0 {
        0
    } else {
        digits_value(s.drop_last()) * 10 + digit_value(s.last())
    }
}

pub open spec fn all_digits(s: Seq<char>) -> bool {
    forall|i: int| 0 <= i < s.len() ==> #[trigger] is_digit(s[i])
}

/// An unsigned amount: digits, optionally followed by a point and one or two
/// digits of cents. Gives the digits of whole units and the cents.
pub open spec fn split_amount(s: Seq<char>) -> Option<(Seq<char>, int)> {
    let n = s.len();
    if n > 0 && all_digits(s) {
        Some((s, 0))
    } else if n >= 3 && s[n - 2] == '.' && all_digits(s.take(n - 2)) && is_digit(s[n - 1]) {
        Some((s.take(n - 2), digit_value(s[n - 1]) * 10))
    } else if n >= 4 && s[n - 3] == '.' && all_digits(s.take(n - 3)) && all_digits(s.skip(n - 2)) {
        Some((s.take(n - 3), digits_value(s.skip(n - 2))))
    } else {
        None
    }
}

pub open spec fn unsigned_cents(s: Seq<char>) -> Option<int> {
    match split_amount(s) {
        Some((w, f)) => Some(digits_value(w) * 100 + f),
        None => None,
    }
}

/// The value in cents of a cost as the ledger writes it (`"20.00"`, `"-3.5"`,
/// `"7"`), or `None` where the text is no such amount.
pub open spec fn cost_cents(s: Seq<char>) -> Option<int> {
    if s.len() > 0 && s[0] == '-' {
        match unsigned_cents(s.skip(1)) {
            Some(v) => Some(-v),
            None => None,
        }
    } else {
        unsigned_cents(s)
    }
}

/// The cents of a cost where they fit in an `i64` other than `i64::MIN`, else
/// `None`.
pub open spec fn cost_value(s: Seq<char>) -> Option<int> {
    match cost_cents(s) {
        Some(v) => if -(i64::MAX as int) <= v <= i64::MAX as int {
            Some(v)
        } else {
            None
        },
        None => None,
    }
}

/// An amount in cents written with exactly two decimals: `-4500` is `"-45.00"`.
pub open spec fn cents_text(c: int) -> Seq<char> {
    let m: nat = if c < 0 { (-c) as nat } else { c as nat };
    let body = nat_text(m / 100) + seq!['.', digit_char(((m / 10) % 10) as int), digit_char((m % 10) as int)];
    if c < 0 { seq!['-'] + body } else { body }
}

/// The largest whole-unit value whose cents could still fit in an `i64`.
pub const WHOLE_CAP: u64 = 92233720368547758;

pub open spec fn capped(v: int) -> int {
    if v > WHOLE_CAP as int { WHOLE_CAP as int + 1 } else { v }
}

proof fn lemma_digits_grow(s: Seq<char>, i: int)
    requires
        0 <= i < s.len(),
        all_digits(s),
    ensures
        digits_value(s.take(i + 1)) == digits_value(s.take(i)) * 10 + digit_value(s[i]),
        digits_value(s.take(i)) >= 0,
        digits_value(s.take(i + 1)) >= digits_value(s.take(i)),
{
    assert(s.take(i + 1).drop_last() =~= s.take(i));
    assert(is_digit(s[i]));
    lemma_digits_nonneg(s.take(i));
}

proof fn lemma_digits_nonneg(s: Seq<char>)
    requires
        all_digits(s),
    ensures
        digits_value(s) >= 0,
    decreases s.len(),
{
    if s.len() > 0 {
        assert(all_digits(s.drop_last())) by {
            assert forall|i: int| 0 <= i < s.drop_last().len() implies is_digit(
                #[trigger] s.drop_last()[i],
            ) by {
                assert(is_digit(s[i]));
            }
        }
        lemma_digits_nonneg(s.drop_last());
        assert(is_digit(s[s.len() - 1]));
    }
}

/// Reads the digits `s[lo..hi]`: `None` unless all of them are digits, else
/// their value, capped just above `WHOLE_CAP`.
fn read_digits(s: &str, lo: usize, hi: usize) -> (r: Option<u64>)
    requires
        lo <= hi <= s@.len(),
    ensures
        r is Some <==> all_digits(s@.subrange(lo as int, hi as int)),
        r is Some ==> r->0 == capped(digits_value(s@.subrange(lo as int, hi as int))),
{
    let ghost t = s@.subrange(lo as int, hi as int);
    let mut acc: u64 = 0;
    let mut i: usize = lo;
    while i < hi
        invariant
            lo <= i <= hi <= s@.len(),
            t == s@.subrange(lo as int, hi as int),
            all_digits(t.take(i - lo)),
            acc == capped(digits_value(t.take(i - lo))),
            digits_value(t.take(i - lo)) >= 0,
        decreases hi - i,
    {
        let c = s.get_char(i);
        if !('0' <= c && c <= '9') {
            assert(!is_digit(t[i - lo]));
            return None;
        }
        let d = (c as u32 - '0' as u32) as u64;
        proof {
            let k = (i - lo) as int;
            assert(t.take(k + 1) =~= t.take(k).push(c));
            assert(all_digits(t.take(k + 1))) by {
                assert forall|j: int| 0 <= j < t.take(k + 1).len() implies is_digit(
                    #[trigger] t.take(k + 1)[j],
                ) by {
                    if j < k {
                        assert(t.take(k)[j] == t.take(k + 1)[j]);
                    }
                }
            }
            lemma_digits_grow(t.take(k + 1), k);
            assert(t.take(k + 1).take(k) =~= t.take(k));
        }
        if acc <= WHOLE_CAP {
            acc = acc * 10 + d;
            if acc > WHOLE_CAP {
                acc = WHOLE_CAP + 1;
            }
        }
        i = i + 1;
    }
    assert(t.take(hi - lo) =~= t);
    Some(acc)
}

/// Reads the unsigned amount `s[lo..hi]`: the value of its whole units,
/// capped just above `WHOLE_CAP`, and its cents.
fn read_unsigned(s: &str, lo: usize, hi: usize) -> (r: Option<(u64, u64)>)
    requires
        lo <= hi <= s@.len(),
    ensures
        r is Some <==> split_amount(s@.subrange(lo as int, hi as int)) is Some,
        r matches Some((wc, fc)) ==> {
            let (w, f) = split_amount(s@.subrange(lo as int, hi as int))->0;
            &&& wc == capped(digits_value(w))
            &&& fc == f
            &&& 0 <= f < 100
            &&& digits_value(w) >= 0
        },
{
    let ghost t = s@.subrange(lo as int, hi as int);
    let len = hi - lo;
    if len > 0 {
        if let Some(w) = read_digits(s, lo, hi) {
            proof {
                lemma_digits_nonneg(t);
            }
            return Some((w, 0));
        }
    }
    if len >= 3 && s.get_char(hi - 2) == '.' {
        let c = s.get_char(hi - 1);
        if let Some(w) = read_digits(s, lo, hi - 2) {
            if '0' <= c && c <= '9' {
                proof {
                    assert(t.take(len - 2) =~= s@.subrange(lo as int, hi - 2));
                    lemma_digits_nonneg(t.take(len - 2));
                }
                return Some((w, (c as u32 - '0' as u32) as u64 * 10));
            }
        }
        proof {
            assert(t.take(len - 2) =~= s@.subrange(lo as int, hi - 2));
        }
    }
    if len >= 4 && s.get_char(hi - 3) == '.' {
        let whole = read_digits(s, lo, hi - 3);
        let cents = read_digits(s, hi - 2, hi);
        proof {
            assert(t.take(len - 3) =~= s@.subrange(lo as int, hi - 3));
            assert(t.skip(len - 2) =~= s@.subrange(hi - 2, hi as int));
        }
        if let (Some(w), Some(f)) = (whole, cents) {
            proof {
                let ds = t.skip(len - 2);
                lemma_digits_nonneg(t.take(len - 3));
                assert(ds.drop_last() =~= seq![ds[0]]);
                assert(seq![ds[0]].drop_last() =~= Seq::<char>::empty());
                assert(is_digit(ds[0]) && is_digit(ds[1]));
                assert(ds.len() == 2);
                assert(digits_value(Seq::<char>::empty()) == 0);
                assert(digits_value(seq![ds[0]]) == digit_value(ds[0]));
                assert(digits_value(ds) == digit_value(ds[0]) * 10 + digit_value(ds[1]));
            }
            return Some((w, f));
        }
    }
    None
}

/// Parses a cost as the ledger writes it into cents. `None` where the text is
/// no amount, or where the amount does not fit in an `i64` of cents (the one
/// value `i64::MIN` included).
pub fn parse_cost(s: &str) -> (r: Option<i64>)
    ensures
        r is Some <==> cost_value(s@) is Some,
        r is Some ==> r->0 == cost_value(s@)->0,
{
    let n = s.unicode_len();
    let neg = n > 0 && s.get_char(0) == '-';
    let start: usize = if neg { 1 } else { 0 };
    proof {
        if neg {
            assert(s@.skip(1) =~= s@.subrange(1, n as int));
        } else {
            assert(s@ =~= s@.subrange(0, n as int));
        }
    }
    match read_unsigned(s, start, n) {
        None => None,
        Some((w, f)) => {
            if w > WHOLE_CAP {
                None
            } else {
                let m: u64 = w * 100 + f;
                if m > i64::MAX as u64 {
                    None
                } else if neg {
                    Some(-(m as i64))
                } else {
                    Some(m as i64)
                }
            }
        },
    }
}

/// Writes the amount of magnitude `m` cents, negative where asked and `m`
/// is not zero.
fn write_cents(negative: bool, m: u64) -> (r: String)
    ensures
        r@ == cents_text(if negative { -(m as int) } else { m as int }),
{
    let mut s = String::new();
    if negative && m > 0 {
        push_char(&mut s, '-');
    }
    push_nat(&mut s, m / 100);
    push_char(&mut s, '.');
    push_char(&mut s, digit((m / 10) % 10));
    push_char(&mut s, digit(m % 10));
    assert(s@ =~= cents_text(if negative { -(m as int) } else { m as int }));
    s
}

fn magnitude(c: i64) -> (m: u64)
    ensures
        m as int == if c < 0 { -(c as int) } else { c as int },
{
    if c < 0 { (0 - (c as i128)) as u64 } else { c as u64 }
}

/// Writes an amount in cents with exactly two decimals, a leading `-` for a
/// negative amount: `-4500` is `"-45.00"`, `5` is `"0.05"`.
pub fn format_cents(c: i64) -> (r: String)
    ensures
        r@ == cents_text(c as int),
{
    write_cents(c < 0, magnitude(c))
}

/// Writes the amount with its sign turned: `-4500` is `"45.00"`.
pub fn format_negated_cents(c: i64) -> (r: String)
    ensures
        r@ == cents_text(-(c as int)),
{
    write_cents(c > 0, magnitude(c))
}

proof fn lemma_nat_text_digits(n: nat)
    ensures
        nat_text(n).len() >= 1,
        all_digits(nat_text(n)),
        digits_value(nat_text(n)) == n,
    decreases n,
{
    let t = nat_text(n);
    if n < 10 {
        assert(t.drop_last() =~= Seq::<char>::empty());
        assert(digits_value(Seq::<char>::empty()) == 0);
        assert(digit_value(digit_char(n as int)) == n);
        assert(t.last() == digit_char(n as int));
    } else {
        lemma_nat_text_digits(n / 10);
        let d = digit_char((n % 10) as int);
        assert(digit_value(d) == n % 10);
        assert(t.drop_last() =~= nat_text(n / 10));
        assert forall|i: int| 0 <= i < t.len() implies #[trigger] is_digit(t[i]) by {
            if i < t.len() - 1 {
                assert(t[i] == nat_text(n / 10)[i]);
            }
        }
    }
}

/// What `format_cents` writes, `parse_cost` reads back: the amount in
/// cents, for every amount but `i64::MIN`.
pub proof fn lemma_cents_text_reads_back(c: int)
    requires
        -(i64::MAX as int) <= c <= i64::MAX as int,
    ensures
        cost_value(cents_text(c)) == Some(c),
{
    let m: nat = if c < 0 { (-c) as nat } else { c as nat };
    let w = nat_text(m / 100);
    let d1 = digit_char(((m / 10) % 10) as int);
    let d0 = digit_char((m % 10) as int);
    let body = w + seq!['.', d1, d0];
    lemma_nat_text_digits(m / 100);
    let n = body.len();
    assert(body[n - 3] == '.');
    assert(!is_digit(body[n - 3]));
    assert(digit_value(d1) == (m / 10) % 10);
    assert(digit_value(d0) == m % 10);
    assert(is_digit(d1) && is_digit(d0));
    assert(body[n - 2] == d1);
    assert(body.take(n - 3) =~= w);
    let ds = body.skip(n - 2);
    assert(ds =~= seq![d1, d0]);
    assert(ds.drop_last() =~= seq![d1]);
    assert(seq![d1].drop_last() =~= Seq::<char>::empty());
    assert(digits_value(Seq::<char>::empty()) == 0);
    assert(seq![d1].last() == d1);
    assert(digits_value(seq![d1]) == digit_value(d1));
    assert(digits_value(ds) == digit_value(d1) * 10 + digit_value(d0));
    assert(all_digits(ds));
    assert(split_amount(body) == Some((w, digits_value(ds))));
    assert((m / 100) * 100 + ((m / 10) % 10) * 10 + m % 10 == m) by (nonlinear_arith);
    assert(unsigned_cents(body) == Some(m as int));
    if c < 0 {
        assert(cents_text(c) =~= seq!['-'] + body);
        assert((seq!['-'] + body).skip(1) =~= body);
    } else {
        assert(cents_text(c) =~= body);
        if w.len() > 0 {
            assert(body[0] == w[0]);
            assert(is_digit(w[0]));
        }
    }
}

} // verus!
