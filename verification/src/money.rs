//! Prices as fixed-point money. Amounts are held as whole cents; the
//! decimal-string wire format ("100.00") is parsed and produced here, at
//! the boundary, so that all arithmetic happens on integers.

use vstd::prelude::*;

verus! {

pub open spec fn is_digit(c: char) -> bool {
    '0' <= c && c <= '9'
}

pub open spec fn digit_val(c: char) -> int {
    c as int - 48
}

pub open spec fn all_digits(s: Seq<char>) -> bool {
    forall|i: int| 0 <= i < s.len() ==> is_digit(#[trigger] s[i])
}

/// The number a digit string denotes, most significant digit first.
pub open spec fn digits_val(s: Seq<char>) -> int
    decreases s.len(),
{
    if s.len() == 0 {
        0
    } else {
        digits_val(s.drop_last()) * 10 + digit_val(s.last())
    }
}

/// Index of the first '.' in `s`, or -1 if there is none.
pub open spec fn dot_pos(s: Seq<char>) -> int
    decreases s.len(),
{
    if s.len() == 0 {
        -1
    } else if s[0] == '.' {
        0
    } else if dot_pos(s.drop_first()) == -1 {
        -1
    } else {
        dot_pos(s.drop_first()) + 1
    }
}

/// The amount in cents that a price string denotes, if it is well formed:
/// one or more digits, optionally followed by '.' and one or two digits.
pub open spec fn money_val(s: Seq<char>) -> Option<int> {
    let p = dot_pos(s);
    if p == -1 {
        if s.len() > 0 && all_digits(s) {
            Some(digits_val(s) * 100)
        } else {
            None
        }
    } else {
        let ip = s.subrange(0, p);
        let fp = s.subrange(p + 1, s.len() as int);
        if 1 <= p && all_digits(ip) && 1 <= fp.len() <= 2 && all_digits(fp) {
            Some(digits_val(ip) * 100 + digits_val(fp) * (if fp.len() == 1 { 10int } else { 1int }))
        } else {
            None
        }
    }
}

pub proof fn lemma_digits_val_nonneg(s: Seq<char>)
    requires
        all_digits(s),
    ensures
        digits_val(s) >= 0,
    decreases s.len(),
{
    if s.len() > 0 {
        assert(all_digits(s.drop_last()));
        lemma_digits_val_nonneg(s.drop_last());
        assert(digit_val(s.last()) >= 0);
    }
}

/// Extending a digit string on the right never decreases its value.
pub proof fn lemma_digits_val_prefix(s: Seq<char>, i: int, j: int)
    requires
        all_digits(s),
        0 <= i <= j <= s.len(),
    ensures
        digits_val(s.subrange(0, i)) <= digits_val(s.subrange(0, j)),
    decreases j - i,
{
    if i < j {
        let a = s.subrange(0, j - 1);
        let b = s.subrange(0, j);
        assert(b.drop_last() =~= a);
        assert(all_digits(a));
        lemma_digits_val_nonneg(a);
        assert(digit_val(b.last()) >= 0);
        assert(digits_val(b) == digits_val(a) * 10 + digit_val(b.last()));
        assert(digits_val(a) * 10 >= digits_val(a)) by (nonlinear_arith)
            requires digits_val(a) >= 0;
        lemma_digits_val_prefix(s, i, j - 1);
    }
}

fn is_digit_char(c: char) -> (r: bool)
    ensures
        r == is_digit(c),
{
    '0' <= c && c <= '9'
}

fn digit_of(c: char) -> (r: u32)
    requires
        is_digit(c),
    ensures
        r == digit_val(c),
{
    (c as u32) - 48
}

/// The value of the digit substring `s[from..to]`, or `None` if it does
/// not fit in a `u64`.
fn digits_value_u64(s: &str, from: usize, to: usize) -> (r: Option<u64>)
    requires
        from <= to <= s@.len(),
        all_digits(s@.subrange(from as int, to as int)),
    ensures
        match r {
            Some(v) => v == digits_val(s@.subrange(from as int, to as int)),
            None => digits_val(s@.subrange(from as int, to as int)) > u64::MAX,
        },
{
    let ghost whole = s@.subrange(from as int, to as int);
    let mut acc: u64 = 0;
    let mut i: usize = from;
    while i < to
        invariant
            from <= i <= to <= s@.len(),
            all_digits(whole),
            whole == s@.subrange(from as int, to as int),
            acc == digits_val(whole.subrange(0, i - from)),
        decreases to - i,
    {
        let c = s.get_char(i);
        assert(c == whole[i - from]);
        let d = digit_of(c);
        let ghost prefix = whole.subrange(0, i - from);
        let ghost next = whole.subrange(0, i + 1 - from);
        assert(next.drop_last() =~= prefix);
        assert(next.last() == whole[i - from]);
        assert(digits_val(next) == acc * 10 + d);
        if acc > (u64::MAX - d as u64) / 10 {
            proof {
                assert(acc * 10 + d > u64::MAX) by (nonlinear_arith)
                    requires
                        acc > (u64::MAX - d as u64) / 10,
                        0 <= d < 10,
                ;
                lemma_digits_val_prefix(whole, i + 1 - from, whole.len() as int);
                assert(whole.subrange(0, whole.len() as int) =~= whole);
            }
            return None;
        }
        assert(acc * 10 + d <= u64::MAX) by (nonlinear_arith)
            requires
                acc <= (u64::MAX - d as u64) / 10,
                0 <= d < 10,
        ;
        acc = acc * 10 + d as u64;
        i = i + 1;
    }
    assert(whole.subrange(0, to - from) =~= whole);
    Some(acc)
}

/// Position of the first '.' in `s`, if any.
fn find_dot(s: &str) -> (r: Option<usize>)
    ensures
        match r {
            Some(p) => p == dot_pos(s@) && p < s@.len(),
            None => dot_pos(s@) == -1,
        },
{
    let n = s.unicode_len();
    let mut i: usize = 0;
    while i < n
        invariant
            n == s@.len(),
            i <= n,
            forall|j: int| 0 <= j < i ==> s@[j] != '.',
        decreases n - i,
    {
        if s.get_char(i) == '.' {
            proof {
                lemma_dot_pos_first(s@, i as int);
            }
            return Some(i);
        }
        i = i + 1;
    }
    proof {
        lemma_dot_pos_none(s@);
    }
    None
}

/// If every character before `i` differs from '.' and `s[i] == '.'`,
/// the first dot is at `i`.
proof fn lemma_dot_pos_first(s: Seq<char>, i: int)
    requires
        0 <= i < s.len(),
        s[i] == '.',
        forall|j: int| 0 <= j < i ==> s[j] != '.',
    ensures
        dot_pos(s) == i,
    decreases i,
{
    if i > 0 {
        lemma_dot_pos_first(s.drop_first(), i - 1);
    }
}

/// A string with no '.' has no dot position.
proof fn lemma_dot_pos_none(s: Seq<char>)
    requires
        forall|j: int| 0 <= j < s.len() ==> s[j] != '.',
    ensures
        dot_pos(s) == -1,
    decreases s.len(),
{
    if s.len() > 0 {
        lemma_dot_pos_none(s.drop_first());
    }
}

/// Whether `s[from..to]` consists of digits only.
fn all_digits_range(s: &str, from: usize, to: usize) -> (r: bool)
    requires
        from <= to <= s@.len(),
    ensures
        r == all_digits(s@.subrange(from as int, to as int)),
{
    let ghost whole = s@.subrange(from as int, to as int);
    let mut i: usize = from;
    while i < to
        invariant
            from <= i <= to <= s@.len(),
            whole == s@.subrange(from as int, to as int),
            forall|j: int| 0 <= j < i - from ==> is_digit(#[trigger] whole[j]),
        decreases to - i,
    {
        let c = s.get_char(i);
        assert(c == whole[i - from]);
        if !is_digit_char(c) {
            return false;
        }
        i = i + 1;
    }
    true
}

/// Parse a decimal price string into cents.
///
/// Returns `Some(v)` exactly when the string is well formed and its value
/// fits in a `u64`; every malformed or too-large string yields `None`.
pub fn parse_money(s: &str) -> (r: Option<u64>)
    ensures
        match r {
            Some(v) => money_val(s@) == Some(v as int),
            None => money_val(s@) is None || money_val(s@)->Some_0 > u64::MAX,
        },
{
    let n = s.unicode_len();
    if n == 0 {
        return None;
    }
    match find_dot(s) {
        None => {
            if !all_digits_range(s, 0, n) {
                assert(s@.subrange(0, n as int) =~= s@);
                return None;
            }
            assert(s@.subrange(0, n as int) =~= s@);
            match digits_value_u64(s, 0, n) {
                None => {
                    proof {
                        lemma_digits_val_nonneg(s@);
                        assert(digits_val(s@) * 100 >= digits_val(s@)) by (nonlinear_arith)
                            requires digits_val(s@) >= 0;
                    }
                    None
                },
                Some(v) => {
                    if v > u64::MAX / 100 {
                        proof {
                            assert(v * 100 > u64::MAX) by (nonlinear_arith)
                                requires v > u64::MAX / 100;
                        }
                        None
                    } else {
                        proof {
                            assert(v * 100 <= u64::MAX) by (nonlinear_arith)
                                requires v <= u64::MAX / 100;
                        }
                        Some(v * 100)
                    }
                },
            }
        },
        Some(p) => {
            let flen = n - p - 1;
            if p < 1 || flen < 1 || flen > 2 {
                return None;
            }
            if !all_digits_range(s, 0, p) {
                return None;
            }
            if !all_digits_range(s, p + 1, n) {
                return None;
            }
            let ghost ip = s@.subrange(0, p as int);
            let ghost fp = s@.subrange(p as int + 1, n as int);
            let fv = match digits_value_u64(s, p + 1, n) {
                Some(fv) => fv,
                None => {
                    proof {
                        // one or two digits always fit
                        lemma_small_digits(fp);
                    }
                    return None;
                },
            };
            proof {
                lemma_small_digits(fp);
            }
            let scale: u64 = if flen == 1 { 10 } else { 1 };
            match digits_value_u64(s, 0, p) {
                None => {
                    proof {
                        lemma_digits_val_nonneg(ip);
                        lemma_digits_val_nonneg(fp);
                        assert(digits_val(ip) * 100 >= digits_val(ip)) by (nonlinear_arith)
                            requires digits_val(ip) >= 0;
                    }
                    None
                },
                Some(iv) => {
                    proof {
                        assert((iv as int) * 100 + (fv as int) * (scale as int) < u128::MAX)
                            by (nonlinear_arith)
                            requires
                                iv <= u64::MAX,
                                0 <= fv < 100,
                                1 <= scale <= 10,
                        ;
                    }
                    let total: u128 = (iv as u128) * 100 + (fv as u128) * (scale as u128);
                    if total > u64::MAX as u128 {
                        None
                    } else {
                        Some(total as u64)
                    }
                },
            }
        },
    }
}

/// A string of at most two digits denotes a value below 100.
proof fn lemma_small_digits(s: Seq<char>)
    requires
        all_digits(s),
        s.len() <= 2,
    ensures
        0 <= digits_val(s) < 100,
    decreases s.len(),
{
    if s.len() == 1 {
        assert(s.drop_last().len() == 0);
        assert(digits_val(s.drop_last()) == 0);
        assert(digits_val(s) == digit_val(s.last()));
    } else if s.len() == 2 {
        let t = s.drop_last();
        assert(t.drop_last().len() == 0);
        assert(digits_val(t.drop_last()) == 0);
        assert(digits_val(t) == digit_val(t.last()));
        assert(is_digit(t.last()));
        assert(digits_val(t) < 10);
        assert(digits_val(s) == digits_val(t) * 10 + digit_val(s.last()));
    }
}

/// The digit character for a value below ten.
pub open spec fn digit_char(d: int) -> char {
    if d == 0 { '0' }
    else if d == 1 { '1' }
    else if d == 2 { '2' }
    else if d == 3 { '3' }
    else if d == 4 { '4' }
    else if d == 5 { '5' }
    else if d == 6 { '6' }
    else if d == 7 { '7' }
    else if d == 8 { '8' }
    else { '9' }
}

/// Decimal digit string of a nonnegative number, most significant first.
pub open spec fn dec_digits(n: int) -> Seq<char>
    decreases n,
{
    if n < 10 {
        seq![digit_char(n)]
    } else {
        dec_digits(n / 10).push(digit_char(n % 10))
    }
}

proof fn lemma_digit_char(d: int)
    requires
        0 <= d < 10,
    ensures
        is_digit(digit_char(d)),
        digit_val(digit_char(d)) == d,
{
}

/// `dec_digits` produces digits whose value reads back to the number.
proof fn lemma_dec_digits(n: int)
    requires
        n >= 0,
    ensures
        all_digits(dec_digits(n)),
        digits_val(dec_digits(n)) == n,
        dec_digits(n).len() >= 1,
    decreases n,
{
    if n < 10 {
        lemma_digit_char(n);
        let s = dec_digits(n);
        assert(s =~= seq![digit_char(n)]);
        assert(s.drop_last() =~= Seq::<char>::empty());
        assert(digits_val(s.drop_last()) == 0);
        assert(s.last() == digit_char(n));
        assert(digits_val(s) == digit_val(digit_char(n)));
        assert(forall|i: int| 0 <= i < s.len() ==> is_digit(#[trigger] s[i]));
    } else {
        lemma_dec_digits(n / 10);
        lemma_digit_char(n % 10);
        let t = dec_digits(n / 10);
        let s = dec_digits(n);
        assert(s =~= t.push(digit_char(n % 10)));
        assert(s.drop_last() =~= t);
        assert(s.last() == digit_char(n % 10));
        assert(digits_val(s) == digits_val(t) * 10 + (n % 10));
        assert((n / 10) * 10 + n % 10 == n) by (nonlinear_arith)
            requires n >= 10;
        assert(forall|i: int| 0 <= i < s.len() ==> is_digit(#[trigger] s[i])) by {
            assert(forall|i: int| 0 <= i < t.len() ==> is_digit(#[trigger] t[i]));
            assert(forall|i: int| 0 <= i < s.len() - 1 ==> s[i] == t[i]);
        }
    }
}

fn digit_char_of(d: u64) -> (r: char)
    requires
        d < 10,
    ensures
        r == digit_char(d as int),
{
    if d == 0 { '0' }
    else if d == 1 { '1' }
    else if d == 2 { '2' }
    else if d == 3 { '3' }
    else if d == 4 { '4' }
    else if d == 5 { '5' }
    else if d == 6 { '6' }
    else if d == 7 { '7' }
    else if d == 8 { '8' }
    else { '9' }
}

/// Append the decimal digits of `n` to `out`.
fn push_digits(out: &mut String, n: u64)
    ensures
        final(out)@ == old(out)@ + dec_digits(n as int),
    decreases n,
{
    if n < 10 {
        out.push(digit_char_of(n));
        assert(final(out)@ =~= old(out)@ + dec_digits(n as int));
    } else {
        push_digits(out, n / 10);
        out.push(digit_char_of(n % 10));
        assert(final(out)@ =~= old(out)@ + dec_digits(n as int));
    }
}

/// Render cents as a decimal price string with two decimal places.
///
/// The result always parses back to the same amount.
pub fn format_money(cents: u64) -> (r: String)
    ensures
        money_val(r@) == Some(cents as int),
        r@ == dec_digits(cents as int / 100) + seq!['.', digit_char((cents as int % 100) / 10), digit_char(cents as int % 10)],
{
    let units = cents / 100;
    let d1 = (cents % 100) / 10;
    let d2 = cents % 10;
    let mut out = String::new();
    push_digits(&mut out, units);
    out.push('.');
    out.push(digit_char_of(d1));
    out.push(digit_char_of(d2));
    proof {
        let u = units as int;
        let s = out@;
        let ds = dec_digits(u);
        lemma_dec_digits(u);
        assert(s =~= ds + seq!['.', digit_char(d1 as int), digit_char(d2 as int)]);
        assert(forall|j: int| 0 <= j < ds.len() ==> s[j] == ds[j] && s[j] != '.') by {
            assert(forall|j: int| 0 <= j < ds.len() ==> is_digit(#[trigger] ds[j]));
        }
        lemma_dot_pos_first(s, ds.len() as int);
        let ip = s.subrange(0, ds.len() as int);
        let fp = s.subrange(ds.len() as int + 1, s.len() as int);
        assert(ip =~= ds);
        assert(fp =~= seq![digit_char(d1 as int), digit_char(d2 as int)]);
        lemma_digit_char(d1 as int);
        lemma_digit_char(d2 as int);
        let f1 = seq![digit_char(d1 as int)];
        assert(fp.drop_last() =~= f1);
        assert(f1.drop_last() =~= Seq::<char>::empty());
        assert(digits_val(f1.drop_last()) == 0);
        assert(digits_val(f1) == digit_val(digit_char(d1 as int)));
        assert(fp.last() == digit_char(d2 as int));
        assert(digits_val(fp) == digits_val(f1) * 10 + digit_val(digit_char(d2 as int)));
        assert(digits_val(fp) == d1 * 10 + d2);
        assert(d1 * 10 + d2 == cents as int % 100) by (nonlinear_arith)
            requires d1 == (cents % 100) / 10, d2 == cents % 10, cents >= 0;
        assert(u * 100 + cents as int % 100 == cents) by (nonlinear_arith)
            requires u == cents / 100, cents >= 0;
    }
    out
}

} // verus!
