//! The invoice-number sequence rule.
//!
//! The next invoice number is always laid out as
//! `INV-{year}-{month:02}-{sequence:04}`: the year and month are taken
//! from the wall clock at call time, and the sequence is one more than the
//! value of the trailing run of decimal digits of the previous invoice
//! number — or `0001` when there is no previous number, when it carries no
//! trailing digits, or when the run does not fit a 32-bit value.

use vstd::prelude::*;
use crate::strutil::{all_digits, chars_to_string, is_ascii_digit, is_digit_char, str_chars, sub_chars};

verus! {

/// The decimal digit character for `d` (meaningful for `d < 10`).
pub open spec fn digit_char(d: nat) -> char {
    ((48 + d) as u8) as char
}

/// The decimal rendering of `n`, without padding or sign.
pub open spec fn dec_seq(n: nat) -> Seq<char>
    decreases n,
{
    if n < 10 {
        seq![digit_char(n)]
    } else {
        dec_seq(n / 10) + seq![digit_char(n % 10)]
    }
}

/// The decimal rendering of `y`, with a leading minus sign when negative.
pub open spec fn signed_dec(y: int) -> Seq<char> {
    if y < 0 {
        seq!['-'] + dec_seq((-y) as nat)
    } else {
        dec_seq(y as nat)
    }
}

/// The decimal rendering of `n` left-padded with zeros to two digits.
pub open spec fn dec2(n: nat) -> Seq<char> {
    if n < 10 {
        seq!['0'] + dec_seq(n)
    } else {
        dec_seq(n)
    }
}

/// The decimal rendering of `n` left-padded with zeros to four digits.
pub open spec fn dec4(n: nat) -> Seq<char> {
    if n < 10 {
        seq!['0', '0', '0'] + dec_seq(n)
    } else if n < 100 {
        seq!['0', '0'] + dec_seq(n)
    } else if n < 1000 {
        seq!['0'] + dec_seq(n)
    } else {
        dec_seq(n)
    }
}

/// How many decimal digits `s` ends in.
pub open spec fn trailing_digit_count(s: Seq<char>) -> nat
    decreases s.len(),
{
    if s.len() > 0 && is_digit_char(s[s.len() - 1]) {
        1 + trailing_digit_count(s.drop_last())
    } else {
        0
    }
}

/// The trailing run of decimal digits of `s` (empty when it ends in none).
pub open spec fn trailing_run(s: Seq<char>) -> Seq<char> {
    s.subrange(s.len() - trailing_digit_count(s), s.len() as int)
}

/// The value of a run of decimal digits, read most significant first.
pub open spec fn digits_val(d: Seq<char>) -> int
    decreases d.len(),
{
    if d.len() == 0 {
        0
    } else {
        digits_val(d.drop_last()) * 10 + ((d[d.len() - 1] as u32) - 48)
    }
}

/// The sequence component the next invoice number carries after a previous
/// number `last`: one more than the value of its trailing digit run, or 1
/// when there is no run or its value does not fit a 32-bit unsigned value.
pub open spec fn next_seq_val(last: Seq<char>) -> int {
    if trailing_digit_count(last) == 0 {
        1
    } else if digits_val(trailing_run(last)) <= u32::MAX {
        digits_val(trailing_run(last)) + 1
    } else {
        1
    }
}

/// The next invoice number after `last`, stamped with the given year and
/// month: `INV-{year}-{month:02}-{sequence:04}`.
pub open spec fn spec_next_invoice_number(last: Option<Seq<char>>, year: int, month: int) -> Seq<
    char,
> {
    let n = match last {
        Option::None => 1,
        Option::Some(s) => next_seq_val(s),
    };
    seq!['I', 'N', 'V', '-'] + signed_dec(year) + seq!['-'] + dec2(month as nat) + seq!['-']
        + dec4(n as nat)
}

/// The count of trailing digits never exceeds the length.
pub proof fn lemma_trailing_count_le_len(s: Seq<char>)
    ensures
        trailing_digit_count(s) <= s.len(),
    decreases s.len(),
{
    if s.len() > 0 && is_digit_char(s[s.len() - 1]) {
        lemma_trailing_count_le_len(s.drop_last());
    }
}

/// Every character of the trailing run is a digit.
pub proof fn lemma_trailing_run_digits(s: Seq<char>)
    ensures
        all_digits(trailing_run(s)),
    decreases s.len(),
{
    lemma_trailing_count_le_len(s);
    if s.len() > 0 && is_digit_char(s[s.len() - 1]) {
        lemma_trailing_run_digits(s.drop_last());
        lemma_trailing_count_le_len(s.drop_last());
        let run = trailing_run(s);
        assert(run.drop_last() =~= trailing_run(s.drop_last()));
        assert forall|i: int| 0 <= i < run.len() implies is_digit_char(#[trigger] run[i]) by {
            if i < run.len() - 1 {
                assert(run[i] == run.drop_last()[i]);
            } else {
                assert(run[i] == s[s.len() - 1]);
            }
        }
    }
}

/// The value of a digit run is non-negative.
pub proof fn lemma_digits_val_nonneg(d: Seq<char>)
    requires
        all_digits(d),
    ensures
        digits_val(d) >= 0,
    decreases d.len(),
{
    if d.len() > 0 {
        assert(all_digits(d.drop_last())) by {
            assert(forall|i: int| 0 <= i < d.len() - 1 ==> d.drop_last()[i] == d[i]);
        }
        lemma_digits_val_nonneg(d.drop_last());
        assert(is_digit_char(d[d.len() - 1]));
    }
}

/// Reading further digits never shrinks the value: the value of a prefix
/// of a digit run bounds the value of the whole run from below.
pub proof fn lemma_digits_val_prefix_le(d: Seq<char>, j: int)
    requires
        all_digits(d),
        0 <= j <= d.len(),
    ensures
        digits_val(d.subrange(0, j)) <= digits_val(d),
    decreases d.len() - j,
{
    if j == d.len() {
        assert(d.subrange(0, j) =~= d);
    } else {
        let a = d.subrange(0, j);
        let b = d.subrange(0, j + 1);
        assert(b.drop_last() =~= a);
        assert(all_digits(a)) by {
            assert(forall|i: int| 0 <= i < j ==> a[i] == d[i]);
        }
        lemma_digits_val_nonneg(a);
        assert(is_digit_char(d[j]));
        assert(digits_val(b) == digits_val(a) * 10 + ((d[j] as u32) - 48));
        lemma_digits_val_prefix_le(d, j + 1);
    }
}

/// Appends the decimal rendering of `n` to `v`.
pub fn push_dec_u64(v: &mut Vec<char>, n: u64)
    ensures
        final(v)@ == old(v)@ + dec_seq(n as nat),
    decreases n,
{
    if n >= 10 {
        push_dec_u64(v, n / 10);
    }
    let d: u8 = (n % 10) as u8;
    v.push((48 + d) as char);
    proof {
        if n >= 10 {
            assert(v@ =~= old(v)@ + dec_seq(n as nat));
        } else {
            assert(v@ =~= old(v)@ + dec_seq(n as nat));
        }
    }
}

/// Appends the decimal rendering of `n`, zero-padded to two digits.
pub fn push_dec2(v: &mut Vec<char>, n: u64)
    ensures
        final(v)@ == old(v)@ + dec2(n as nat),
{
    if n < 10 {
        v.push('0');
    }
    push_dec_u64(v, n);
    proof {
        assert(v@ =~= old(v)@ + dec2(n as nat));
    }
}

/// Appends the decimal rendering of `n`, zero-padded to four digits.
pub fn push_dec4(v: &mut Vec<char>, n: u64)
    ensures
        final(v)@ == old(v)@ + dec4(n as nat),
{
    if n < 10 {
        v.push('0');
        v.push('0');
        v.push('0');
    } else if n < 100 {
        v.push('0');
        v.push('0');
    } else if n < 1000 {
        v.push('0');
    }
    push_dec_u64(v, n);
    proof {
        assert(v@ =~= old(v)@ + dec4(n as nat));
    }
}

/// Parses a run of decimal digits as an unsigned 32-bit value; reports
/// nothing when the value does not fit, as a 32-bit parse would fail.
pub fn parse_digit_run(run: &Vec<char>) -> (r: Option<u32>)
    requires
        all_digits(run@),
    ensures
        match r {
            Some(x) => digits_val(run@) == x,
            None => digits_val(run@) > u32::MAX,
        },
{
    let n = run.len();
    let mut acc: u64 = 0;
    let mut i: usize = 0;
    proof {
        assert(run@.subrange(0, 0) =~= Seq::<char>::empty());
    }
    while i < n
        invariant
            n == run@.len(),
            i <= n,
            all_digits(run@),
            acc == digits_val(run@.subrange(0, i as int)),
            acc <= u32::MAX,
        decreases n - i,
    {
        let d: u32 = (run[i] as u32) - 48;
        let next: u64 = acc * 10 + (d as u64);
        proof {
            assert(run@.subrange(0, i + 1).drop_last() =~= run@.subrange(0, i as int));
            assert(digits_val(run@.subrange(0, i + 1)) == acc * 10 + d);
        }
        if next > 0xFFFF_FFFF {
            proof {
                lemma_digits_val_prefix_le(run@, i + 1);
            }
            return None;
        }
        acc = next;
        i = i + 1;
    }
    proof {
        assert(run@.subrange(0, n as int) =~= run@);
    }
    Some(acc as u32)
}

/// Computes the next invoice number after `last`, stamped with the given
/// year and month. The layout is fixed: `INV-{year}-{month:02}-{seq:04}`,
/// where the sequence is one more than the trailing digit run of `last`,
/// and `0001` when there is no usable run or no previous number at all.
pub fn next_invoice_number_from(last: Option<&String>, year: i64, month: u32) -> (r: String)
    ensures
        r@ == spec_next_invoice_number(
            match last {
                Option::None => Option::None,
                Option::Some(s) => Option::Some(s@),
            },
            year as int,
            month as int,
        ),
{
    let n: u64 = match last {
        None => 1,
        Some(s) => next_seq_of(s),
    };
    let mut v: Vec<char> = Vec::new();
    v.push('I');
    v.push('N');
    v.push('V');
    v.push('-');
    if year < 0 {
        v.push('-');
        let mag: u64 = ((-(year + 1)) as u64) + 1;
        push_dec_u64(&mut v, mag);
    } else {
        push_dec_u64(&mut v, year as u64);
    }
    v.push('-');
    push_dec2(&mut v, month as u64);
    v.push('-');
    push_dec4(&mut v, n);
    proof {
        let lastv = match last {
            Option::None => Option::<Seq<char>>::None,
            Option::Some(s) => Option::Some(s@),
        };
        assert(v@ =~= spec_next_invoice_number(lastv, year as int, month as int));
    }
    chars_to_string(&v)
}

/// The sequence component for the number that follows `last`.
pub fn next_seq_of(last: &String) -> (r: u64)
    ensures
        r == next_seq_val(last@),
        1 <= r <= 0x1_0000_0000,
{
    let chars = str_chars(last.as_str());
    let len = chars.len();
    let mut k: usize = 0;
    proof {
        assert(chars@.subrange(0, len as int) =~= chars@);
    }
    while k < len && is_ascii_digit(chars[len - 1 - k])
        invariant
            len == chars@.len(),
            k <= len,
            trailing_digit_count(chars@) == k + trailing_digit_count(
                chars@.subrange(0, (len - k) as int),
            ),
        decreases len - k,
    {
        proof {
            assert(chars@.subrange(0, (len - k) as int).drop_last() =~= chars@.subrange(
                0,
                (len - k - 1) as int,
            ));
        }
        k = k + 1;
    }
    proof {
        if k < len {
            assert(trailing_digit_count(chars@.subrange(0, (len - k) as int)) == 0);
        } else {
            assert(chars@.subrange(0, 0) =~= Seq::<char>::empty());
        }
        assert(trailing_digit_count(chars@) == k);
    }
    if k == 0 {
        return 1;
    }
    let run = sub_chars(&chars, len - k, len);
    proof {
        lemma_trailing_run_digits(chars@);
        assert(run@ =~= trailing_run(chars@));
    }
    match parse_digit_run(&run) {
        Some(x) => (x as u64) + 1,
        None => 1,
    }
}

/// A previous number without trailing digits starts the sequence over:
/// the next number is the same as if there were no previous number.
pub proof fn lemma_no_trailing_digits_restarts(last: Seq<char>, year: int, month: int)
    requires
        trailing_digit_count(last) == 0,
    ensures
        spec_next_invoice_number(Option::Some(last), year, month) == spec_next_invoice_number(
            Option::None,
            year,
            month,
        ),
{
}

/// A previous number whose trailing digit run holds a value `x` that fits
/// the 32-bit range is followed by sequence `x + 1` under the same fixed
/// year/month prefix.
pub proof fn lemma_trailing_digits_increment(last: Seq<char>, year: int, month: int)
    requires
        trailing_digit_count(last) > 0,
        digits_val(trailing_run(last)) <= u32::MAX,
    ensures
        spec_next_invoice_number(Option::Some(last), year, month) == seq![
            'I',
            'N',
            'V',
            '-',
        ] + signed_dec(year) + seq!['-'] + dec2(month as nat) + seq!['-'] + dec4(
            (digits_val(trailing_run(last)) + 1) as nat,
        ),
{
    lemma_trailing_run_digits(last);
    lemma_digits_val_nonneg(trailing_run(last));
}

} // verus!
