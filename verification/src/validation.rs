//! Syntactic validators for the two Indian tax identifiers an invoice
//! carries.
//!
//! Both are shape checks only: the GSTIN validator splits the identifier
//! into its fixed-width fields and checks that the state-code field is two
//! decimal digits — it does not verify the checksum digit nor look the
//! state code up; the HSN/SAC validator classifies a code as a services
//! (SAC) or goods (HSN) code from its length and digits alone and reports
//! a flat placeholder rate, not one looked up in a rate table.

use vstd::prelude::*;
use crate::strutil::{
    all_digits, chars_to_string, is_ascii_digit, is_digit_char, str_chars, sub_chars, upper,
    upper_chars, is_ascii_space, is_space_char, trimmed, trim_front, trim_back,
};
use vstd::string::StringExecFns;

verus! {

/// Outcome of the syntactic GSTIN check: the four fixed-width fields when
/// the shape is accepted, or an error message when it is not.
pub struct GstinValidationResult {
    pub is_valid: bool,
    pub state_code: Option<String>,
    pub pan_number: Option<String>,
    pub entity_number: Option<String>,
    pub check_digit: Option<String>,
    pub error: Option<String>,
}

/// A GSTIN passes the syntactic check: exactly 15 characters, and its
/// first two characters (the state code) are decimal digits.
pub open spec fn gstin_ok(s: Seq<char>) -> bool {
    s.len() == 15 && is_digit_char(s[0]) && is_digit_char(s[1])
}

/// Checks the shape of a 15-character GSTIN and splits it into state code
/// (characters 0..2), PAN (2..12), entity number (12..13) and check digit
/// (13..15), all upper-cased ASCII-wise.
///
/// This is a shape check only: neither the PAN structure nor the checksum
/// digit is verified, and the state code is not held against the state
/// list.
pub fn validate_gstin(gstin: &str) -> (r: GstinValidationResult)
    ensures
        r.is_valid == gstin_ok(gstin@),
        gstin@.len() != 15 ==> (r.error matches Some(e) && e@
            == "GSTIN must be exactly 15 characters"@),
        gstin@.len() == 15 && !gstin_ok(gstin@) ==> (r.error matches Some(e) && e@
            == "Invalid state code format"@),
        !gstin_ok(gstin@) ==> r.state_code is None && r.pan_number is None && r.entity_number
            is None && r.check_digit is None,
        gstin_ok(gstin@) ==> {
            &&& r.state_code matches Some(s) && s@ == upper(gstin@).subrange(0, 2)
            &&& r.pan_number matches Some(s) && s@ == upper(gstin@).subrange(2, 12)
            &&& r.entity_number matches Some(s) && s@ == upper(gstin@).subrange(12, 13)
            &&& r.check_digit matches Some(s) && s@ == upper(gstin@).subrange(13, 15)
            &&& r.error is None
        },
{
    let chars = str_chars(gstin);
    if chars.len() != 15 {
        return GstinValidationResult {
            is_valid: false,
            state_code: None,
            pan_number: None,
            entity_number: None,
            check_digit: None,
            error: Some(String::from_str("GSTIN must be exactly 15 characters")),
        };
    }
    let up = upper_chars(&chars);
    if !(is_ascii_digit(up[0]) && is_ascii_digit(up[1])) {
        proof {
            // Upper-casing never maps a character onto a digit, so the check
            // on the upper-cased form decides the check on the raw form too.
            assert(is_digit_char(upper(gstin@)[0]) == is_digit_char(gstin@[0]));
            assert(is_digit_char(upper(gstin@)[1]) == is_digit_char(gstin@[1]));
        }
        return GstinValidationResult {
            is_valid: false,
            state_code: None,
            pan_number: None,
            entity_number: None,
            check_digit: None,
            error: Some(String::from_str("Invalid state code format")),
        };
    }
    proof {
        assert(is_digit_char(upper(gstin@)[0]) == is_digit_char(gstin@[0]));
        assert(is_digit_char(upper(gstin@)[1]) == is_digit_char(gstin@[1]));
    }
    GstinValidationResult {
        is_valid: true,
        state_code: Some(chars_to_string(&sub_chars(&up, 0, 2))),
        pan_number: Some(chars_to_string(&sub_chars(&up, 2, 12))),
        entity_number: Some(chars_to_string(&sub_chars(&up, 12, 13))),
        check_digit: Some(chars_to_string(&sub_chars(&up, 13, 15))),
        error: None,
    }
}

/// Outcome of the syntactic HSN/SAC check. The suggested rate is a flat
/// placeholder in whole percent, not a figure looked up in a rate table.
pub struct HsnSacValidationResult {
    pub is_valid: bool,
    pub validation_type: Option<String>,
    pub description: Option<String>,
    pub suggested_gst_rate: Option<u32>,
    pub error: Option<String>,
}

/// A services accounting code: exactly six decimal digits starting "99".
pub open spec fn is_sac(t: Seq<char>) -> bool {
    t.len() == 6 && t[0] == '9' && t[1] == '9' && all_digits(t)
}

/// A goods classification code: two to eight decimal digits.
pub open spec fn is_hsn(t: Seq<char>) -> bool {
    2 <= t.len() <= 8 && all_digits(t)
}

/// The flat placeholder rate reported for every accepted code, in whole
/// percent.
pub const DEFAULT_GST_RATE_PERCENT: u32 = 18;

/// Classifies a goods/services code by shape: a code that trims (ASCII
/// whitespace) to six digits starting "99" is a services (SAC) code, one
/// that trims to two to eight digits is a goods (HSN) code, anything else
/// is rejected; input that trims to nothing is rejected as missing.
pub fn validate_hsn_sac(code: &str) -> (r: HsnSacValidationResult)
    ensures
        r.is_valid == (is_sac(trimmed(code@)) || is_hsn(trimmed(code@))),
        trimmed(code@).len() == 0 ==> (r.error matches Some(e) && e@
            == "HSN/SAC code is required"@),
        is_sac(trimmed(code@)) ==> {
            &&& r.validation_type matches Some(t) && t@ == "SAC"@
            &&& r.description matches Some(d) && d@ == "SAC code for services"@
            &&& r.suggested_gst_rate == Some(DEFAULT_GST_RATE_PERCENT)
            &&& r.error is None
        },
        !is_sac(trimmed(code@)) && is_hsn(trimmed(code@)) ==> {
            &&& r.validation_type matches Some(t) && t@ == "HSN"@
            &&& r.description matches Some(d) && d@ == "HSN code for goods"@
            &&& r.suggested_gst_rate == Some(DEFAULT_GST_RATE_PERCENT)
            &&& r.error is None
        },
        trimmed(code@).len() > 0 && !is_sac(trimmed(code@)) && !is_hsn(trimmed(code@)) ==> (
        r.error matches Some(e) && e@ == "Invalid HSN/SAC format"@),
        !r.is_valid ==> r.validation_type is None && r.description is None
            && r.suggested_gst_rate is None,
{
    let chars = str_chars(code);
    let t = trim_chars(&chars);
    if t.len() == 0 {
        return HsnSacValidationResult {
            is_valid: false,
            validation_type: None,
            description: None,
            suggested_gst_rate: None,
            error: Some(String::from_str("HSN/SAC code is required")),
        };
    }
    let digits = all_ascii_digits(&t);
    let sac = t.len() == 6 && t[0] == '9' && t[1] == '9' && digits;
    if sac {
        return HsnSacValidationResult {
            is_valid: true,
            validation_type: Some(String::from_str("SAC")),
            description: Some(String::from_str("SAC code for services")),
            suggested_gst_rate: Some(DEFAULT_GST_RATE_PERCENT),
            error: None,
        };
    }
    if 2 <= t.len() && t.len() <= 8 && digits {
        return HsnSacValidationResult {
            is_valid: true,
            validation_type: Some(String::from_str("HSN")),
            description: Some(String::from_str("HSN code for goods")),
            suggested_gst_rate: Some(DEFAULT_GST_RATE_PERCENT),
            error: None,
        };
    }
    HsnSacValidationResult {
        is_valid: false,
        validation_type: None,
        description: None,
        suggested_gst_rate: None,
        error: Some(String::from_str("Invalid HSN/SAC format")),
    }
}

/// Tests whether every character of `v` is a decimal digit.
pub fn all_ascii_digits(v: &Vec<char>) -> (r: bool)
    ensures
        r == all_digits(v@),
{
    let n = v.len();
    let mut i: usize = 0;
    while i < n
        invariant
            n == v@.len(),
            i <= n,
            forall|k: int| 0 <= k < i ==> is_digit_char(#[trigger] v@[k]),
        decreases n - i,
    {
        if !is_ascii_digit(v[i]) {
            return false;
        }
        i = i + 1;
    }
    true
}

/// Removes ASCII whitespace from both ends of a character vector.
pub fn trim_chars(v: &Vec<char>) -> (r: Vec<char>)
    ensures
        r@ == trimmed(v@),
{
    let n = v.len();
    proof {
        assert(v@.subrange(0, n as int) =~= v@);
    }
    let mut lo: usize = 0;
    while lo < n && is_ascii_space(v[lo])
        invariant
            n == v@.len(),
            lo <= n,
            trim_front(v@) == trim_front(v@.subrange(lo as int, n as int)),
        decreases n - lo,
    {
        proof {
            assert(v@.subrange(lo as int, n as int).drop_first() =~= v@.subrange(
                lo as int + 1,
                n as int,
            ));
        }
        lo = lo + 1;
    }
    proof {
        assert(trim_front(v@) =~= v@.subrange(lo as int, n as int));
    }
    let mut hi: usize = n;
    while lo < hi && is_ascii_space(v[hi - 1])
        invariant
            n == v@.len(),
            lo <= hi <= n,
            trim_front(v@) == v@.subrange(lo as int, n as int),
            trim_back(v@.subrange(lo as int, n as int)) == trim_back(
                v@.subrange(lo as int, hi as int),
            ),
        decreases hi,
    {
        proof {
            assert(v@.subrange(lo as int, hi as int).drop_last() =~= v@.subrange(
                lo as int,
                hi as int - 1,
            ));
        }
        hi = hi - 1;
    }
    proof {
        assert(trim_back(v@.subrange(lo as int, hi as int)) =~= v@.subrange(
            lo as int,
            hi as int,
        ));
    }
    sub_chars(v, lo, hi)
}

} // verus!
