//! Decimal text form of role handles.
//!
//! A control's identifier is the decimal rendering of the role's numeric
//! handle, and an activation resolves its identifier back to the handle by
//! parsing that text. Both directions are implemented and verified here.

use vstd::prelude::*;

verus! {

/// A decimal digit character.
pub open spec fn is_digit_char(c: char) -> bool {
    48 <= c as int <= 57
}

/// The numeric value of a digit character.
pub open spec fn digit_val(c: char) -> nat {
    (c as int - 48) as nat
}

/// The digit character for a value below ten.
pub open spec fn digit_char(d: nat) -> char {
    if d == 0 {
        '0'
    } else if d == 1 {
        '1'
    } else if d == 2 {
        '2'
    } else if d == 3 {
        '3'
    } else if d == 4 {
        '4'
    } else if d == 5 {
        '5'
    } else if d == 6 {
        '6'
    } else if d == 7 {
        '7'
    } else if d == 8 {
        '8'
    } else {
        '9'
    }
}

/// Every character of `s` is a decimal digit.
pub open spec fn all_digits(s: Seq<char>) -> bool {
    forall|i: int| 0 <= i < s.len() ==> is_digit_char(s[i])
}

/// The number denoted by a digit string, most significant digit first.
pub open spec fn dec_value(s: Seq<char>) -> nat
    decreases s.len(),
{
    if s.len() == 0 {
        0
    } else {
        dec_value(s.drop_last()) * 10 + digit_val(s.last())
    }
}

/// The canonical decimal rendering of `n`: no sign, no leading zero except
/// for `n == 0` itself.
pub open spec fn dec_rep(n: nat) -> Seq<char>
    decreases n,
{
    if n < 10 {
        seq![digit_char(n)]
    } else {
        dec_rep(n / 10).push(digit_char(n % 10))
    }
}

/// `digit_char` and `digit_val` invert each other on values below ten.
pub proof fn lemma_digit_char_val(d: nat)
    requires
        d < 10,
    ensures
        is_digit_char(digit_char(d)),
        digit_val(digit_char(d)) == d,
{
}

/// The canonical rendering consists of digits and is never empty.
pub proof fn lemma_dec_rep_wf(n: nat)
    ensures
        dec_rep(n).len() >= 1,
        all_digits(dec_rep(n)),
    decreases n,
{
    if n < 10 {
        lemma_digit_char_val(n);
    } else {
        lemma_dec_rep_wf(n / 10);
        lemma_digit_char_val(n % 10);
    }
}

/// Round trip: parsing the canonical rendering of `n` yields `n`.
pub proof fn lemma_dec_rep_value(n: nat)
    ensures
        dec_value(dec_rep(n)) == n,
    decreases n,
{
    if n < 10 {
        lemma_digit_char_val(n);
        assert(dec_rep(n) =~= seq![digit_char(n)]);
        assert(dec_rep(n).last() == digit_char(n));
        assert(dec_rep(n).drop_last() =~= Seq::<char>::empty());
        assert(dec_value(dec_rep(n).drop_last()) == 0);
        assert(dec_value(dec_rep(n)) == 0 * 10 + digit_val(digit_char(n)));
    } else {
        lemma_dec_rep_value(n / 10);
        lemma_digit_char_val(n % 10);
        lemma_dec_rep_wf(n / 10);
        assert(dec_rep(n) == dec_rep(n / 10).push(digit_char(n % 10)));
        assert(dec_rep(n).drop_last() =~= dec_rep(n / 10));
        assert(dec_rep(n).last() == digit_char(n % 10));
        assert(dec_value(dec_rep(n)) == dec_value(dec_rep(n / 10)) * 10 + digit_val(
            digit_char(n % 10),
        ));
        vstd::arithmetic::div_mod::lemma_fundamental_div_mod(n as int, 10);
    }
}

/// Extending a digit string can only increase its value.
proof fn lemma_dec_value_take_le(s: Seq<char>, i: int)
    requires
        0 <= i <= s.len(),
    ensures
        dec_value(s.take(i)) <= dec_value(s),
    decreases s.len() - i,
{
    if i == s.len() {
        assert(s.take(i) =~= s);
    } else {
        assert(s.take(i + 1).drop_last() =~= s.take(i));
        assert(s.take(i + 1).last() == s[i]);
        assert(dec_value(s.take(i)) <= dec_value(s.take(i + 1)));
        lemma_dec_value_take_le(s, i + 1);
    }
}

/// The digit character for a value below ten, as a one-character string.
fn digit_str(d: u8) -> (s: &'static str)
    requires
        d < 10,
    ensures
        s@ =~= seq![digit_char(d as nat)],
{
    proof {
        reveal_strlit("0");
        reveal_strlit("1");
        reveal_strlit("2");
        reveal_strlit("3");
        reveal_strlit("4");
        reveal_strlit("5");
        reveal_strlit("6");
        reveal_strlit("7");
        reveal_strlit("8");
        reveal_strlit("9");
    }
    if d == 0 {
        "0"
    } else if d == 1 {
        "1"
    } else if d == 2 {
        "2"
    } else if d == 3 {
        "3"
    } else if d == 4 {
        "4"
    } else if d == 5 {
        "5"
    } else if d == 6 {
        "6"
    } else if d == 7 {
        "7"
    } else if d == 8 {
        "8"
    } else {
        "9"
    }
}

/// The digit characters of the low-to-high remainder list `ds`, read back
/// in display order (most significant first).
spec fn chars_of_rev(ds: Seq<u8>) -> Seq<char> {
    Seq::new(ds.len(), |i: int| digit_char(ds[ds.len() - 1 - i] as nat))
}

/// Renders `n` in decimal, canonically.
pub fn u64_to_decimal(n: u64) -> (s: String)
    ensures
        s@ == dec_rep(n as nat),
{
    let mut digits: Vec<u8> = Vec::new();
    let mut m: u64 = n;
    while m >= 10
        invariant
            dec_rep(n as nat) =~= dec_rep(m as nat) + chars_of_rev(digits@),
            forall|j: int| 0 <= j < digits@.len() ==> digits@[j] < 10,
        decreases m,
    {
        let d: u8 = (m % 10) as u8;
        proof {
            assert(chars_of_rev(digits@.push(d)) =~= seq![digit_char(d as nat)]
                + chars_of_rev(digits@));
            assert(dec_rep((m / 10) as nat).push(digit_char((m % 10) as nat))
                + chars_of_rev(digits@)
                =~= dec_rep((m / 10) as nat)
                    + (seq![digit_char((m % 10) as nat)] + chars_of_rev(digits@)));
        }
        digits.push(d);
        m = m / 10;
    }
    let mut out = String::new();
    out.append(digit_str(m as u8));
    proof {
        assert(out@ =~= dec_rep(n as nat).take(1));
    }
    let mut k: usize = 0;
    while k < digits.len()
        invariant
            0 <= k <= digits.len(),
            dec_rep(n as nat) =~= dec_rep((m as u64) as nat) + chars_of_rev(digits@),
            forall|j: int| 0 <= j < digits@.len() ==> digits@[j] < 10,
            m < 10,
            out@ =~= dec_rep(n as nat).take(1 + k),
        decreases digits.len() - k,
    {
        let idx: usize = digits.len() - 1 - k;
        let d: u8 = digits[idx];
        proof {
            assert(chars_of_rev(digits@)[k as int] == digit_char(digits@[idx as int] as nat));
            assert(dec_rep(n as nat)[1 + k] == chars_of_rev(digits@)[k as int]);
        }
        out.append(digit_str(d));
        proof {
            assert(out@ =~= dec_rep(n as nat).take(1 + k + 1));
        }
        k = k + 1;
    }
    proof {
        assert(dec_rep(n as nat).take(1 + digits@.len() as int) =~= dec_rep(n as nat));
    }
    out
}

/// Parses a decimal digit string. Succeeds exactly on non-empty strings of
/// digits whose value fits in a `u64`, and then returns that value.
pub fn parse_u64(s: &str) -> (r: Option<u64>)
    ensures
        r is Some <==> s@.len() >= 1 && all_digits(s@) && dec_value(s@) <= u64::MAX,
        r matches Some(v) ==> v as nat == dec_value(s@),
{
    let len = s.unicode_len();
    if len == 0 {
        return None;
    }
    let mut i: usize = 0;
    let mut acc: u64 = 0;
    while i < len
        invariant
            0 <= i <= len,
            len == s@.len(),
            all_digits(s@.take(i as int)),
            acc as nat == dec_value(s@.take(i as int)),
        decreases len - i,
    {
        let c = s.get_char(i);
        let cu: u32 = c as u32;
        if cu < 48 || cu > 57 {
            assert(!is_digit_char(s@[i as int]));
            return None;
        }
        let d: u64 = (cu - 48) as u64;
        proof {
            assert(s@.take(i + 1).drop_last() =~= s@.take(i as int));
            assert(s@.take(i + 1).last() == s@[i as int]);
        }
        let step = match acc.checked_mul(10) {
            Some(p) => p.checked_add(d),
            None => None,
        };
        match step {
            Some(v) => {
                acc = v;
            },
            None => {
                proof {
                    assert(dec_value(s@.take(i + 1)) > u64::MAX);
                    if all_digits(s@) && dec_value(s@) <= u64::MAX {
                        lemma_dec_value_take_le(s@, i + 1);
                        assert(false);
                    }
                }
                return None;
            },
        }
        assert(all_digits(s@.take(i + 1))) by {
            assert(forall|j: int| 0 <= j < i + 1 ==> s@.take(i + 1)[j] == s@[j]);
        }
        i = i + 1;
    }
    proof {
        assert(s@.take(len as int) =~= s@);
    }
    Some(acc)
}

} // verus!
