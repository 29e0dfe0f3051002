//! Decimal rendering of numeric identifiers and control codes, used by the
//! human-readable listener status line and by the mailbox acknowledgment.

use vstd::prelude::*;
use vstd::string::StringExecFns;

verus! {

/// The character for one decimal digit.
pub open spec fn digit_char(d: nat) -> char {
    if d == 0 {
        '0'
    } else if d == 1 {
        '1'
    } else if d == 2 {
        '2'
    } else if d == 3 {
        '3'
    } else if d == 4 {
        '4'
    } else if d == 5 {
        '5'
    } else if d == 6 {
        '6'
    } else if d == 7 {
        '7'
    } else if d == 8 {
        '8'
    } else {
        '9'
    }
}

/// The decimal numeral of `n`, most significant digit first, without leading
/// zeros (zero itself renders as "0").
pub open spec fn dec_chars(n: nat) -> Seq<char>
    decreases n,
{
    if n < 10 {
        seq![digit_char(n)]
    } else {
        dec_chars(n / 10).push(digit_char(n % 10))
    }
}

/// The characters of a run of decimal digits read in reverse: element `i`
/// renders the digit stored at position `len - 1 - i`.
spec fn rev_digit_chars(ds: Seq<u8>) -> Seq<char> {
    Seq::new(ds.len(), |i: int| digit_char(ds[ds.len() - 1 - i] as nat))
}

/// The one-character string for one decimal digit.
fn digit_str(d: u8) -> (r: &'static str)
    requires
        d < 10,
    ensures
        r@ =~= seq![digit_char(d as nat)],
{
    proof {
        reveal_strlit("0");
        reveal_strlit("1");
        reveal_strlit("2");
        reveal_strlit("3");
        reveal_strlit("4");
        reveal_strlit("5");
        reveal_strlit("6");
        reveal_strlit("7");
        reveal_strlit("8");
        reveal_strlit("9");
    }
    match d {
        0 => "0",
        1 => "1",
        2 => "2",
        3 => "3",
        4 => "4",
        5 => "5",
        6 => "6",
        7 => "7",
        8 => "8",
        _ => "9",
    }
}

/// Renders `n` as its decimal numeral.
pub fn u64_to_string(n: u64) -> (s: String)
    ensures
        s@ == dec_chars(n as nat),
{
    let mut digits: Vec<u8> = Vec::new();
    let mut m: u64 = n;
    loop
        invariant_except_break
            digits@.len() == 0 ==> m == n,
            digits@.len() > 0 ==> m > 0,
            dec_chars(n as nat) =~= (if digits@.len() == 0 {
                dec_chars(m as nat)
            } else {
                dec_chars(m as nat) + rev_digit_chars(digits@)
            }),
        invariant
            forall|k: int| 0 <= k < digits@.len() ==> digits@[k] < 10,
        ensures
            dec_chars(n as nat) =~= rev_digit_chars(digits@),
        decreases m, 1int,
    {
        let d: u8 = (m % 10) as u8;
        proof {
            let ds = digits@;
            assert(rev_digit_chars(ds.push(d)) =~= seq![digit_char(d as nat)]
                + rev_digit_chars(ds));
        }
        digits.push(d);
        let next: u64 = m / 10;
        if next == 0 {
            proof {
                assert(dec_chars(m as nat) =~= seq![digit_char(d as nat)]);
                assert(dec_chars(n as nat) =~= rev_digit_chars(digits@));
            }
            break;
        }
        proof {
            assert(dec_chars(m as nat) =~= dec_chars(next as nat).push(digit_char(d as nat)));
            assert(dec_chars(next as nat).push(digit_char(d as nat)) + rev_digit_chars(
                digits@.drop_last(),
            ) =~= dec_chars(next as nat) + rev_digit_chars(digits@));
        }
        m = next;
    }
    let mut s = String::new();
    let mut i: usize = digits.len();
    while i > 0
        invariant
            i <= digits@.len(),
            forall|k: int| 0 <= k < digits@.len() ==> digits@[k] < 10,
            dec_chars(n as nat) =~= rev_digit_chars(digits@),
            s@ =~= rev_digit_chars(digits@).take(digits@.len() - i),
        decreases i,
    {
        i = i - 1;
        s.append(digit_str(digits[i]));
        proof {
            let full = rev_digit_chars(digits@);
            assert(s@ =~= full.take(digits@.len() - i));
        }
    }
    proof {
        assert(s@ =~= dec_chars(n as nat));
    }
    s
}

} // verus!
