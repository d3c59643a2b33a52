//! Small verified string utilities: slice equality and decimal rendering.

use vstd::prelude::*;

verus! {

use vstd::string::StrSliceExecFns;
use vstd::string::StringExecFns;

/// Character-by-character equality of two string slices.
pub fn str_eq(a: &str, b: &str) -> (r: bool)
    ensures
        r == (a@ == b@),
{
    let alen = a.unicode_len();
    let blen = b.unicode_len();
    if alen != blen {
        return false;
    }
    let mut i: usize = 0;
    while i < alen
        invariant
            alen == a@.len(),
            blen == b@.len(),
            alen == blen,
            0 <= i <= alen,
            forall|j: int| 0 <= j < i ==> a@[j] == b@[j],
        decreases alen - i,
    {
        if a.get_char(i) != b.get_char(i) {
            return false;
        }
        i += 1;
    }
    proof {
        assert(a@ =~= b@);
    }
    true
}

/// The character that writes a single decimal digit.
pub open spec fn dec_digit_char(d: nat) -> char {
    if d == 0 {
        '0'
    } else if d == 1 {
        '1'
    } else if d == 2 {
        '2'
    } else if d == 3 {
        '3'
    } else if d == 4 {
        '4'
    } else if d == 5 {
        '5'
    } else if d == 6 {
        '6'
    } else if d == 7 {
        '7'
    } else if d == 8 {
        '8'
    } else {
        '9'
    }
}

/// The decimal rendering of a natural number, most significant digit first.
pub open spec fn dec_str(n: nat) -> Seq<char>
    decreases n,
{
    if n < 10 {
        seq![dec_digit_char(n)]
    } else {
        dec_str(n / 10) + seq![dec_digit_char(n % 10)]
    }
}

fn digit_str(d: u64) -> (r: &'static str)
    requires
        d < 10,
    ensures
        r@ == seq![dec_digit_char(d as nat)],
{
    let r: &'static str = if d == 0 {
        "0"
    } else if d == 1 {
        "1"
    } else if d == 2 {
        "2"
    } else if d == 3 {
        "3"
    } else if d == 4 {
        "4"
    } else if d == 5 {
        "5"
    } else if d == 6 {
        "6"
    } else if d == 7 {
        "7"
    } else if d == 8 {
        "8"
    } else {
        "9"
    };
    proof {
        reveal_strlit("0");
        reveal_strlit("1");
        reveal_strlit("2");
        reveal_strlit("3");
        reveal_strlit("4");
        reveal_strlit("5");
        reveal_strlit("6");
        reveal_strlit("7");
        reveal_strlit("8");
        reveal_strlit("9");
        assert(r@ =~= seq![dec_digit_char(d as nat)]);
    }
    r
}

/// Renders a number in decimal, without leading zeros.
pub fn u64_to_string(n: u64) -> (r: String)
    ensures
        r@ == dec_str(n as nat),
{
    let mut acc = String::from_str(digit_str(n % 10));
    let mut m: u64 = n / 10;
    proof {
        assert(dec_str(n as nat) =~= (if m > 0 {
            dec_str(m as nat)
        } else {
            Seq::<char>::empty()
        }) + acc@);
    }
    while m > 0
        invariant
            dec_str(n as nat) == (if m > 0 {
                dec_str(m as nat)
            } else {
                Seq::<char>::empty()
            }) + acc@,
        decreases m,
    {
        let d = digit_str(m % 10);
        let next = String::from_str(d).concat(acc.as_str());
        let ghost old_m = m as nat;
        acc = next;
        m = m / 10;
        proof {
            if old_m >= 10 {
                assert(dec_str(old_m) == dec_str(old_m / 10) + seq![dec_digit_char(old_m % 10)]);
                assert(dec_str(n as nat) =~= dec_str(m as nat) + acc@);
            } else {
                assert(m == 0);
                assert(dec_str(old_m) == seq![dec_digit_char(old_m)]);
                assert(old_m % 10 == old_m);
                assert(dec_str(n as nat) =~= Seq::<char>::empty() + acc@);
            }
        }
    }
    proof {
        assert(dec_str(n as nat) =~= acc@);
    }
    acc
}

} // verus!
