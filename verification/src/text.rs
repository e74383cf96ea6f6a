use vstd::prelude::*;
use vstd::utf8::{encode_utf8, encode_utf8_decode_utf8};

verus! {

/// The ASCII digit for `d` (`d < 10`).
pub open spec fn digit_char(d: nat) -> char {
    ((d + 48) as u32) as char
}

/// The decimal notation of `n`, without sign or leading zeros.
pub open spec fn decimal(n: nat) -> Seq<char>
    decreases n,
{
    if n < 10 {
        seq![digit_char(n)]
    } else {
        decimal(n / 10).push(digit_char(n % 10))
    }
}

fn digit_str(d: u64) -> (s: &'static str)
    requires
        d < 10,
    ensures
        s@ == seq![digit_char(d as nat)],
{
    match d {
        0 => {
            proof { reveal_strlit("0"); assert("0"@ =~= seq![digit_char(0)]); }
            "0"
        },
        1 => {
            proof { reveal_strlit("1"); assert("1"@ =~= seq![digit_char(1)]); }
            "1"
        },
        2 => {
            proof { reveal_strlit("2"); assert("2"@ =~= seq![digit_char(2)]); }
            "2"
        },
        3 => {
            proof { reveal_strlit("3"); assert("3"@ =~= seq![digit_char(3)]); }
            "3"
        },
        4 => {
            proof { reveal_strlit("4"); assert("4"@ =~= seq![digit_char(4)]); }
            "4"
        },
        5 => {
            proof { reveal_strlit("5"); assert("5"@ =~= seq![digit_char(5)]); }
            "5"
        },
        6 => {
            proof { reveal_strlit("6"); assert("6"@ =~= seq![digit_char(6)]); }
            "6"
        },
        7 => {
            proof { reveal_strlit("7"); assert("7"@ =~= seq![digit_char(7)]); }
            "7"
        },
        8 => {
            proof { reveal_strlit("8"); assert("8"@ =~= seq![digit_char(8)]); }
            "8"
        },
        _ => {
            proof { reveal_strlit("9"); assert("9"@ =~= seq![digit_char(9)]); }
            "9"
        },
    }
}

/// The decimal notation of `n`, as `{}` formats an unsigned integer.
pub fn decimal_string(n: u64) -> (s: String)
    ensures
        s@ == decimal(n as nat),
    decreases n,
{
    if n < 10 {
        String::from_str(digit_str(n))
    } else {
        let mut s = decimal_string(n / 10);
        s.append(digit_str(n % 10));
        s
    }
}

/// Whether two strings hold the same characters.
pub fn str_equals(a: &str, b: &str) -> (eq: bool)
    ensures
        eq == (a@ == b@),
{
    let x = a.as_bytes();
    let y = b.as_bytes();
    proof {
        encode_utf8_decode_utf8(a@);
        encode_utf8_decode_utf8(b@);
    }
    if x.len() != y.len() {
        return false;
    }
    let n = x.len();
    let mut i: usize = 0;
    while i < n
        invariant
            n == x@.len(),
            n == y@.len(),
            x@ == encode_utf8(a@),
            y@ == encode_utf8(b@),
            i <= n,
            forall|j: int| 0 <= j < i ==> x@[j] == y@[j],
        decreases n - i,
    {
        if x[i] != y[i] {
            return false;
        }
        i = i + 1;
    }
    assert(x@ =~= y@);
    true
}

} // verus!
