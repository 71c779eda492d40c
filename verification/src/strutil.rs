use vstd::prelude::*;
use vstd::string::StringExecFns;
use vstd::utf8::{encode_utf8, encode_utf8_decode_utf8};

verus! {

/// Text equality decided on the UTF-8 bytes: two strings are equal exactly
/// when their views are.
pub fn str_eq(a: &str, b: &str) -> (r: bool)
    ensures
        r == (a@ == b@),
{
    let ab = a.as_bytes();
    let bb = b.as_bytes();
    if ab.len() != bb.len() {
        proof {
            if a@ == b@ {
                assert(encode_utf8(a@) == encode_utf8(b@));
            }
        }
        return false;
    }
    let mut i: usize = 0;
    while i < ab.len()
        invariant
            i <= ab@.len(),
            ab@.len() == bb@.len(),
            ab@ == encode_utf8(a@),
            bb@ == encode_utf8(b@),
            forall|j: int| 0 <= j < i ==> ab@[j] == bb@[j],
        decreases ab@.len() - i,
    {
        if ab[i] != bb[i] {
            proof {
                if a@ == b@ {
                    assert(encode_utf8(a@) == encode_utf8(b@));
                }
            }
            return false;
        }
        i = i + 1;
    }
    proof {
        assert(encode_utf8(a@) =~= encode_utf8(b@));
        encode_utf8_decode_utf8(a@);
        encode_utf8_decode_utf8(b@);
    }
    true
}

/// Decimal digits of `n`, most significant first.
pub open spec fn dec_digits(n: nat) -> Seq<char>
    decreases n,
{
    if n < 10 {
        seq![digit_char(n)]
    } else {
        dec_digits(n / 10) + seq![digit_char(n % 10)]
    }
}

pub open spec fn digit_char(d: nat) -> char {
    if d == 0 {
        '0'
    } else if d == 1 {
        '1'
    } else if d == 2 {
        '2'
    } else if d == 3 {
        '3'
    } else if d == 4 {
        '4'
    } else if d == 5 {
        '5'
    } else if d == 6 {
        '6'
    } else if d == 7 {
        '7'
    } else if d == 8 {
        '8'
    } else {
        '9'
    }
}

fn digit_str(d: u64) -> (r: &'static str)
    requires
        d < 10,
    ensures
        r@ == seq![digit_char(d as nat)],
{
    proof {
        reveal_strlit("0");
        reveal_strlit("1");
        reveal_strlit("2");
        reveal_strlit("3");
        reveal_strlit("4");
        reveal_strlit("5");
        reveal_strlit("6");
        reveal_strlit("7");
        reveal_strlit("8");
        reveal_strlit("9");
    }
    let r: &'static str = if d == 0 {
        "0"
    } else if d == 1 {
        "1"
    } else if d == 2 {
        "2"
    } else if d == 3 {
        "3"
    } else if d == 4 {
        "4"
    } else if d == 5 {
        "5"
    } else if d == 6 {
        "6"
    } else if d == 7 {
        "7"
    } else if d == 8 {
        "8"
    } else {
        "9"
    };
    proof {
        assert(r@ =~= seq![digit_char(d as nat)]);
    }
    r
}

/// The digits collected so far, least significant first, as characters.
spec fn chars_of_digits(digs: Seq<u64>) -> Seq<char> {
    Seq::new(digs.len(), |i: int| digit_char(digs[i] as nat))
}

/// Decimal rendering of an unsigned value, used for the names of positional
/// parameters ("0", "1", ...).
pub fn u64_to_string(n: u64) -> (r: String)
    ensures
        r@ == dec_digits(n as nat),
{
    let mut digs: Vec<u64> = Vec::new();
    let mut rest: u64 = n;
    if rest == 0 {
        digs.push(0);
        proof {
            assert(chars_of_digits(digs@).reverse() =~= seq![digit_char(0)]);
        }
    } else {
        proof {
            assert(dec_digits(n as nat) =~= dec_digits(n as nat) + chars_of_digits(
                digs@,
            ).reverse());
        }
        while rest > 0
            invariant
                rest > 0 ==> dec_digits(n as nat) == dec_digits(rest as nat)
                    + chars_of_digits(digs@).reverse(),
                rest == 0 ==> dec_digits(n as nat) == chars_of_digits(digs@).reverse(),
                forall|j: int| 0 <= j < digs@.len() ==> digs@[j] < 10,
            decreases rest,
        {
            let d = rest % 10;
            let ghost prev = rest;
            let ghost prev_digs = digs@;
            digs.push(d);
            rest = rest / 10;
            proof {
                assert(chars_of_digits(digs@).reverse() =~= seq![digit_char((prev % 10) as nat)]
                    + chars_of_digits(prev_digs).reverse());
                if rest > 0 {
                    assert(dec_digits(prev as nat) == dec_digits((prev / 10) as nat) + seq![
                        digit_char((prev % 10) as nat)
                    ]);
                    assert(dec_digits((prev / 10) as nat) + chars_of_digits(digs@).reverse()
                        =~= (dec_digits((prev / 10) as nat) + seq![
                        digit_char((prev % 10) as nat)
                    ]) + chars_of_digits(prev_digs).reverse());
                } else {
                    assert(prev < 10);
                    assert(dec_digits(prev as nat) == seq![digit_char(prev as nat)]);
                    assert(prev % 10 == prev);
                    assert(dec_digits(n as nat) =~= chars_of_digits(digs@).reverse());
                }
            }
        }
    }
    let mut s = String::new();
    let mut i: usize = digs.len();
    proof {
        assert(s@ =~= chars_of_digits(digs@).reverse().take(0));
    }
    while i > 0
        invariant
            i <= digs@.len(),
            s@ == chars_of_digits(digs@).reverse().take(digs@.len() - i),
            forall|j: int| 0 <= j < digs@.len() ==> digs@[j] < 10,
        decreases i,
    {
        i = i - 1;
        let d = digs[i];
        s.append(digit_str(d));
        proof {
            assert(chars_of_digits(digs@).reverse()[digs@.len() - i - 1] == digit_char(
                digs@[i as int] as nat,
            ));
            assert(s@ =~= chars_of_digits(digs@).reverse().take(digs@.len() - i));
        }
    }
    proof {
        assert(chars_of_digits(digs@).reverse().take(digs@.len() as int) =~= chars_of_digits(
            digs@,
        ).reverse());
    }
    s
}

} // verus!
