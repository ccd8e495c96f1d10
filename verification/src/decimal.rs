//! Decimal rendering of unsigned numbers.
//!
//! [`dec_rep`] is the mathematical decimal representation of a number as a
//! sequence of digit characters, and [`u64_to_string`] produces exactly that
//! sequence. Request ids, day counts and status codes are all rendered
//! through it.

use vstd::prelude::*;

verus! {

/// The digit character for a value in `0..=9`.
pub open spec fn digit_char(v: int) -> char {
    if v == 0 {
        '0'
    } else if v == 1 {
        '1'
    } else if v == 2 {
        '2'
    } else if v == 3 {
        '3'
    } else if v == 4 {
        '4'
    } else if v == 5 {
        '5'
    } else if v == 6 {
        '6'
    } else if v == 7 {
        '7'
    } else if v == 8 {
        '8'
    } else {
        '9'
    }
}

/// `c` is a decimal digit character.
pub open spec fn is_digit_char(c: char) -> bool {
    ('0' as u32) <= (c as u32) <= ('9' as u32)
}

/// The numeric value of a digit character.
pub open spec fn digit_val(c: char) -> int {
    (c as u32) - ('0' as u32)
}

/// The decimal representation of `n`, most significant digit first, with no
/// leading zeros (`0` is rendered as a single `'0'`).
pub open spec fn dec_rep(n: nat) -> Seq<char>
    decreases n,
{
    if n < 10 {
        seq![digit_char(n as int)]
    } else {
        dec_rep(n / 10) + seq![digit_char((n % 10) as int)]
    }
}

/// The characters for a sequence of digit values.
spec fn digit_seq(ds: Seq<u8>) -> Seq<char>
    decreases ds.len(),
{
    if ds.len() == 0 {
        Seq::empty()
    } else {
        seq![digit_char(ds[0] as int)] + digit_seq(ds.drop_first())
    }
}

/// Every character of a decimal representation is a digit, and there is at
/// least one of them.
pub proof fn lemma_dec_rep_digits(n: nat)
    ensures
        dec_rep(n).len() >= 1,
        forall|i: int| 0 <= i < dec_rep(n).len() ==> is_digit_char(#[trigger] dec_rep(n)[i]),
    decreases n,
{
    if n >= 10 {
        lemma_dec_rep_digits(n / 10);
    }
}

proof fn lemma_digit_seq_push(ds: Seq<u8>, x: u8)
    ensures
        digit_seq(ds.push(x)) == digit_seq(ds) + seq![digit_char(x as int)],
    decreases ds.len(),
{
    if ds.len() == 0 {
        assert(ds.push(x).drop_first() =~= ds);
        assert(digit_seq(ds.push(x)) =~= digit_seq(ds) + seq![digit_char(x as int)]);
    } else {
        lemma_digit_seq_push(ds.drop_first(), x);
        assert(ds.push(x).drop_first() =~= ds.drop_first().push(x));
        assert(digit_seq(ds.push(x)) == seq![digit_char(ds.push(x)[0] as int)] + digit_seq(
            ds.drop_first().push(x),
        ));
        assert(digit_seq(ds.push(x)) =~= digit_seq(ds) + seq![digit_char(x as int)]);
    }
}

/// The string slice holding exactly one digit character.
pub fn digit_str(v: u8) -> (r: &'static str)
    requires
        v < 10,
    ensures
        r@ == seq![digit_char(v as int)],
{
    proof {
        reveal_strlit("0");
        reveal_strlit("1");
        reveal_strlit("2");
        reveal_strlit("3");
        reveal_strlit("4");
        reveal_strlit("5");
        reveal_strlit("6");
        reveal_strlit("7");
        reveal_strlit("8");
        reveal_strlit("9");
    }
    let r = if v == 0 {
        "0"
    } else if v == 1 {
        "1"
    } else if v == 2 {
        "2"
    } else if v == 3 {
        "3"
    } else if v == 4 {
        "4"
    } else if v == 5 {
        "5"
    } else if v == 6 {
        "6"
    } else if v == 7 {
        "7"
    } else if v == 8 {
        "8"
    } else {
        "9"
    };
    proof {
        assert(r@ =~= seq![digit_char(v as int)]);
    }
    r
}

/// Render `n` in decimal.
pub fn u64_to_string(n: u64) -> (r: String)
    ensures
        r@ == dec_rep(n as nat),
{
    let mut digits: Vec<u8> = Vec::new();
    let mut cur: u64 = n;
    proof {
        assert(dec_rep(n as nat) =~= dec_rep(n as nat) + digit_seq(digits@));
    }
    loop
        invariant_except_break
            forall|i: int| 0 <= i < digits@.len() ==> #[trigger] digits@[i] < 10,
            dec_rep(n as nat) == dec_rep(cur as nat) + digit_seq(digits@),
        ensures
            forall|i: int| 0 <= i < digits@.len() ==> #[trigger] digits@[i] < 10,
            dec_rep(n as nat) == digit_seq(digits@),
        decreases cur,
    {
        let d = (cur % 10) as u8;
        let next = cur / 10;
        proof {
            let s = digits@.insert(0, d);
            assert(s.drop_first() =~= digits@);
            assert(digit_seq(s) == seq![digit_char(d as int)] + digit_seq(digits@));
        }
        digits.insert(0, d);
        if next == 0 {
            proof {
                assert(dec_rep(cur as nat) =~= seq![digit_char(d as int)]);
                assert(dec_rep(n as nat) =~= digit_seq(digits@));
            }
            break;
        }
        proof {
            assert(dec_rep(cur as nat) == dec_rep(next as nat) + seq![digit_char(d as int)]);
            assert(dec_rep(next as nat) + seq![digit_char(d as int)] + digit_seq(
                digits@.drop_first(),
            ) =~= dec_rep(next as nat) + digit_seq(digits@));
        }
        cur = next;
    }
    let mut out = String::new();
    let mut i: usize = 0;
    proof {
        assert(digits@.take(0) =~= Seq::<u8>::empty());
    }
    while i < digits.len()
        invariant
            i <= digits@.len(),
            forall|k: int| 0 <= k < digits@.len() ==> #[trigger] digits@[k] < 10,
            out@ == digit_seq(digits@.take(i as int)),
            dec_rep(n as nat) == digit_seq(digits@),
        decreases digits@.len() - i,
    {
        let d = digits[i];
        out.append(digit_str(d));
        proof {
            lemma_digit_seq_push(digits@.take(i as int), d);
            assert(digits@.take(i as int + 1) =~= digits@.take(i as int).push(d));
        }
        i = i + 1;
    }
    proof {
        assert(digits@.take(digits@.len() as int) =~= digits@);
    }
    out
}

} // verus!
