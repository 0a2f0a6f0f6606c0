//! Decimal and byte-sequence rendering, specified character by character.

use vstd::prelude::*;

verus! {

/// The character for one decimal digit value.
pub open spec fn digit_char(d: int) -> char {
    if d == 0 {
        '0'
    } else if d == 1 {
        '1'
    } else if d == 2 {
        '2'
    } else if d == 3 {
        '3'
    } else if d == 4 {
        '4'
    } else if d == 5 {
        '5'
    } else if d == 6 {
        '6'
    } else if d == 7 {
        '7'
    } else if d == 8 {
        '8'
    } else {
        '9'
    }
}

/// The decimal digits of `n`, most significant first, without leading zeros
/// (a single `'0'` for zero itself).
pub open spec fn dec_digits(n: nat) -> Seq<char>
    decreases n,
{
    if n < 10 {
        seq![digit_char(n as int)]
    } else {
        dec_digits(n / 10).push(digit_char((n % 10) as int))
    }
}

/// A one-character string slice for the digit value `d`.
fn digit_str(d: u64) -> (r: &'static str)
    requires
        d < 10,
    ensures
        r@ == seq![digit_char(d as int)],
{
    proof {
        reveal_strlit("0");
        reveal_strlit("1");
        reveal_strlit("2");
        reveal_strlit("3");
        reveal_strlit("4");
        reveal_strlit("5");
        reveal_strlit("6");
        reveal_strlit("7");
        reveal_strlit("8");
        reveal_strlit("9");
    }
    let r: &'static str = match d {
        0 => "0",
        1 => "1",
        2 => "2",
        3 => "3",
        4 => "4",
        5 => "5",
        6 => "6",
        7 => "7",
        8 => "8",
        _ => "9",
    };
    proof {
        assert(r@ =~= seq![digit_char(d as int)]);
    }
    r
}

/// Renders `n` in decimal.
pub fn u64_dec(n: u64) -> (r: String)
    ensures
        r@ == dec_digits(n as nat),
    decreases n,
{
    if n < 10 {
        digit_str(n).to_owned()
    } else {
        let mut s = u64_dec(n / 10);
        s.append(digit_str(n % 10));
        proof {
            assert(dec_digits((n / 10) as nat) + seq![digit_char((n % 10) as int)] =~= dec_digits(
                (n / 10) as nat,
            ).push(digit_char((n % 10) as int)));
        }
        s
    }
}

/// The inside of a rendered byte list: the bytes in decimal, separated by
/// `", "`.
pub open spec fn byte_list_inner(s: Seq<u8>) -> Seq<char>
    decreases s.len(),
{
    if s.len() == 0 {
        Seq::empty()
    } else if s.len() == 1 {
        dec_digits(s[0] as nat)
    } else {
        byte_list_inner(s.drop_last()) + ", "@ + dec_digits(s.last() as nat)
    }
}

/// A byte sequence rendered as a bracketed decimal list, `[1, 2, 3]`.
pub open spec fn byte_list(s: Seq<u8>) -> Seq<char> {
    "["@ + byte_list_inner(s) + "]"@
}

/// Renders the bytes of `v` as a bracketed decimal list.
pub fn render_bytes(v: &Vec<u8>) -> (r: String)
    ensures
        r@ == byte_list(v@),
{
    let mut s = "[".to_owned();
    let mut i: usize = 0;
    while i < v.len()
        invariant
            i <= v.len(),
            s@ == "["@ + byte_list_inner(v@.take(i as int)),
        decreases v.len() - i,
    {
        if i > 0 {
            s.append(", ");
        }
        let d = u64_dec(v[i] as u64);
        s.append(d.as_str());
        proof {
            let t = v@.take(i as int + 1);
            assert(t.drop_last() =~= v@.take(i as int));
            assert(t.last() == v@[i as int]);
            assert(s@ =~= "["@ + byte_list_inner(t));
        }
        i += 1;
    }
    proof {
        assert(v@.take(v@.len() as int) =~= v@);
    }
    s.append("]");
    proof {
        assert(s@ =~= byte_list(v@));
    }
    s
}

} // verus!
