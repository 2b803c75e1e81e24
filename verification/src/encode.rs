//! Percent-encoding of query parameter values, byte by byte over the UTF-8
//! encoding of the text: unreserved octets pass through, every other octet
//! becomes `%` followed by two upper-case hex digits.

use vstd::prelude::*;
use vstd::string::*;
use vstd::utf8::encode_utf8;

verus! {

/// Octets that stand for themselves in a query value: ASCII letters and
/// digits, `-`, `.`, `_` and `~`.
pub open spec fn is_unreserved(b: u8) -> bool {
    ||| 48 <= b <= 57
    ||| 65 <= b <= 90
    ||| 97 <= b <= 122
    ||| b == 45
    ||| b == 46
    ||| b == 95
    ||| b == 126
}

/// Upper-case hex digit for a value below 16.
pub open spec fn hex_digit(d: u8) -> u8 {
    if d < 10 {
        (48 + d) as u8
    } else {
        (55 + d) as u8
    }
}

/// Encoding of one octet: itself, or `%` and its two hex digits.
pub open spec fn encoded_byte(b: u8) -> Seq<u8> {
    if is_unreserved(b) {
        seq![b]
    } else {
        seq![37u8, hex_digit(b / 16), hex_digit(b % 16)]
    }
}

/// Percent-encoding of a whole octet sequence.
pub open spec fn percent_encoded(bs: Seq<u8>) -> Seq<u8>
    decreases bs.len(),
{
    if bs.len() == 0 {
        Seq::<u8>::empty()
    } else {
        percent_encoded(bs.drop_last()) + encoded_byte(bs.last())
    }
}

/// Percent-encoding of a string, over its UTF-8 octets.
pub open spec fn percent_encoded_text(s: Seq<char>) -> Seq<u8> {
    percent_encoded(encode_utf8(s))
}

/// Decimal digits of `n`, most significant first, no leading zero.
pub open spec fn dec_digits(n: nat) -> Seq<u8>
    decreases n,
{
    if n < 10 {
        seq![(48 + n) as u8]
    } else {
        dec_digits(n / 10) + seq![(48 + n % 10) as u8]
    }
}

/// Hex digits of `n` to exactly `count` places, most significant first,
/// upper case, zero padded.
pub open spec fn hex_digits(n: nat, count: nat) -> Seq<u8>
    decreases count,
{
    if count == 0 {
        Seq::<u8>::empty()
    } else {
        hex_digits(n / 16, (count - 1) as nat) + seq![hex_digit((n % 16) as u8)]
    }
}

/// Appends the upper-case hex digit of `d` to `out`.
pub(crate) fn push_hex_digit(out: &mut Vec<u8>, d: u8)
    requires
        d < 16,
    ensures
        final(out)@ == old(out)@.push(hex_digit(d)),
{
    if d < 10 {
        out.push(48 + d);
    } else {
        out.push(55 + d);
    }
}

/// Appends the percent-encoding of the octets `bs` to `out`.
pub fn append_encoded_bytes(out: &mut Vec<u8>, bs: &Vec<u8>)
    ensures
        final(out)@ == old(out)@ + percent_encoded(bs@),
{
    let n: usize = bs.len();
    let mut i: usize = 0;
    while i < n
        invariant
            0 <= i <= n,
            n == bs@.len(),
            out@ == old(out)@ + percent_encoded(bs@.take(i as int)),
        decreases n - i,
    {
        let b: u8 = bs[i];
        if (48 <= b && b <= 57) || (65 <= b && b <= 90) || (97 <= b && b <= 122) || b == 45
            || b == 46 || b == 95 || b == 126 {
            out.push(b);
        } else {
            out.push(37);
            push_hex_digit(out, b / 16);
            push_hex_digit(out, b % 16);
        }
        proof {
            assert(bs@.take(i + 1).drop_last() =~= bs@.take(i as int));
            assert(bs@.take(i + 1).last() == bs@[i as int]);
            assert(out@ =~= old(out)@ + percent_encoded(bs@.take(i + 1)));
        }
        i = i + 1;
    }
    proof {
        assert(bs@.take(n as int) =~= bs@);
    }
}

/// Appends the percent-encoding of the text `s` to `out`.
pub fn append_encoded_str(out: &mut Vec<u8>, s: &str)
    ensures
        final(out)@ == old(out)@ + percent_encoded_text(s@),
{
    let bv: Vec<u8> = s.as_bytes_vec();
    append_encoded_bytes(out, &bv);
}

/// Appends the UTF-8 octets of `s` to `out` unencoded, for the fixed pieces
/// of a URL.
pub fn append_literal(out: &mut Vec<u8>, s: &str)
    ensures
        final(out)@ == old(out)@ + encode_utf8(s@),
{
    let mut bv: Vec<u8> = s.as_bytes_vec();
    out.append(&mut bv);
}

/// Appends the decimal rendering of `n` to `out`.
pub fn append_decimal(out: &mut Vec<u8>, n: u64)
    ensures
        final(out)@ == old(out)@ + dec_digits(n as nat),
    decreases n,
{
    if n < 10 {
        out.push(48 + (n as u8));
        proof {
            assert(out@ =~= old(out)@ + dec_digits(n as nat));
        }
    } else {
        append_decimal(out, n / 10);
        out.push(48 + ((n % 10) as u8));
        proof {
            assert(out@ =~= old(out)@ + dec_digits(n as nat));
        }
    }
}

/// Appends exactly `count` hex digits of `n` to `out`, upper case and zero
/// padded, most significant first.
pub fn append_hex(out: &mut Vec<u8>, n: u128, count: usize)
    ensures
        final(out)@ == old(out)@ + hex_digits(n as nat, count as nat),
    decreases count,
{
    if count > 0 {
        append_hex(out, n / 16, count - 1);
        push_hex_digit(out, (n % 16) as u8);
        proof {
            assert(out@ =~= old(out)@ + hex_digits(n as nat, count as nat));
        }
    } else {
        proof {
            assert(old(out)@ =~= old(out)@ + hex_digits(n as nat, 0));
        }
    }
}

} // verus!
