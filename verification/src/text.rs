use vstd::prelude::*;

verus! {

/// The lowercase hexadecimal digit character for a value below sixteen.
pub open spec fn hex_digit_char(d: int) -> char {
    if d == 0 {
        '0'
    } else if d == 1 {
        '1'
    } else if d == 2 {
        '2'
    } else if d == 3 {
        '3'
    } else if d == 4 {
        '4'
    } else if d == 5 {
        '5'
    } else if d == 6 {
        '6'
    } else if d == 7 {
        '7'
    } else if d == 8 {
        '8'
    } else if d == 9 {
        '9'
    } else if d == 10 {
        'a'
    } else if d == 11 {
        'b'
    } else if d == 12 {
        'c'
    } else if d == 13 {
        'd'
    } else if d == 14 {
        'e'
    } else {
        'f'
    }
}

/// Decimal rendering of a natural number, most significant digit first,
/// with no leading zeroes except for zero itself.
pub open spec fn spec_decimal(n: nat) -> Seq<char>
    decreases n,
{
    if n < 10 {
        seq![hex_digit_char(n as int)]
    } else {
        spec_decimal(n / 10) + seq![hex_digit_char((n % 10) as int)]
    }
}

/// The half-byte of `b` at position `i`, counting two per byte,
/// high half first.
pub open spec fn spec_nibble(b: Seq<u8>, i: int) -> u8 {
    if i % 2 == 0 {
        b[i / 2] >> 4u8
    } else {
        b[i / 2] & 0xfu8
    }
}

/// Lowercase hexadecimal rendering of a byte sequence, two digits per byte.
pub open spec fn hex_of(b: Seq<u8>) -> Seq<char> {
    Seq::new(b.len() * 2, |i: int| hex_digit_char(spec_nibble(b, i) as int))
}

/// The half-byte of `oid` at position `i`, counting two per byte, high
/// half first.
pub fn nibble_at(oid: &Vec<u8>, i: usize) -> (n: u8)
    requires
        oid@.len() == 20,
        i < 40,
    ensures
        n == spec_nibble(oid@, i as int),
        n < 16,
{
    let b = oid[i / 2];
    if i % 2 == 0 {
        proof {
            assert((b >> 4u8) < 16) by (bit_vector);
        }
        b >> 4u8
    } else {
        proof {
            assert((b & 0xfu8) < 16) by (bit_vector);
        }
        b & 0xfu8
    }
}

/// Relies on String::push_str: appends the characters of `t` onto the end of `s`.
#[verifier::external_body]
pub fn push_chars(s: &mut String, t: &str)
    ensures
        final(s)@ == old(s)@ + t@,
{
    s.push_str(t);
}

/// The one-character string slice holding the lowercase hexadecimal digit for `n`.
pub fn hex_digit_str(n: u8) -> (r: &'static str)
    requires
        n < 16,
    ensures
        r@ == seq![hex_digit_char(n as int)],
{
    proof {
        reveal_strlit("0");
        reveal_strlit("1");
        reveal_strlit("2");
        reveal_strlit("3");
        reveal_strlit("4");
        reveal_strlit("5");
        reveal_strlit("6");
        reveal_strlit("7");
        reveal_strlit("8");
        reveal_strlit("9");
        reveal_strlit("a");
        reveal_strlit("b");
        reveal_strlit("c");
        reveal_strlit("d");
        reveal_strlit("e");
        reveal_strlit("f");
    }
    let r = match n {
        0 => "0",
        1 => "1",
        2 => "2",
        3 => "3",
        4 => "4",
        5 => "5",
        6 => "6",
        7 => "7",
        8 => "8",
        9 => "9",
        10 => "a",
        11 => "b",
        12 => "c",
        13 => "d",
        14 => "e",
        _ => "f",
    };
    proof {
        assert(r@ =~= seq![hex_digit_char(n as int)]);
    }
    r
}

/// Decimal rendering of `n` as an owned string.
pub fn decimal(n: usize) -> (r: String)
    ensures
        r@ == spec_decimal(n as nat),
    decreases n,
{
    if n < 10 {
        hex_digit_str(n as u8).to_owned()
    } else {
        let mut s = decimal(n / 10);
        push_chars(&mut s, hex_digit_str((n % 10) as u8));
        s
    }
}

} // verus!
