use vstd::prelude::*;

verus! {

/// Relies on `String::push`: appends one character at the end.
pub assume_specification[ String::push ](s: &mut String, ch: char)
    ensures
        final(s)@ == old(s)@.push(ch),
;

/// The digit for `d` (below 16) in base 16, or in base 10 for `d` below 10.
pub open spec fn hex_char(d: u8, upper: bool) -> char {
    if d < 10 {
        (48 + d) as u8 as char
    } else if upper {
        (55 + d) as u8 as char
    } else {
        (87 + d) as u8 as char
    }
}

/// Two hexadecimal digits for each byte, high digit first.
pub open spec fn hex_text(bytes: Seq<u8>, upper: bool) -> Seq<char> {
    Seq::new(
        2 * bytes.len(),
        |j: int|
            if j % 2 == 0 {
                hex_char(bytes[j / 2] / 16, upper)
            } else {
                hex_char(bytes[j / 2] % 16, upper)
            },
    )
}

/// The decimal digits of `n`, most significant first, with no leading zero.
pub open spec fn decimal(n: nat) -> Seq<char>
    decreases n,
{
    if n < 10 {
        seq![hex_char(n as u8, true)]
    } else {
        decimal(n / 10).push(hex_char((n % 10) as u8, true))
    }
}

pub fn hex_digit(d: u8, upper: bool) -> (r: char)
    requires
        d < 16,
    ensures
        r == hex_char(d, upper),
{
    if d < 10 {
        (48 + d) as char
    } else if upper {
        (55 + d) as char
    } else {
        (87 + d) as char
    }
}

/// Appends two hexadecimal digits for each byte, high digit first.
pub fn push_hex(s: &mut String, bytes: &[u8], upper: bool)
    ensures
        final(s)@ == old(s)@ + hex_text(bytes@, upper),
{
    let ghost s0 = s@;
    let mut i: usize = 0;
    while i < bytes.len()
        invariant
            i <= bytes@.len(),
            s@ == s0 + hex_text(bytes@, upper).subrange(0, 2 * i as int),
        decreases bytes@.len() - i,
    {
        let b = bytes[i];
        let hi = hex_digit(b / 16, upper);
        let lo = hex_digit(b % 16, upper);
        s.push(hi);
        s.push(lo);
        proof {
            let e = hex_text(bytes@, upper);
            assert((2 * i as int) / 2 == i as int);
            assert((2 * i as int + 1) / 2 == i as int);
            assert(e.subrange(0, 2 * i as int + 2) =~= e.subrange(0, 2 * i as int).push(hi).push(
                lo,
            ));
        }
        i = i + 1;
    }
    assert(hex_text(bytes@, upper).subrange(0, 2 * bytes@.len() as int) =~= hex_text(
        bytes@,
        upper,
    ));
}

/// Two lower-case hexadecimal digits for each byte.
pub fn hex_lower(bytes: &[u8]) -> (r: String)
    ensures
        r@ == hex_text(bytes@, false),
{
    let mut s = String::new();
    push_hex(&mut s, bytes, false);
    assert(s@ =~= hex_text(bytes@, false));
    s
}

/// Appends the decimal digits of `n`.
pub fn push_decimal(s: &mut String, n: u32)
    ensures
        final(s)@ == old(s)@ + decimal(n as nat),
    decreases n,
{
    if n >= 10 {
        push_decimal(s, n / 10);
    }
    let d = hex_digit((n % 10) as u8, true);
    s.push(d);
    assert(s@ =~= old(s)@ + decimal(n as nat));
}

} // verus!
