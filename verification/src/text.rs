//! How numbers are written as text.
use vstd::prelude::*;
use vstd::string::*;

verus! {

/// The ten decimal digits, in order.
pub open spec fn digit_chars() -> Seq<char> {
    seq!['0', '1', '2', '3', '4', '5', '6', '7', '8', '9']
}

/// The decimal digits of `n`, as `Display` writes an unsigned integer.
pub open spec fn decimal(n: nat) -> Seq<char>
    decreases n,
{
    let digit = digit_chars()[(n % 10) as int];
    if n < 10 {
        seq![digit]
    } else {
        decimal(n / 10).push(digit)
    }
}

/// The decimal digits of `n`, with zeros in front up to `width` characters, as
/// the format `{:0width}` writes an unsigned integer.
pub open spec fn zero_padded(n: nat, width: nat) -> Seq<char> {
    let digits = decimal(n);
    if digits.len() >= width {
        digits
    } else {
        Seq::new((width - digits.len()) as nat, |i: int| '0') + digits
    }
}

/// Appends the decimal digits of `n` to `out`.
pub fn write_decimal(out: &mut String, n: u64)
    ensures
        final(out)@ == old(out)@ + decimal(n as nat),
    decreases n,
{
    if n >= 10 {
        write_decimal(out, n / 10);
    }
    let ghost before = out@;
    let digits = "0123456789";
    proof {
        reveal_strlit("0123456789");
    }
    assert(digits@ == digit_chars());
    let d = (n % 10) as usize;
    let digit = digits.substring_char(d, d + 1);
    assert(digit@ == seq![digit_chars()[d as int]]);
    out.append(digit);
    proof {
        if n >= 10 {
            assert(out@ == old(out)@ + decimal((n / 10) as nat) + seq![digit_chars()[d as int]]);
            assert(decimal(n as nat) == decimal((n / 10) as nat).push(digit_chars()[d as int]));
        }
        assert(out@ =~= old(out)@ + decimal(n as nat));
    }
}

/// The number of decimal digits of `n`.
fn decimal_len(n: u64) -> (l: u64)
    ensures
        l == decimal(n as nat).len(),
        l <= n / 10 + 1,
    decreases n,
{
    if n < 10 {
        1
    } else {
        decimal_len(n / 10) + 1
    }
}

/// Appends the decimal digits of `n` to `out`, with zeros in front up to `width`
/// characters.
pub fn write_zero_padded(out: &mut String, n: u64, width: usize)
    ensures
        final(out)@ == old(out)@ + zero_padded(n as nat, width as nat),
{
    let len = decimal_len(n);
    let zero = "0";
    proof {
        reveal_strlit("0");
    }
    if (len as u128) < (width as u128) {
        let pad = width - len as usize;
        let mut i: usize = 0;
        while i < pad
            invariant
                pad == width - len,
                zero@ == seq!['0'],
                i <= pad,
                out@ == old(out)@ + Seq::new(i as nat, |k: int| '0'),
            decreases pad - i,
        {
            out.append(zero);
            assert(Seq::new((i + 1) as nat, |k: int| '0') =~= Seq::new(i as nat, |k: int| '0') + seq!['0']);
            i += 1;
        }
    }
    let ghost padded = out@;
    write_decimal(out, n);
    assert(out@ =~= old(out)@ + zero_padded(n as nat, width as nat));
}

} // verus!
