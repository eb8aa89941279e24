//! Decimal numerals with a minimum width, filled with zeros on the left.

use vstd::prelude::*;

verus! {

/// The character of one decimal digit.
pub open spec fn digit(d: int) -> char {
    if d == 0 {
        '0'
    } else if d == 1 {
        '1'
    } else if d == 2 {
        '2'
    } else if d == 3 {
        '3'
    } else if d == 4 {
        '4'
    } else if d == 5 {
        '5'
    } else if d == 6 {
        '6'
    } else if d == 7 {
        '7'
    } else if d == 8 {
        '8'
    } else {
        '9'
    }
}

/// The decimal numeral of `n`, most significant digit first, with no
/// leading zero but for `n == 0`, whose numeral is a single zero.
pub open spec fn decimal(n: nat) -> Seq<char>
    decreases n,
{
    if n < 10 {
        seq![digit(n as int)]
    } else {
        decimal(n / 10).push(digit((n % 10) as int))
    }
}

/// `count` zeros.
pub open spec fn zeros(count: nat) -> Seq<char> {
    Seq::new(count, |i: int| '0')
}

/// The numeral of `n`, with zeros in front where it has fewer than `width`
/// digits. A numeral that is wider than `width` is left whole.
pub open spec fn zero_padded(n: nat, width: nat) -> Seq<char> {
    let numeral = decimal(n);
    if numeral.len() >= width {
        numeral
    } else {
        zeros((width - numeral.len()) as nat) + numeral
    }
}

/// The numeral of `v` in at least `width` characters. A negative number has
/// a minus sign first, which counts towards the width; the zeros stand
/// between the sign and the digits.
pub open spec fn signed_zero_padded(v: int, width: nat) -> Seq<char> {
    if v < 0 {
        seq!['-'] + zero_padded((-v) as nat, if width >= 1 { (width - 1) as nat } else { 0 })
    } else {
        zero_padded(v as nat, width)
    }
}

fn digit_text(d: u64) -> (s: &'static str)
    requires
        d < 10,
    ensures
        s@ == seq![digit(d as int)],
{
    proof {
        reveal_strlit("0");
        reveal_strlit("1");
        reveal_strlit("2");
        reveal_strlit("3");
        reveal_strlit("4");
        reveal_strlit("5");
        reveal_strlit("6");
        reveal_strlit("7");
        reveal_strlit("8");
        reveal_strlit("9");
    }
    let s = if d == 0 {
        "0"
    } else if d == 1 {
        "1"
    } else if d == 2 {
        "2"
    } else if d == 3 {
        "3"
    } else if d == 4 {
        "4"
    } else if d == 5 {
        "5"
    } else if d == 6 {
        "6"
    } else if d == 7 {
        "7"
    } else if d == 8 {
        "8"
    } else {
        "9"
    };
    assert(s@ =~= seq![digit(d as int)]);
    s
}

/// The number of digits in the numeral of `n`.
fn decimal_width(n: u64) -> (w: u64)
    ensures
        w == decimal(n as nat).len(),
        1 <= w <= 1 + n / 10,
    decreases n,
{
    if n >= 10 {
        1 + decimal_width(n / 10)
    } else {
        1
    }
}

/// Appends the numeral of `n` to `out`.
fn with_decimal(out: String, n: u64) -> (r: String)
    ensures
        r@ == out@ + decimal(n as nat),
    decreases n,
{
    let ghost before = out@;
    let head = if n >= 10 {
        with_decimal(out, n / 10)
    } else {
        out
    };
    let r = head.concat(digit_text(n % 10));
    assert(r@ =~= before + decimal(n as nat));
    r
}

/// Appends the numeral of `n` to `out`, in at least `width` characters.
pub fn with_zero_padded(out: String, n: u64, width: u64) -> (r: String)
    ensures
        r@ == out@ + zero_padded(n as nat, width as nat),
{
    let ghost before = out@;
    let digits = decimal_width(n);
    let mut r = out;
    let mut filled: u64 = digits;
    assert(r@ =~= before + zeros(0));
    while filled < width
        invariant
            digits <= filled,
            filled <= width || filled == digits,
            r@ == before + zeros((filled - digits) as nat),
        decreases width - filled,
    {
        proof {
            reveal_strlit("0");
        }
        r = r.concat("0");
        assert(r@ =~= before + zeros((filled + 1 - digits) as nat));
        filled = filled + 1;
    }
    let r = with_decimal(r, n);
    assert(r@ =~= before + zero_padded(n as nat, width as nat));
    r
}

/// Appends the numeral of `v` to `out`, in at least `width` characters, the
/// minus sign of a negative number included.
pub fn with_signed_zero_padded(out: String, v: i32, width: u64) -> (r: String)
    ensures
        r@ == out@ + signed_zero_padded(v as int, width as nat),
{
    let ghost before = out@;
    if v < 0 {
        proof {
            reveal_strlit("-");
        }
        let magnitude: u64 = (-(v as i64)) as u64;
        let rest: u64 = if width >= 1 { width - 1 } else { 0 };
        let r = with_zero_padded(out.concat("-"), magnitude, rest);
        assert(r@ =~= before + signed_zero_padded(v as int, width as nat));
        r
    } else {
        with_zero_padded(out, v as u64, width)
    }
}

} // verus!
