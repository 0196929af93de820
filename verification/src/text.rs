//! Decimal rendering and fixed-width alignment of short labels.

use vstd::prelude::*;
use vstd::string::StrSliceExecFns;
use vstd::string::StringExecFns;

verus! {

/// The character that writes the digit `d` (`0 <= d <= 9`).
pub open spec fn digit(d: int) -> char {
    (('0' as u8) + d) as char
}

/// The decimal numeral of `n`, without sign or leading zeros.
pub open spec fn decimal(n: nat) -> Seq<char>
    decreases n,
{
    if n < 10 {
        seq![digit(n as int)]
    } else {
        decimal(n / 10).push(digit((n % 10) as int))
    }
}

/// The decimal numeral of `i`, with a leading `-` when `i` is negative.
pub open spec fn signed_decimal(i: int) -> Seq<char> {
    if i < 0 {
        seq!['-'] + decimal((-i) as nat)
    } else {
        decimal(i as nat)
    }
}

/// `n` spaces.
pub open spec fn spaces(n: nat) -> Seq<char> {
    Seq::new(n, |i: int| ' ')
}

/// The number of spaces that bring a text of `len` characters to `width`.
pub open spec fn padding(len: nat, width: nat) -> nat {
    if len >= width {
        0
    } else {
        (width - len) as nat
    }
}

/// `text` pushed to the right edge of a column of `width` characters; a text
/// that is wider than the column is left as it is.
pub open spec fn right_aligned(text: Seq<char>, width: nat) -> Seq<char> {
    spaces(padding(text.len(), width)) + text
}

/// `text` in the middle of a column of `width` characters; where the spaces
/// cannot be shared out evenly, the extra one goes to the right.
pub open spec fn centered(text: Seq<char>, width: nat) -> Seq<char> {
    let pad = padding(text.len(), width);
    spaces(pad / 2) + text + spaces((pad - pad / 2) as nat)
}

fn digit_text(d: u8) -> (r: &'static str)
    requires
        d < 10,
    ensures
        r@ == seq![digit(d as int)],
{
    proof {
        reveal_strlit("0");
        reveal_strlit("1");
        reveal_strlit("2");
        reveal_strlit("3");
        reveal_strlit("4");
        reveal_strlit("5");
        reveal_strlit("6");
        reveal_strlit("7");
        reveal_strlit("8");
        reveal_strlit("9");
    }
    let r = if d == 0 {
        "0"
    } else if d == 1 {
        "1"
    } else if d == 2 {
        "2"
    } else if d == 3 {
        "3"
    } else if d == 4 {
        "4"
    } else if d == 5 {
        "5"
    } else if d == 6 {
        "6"
    } else if d == 7 {
        "7"
    } else if d == 8 {
        "8"
    } else {
        "9"
    };
    assert(r@ =~= seq![digit(d as int)]);
    r
}

/// Appends the decimal numeral of `n` to `out`.
pub fn push_decimal(out: &mut String, n: u64)
    ensures
        final(out)@ == old(out)@ + decimal(n as nat),
    decreases n,
{
    if n >= 10 {
        push_decimal(out, n / 10);
    }
    out.append(digit_text((n % 10) as u8));
}

/// The decimal numeral of `n`.
pub fn decimal_text(n: u64) -> (r: String)
    ensures
        r@ == decimal(n as nat),
{
    let mut r = String::new();
    push_decimal(&mut r, n);
    r
}

/// The decimal numeral of `i`, with its sign where it is negative.
pub fn signed_decimal_text(i: i64) -> (r: String)
    ensures
        r@ == signed_decimal(i as int),
{
    let mut r = String::new();
    if i < 0 {
        r.append("-");
        proof {
            reveal_strlit("-");
            assert("-"@ =~= seq!['-']);
        }
        // The magnitude of the least value does not fit the signed type.
        let magnitude: u64 = if i == i64::MIN {
            0x8000_0000_0000_0000u64
        } else {
            (-i) as u64
        };
        push_decimal(&mut r, magnitude);
    } else {
        push_decimal(&mut r, i as u64);
    }
    r
}

/// Appends `n` spaces to `out`.
pub fn push_spaces(out: &mut String, n: usize)
    ensures
        final(out)@ == old(out)@ + spaces(n as nat),
{
    let mut done: usize = 0;
    while done < n
        invariant
            done <= n,
            out@ == old(out)@ + spaces(done as nat),
        decreases n - done,
    {
        out.append(" ");
        done = done + 1;
        proof {
            reveal_strlit(" ");
            assert(out@ =~= old(out)@ + spaces(done as nat));
        }
    }
}

/// `text` pushed to the right edge of a column of `width` characters.
pub fn align_right(text: &str, width: usize) -> (r: String)
    ensures
        r@ == right_aligned(text@, width as nat),
{
    let len = text.unicode_len();
    let mut r = String::new();
    if len < width {
        push_spaces(&mut r, width - len);
    }
    r.append(text);
    assert(r@ =~= right_aligned(text@, width as nat));
    r
}

/// `text` in the middle of a column of `width` characters.
pub fn center(text: &str, width: usize) -> (r: String)
    ensures
        r@ == centered(text@, width as nat),
{
    let len = text.unicode_len();
    let pad: usize = if len < width {
        width - len
    } else {
        0
    };
    let mut r = String::new();
    push_spaces(&mut r, pad / 2);
    r.append(text);
    push_spaces(&mut r, pad - pad / 2);
    assert(r@ =~= centered(text@, width as nat));
    r
}

} // verus!
