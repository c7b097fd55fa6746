//! Decimal text for integers.

use vstd::prelude::*;
use vstd::string::StringExecFns;

verus! {

/// The character of a decimal digit.
pub open spec fn digit_char(d: int) -> char {
    if d == 0 {
        '0'
    } else if d == 1 {
        '1'
    } else if d == 2 {
        '2'
    } else if d == 3 {
        '3'
    } else if d == 4 {
        '4'
    } else if d == 5 {
        '5'
    } else if d == 6 {
        '6'
    } else if d == 7 {
        '7'
    } else if d == 8 {
        '8'
    } else {
        '9'
    }
}

/// The decimal digits of a natural number, most significant first.
pub open spec fn digits(n: nat) -> Seq<char>
    decreases n,
{
    if n < 10 {
        seq![digit_char(n as int)]
    } else {
        digits(n / 10).push(digit_char((n % 10) as int))
    }
}

/// The decimal text of an integer, with a minus sign where it is negative.
pub open spec fn decimal(n: int) -> Seq<char> {
    if n >= 0 {
        digits(n as nat)
    } else {
        seq!['-'] + digits((-n) as nat)
    }
}

/// `fill` repeated until `s`, behind it, is at least `width` characters long.
pub open spec fn pad_left(s: Seq<char>, width: nat, fill: char) -> Seq<char> {
    if s.len() >= width {
        s
    } else {
        Seq::new((width - s.len()) as nat, |i: int| fill) + s
    }
}

/// The decimal text of an integer, filled with zeros behind the sign to at
/// least `width` characters in all.
pub open spec fn zero_padded(n: int, width: nat) -> Seq<char> {
    if n >= 0 {
        pad_left(digits(n as nat), width, '0')
    } else if width >= 1 {
        seq!['-'] + pad_left(digits((-n) as nat), (width - 1) as nat, '0')
    } else {
        seq!['-'] + digits((-n) as nat)
    }
}

/// The text that `std` shows for a text in its `Debug` form: the text
/// between double quotes, with the characters that cannot stand there as
/// they are written as escapes.
pub uninterp spec fn debug_text(text: Seq<char>) -> Seq<char>;

/// `format!("{:?}", text)`, the `Debug` form of a `str` in `std`. The
/// contract gives the result its name and claims nothing else of it.
#[verifier::external_body]
pub(crate) fn debug_text_of(text: &str) -> (shown: String)
    ensures
        shown@ == debug_text(text@),
{
    format!("{:?}", text)
}

/// Whether two texts are the same.
pub fn same_text(a: &str, b: &str) -> (same: bool)
    ensures
        same == (a@ == b@),
{
    String::from_str(a) == String::from_str(b)
}

/// Whether the character `c` occurs in `s`.
pub fn has_char(s: &str, c: char) -> (found: bool)
    ensures
        found == s@.contains(c),
{
    let n = s.unicode_len();
    let mut i: usize = 0;
    while i < n
        invariant
            i <= n,
            n == s@.len(),
            forall|k: int| 0 <= k < i ==> s@[k] != c,
        decreases n - i,
    {
        if s.get_char(i) == c {
            return true;
        }
        i = i + 1;
    }
    false
}

/// Spaces, `n` of them.
pub fn spaces(n: usize) -> (s: String)
    ensures
        s@ == Seq::new(n as nat, |i: int| ' '),
{
    let mut s = String::new();
    let mut i: usize = 0;
    assert(s@ =~= Seq::new(0nat, |j: int| ' '));
    while i < n
        invariant
            i <= n,
            s@ == Seq::new(i as nat, |j: int| ' '),
        decreases n - i,
    {
        proof {
            reveal_strlit(" ");
        }
        s.append(" ");
        i = i + 1;
        assert(s@ =~= Seq::new(i as nat, |j: int| ' '));
    }
    s
}

/// `s` with spaces behind it until it is at least `width` characters long.
pub open spec fn pad_right(s: Seq<char>, width: nat) -> Seq<char> {
    if s.len() >= width {
        s
    } else {
        s + Seq::new((width - s.len()) as nat, |i: int| ' ')
    }
}

/// `s` cut to its first `width` characters where it is longer, and filled
/// with spaces behind it to `width` characters where it is shorter.
pub open spec fn fit(s: Seq<char>, width: nat) -> Seq<char> {
    if s.len() > width {
        s.take(width as int)
    } else {
        pad_right(s, width)
    }
}

/// `s` with spaces behind it until it is at least `width` characters long.
pub fn pad_right_text(s: &str, width: usize) -> (r: String)
    ensures
        r@ == pad_right(s@, width as nat),
{
    let len = s.unicode_len();
    if len >= width {
        String::from_str(s)
    } else {
        String::from_str(s).concat(spaces(width - len).as_str())
    }
}

/// `s` with spaces before it until it is at least `width` characters long.
pub fn pad_left_text(s: &str, width: usize) -> (r: String)
    ensures
        r@ == pad_left(s@, width as nat, ' '),
{
    let len = s.unicode_len();
    if len >= width {
        String::from_str(s)
    } else {
        let r = spaces(width - len).concat(s);
        assert(r@ =~= pad_left(s@, width as nat, ' '));
        r
    }
}

/// `s` cut or filled with spaces to exactly `width` characters.
pub fn fit_text(s: &str, width: usize) -> (r: String)
    ensures
        r@ == fit(s@, width as nat),
{
    let len = s.unicode_len();
    if len > width {
        let r = String::from_str(s.substring_char(0, width));
        assert(r@ =~= s@.take(width as int));
        r
    } else {
        pad_right_text(s, width)
    }
}

/// The text of one decimal digit.
fn digit_text(d: u128) -> (s: &'static str)
    requires
        d < 10,
    ensures
        s@ == seq![digit_char(d as int)],
{
    proof {
        reveal_strlit("0");
        reveal_strlit("1");
        reveal_strlit("2");
        reveal_strlit("3");
        reveal_strlit("4");
        reveal_strlit("5");
        reveal_strlit("6");
        reveal_strlit("7");
        reveal_strlit("8");
        reveal_strlit("9");
    }
    let s = if d == 0 {
        "0"
    } else if d == 1 {
        "1"
    } else if d == 2 {
        "2"
    } else if d == 3 {
        "3"
    } else if d == 4 {
        "4"
    } else if d == 5 {
        "5"
    } else if d == 6 {
        "6"
    } else if d == 7 {
        "7"
    } else if d == 8 {
        "8"
    } else {
        "9"
    };
    assert(s@ =~= seq![digit_char(d as int)]);
    s
}

/// The decimal digits of `n`.
pub fn digits_text(n: u128) -> (s: String)
    ensures
        s@ == digits(n as nat),
    decreases n,
{
    if n < 10 {
        String::from_str(digit_text(n))
    } else {
        let mut s = digits_text(n / 10);
        s.append(digit_text(n % 10));
        assert(s@ =~= digits(n as nat));
        s
    }
}

/// The size of a signed number, as an unsigned one.
fn magnitude(n: i128) -> (m: u128)
    ensures
        n >= 0 ==> m == n,
        n < 0 ==> m == -n,
{
    if n >= 0 {
        n as u128
    } else if n == i128::MIN {
        0x8000_0000_0000_0000_0000_0000_0000_0000u128
    } else {
        (-n) as u128
    }
}

/// The decimal text of `n`.
pub fn decimal_text(n: i128) -> (s: String)
    ensures
        s@ == decimal(n as int),
{
    let body = digits_text(magnitude(n));
    if n >= 0 {
        body
    } else {
        proof {
            reveal_strlit("-");
        }
        let s = String::from_str("-").concat(body.as_str());
        assert(s@ =~= decimal(n as int));
        s
    }
}

/// `s` with zeros put before it until it is at least `width` characters long.
pub fn zero_filled(s: String, width: usize) -> (r: String)
    ensures
        r@ == pad_left(s@, width as nat, '0'),
{
    let len = s.as_str().unicode_len();
    if len >= width {
        s
    } else {
        let missing = width - len;
        let mut fill = String::new();
        let mut i: usize = 0;
        while i < missing
            invariant
                i <= missing,
                fill@ == Seq::new(i as nat, |j: int| '0'),
            decreases missing - i,
        {
            proof {
                reveal_strlit("0");
            }
            fill.append("0");
            i = i + 1;
            assert(fill@ =~= Seq::new(i as nat, |j: int| '0'));
        }
        let r = fill.concat(s.as_str());
        assert(r@ =~= pad_left(s@, width as nat, '0'));
        r
    }
}

/// The decimal text of `n`, filled with zeros behind the sign to at least
/// `width` characters in all.
pub fn zero_padded_text(n: i128, width: usize) -> (s: String)
    ensures
        s@ == zero_padded(n as int, width as nat),
{
    let body = digits_text(magnitude(n));
    if n >= 0 {
        zero_filled(body, width)
    } else {
        proof {
            reveal_strlit("-");
        }
        let filled = if width >= 1 {
            zero_filled(body, width - 1)
        } else {
            body
        };
        let s = String::from_str("-").concat(filled.as_str());
        assert(s@ =~= zero_padded(n as int, width as nat));
        s
    }
}

} // verus!
