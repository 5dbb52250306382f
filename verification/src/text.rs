//! Text of numbers and comparison of texts.
use vstd::prelude::*;

verus! {

/// The text of one decimal digit.
pub open spec fn digit_text(d: nat) -> Seq<char> {
    if d == 0 {
        "0"@
    } else if d == 1 {
        "1"@
    } else if d == 2 {
        "2"@
    } else if d == 3 {
        "3"@
    } else if d == 4 {
        "4"@
    } else if d == 5 {
        "5"@
    } else if d == 6 {
        "6"@
    } else if d == 7 {
        "7"@
    } else if d == 8 {
        "8"@
    } else {
        "9"@
    }
}

/// The decimal text of a number, without leading zeros.
pub open spec fn decimal(n: nat) -> Seq<char>
    decreases n,
{
    if n < 10 {
        digit_text(n)
    } else {
        decimal(n / 10) + digit_text(n % 10)
    }
}

/// The decimal text of a signed number.
pub open spec fn signed_decimal(n: int) -> Seq<char> {
    if n < 0 {
        "-"@ + decimal((-n) as nat)
    } else {
        decimal(n as nat)
    }
}

fn digit_literal(d: u64) -> (r: &'static str)
    requires
        d < 10,
    ensures
        r@ == digit_text(d as nat),
{
    if d == 0 {
        "0"
    } else if d == 1 {
        "1"
    } else if d == 2 {
        "2"
    } else if d == 3 {
        "3"
    } else if d == 4 {
        "4"
    } else if d == 5 {
        "5"
    } else if d == 6 {
        "6"
    } else if d == 7 {
        "7"
    } else if d == 8 {
        "8"
    } else {
        "9"
    }
}

/// Appends the decimal text of `n`.
pub fn append_decimal(text: &mut String, n: u64)
    ensures
        final(text)@ == old(text)@ + decimal(n as nat),
    decreases n,
{
    if n >= 10 {
        append_decimal(text, n / 10);
        text.append(digit_literal(n % 10));
        assert(text@ =~= old(text)@ + (decimal((n / 10) as nat) + digit_text((n % 10) as nat)));
    } else {
        text.append(digit_literal(n));
    }
}

/// Appends the decimal text of a size or an index.
pub fn append_size(text: &mut String, n: usize)
    ensures
        final(text)@ == old(text)@ + decimal(n as nat),
{
    append_decimal(text, n as u64);
}

/// Appends the decimal text of a signed number.
pub fn append_signed(text: &mut String, n: i32)
    ensures
        final(text)@ == old(text)@ + signed_decimal(n as int),
{
    let wide: i64 = n as i64;
    if wide < 0 {
        text.append("-");
        append_decimal(text, (-wide) as u64);
        assert(text@ =~= old(text)@ + ("-"@ + decimal((-wide) as nat)));
    } else {
        append_decimal(text, wide as u64);
    }
}

/// The text of one hexadecimal digit.
pub open spec fn hex_digit_text(d: nat) -> Seq<char> {
    if d < 10 {
        digit_text(d)
    } else if d == 10 {
        "a"@
    } else if d == 11 {
        "b"@
    } else if d == 12 {
        "c"@
    } else if d == 13 {
        "d"@
    } else if d == 14 {
        "e"@
    } else {
        "f"@
    }
}

/// The hexadecimal text of a number, without leading zeros.
pub open spec fn hex_digits(n: nat) -> Seq<char>
    decreases n,
{
    if n < 16 {
        hex_digit_text(n)
    } else {
        hex_digits(n / 16) + hex_digit_text(n % 16)
    }
}

/// The text of an address.
pub open spec fn address_text(n: nat) -> Seq<char> {
    "0x"@ + hex_digits(n)
}

fn hex_digit_literal(d: u64) -> (r: &'static str)
    requires
        d < 16,
    ensures
        r@ == hex_digit_text(d as nat),
{
    if d < 10 {
        digit_literal(d)
    } else if d == 10 {
        "a"
    } else if d == 11 {
        "b"
    } else if d == 12 {
        "c"
    } else if d == 13 {
        "d"
    } else if d == 14 {
        "e"
    } else {
        "f"
    }
}

fn append_hex_digits(text: &mut String, n: u64)
    ensures
        final(text)@ == old(text)@ + hex_digits(n as nat),
    decreases n,
{
    if n >= 16 {
        append_hex_digits(text, n / 16);
        text.append(hex_digit_literal(n % 16));
        assert(text@ =~= old(text)@ + (hex_digits((n / 16) as nat) + hex_digit_text(
            (n % 16) as nat,
        )));
    } else {
        text.append(hex_digit_literal(n));
    }
}

/// Appends the text of an address.
pub fn append_address(text: &mut String, n: u64)
    ensures
        final(text)@ == old(text)@ + address_text(n as nat),
{
    text.append("0x");
    append_hex_digits(text, n);
    assert(text@ =~= old(text)@ + ("0x"@ + hex_digits(n as nat)));
}

/// The first `n` numbers of a list, with a comma between each two.
pub open spec fn listed(values: Seq<usize>, n: int) -> Seq<char>
    decreases n,
{
    if n <= 0 {
        Seq::empty()
    } else if n == 1 {
        decimal(values[0] as nat)
    } else {
        listed(values, n - 1) + ", "@ + decimal(values[n - 1] as nat)
    }
}

/// The text of a list of numbers, in square brackets.
pub open spec fn list_text(values: Seq<usize>) -> Seq<char> {
    "["@ + listed(values, values.len() as int) + "]"@
}

/// Appends the text of a list of numbers.
pub fn append_list(text: &mut String, values: &[usize])
    ensures
        final(text)@ == old(text)@ + list_text(values@),
{
    let ghost before = text@;
    text.append("[");
    let mut i: usize = 0;
    assert(text@ =~= before + ("["@ + listed(values@, 0)));
    while i < values.len()
        invariant
            i <= values@.len(),
            text@ == before + ("["@ + listed(values@, i as int)),
        decreases values@.len() - i,
    {
        if i > 0 {
            text.append(", ");
        }
        append_size(text, values[i]);
        assert(text@ =~= before + ("["@ + listed(values@, i + 1)));
        i = i + 1;
    }
    text.append("]");
    assert(text@ =~= before + list_text(values@));
}

/// A text in quotes, with the escapes of Rust's string literals, as the
/// `Debug` form of std's `str` gives it.
pub uninterp spec fn quoted(text: Seq<char>) -> Seq<char>;

/// Calls the `Debug` form of std's `str` through `format`: the text in quotes,
/// a function of the characters alone. Which characters are escaped, and how,
/// is std's own and is left unsaid.
#[verifier::external_body]
pub(crate) fn quote_text(text: &str) -> (out: String)
    ensures
        out@ == quoted(text@),
{
    format!("{:?}", text)
}

/// Whether two texts hold the same characters.
pub fn same_text(a: &str, b: &str) -> (r: bool)
    ensures
        r == (a@ == b@),
{
    let left: String = a.to_owned();
    let right: String = b.to_owned();
    left == right
}

} // verus!
