//! What the texts of this crate say can be read back from them: numbers have one
//! text each, blocks have one name each, and settings mean the same in either case.
use vstd::prelude::*;

use crate::dspark::entry::positive_finite;
use crate::execution::settings::{
    bf16_bits, bf16_count, bf16_finite, bf16_nonzero, lower_char, lowered, says_off, says_on,
};
use crate::execution::terminal::{finite_bits, positive_bits, unit_bits};
use crate::model::ModelFacts;
use crate::sparse_block::block_prefix;
use crate::text::{
    address_text, decimal, digit_text, hex_digit_text, hex_digits, list_text, listed,
    signed_decimal,
};

verus! {

/// The value of a digit.
pub open spec fn digit_value(c: char) -> int {
    if '0' <= c <= '9' {
        c as int - '0' as int
    } else {
        c as int - 'a' as int + 10
    }
}

/// The number that a text of digits stands for.
pub open spec fn text_value(text: Seq<char>, base: int) -> int
    decreases text.len(),
{
    if text.len() == 0 {
        0
    } else {
        text_value(text.drop_last(), base) * base + digit_value(text.last())
    }
}

proof fn lemma_digit(d: nat)
    requires
        d < 16,
    ensures
        hex_digit_text(d).len() == 1,
        digit_value(hex_digit_text(d)[0]) == d,
        d < 10 ==> hex_digit_text(d) == digit_text(d) && '0' <= digit_text(d)[0] <= '9',
{
    reveal_strlit("0");
    reveal_strlit("1");
    reveal_strlit("2");
    reveal_strlit("3");
    reveal_strlit("4");
    reveal_strlit("5");
    reveal_strlit("6");
    reveal_strlit("7");
    reveal_strlit("8");
    reveal_strlit("9");
    reveal_strlit("a");
    reveal_strlit("b");
    reveal_strlit("c");
    reveal_strlit("d");
    reveal_strlit("e");
    reveal_strlit("f");
}

proof fn lemma_append_digit(text: Seq<char>, digit: Seq<char>, base: int)
    requires
        digit.len() == 1,
    ensures
        text_value(text + digit, base) == text_value(text, base) * base + digit_value(digit[0]),
{
    let whole = text + digit;
    assert(whole.drop_last() =~= text);
    assert(whole.last() == digit[0]);
}

/// The decimal text of a number is made of digits and stands for the number.
pub proof fn law_decimal_text_reads_back(n: nat)
    ensures
        text_value(decimal(n), 10) == n,
        decimal(n).len() > 0,
        forall|i: int| 0 <= i < decimal(n).len() ==> '0' <= #[trigger] decimal(n)[i] <= '9',
        n >= 10 ==> decimal(n).len() > 1,
        n > 0 ==> decimal(n)[0] != '0',
    decreases n,
{
    if n < 10 {
        lemma_digit(n);
        let text = decimal(n);
        lemma_append_digit(Seq::<char>::empty(), text, 10);
        assert(Seq::<char>::empty() + text =~= text);
        assert(text_value(Seq::<char>::empty(), 10) == 0);
    } else {
        law_decimal_text_reads_back(n / 10);
        lemma_digit(n % 10);
        lemma_append_digit(decimal(n / 10), digit_text(n % 10), 10);
    }
}

/// Two numbers with one decimal text are one number.
pub proof fn law_decimal_texts_differ(a: nat, b: nat)
    ensures
        decimal(a) == decimal(b) <==> a == b,
{
    law_decimal_text_reads_back(a);
    law_decimal_text_reads_back(b);
}

/// Two signed numbers with one text are one number.
pub proof fn law_signed_texts_differ(a: int, b: int)
    ensures
        signed_decimal(a) == signed_decimal(b) <==> a == b,
{
    reveal_strlit("-");
    let abs_a = if a < 0 {
        (-a) as nat
    } else {
        a as nat
    };
    let abs_b = if b < 0 {
        (-b) as nat
    } else {
        b as nat
    };
    law_decimal_text_reads_back(abs_a);
    law_decimal_text_reads_back(abs_b);
    let dash = "-"@;
    assert((dash + decimal(abs_a))[0] == '-');
    assert((dash + decimal(abs_b))[0] == '-');
    assert((dash + decimal(abs_a)).skip(1) =~= decimal(abs_a));
    assert((dash + decimal(abs_b)).skip(1) =~= decimal(abs_b));
}

proof fn lemma_hex(n: nat)
    ensures
        text_value(hex_digits(n), 16) == n,
        hex_digits(n).len() > 0,
    decreases n,
{
    if n < 16 {
        lemma_digit(n);
        let text = hex_digits(n);
        lemma_append_digit(Seq::<char>::empty(), text, 16);
        assert(Seq::<char>::empty() + text =~= text);
        assert(text_value(Seq::<char>::empty(), 16) == 0);
    } else {
        lemma_hex(n / 16);
        lemma_digit(n % 16);
        lemma_append_digit(hex_digits(n / 16), hex_digit_text(n % 16), 16);
    }
}

/// The text of an address is a mark and the sixteen-based digits of the address.
pub proof fn law_address_text_reads_back(n: nat)
    ensures
        address_text(n).take(2) =~= seq!['0', 'x'],
        text_value(address_text(n).skip(2), 16) == n,
{
    reveal_strlit("0x");
    lemma_hex(n);
    assert(address_text(n).skip(2) =~= hex_digits(n));
}

/// The text of a list grows by a mark and the next number, between brackets.
pub proof fn law_list_text_shows_every_number(values: Seq<usize>, next: usize)
    requires
        values.len() > 0,
    ensures
        list_text(values).first() == '[',
        list_text(values).last() == ']',
        list_text(values.push(next)) == list_text(values).drop_last() + ", "@ + decimal(
            next as nat,
        ) + "]"@,
        list_text(seq![next]) == "["@ + decimal(next as nat) + "]"@,
        list_text(Seq::<usize>::empty()) == "[]"@,
{
    reveal_strlit("[");
    reveal_strlit("]");
    reveal_strlit("[]");
    let n = values.len() as int;
    lemma_listed_prefix(values, next, n);
    let text = listed(values, n);
    assert(list_text(values).drop_last() =~= "["@ + text);
    assert(list_text(values.push(next)) =~= list_text(values).drop_last() + ", "@ + decimal(
        next as nat,
    ) + "]"@);
    assert(list_text(Seq::<usize>::empty()) =~= "[]"@);
}

proof fn lemma_listed_prefix(values: Seq<usize>, next: usize, n: int)
    requires
        0 <= n <= values.len(),
    ensures
        listed(values.push(next), n) == listed(values, n),
    decreases n,
{
    if n > 0 {
        lemma_listed_prefix(values, next, n - 1);
        assert(values.push(next)[n - 1] == values[n - 1]);
        assert(values.push(next)[0] == values[0]);
    }
}

/// No two blocks of a model have one name.
pub proof fn law_block_names_tell_blocks_apart(facts: ModelFacts, a: usize, b: usize)
    ensures
        block_prefix(facts, a) == block_prefix(facts, b) <==> a == b,
{
    reveal_strlit("layers.");
    reveal_strlit("mtp.");
    let left = block_prefix(facts, a);
    let right = block_prefix(facts, b);
    if left == right {
        assert(left[0] == right[0]);
        if a < facts.num_hidden_layers {
            assert(left.skip(7) =~= decimal(a as nat));
            assert(right.skip(7) =~= decimal(b as nat));
            law_decimal_texts_differ(a as nat, b as nat);
        } else {
            let m = (a - facts.num_hidden_layers) as nat;
            let k = (b - facts.num_hidden_layers) as nat;
            assert(left.skip(4) =~= decimal(m));
            assert(right.skip(4) =~= decimal(k));
            law_decimal_texts_differ(m, k);
        }
    }
}

/// A setting means the same in capitals, and one that switches timing on does not
/// switch validation off.
pub proof fn law_settings_ignore_case(word: Seq<char>, other: Seq<char>)
    requires
        lowered(word) == lowered(other),
    ensures
        says_on(lowered(word)) == says_on(lowered(other)),
        lowered(lowered(word)) =~= lowered(word),
        says_off(word) == says_off(other),
        says_on(lowered(word)) ==> !says_off(word),
{
    reveal_strlit("");
    reveal_strlit("0");
    reveal_strlit("1");
    reveal_strlit("true");
    reveal_strlit("yes");
    reveal_strlit("on");
    reveal_strlit("false");
    reveal_strlit("off");
    assert(lowered(word).len() == word.len() && lowered(other).len() == other.len());
    if word.len() == 1 {
        assert(lowered(word)[0] == lowered(other)[0]);
        assert(other.len() == 1);
        assert(lowered(word)[0] == lower_char(word[0]));
        assert(lowered(other)[0] == lower_char(other[0]));
        assert(lower_char(word[0]) == '0' <==> word[0] == '0');
        assert(lower_char(other[0]) == '0' <==> other[0] == '0');
        assert(word == "0"@ <==> word[0] == '0') by {
            if word[0] == '0' {
                assert(word =~= "0"@);
            }
        }
        assert(other == "0"@ <==> other[0] == '0') by {
            if other[0] == '0' {
                assert(other =~= "0"@);
            }
        }
    }
    if word.len() == 0 {
        assert(word =~= ""@);
        assert(other =~= ""@);
    }
    assert(word == "0"@ <==> other == "0"@);
    assert(word == ""@ <==> other == ""@);
    assert("true"@[0] == 't' && "false"@[0] == 'f' && "off"@[1] == 'f' && "on"@[1] == 'n'
        && "yes"@[0] == 'y');
    assert("true"@.len() == 4 && "false"@.len() == 5 && "off"@.len() == 3 && "yes"@.len() == 3
        && "on"@.len() == 2 && "1"@.len() == 1 && "1"@[0] == '1');
}

/// A value is finite unless its exponent is all ones, and nonzero unless exponent
/// and fraction are zero; the sign changes neither.
pub proof fn law_bf16_values_are_told_by_their_fields(bits: int)
    requires
        0 <= bits < 0x8000,
    ensures
        bf16_finite(bits) <==> bits / 128 != 255,
        bf16_nonzero(bits) <==> bits / 128 != 0 || bits % 128 != 0,
        bf16_finite(bits + 0x8000) == bf16_finite(bits),
        bf16_nonzero(bits + 0x8000) == bf16_nonzero(bits),
{
}

/// The scan of two pieces of values is the scan of the whole.
pub proof fn law_bf16_counts_add_up(
    bytes: Seq<u8>,
    more: Seq<u8>,
    property: spec_fn(int) -> bool,
    n: int,
)
    requires
        bytes.len() % 2 == 0,
        0 <= 2 * n <= more.len(),
    ensures
        bf16_count(bytes + more, bytes.len() / 2 + n, property) == bf16_count(
            bytes,
            bytes.len() as int / 2,
            property,
        ) + bf16_count(more, n, property),
    decreases n,
{
    let half = bytes.len() as int / 2;
    if n > 0 {
        law_bf16_counts_add_up(bytes, more, property, n - 1);
        assert((bytes + more)[2 * (half + n - 1)] == more[2 * (n - 1)]);
        assert((bytes + more)[2 * (half + n - 1) + 1] == more[2 * (n - 1) + 1]);
        assert(bf16_bits(bytes + more, half + n - 1) == bf16_bits(more, n - 1));
    } else {
        lemma_count_prefix(bytes, more, property, half);
    }
}

proof fn lemma_count_prefix(
    bytes: Seq<u8>,
    more: Seq<u8>,
    property: spec_fn(int) -> bool,
    n: int,
)
    requires
        0 <= 2 * n <= bytes.len(),
    ensures
        bf16_count(bytes + more, n, property) == bf16_count(bytes, n, property),
    decreases n,
{
    if n > 0 {
        lemma_count_prefix(bytes, more, property, n - 1);
        assert(bf16_bits(bytes + more, n - 1) == bf16_bits(bytes, n - 1));
    }
}

/// A 32-bit pattern is that of a finite number unless its exponent is all ones, of
/// a positive one if it is neither signed nor zero, and of one that is not above
/// one if its exponent does not reach that of one or it is one.
pub proof fn law_score_patterns_are_told_by_their_fields(bits: u32)
    ensures
        finite_bits(bits) <==> (bits as int / 0x80_0000) % 256 != 255,
        positive_bits(bits) <==> bits < 0x8000_0000 && bits != 0 && finite_bits(bits),
        unit_bits(bits) <==> positive_bits(bits) && (bits as int / 0x80_0000 < 127 || bits
            == 127 * 0x80_0000),
        positive_finite(bits) <==> positive_bits(bits),
{
}

} // verus!
