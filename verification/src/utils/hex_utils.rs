use vstd::prelude::*;
use vstd::string::StringExecFns;

verus! {

/// The upper-case hexadecimal digit for a value below 16.
pub open spec fn hex_digit(v: u8) -> char {
    if v < 10 {
        (48 + v) as char
    } else {
        (55 + v) as char
    }
}

/// The hexadecimal numeral of `n` without leading zeros (the empty text for 0).
pub open spec fn hex_numeral(n: nat) -> Seq<char>
    decreases n,
{
    if n == 0 {
        Seq::empty()
    } else {
        hex_numeral(n / 16).push(hex_digit((n % 16) as u8))
    }
}

/// Whether `c` is one of the digits '0'-'9', 'A'-'F'.
pub open spec fn is_hex_digit(c: char) -> bool {
    ('0' <= c && c <= '9') || ('A' <= c && c <= 'F')
}

/// The value of a hexadecimal digit.
pub open spec fn hex_digit_value(c: char) -> int {
    if c <= '9' {
        c as int - 48
    } else {
        c as int - 55
    }
}

/// The value of a hexadecimal numeral, most significant digit first (0 for
/// the empty text), as a parse of it gives.
pub open spec fn hex_value(s: Seq<char>) -> int
    decreases s.len(),
{
    if s.len() == 0 {
        0
    } else {
        hex_value(s.drop_last()) * 16 + hex_digit_value(s.last())
    }
}

/// The hexadecimal numeral of a number parses back to the number; it uses
/// only the digits '0'-'9' and 'A'-'F', and, for a number other than 0, it is
/// not empty and does not start with '0'.
pub proof fn lemma_hex_numeral_round_trip(n: nat)
    ensures
        hex_value(hex_numeral(n)) == n,
        forall|i: int| 0 <= i < hex_numeral(n).len() ==> is_hex_digit(#[trigger] hex_numeral(n)[i]),
        n > 0 ==> hex_numeral(n).len() > 0 && hex_numeral(n)[0] != '0',
    decreases n,
{
    if n > 0 {
        lemma_hex_numeral_round_trip(n / 16);
        let v = (n % 16) as u8;
        let c = hex_digit(v);
        assert(is_hex_digit(c) && hex_digit_value(c) == v);
        let s = hex_numeral(n);
        assert(s.drop_last() =~= hex_numeral(n / 16));
        assert(s.last() == c);
        if n / 16 == 0 {
            assert(v != 0);
            assert(c != '0');
        } else {
            assert(s[0] == hex_numeral(n / 16)[0]);
        }
    }
}

/// The characters of the hexadecimal digits `d`, taken from the last to the first.
pub open spec fn digits_reversed(d: Seq<u8>) -> Seq<char> {
    Seq::new(d.len(), |i: int| hex_digit(d[d.len() - 1 - i]))
}

fn decimal_value_to_hex_str(val: u8) -> (r: &'static str)
    requires
        val < 16,
    ensures
        r@ == seq![hex_digit(val)],
{
    proof {
        reveal_strlit("0");
        reveal_strlit("1");
        reveal_strlit("2");
        reveal_strlit("3");
        reveal_strlit("4");
        reveal_strlit("5");
        reveal_strlit("6");
        reveal_strlit("7");
        reveal_strlit("8");
        reveal_strlit("9");
        reveal_strlit("A");
        reveal_strlit("B");
        reveal_strlit("C");
        reveal_strlit("D");
        reveal_strlit("E");
        reveal_strlit("F");
    }
    match val {
        0 => "0",
        1 => "1",
        2 => "2",
        3 => "3",
        4 => "4",
        5 => "5",
        6 => "6",
        7 => "7",
        8 => "8",
        9 => "9",
        10 => "A",
        11 => "B",
        12 => "C",
        13 => "D",
        14 => "E",
        _ => "F",
    }
}

/// The hexadecimal digit character of a value below 16.
pub fn decimal_value_to_hex_char(val: u8) -> (r: char)
    requires
        val < 16,
    ensures
        r == hex_digit(val),
{
    match val {
        0 => '0',
        1 => '1',
        2 => '2',
        3 => '3',
        4 => '4',
        5 => '5',
        6 => '6',
        7 => '7',
        8 => '8',
        9 => '9',
        10 => 'A',
        11 => 'B',
        12 => 'C',
        13 => 'D',
        14 => 'E',
        _ => 'F',
    }
}

/// Two upper-case hexadecimal digits for a byte, the most significant first.
pub fn decimal_byte_to_hex_str(decimal: u8) -> (r: String)
    ensures
        r@ == seq![hex_digit(decimal / 16), hex_digit(decimal % 16)],
{
    let least_sig_digit_value = decimal % 16;
    let most_sig_digit_value = (decimal - least_sig_digit_value) / 16;
    let mut result = String::new();
    result.append(decimal_value_to_hex_str(most_sig_digit_value));
    result.append(decimal_value_to_hex_str(least_sig_digit_value));
    assert(result@ =~= seq![hex_digit(decimal / 16), hex_digit(decimal % 16)]);
    result
}

/// The upper-case hexadecimal numeral of a word, without leading zeros; the
/// empty text for 0.
pub fn decimal_word_to_hex_str(word: u16) -> (r: String)
    ensures
        r@ == hex_numeral(word as nat),
        hex_value(r@) == word,
        forall|i: int| 0 <= i < r@.len() ==> is_hex_digit(#[trigger] r@[i]),
        word != 0 ==> r@.len() > 0 && r@[0] != '0',
{
    proof {
        lemma_hex_numeral_round_trip(word as nat);
    }
    let mut digits: Vec<u8> = Vec::new();
    let mut curr_val: u16 = word;
    while curr_val != 0
        invariant
            hex_numeral(word as nat) == hex_numeral(curr_val as nat) + digits_reversed(digits@),
            forall|k: int| 0 <= k < digits.len() ==> #[trigger] digits@[k] < 16,
        decreases curr_val,
    {
        let d = curr_val % 16;
        proof {
            assert(hex_numeral(curr_val as nat) == hex_numeral((curr_val / 16) as nat).push(
                hex_digit(d as u8),
            ));
            assert(seq![hex_digit(d as u8)] + digits_reversed(digits@) =~= digits_reversed(
                digits@.push(d as u8),
            ));
            assert(hex_numeral((curr_val / 16) as nat).push(hex_digit(d as u8)) + digits_reversed(
                digits@,
            ) =~= hex_numeral((curr_val / 16) as nat) + digits_reversed(digits@.push(d as u8)));
        }
        digits.push(d as u8);
        curr_val = curr_val / 16;
    }
    assert(hex_numeral(0) == Seq::<char>::empty());
    assert(hex_numeral(word as nat) =~= digits_reversed(digits@));
    let mut result = String::new();
    let mut j: usize = digits.len();
    while j > 0
        invariant
            j <= digits.len(),
            forall|k: int| 0 <= k < digits.len() ==> #[trigger] digits@[k] < 16,
            result@ =~= digits_reversed(digits@).subrange(0, (digits.len() - j) as int),
        decreases j,
    {
        j = j - 1;
        let s = decimal_value_to_hex_str(digits[j]);
        result.append(s);
        assert(result@ =~= digits_reversed(digits@).subrange(0, (digits.len() - j) as int));
    }
    assert(result@ =~= digits_reversed(digits@));
    result
}

} // verus!
