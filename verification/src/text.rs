use vstd::prelude::*;

verus! {

/// The character that stands for a digit below ten.
pub open spec fn digit_char(digit: nat) -> char
    recommends
        digit < 10,
{
    if digit == 0 {
        '0'
    } else if digit == 1 {
        '1'
    } else if digit == 2 {
        '2'
    } else if digit == 3 {
        '3'
    } else if digit == 4 {
        '4'
    } else if digit == 5 {
        '5'
    } else if digit == 6 {
        '6'
    } else if digit == 7 {
        '7'
    } else if digit == 8 {
        '8'
    } else {
        '9'
    }
}

/// A number written in base ten, without sign or leading zeros.
pub open spec fn decimal_digits(number: nat) -> Seq<char>
    decreases number,
{
    if number < 10 {
        seq![digit_char(number)]
    } else {
        decimal_digits(number / 10).push(digit_char(number % 10))
    }
}

/// The text of one digit.
fn digit_text(digit: u128) -> (text: &'static str)
    requires
        digit < 10,
    ensures
        text@ == seq![digit_char(digit as nat)],
{
    proof {
        reveal_strlit("0");
        reveal_strlit("1");
        reveal_strlit("2");
        reveal_strlit("3");
        reveal_strlit("4");
        reveal_strlit("5");
        reveal_strlit("6");
        reveal_strlit("7");
        reveal_strlit("8");
        reveal_strlit("9");
    }
    let text = if digit == 0 {
        "0"
    } else if digit == 1 {
        "1"
    } else if digit == 2 {
        "2"
    } else if digit == 3 {
        "3"
    } else if digit == 4 {
        "4"
    } else if digit == 5 {
        "5"
    } else if digit == 6 {
        "6"
    } else if digit == 7 {
        "7"
    } else if digit == 8 {
        "8"
    } else {
        "9"
    };
    assert(text@ =~= seq![digit_char(digit as nat)]);

    text
}

/// A number in base ten, without sign, padding or leading zeros.
pub fn decimal_string(number: u128) -> (text: String)
    ensures
        text@ == decimal_digits(number as nat),
{
    let mut text = digit_text(number % 10).to_owned();
    let mut rest = number / 10;
    assert(decimal_digits(number as nat) =~= (if rest > 0 {
        decimal_digits(rest as nat)
    } else {
        Seq::<char>::empty()
    }) + text@);

    while rest > 0
        invariant
            decimal_digits(number as nat) == (if rest > 0 {
                decimal_digits(rest as nat)
            } else {
                Seq::<char>::empty()
            }) + text@,
        decreases rest,
    {
        let ghost behind = text@;
        let digit = digit_text(rest % 10);
        text = joined(digit, text.as_str());
        proof {
            let higher = (rest / 10) as nat;
            assert(decimal_digits(rest as nat) + behind =~= (if higher > 0 {
                decimal_digits(higher)
            } else {
                Seq::<char>::empty()
            }) + text@);
        }
        rest = rest / 10;
    }
    assert(Seq::<char>::empty() + text@ =~= text@);

    text
}

/// `text` with blanks in front of it until it is `width` characters long;
/// a longer text is left as it is.
pub open spec fn padded(text: Seq<char>, width: nat) -> Seq<char>
    decreases width - text.len(),
{
    if text.len() >= width {
        text
    } else {
        padded(seq![' '] + text, width)
    }
}

/// `text` with zeros in front of it until it is `width` characters long; a
/// longer text is left as it is.
pub open spec fn zero_padded(text: Seq<char>, width: nat) -> Seq<char>
    decreases width - text.len(),
{
    if text.len() >= width {
        text
    } else {
        zero_padded(seq!['0'] + text, width)
    }
}

/// A number in base ten with zeros in front of it to fill `width` columns.
pub fn zero_padded_decimal(number: usize, width: usize) -> (text: String)
    ensures
        text@ == zero_padded(decimal_digits(number as nat), width as nat),
{
    let digits = decimal_string(number as u128);
    let mut count = digits.as_str().unicode_len();
    let mut zeros = String::new();
    let ghost mut rest = digits@;
    proof {
        reveal_strlit("0");
    }

    while count < width
        invariant
            count == rest.len(),
            rest == zeros@ + digits@,
            forall|i: int| 0 <= i < zeros@.len() ==> zeros@[i] == '0',
            zero_padded(digits@, width as nat) == zero_padded(rest, width as nat),
            "0"@ == seq!['0'],
        decreases width - count,
    {
        zeros.append("0");
        proof {
            assert(zeros@ + digits@ =~= seq!['0'] + rest);
            rest = seq!['0'] + rest;
        }
        count = count + 1;
    }

    zeros.concat(digits.as_str())
}

/// A number in base ten, right-aligned in `width` columns.
pub fn padded_decimal(number: usize, width: usize) -> (text: String)
    ensures
        text@ == padded(decimal_digits(number as nat), width as nat),
{
    let digits = decimal_string(number as u128);
    let mut count = digits.as_str().unicode_len();
    let mut blanks = String::new();
    let ghost mut rest = digits@;
    proof {
        reveal_strlit(" ");
    }

    while count < width
        invariant
            count == rest.len(),
            rest == blanks@ + digits@,
            forall|i: int| 0 <= i < blanks@.len() ==> blanks@[i] == ' ',
            padded(digits@, width as nat) == padded(rest, width as nat),
            " "@ == seq![' '],
        decreases width - count,
    {
        blanks.append(" ");
        proof {
            assert(blanks@ + digits@ =~= seq![' '] + rest);
            rest = seq![' '] + rest;
        }
        count = count + 1;
    }

    blanks.concat(digits.as_str())
}

/// What `Debug` writes for a text: the text between double quotes, with
/// quotes, backslashes and characters that do not print written as escapes.
pub uninterp spec fn debug_text(text: Seq<char>) -> Seq<char>;

/// `format!("{:?}", text)` for a `str`: the text as `Debug` of std writes
/// it.
#[verifier::external_body]
pub(crate) fn debug_string(text: &str) -> (quoted: String)
    ensures
        quoted@ == debug_text(text@),
{
    format!("{:?}", text)
}

/// Two texts one after the other.
pub fn joined(first: &str, second: &str) -> (text: String)
    ensures
        text@ == first@ + second@,
{
    first.to_owned().concat(second)
}

/// Numbers in base ten, with `separator` between them.
pub open spec fn numbers_text(numbers: Seq<nat>, separator: Seq<char>) -> Seq<char>
    decreases numbers.len(),
{
    if numbers.len() == 0 {
        Seq::empty()
    } else if numbers.len() == 1 {
        decimal_digits(numbers[0])
    } else {
        numbers_text(numbers.drop_last(), separator) + separator + decimal_digits(numbers.last())
    }
}

/// `true` or `false`, as `Display` writes a `bool`.
pub open spec fn bool_text(value: bool) -> Seq<char> {
    if value {
        "true"@
    } else {
        "false"@
    }
}

pub fn bool_string(value: bool) -> (text: String)
    ensures
        text@ == bool_text(value),
{
    if value {
        "true".to_owned()
    } else {
        "false".to_owned()
    }
}

} // verus!
