//! Text that the recorder writes: decimal numbers, messages and file names.

use vstd::prelude::*;

verus! {

/// The decimal digit for `n`, one of 0 to 9.
pub open spec fn digit(n: int) -> char {
    (('0' as int) + n) as char
}

/// `n` in decimal, without leading zeros.
pub open spec fn decimal(n: nat) -> Seq<char>
    decreases n,
{
    if n < 10 {
        seq![digit(n as int)]
    } else {
        decimal(n / 10).push(digit((n % 10) as int))
    }
}

/// `n` in decimal, with zeros in front up to `width` characters.
pub open spec fn zero_padded(n: nat, width: nat) -> Seq<char> {
    let digits = decimal(n);
    if digits.len() < width {
        zeros((width - digits.len()) as nat) + digits
    } else {
        digits
    }
}

/// `count` zeros.
pub open spec fn zeros(count: nat) -> Seq<char> {
    Seq::new(count, |i: int| '0')
}

/// The number that a run of decimal digits stands for.
pub open spec fn digits_value(digits: Seq<char>) -> int
    decreases digits.len(),
{
    if digits.len() == 0 {
        0
    } else {
        10 * digits_value(digits.drop_last()) + (digits.last() as int - '0' as int)
    }
}

/// Whether `text` ends with the characters of `suffix`.
pub open spec fn has_suffix(text: Seq<char>, suffix: Seq<char>) -> bool {
    suffix.len() <= text.len() && text.skip(text.len() - suffix.len()) == suffix
}

/// The first `count` characters of `text`, or all of it where it is shorter.
pub open spec fn first_chars(text: Seq<char>, count: nat) -> Seq<char> {
    if count < text.len() {
        text.take(count as int)
    } else {
        text
    }
}

/// The one-character text of a decimal digit.
fn digit_text(n: u64) -> (text: &'static str)
    requires
        n < 10,
    ensures
        text@ == seq![digit(n as int)],
{
    proof {
        reveal_strlit("0");
        reveal_strlit("1");
        reveal_strlit("2");
        reveal_strlit("3");
        reveal_strlit("4");
        reveal_strlit("5");
        reveal_strlit("6");
        reveal_strlit("7");
        reveal_strlit("8");
        reveal_strlit("9");
    }
    match n {
        0 => "0",
        1 => "1",
        2 => "2",
        3 => "3",
        4 => "4",
        5 => "5",
        6 => "6",
        7 => "7",
        8 => "8",
        _ => "9",
    }
}

/// `n` in decimal, as `{}` writes it.
pub fn decimal_text(n: u64) -> (text: String)
    ensures
        text@ == decimal(n as nat),
    decreases n,
{
    if n < 10 {
        digit_text(n).to_owned()
    } else {
        let mut text = decimal_text(n / 10);
        text.append(digit_text(n % 10));
        proof {
            assert(text@ =~= decimal(n as nat));
        }
        text
    }
}

/// `n` in decimal, as `{:0width$}` writes it.
pub fn zero_padded_text(n: u64, width: usize) -> (text: String)
    ensures
        text@ == zero_padded(n as nat, width as nat),
{
    let digits = decimal_text(n);
    let mut text = String::new();
    let length: usize = digits.as_str().unicode_len();
    let mut written: usize = 0;
    while length < width && written < width - length
        invariant
            length == digits@.len(),
            text@ == zeros(written as nat),
            length < width ==> written <= width - length,
            length >= width ==> written == 0,
        decreases width - written,
    {
        text.append(digit_text(0));
        written = written + 1;
        proof {
            assert(text@ =~= zeros(written as nat));
        }
    }
    text.append(digits.as_str());
    proof {
        assert(text@ =~= zero_padded(n as nat, width as nat));
    }
    text
}

/// `head` followed by `tail`.
pub fn joined(head: &str, tail: &str) -> (text: String)
    ensures
        text@ == head@ + tail@,
{
    let mut text = head.to_owned();
    text.append(tail);
    text
}

/// Whether two texts hold the same characters.
pub fn same_text(a: &str, b: &str) -> (same: bool)
    ensures
        same == (a@ == b@),
{
    let left = a.as_bytes();
    let right = b.as_bytes();
    proof {
        vstd::utf8::encode_utf8_decode_utf8(a@);
        vstd::utf8::encode_utf8_decode_utf8(b@);
    }
    if left.len() != right.len() {
        return false;
    }
    let mut i: usize = 0;
    while i < left.len()
        invariant
            i <= left.len(),
            left@.len() == right@.len(),
            left@ == vstd::utf8::encode_utf8(a@),
            right@ == vstd::utf8::encode_utf8(b@),
            forall|k: int| 0 <= k < i ==> left@[k] == right@[k],
        decreases left.len() - i,
    {
        if left[i] != right[i] {
            return false;
        }
        i = i + 1;
    }
    proof {
        assert(left@ =~= right@);
    }
    true
}

/// Whether `text` ends with `suffix`.
pub fn ends_with_text(text: &str, suffix: &str) -> (ends: bool)
    ensures
        ends == has_suffix(text@, suffix@),
{
    let length: usize = text.unicode_len();
    let tail: usize = suffix.unicode_len();
    if length < tail {
        return false;
    }
    same_text(text.substring_char(length - tail, length), suffix)
}

/// The first `count` characters of `text`, or all of it where it is shorter.
pub fn first_chars_text(text: &str, count: usize) -> (head: String)
    ensures
        head@ == first_chars(text@, count as nat),
{
    if count < text.unicode_len() {
        text.substring_char(0, count).to_owned()
    } else {
        text.to_owned()
    }
}

/// Decimal digits are read back as the number they were written from.
pub proof fn decimal_reads_back(n: nat)
    ensures
        digits_value(decimal(n)) == n,
    decreases n,
{
    if n < 10 {
        assert(digits_value(decimal(n).drop_last()) == 0);
    } else {
        decimal_reads_back(n / 10);
        assert(decimal(n).drop_last() =~= decimal(n / 10));
    }
}

/// Zeros in front leave the value as it is.
proof fn zeros_add_nothing(count: nat, digits: Seq<char>)
    ensures
        digits_value(zeros(count) + digits) == digits_value(digits),
    decreases count + digits.len(),
{
    let padded = zeros(count) + digits;
    if digits.len() > 0 {
        assert(padded.drop_last() =~= zeros(count) + digits.drop_last());
        zeros_add_nothing(count, digits.drop_last());
    } else if count > 0 {
        let fewer = (count - 1) as nat;
        assert(padded.drop_last() =~= zeros(fewer) + digits);
        zeros_add_nothing(fewer, digits);
    } else {
        assert(padded =~= digits);
    }
}

/// Zero-padded digits are read back as the number they were written from, so
/// two numbers never share a text.
pub proof fn zero_padded_reads_back(n: nat, width: nat)
    ensures
        digits_value(zero_padded(n, width)) == n,
{
    decimal_reads_back(n);
    let digits = decimal(n);
    if digits.len() < width {
        zeros_add_nothing((width - digits.len()) as nat, digits);
    }
}

/// Reading digits is positional: each further digit counts for itself, and
/// multiplies what stands before it by ten.
pub proof fn digits_are_positional(digits: Seq<char>, next: char)
    ensures
        digits_value(Seq::<char>::empty()) == 0,
        digits_value(digits.push(next)) == 10 * digits_value(digits) + (next as int - 48),
{
    assert(digits.push(next).drop_last() =~= digits);
}

/// A number is written in digits, without a zero in front unless it is zero.
pub proof fn decimals_are_canonical(n: nat)
    ensures
        decimal(n).len() > 0,
        forall|i: int| 0 <= i < decimal(n).len() ==> 48 <= #[trigger] decimal(n)[i] as int <= 57,
        decimal(n).len() > 1 ==> decimal(n)[0] != '0',
        n > 0 ==> decimal(n)[0] != '0',
    decreases n,
{
    if n >= 10 {
        decimals_are_canonical(n / 10);
        let front = decimal(n / 10);
        assert(decimal(n) =~= front.push(digit((n % 10) as int)));
        assert forall|i: int|
            0 <= i < decimal(n).len() implies 48 <= #[trigger] decimal(n)[i] as int <= 57 by {
            if i < front.len() {
                assert(decimal(n)[i] == front[i]);
            }
        }
    }
}

/// The value of a run of digits is not negative.
proof fn digits_are_not_negative(digits: Seq<char>)
    requires
        forall|i: int| 0 <= i < digits.len() ==> 48 <= #[trigger] digits[i] as int <= 57,
    ensures
        digits_value(digits) >= 0,
        digits.len() > 0 && digits[0] != '0' ==> digits_value(digits) > 0,
    decreases digits.len(),
{
    if digits.len() > 0 {
        let front = digits.drop_last();
        assert forall|i: int| 0 <= i < front.len() implies 48 <= #[trigger] front[i] as int
            <= 57 by {
            assert(front[i] == digits[i]);
        }
        digits_are_not_negative(front);
    }
}

/// There is one way to write a number: digits that are read as `n`, without a
/// zero in front unless there is one digit only, are the decimal of `n`.
pub proof fn decimals_are_unique(n: nat, digits: Seq<char>)
    requires
        digits.len() > 0,
        forall|i: int| 0 <= i < digits.len() ==> 48 <= #[trigger] digits[i] as int <= 57,
        digits.len() > 1 ==> digits[0] != '0',
        digits_value(digits) == n,
    ensures
        digits == decimal(n),
    decreases digits.len(),
{
    let front = digits.drop_last();
    let unit = digits.last() as int - 48;
    assert forall|i: int| 0 <= i < front.len() implies 48 <= #[trigger] front[i] as int <= 57 by {
        assert(front[i] == digits[i]);
    }
    digits_are_not_negative(front);
    assert(digits_value(digits) == 10 * digits_value(front) + unit);
    assert(digit(unit) == digits.last());
    if front.len() == 0 {
        assert(digits_value(front) == 0);
        assert(digits =~= seq![digits.last()]);
    } else {
        assert(front[0] == digits[0]);
        assert(digits_value(front) == n / 10);
        assert(unit == n % 10);
        decimals_are_unique(n / 10, front);
        assert(digits =~= front.push(digits.last()));
    }
}

/// Padding puts zeros in front of a decimal up to the width, and no more; a
/// decimal that fills the width is left as it is.
pub proof fn padding_fills_the_width(n: nat, width: nat)
    ensures
        zero_padded(n, width).len() == if decimal(n).len() < width {
            width
        } else {
            decimal(n).len()
        },
        forall|i: int|
            0 <= i < zero_padded(n, width).len() - decimal(n).len() ==> #[trigger] zero_padded(
                n,
                width,
            )[i] == '0',
        zero_padded(n, width).skip(zero_padded(n, width).len() - decimal(n).len()) == decimal(n),
{
    assert(zero_padded(n, width).skip(zero_padded(n, width).len() - decimal(n).len()) =~= decimal(
        n,
    ));
}

/// A text has a suffix just where it is something followed by it.
pub proof fn suffixes_stand_at_the_end(text: Seq<char>, head: Seq<char>, suffix: Seq<char>)
    ensures
        has_suffix(head + suffix, suffix),
        has_suffix(text, suffix) ==> (exists|front: Seq<char>| text == front + suffix),
{
    assert((head + suffix).skip((head + suffix).len() - suffix.len()) =~= suffix);
    if has_suffix(text, suffix) {
        let front = text.take(text.len() - suffix.len());
        assert(text =~= front + suffix);
    }
}

/// The first characters of a text are those of the text itself, as many as were
/// asked for and are there.
pub proof fn first_chars_are_cut_off_a_text(text: Seq<char>, count: nat)
    ensures
        text.len() <= count ==> first_chars(text, count) == text,
        text.len() > count ==> first_chars(text, count).len() == count,
        forall|i: int|
            0 <= i < first_chars(text, count).len() ==> #[trigger] first_chars(text, count)[i]
                == text[i],
{
}

} // verus!
