//! Texts: what a value looks like on the screen, and how a text is made to
//! fit a width.

use vstd::prelude::*;
use vstd::string::StringExecFns;

verus! {

/// Whether `char::is_whitespace` holds of a character.
pub uninterp spec fn char_is_whitespace(c: char) -> bool;

/// `char::is_whitespace` tells whether a character has the Unicode property
/// `White_Space`. The answer depends on the character alone; of the
/// characters of ASCII, the space and the five from U+0009 to U+000D have
/// the property, and no other.
pub assume_specification[ char::is_whitespace ](c: char) -> (b: bool)
    ensures
        b == char_is_whitespace(c),
        (c as u32) < 128 ==> b == (c == ' ' || 9 <= (c as u32) <= 13),
;

/// `String::push` appends one character to the end of a string.
pub assume_specification[ String::push ](s: &mut String, c: char)
    ensures
        final(s)@ == old(s)@.push(c),
;

/// The characters of a text.
pub type Chars = Seq<char>;

/// A value that has a text to show on the screen.
pub trait DisplayText {
    /// The text that stands for the value. It is spoken of in contracts
    /// only: what runs is `to_text`.
    spec fn text(&self) -> Chars;

    /// The text that stands for the value.
    fn to_text(&self) -> (r: String)
        ensures
            r@ == self.text(),
    ;
}

impl DisplayText for String {
    open spec fn text(&self) -> Chars {
        self@
    }

    fn to_text(&self) -> (r: String) {
        self.clone()
    }
}

impl<'a> DisplayText for &'a str {
    open spec fn text(&self) -> Chars {
        self@
    }

    fn to_text(&self) -> (r: String) {
        String::from_str(*self)
    }
}

/// The characters of a text, one by one.
pub fn chars_of(text: &str) -> (r: Vec<char>)
    ensures
        r@ == text@,
{
    let mut chars: Vec<char> = Vec::new();
    for c in it: text.chars()
        invariant
            it.seq() == text@,
            chars@ == text@.take(it.index() as int),
    {
        chars.push(c);
    }
    chars
}

/// The text made of the characters of `chars` from index `from` on.
pub fn text_from(chars: &Vec<char>, from: usize) -> (r: String)
    requires
        from <= chars.len(),
    ensures
        r@ == chars@.skip(from as int),
{
    let mut text = String::new();
    let mut i: usize = from;
    while i < chars.len()
        invariant
            from <= i <= chars.len(),
            text@ == chars@.subrange(from as int, i as int),
        decreases chars.len() - i,
    {
        text.push(chars[i]);
        i += 1;
    }
    text
}

/// The character that stands for a decimal digit.
pub open spec fn digit_char(digit: int) -> char {
    ((48 + digit) as u8) as char
}

/// A natural number in decimal digits, without leading zeros.
pub open spec fn decimal(n: nat) -> Seq<char>
    decreases n,
{
    if n < 10 {
        seq![digit_char(n as int)]
    } else {
        decimal(n / 10).push(digit_char((n % 10) as int))
    }
}

/// An integer in decimal digits, with a minus sign if it is negative.
pub open spec fn signed_decimal(n: int) -> Seq<char> {
    if n < 0 {
        seq!['-'] + decimal((-n) as nat)
    } else {
        decimal(n as nat)
    }
}

/// Appends the decimal digits of `n` to `text`.
fn push_decimal(text: &mut String, n: u64)
    ensures
        final(text)@ == old(text)@ + decimal(n as nat),
    decreases n,
{
    if n >= 10 {
        push_decimal(text, n / 10);
    }
    let digit: u8 = (n % 10) as u8;
    text.push((48 + digit) as char);
    proof {
        if n >= 10 {
        } else {
        }
    }
}

/// The decimal digits of `n`.
pub fn decimal_text(n: u64) -> (r: String)
    ensures
        r@ == decimal(n as nat),
{
    let mut text = String::new();
    push_decimal(&mut text, n);
    text
}

/// The decimal digits of `n`, after a minus sign if `n` is negative.
pub fn signed_decimal_text(n: i64) -> (r: String)
    ensures
        r@ == signed_decimal(n as int),
{
    let mut text = String::new();
    if n < 0 {
        text.push('-');
        let magnitude: u64 = if n == i64::MIN {
            9223372036854775808
        } else {
            (-n) as u64
        };
        push_decimal(&mut text, magnitude);
    } else {
        push_decimal(&mut text, n as u64);
    }
    text
}

impl DisplayText for u8 {
    open spec fn text(&self) -> Chars {
        decimal(*self as nat)
    }

    fn to_text(&self) -> (r: String) {
        decimal_text(*self as u64)
    }
}

impl DisplayText for u64 {
    open spec fn text(&self) -> Chars {
        decimal(*self as nat)
    }

    fn to_text(&self) -> (r: String) {
        decimal_text(*self)
    }
}

impl DisplayText for usize {
    open spec fn text(&self) -> Chars {
        decimal(*self as nat)
    }

    fn to_text(&self) -> (r: String) {
        decimal_text(*self as u64)
    }
}

impl DisplayText for i32 {
    open spec fn text(&self) -> Chars {
        signed_decimal(*self as int)
    }

    fn to_text(&self) -> (r: String) {
        signed_decimal_text(*self as i64)
    }
}

/// `count` spaces; none if `count` is negative.
pub open spec fn spaces(count: int) -> Seq<char> {
    if count > 0 {
        Seq::new(count as nat, |i: int| ' ')
    } else {
        seq![]
    }
}

/// A text with spaces put before it until it is `width` characters long; a
/// text that is longer stays as it is.
pub open spec fn padded_left(text: Seq<char>, width: int) -> Seq<char> {
    spaces(width - text.len()) + text
}

/// A text set flush right in exactly `width` characters: cut after `width`
/// characters if it is longer, with spaces before it if it is shorter.
pub open spec fn right_aligned(text: Seq<char>, width: int) -> Seq<char> {
    if text.len() > width {
        text.take(width)
    } else {
        padded_left(text, width)
    }
}

/// Puts spaces before `text` until it is `width` characters long.
pub fn pad_left(text: &str, width: usize) -> (r: String)
    ensures
        r@ == padded_left(text@, width as int),
{
    let chars = chars_of(text);
    let mut padded = String::new();
    let mut i: usize = chars.len();
    while i < width
        invariant
            chars.len() <= i,
            i <= width || i == chars.len(),
            padded@ == spaces(i - chars.len()),
        decreases width - i,
    {
        padded.push(' ');
        i += 1;
    }
    padded.append(text);
    padded
}

/// Sets `text` flush right in exactly `width` characters.
pub fn align_right(text: &str, width: usize) -> (r: String)
    ensures
        r@ == right_aligned(text@, width as int),
        r@.len() == width,
{
    let chars = chars_of(text);
    if chars.len() > width {
        let mut cut = String::new();
        let mut i: usize = 0;
        while i < width
            invariant
                i <= width < chars.len(),
                cut@ == chars@.take(i as int),
            decreases width - i,
        {
            cut.push(chars[i]);
            i += 1;
        }
        cut
    } else {
        pad_left(text, width)
    }
}

} // verus!
