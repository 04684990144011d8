use vstd::prelude::*;

use crate::error::Error;
use crate::error::SpecError;
use crate::error::SpecExpect;
use crate::error::spec_unexpected;
use crate::error::spec_unexpected_end;
use crate::parser::Output;
use crate::parser::Parser;
use crate::parser::is_remainder;
use crate::parser::lemma_remainder_skip;
use crate::util::push_char;
use vstd::string::StringExecFns;

verus! {

/// A named single-code-point class, or a literal character to match exactly.
/// Each variant doubles as a parser for one code point of that class.
#[derive(Clone, Debug, PartialEq)]
pub enum Character {
    Any,
    Decimal,
    Hexadecimal,
    Alphabetic,
    Alphanumeric,
    Lowercase,
    Uppercase,
    Indent,
    Linebreak,
    Whitespace,
    Custom(char),
}

impl Character {
    /// Wraps a literal character as a classifier that matches exactly it.
    pub fn custom(character: char) -> (r: Self)
        ensures
            r == Character::Custom(character),
    {
        Character::Custom(character)
    }
}

/// The canonical text by which the classifier names itself in error
/// messages: the class name, or the literal character in single quotes.
pub open spec fn spec_render_character(class: Character) -> Seq<char> {
    match class {
        Character::Any => "any"@,
        Character::Decimal => "decimal"@,
        Character::Hexadecimal => "hexadecimal"@,
        Character::Alphabetic => "alphabetic"@,
        Character::Alphanumeric => "alphanumeric"@,
        Character::Lowercase => "lowercase"@,
        Character::Uppercase => "uppercase"@,
        Character::Indent => "indent"@,
        Character::Linebreak => "linebreak"@,
        Character::Whitespace => "whitespace"@,
        Character::Custom(c) => "'"@ + seq![c] + "'"@,
    }
}

impl Character {
    /// Renders this classifier for diagnostics.
    pub fn render(&self) -> (r: String)
        ensures
            r@ == spec_render_character(*self),
    {
        match self {
            Character::Any => String::from_str("any"),
            Character::Decimal => String::from_str("decimal"),
            Character::Hexadecimal => String::from_str("hexadecimal"),
            Character::Alphabetic => String::from_str("alphabetic"),
            Character::Alphanumeric => String::from_str("alphanumeric"),
            Character::Lowercase => String::from_str("lowercase"),
            Character::Uppercase => String::from_str("uppercase"),
            Character::Indent => String::from_str("indent"),
            Character::Linebreak => String::from_str("linebreak"),
            Character::Whitespace => String::from_str("whitespace"),
            Character::Custom(c) => {
                let mut s = String::from_str("'");
                push_char(&mut s, *c);
                s.append("'");
                proof {
                    assert(s@ =~= "'"@ + seq![*c] + "'"@);
                }
                s
            },
        }
    }
}

/// An ASCII decimal digit.
pub open spec fn spec_is_decimal(c: char) -> bool {
    48 <= c as u32 <= 57
}

/// Reports whether `ch` is an ASCII decimal digit.
#[verifier::when_used_as_spec(spec_is_decimal)]
pub fn is_decimal(ch: char) -> (b: bool)
    ensures
        b == spec_is_decimal(ch),
{
    let u = ch as u32;
    48 <= u && u <= 57
}

/// An ASCII hexadecimal digit, of either case.
pub open spec fn spec_is_hexadecimal(c: char) -> bool {
    ||| 48 <= c as u32 <= 57
    ||| 65 <= c as u32 <= 70
    ||| 97 <= c as u32 <= 102
}

/// Reports whether `ch` is an ASCII hexadecimal digit.
#[verifier::when_used_as_spec(spec_is_hexadecimal)]
pub fn is_hexadecimal(ch: char) -> (b: bool)
    ensures
        b == spec_is_hexadecimal(ch),
{
    let u = ch as u32;
    (48 <= u && u <= 57) || (65 <= u && u <= 70) || (97 <= u && u <= 102)
}

/// An ASCII letter, of either case.
pub open spec fn spec_is_alphabetic(c: char) -> bool {
    ||| 65 <= c as u32 <= 90
    ||| 97 <= c as u32 <= 122
}

/// Reports whether `ch` is an ASCII letter.
#[verifier::when_used_as_spec(spec_is_alphabetic)]
pub fn is_alphabetic(ch: char) -> (b: bool)
    ensures
        b == spec_is_alphabetic(ch),
{
    let u = ch as u32;
    (65 <= u && u <= 90) || (97 <= u && u <= 122)
}

/// An ASCII letter or decimal digit.
pub open spec fn spec_is_alphanumeric(c: char) -> bool {
    spec_is_decimal(c) || spec_is_alphabetic(c)
}

/// Reports whether `ch` is an ASCII letter or decimal digit.
#[verifier::when_used_as_spec(spec_is_alphanumeric)]
pub fn is_alphanumeric(ch: char) -> (b: bool)
    ensures
        b == spec_is_alphanumeric(ch),
{
    is_decimal(ch) || is_alphabetic(ch)
}

/// An ASCII lowercase letter.
pub open spec fn spec_is_lowercase(c: char) -> bool {
    97 <= c as u32 <= 122
}

/// Reports whether `ch` is an ASCII lowercase letter.
#[verifier::when_used_as_spec(spec_is_lowercase)]
pub fn is_lowercase(ch: char) -> (b: bool)
    ensures
        b == spec_is_lowercase(ch),
{
    let u = ch as u32;
    97 <= u && u <= 122
}

/// An ASCII uppercase letter.
pub open spec fn spec_is_uppercase(c: char) -> bool {
    65 <= c as u32 <= 90
}

/// Reports whether `ch` is an ASCII uppercase letter.
#[verifier::when_used_as_spec(spec_is_uppercase)]
pub fn is_uppercase(ch: char) -> (b: bool)
    ensures
        b == spec_is_uppercase(ch),
{
    let u = ch as u32;
    65 <= u && u <= 90
}

/// A space or a horizontal tab.
pub open spec fn spec_is_indent(c: char) -> bool {
    c as u32 == 32 || c as u32 == 9
}

/// Reports whether `ch` is a space or a horizontal tab.
#[verifier::when_used_as_spec(spec_is_indent)]
pub fn is_indent(ch: char) -> (b: bool)
    ensures
        b == spec_is_indent(ch),
{
    let u = ch as u32;
    u == 32 || u == 9
}

/// A line feed, a carriage return, or a form feed.
pub open spec fn spec_is_linebreak(c: char) -> bool {
    c as u32 == 10 || c as u32 == 13 || c as u32 == 12
}

/// Reports whether `ch` is a line feed, a carriage return, or a form feed.
#[verifier::when_used_as_spec(spec_is_linebreak)]
pub fn is_linebreak(ch: char) -> (b: bool)
    ensures
        b == spec_is_linebreak(ch),
{
    let u = ch as u32;
    u == 10 || u == 13 || u == 12
}

/// The union of the indent and linebreak classes.
pub open spec fn spec_is_whitespace(c: char) -> bool {
    spec_is_indent(c) || spec_is_linebreak(c)
}

/// Reports whether `ch` is whitespace: an indent or a linebreak character.
#[verifier::when_used_as_spec(spec_is_whitespace)]
pub fn is_whitespace(ch: char) -> (b: bool)
    ensures
        b == spec_is_whitespace(ch),
{
    is_indent(ch) || is_linebreak(ch)
}

/// Whether the classifier `class` accepts the code point `c`.
pub open spec fn char_class_matches(class: Character, c: char) -> bool {
    match class {
        Character::Any => true,
        Character::Decimal => spec_is_decimal(c),
        Character::Hexadecimal => spec_is_hexadecimal(c),
        Character::Alphabetic => spec_is_alphabetic(c),
        Character::Alphanumeric => spec_is_alphanumeric(c),
        Character::Lowercase => spec_is_lowercase(c),
        Character::Uppercase => spec_is_uppercase(c),
        Character::Indent => spec_is_indent(c),
        Character::Linebreak => spec_is_linebreak(c),
        Character::Whitespace => spec_is_whitespace(c),
        Character::Custom(x) => c == x,
    }
}

/// Runs the predicate of `class` on one code point.
pub(crate) fn matches_class(class: &Character, c: char) -> (b: bool)
    ensures
        b == char_class_matches(*class, c),
{
    match class {
        Character::Any => true,
        Character::Decimal => is_decimal(c),
        Character::Hexadecimal => is_hexadecimal(c),
        Character::Alphabetic => is_alphabetic(c),
        Character::Alphanumeric => is_alphanumeric(c),
        Character::Lowercase => is_lowercase(c),
        Character::Uppercase => is_uppercase(c),
        Character::Indent => is_indent(c),
        Character::Linebreak => is_linebreak(c),
        Character::Whitespace => is_whitespace(c),
        Character::Custom(x) => c == *x,
    }
}

/// Consumes one code point accepted by `class`, or fails without consuming,
/// naming `class` as what was expected.
pub(crate) fn take_class<'a>(input: &'a str, class: Character) -> (r: Output<'a, char>)
    ensures
        input@.len() == 0 ==> (r matches Err(e) && e@ == spec_unexpected_end(
            SpecExpect::Character(class),
        )),
        input@.len() >= 1 && char_class_matches(class, input@[0]) ==> (r matches Ok((c, rem)) && c
            == input@[0] && rem@ == input@.skip(1)),
        input@.len() >= 1 && !char_class_matches(class, input@[0]) ==> (r matches Err(e) && e@
            == spec_unexpected(SpecExpect::Character(class), input@[0])),
        r matches Ok((c, rem)) ==> is_remainder(input@, rem@),
{
    let n = input.unicode_len();
    if n == 0 {
        return Err(Error::found_end().but_expect(class));
    }
    let c = input.get_char(0);
    if matches_class(&class, c) {
        let rem = input.substring_char(1, n);
        proof {
            lemma_remainder_skip(input@, 1);
        }
        Ok((c, rem))
    } else {
        Err(Error::found(c).but_expect(class))
    }
}

/// Parses any single code point.
pub fn any<'a>(input: &'a str) -> (r: Output<'a, char>)
    ensures
        input@.len() == 0 ==> (r matches Err(e) && e@ == spec_unexpected_end(
            SpecExpect::Character(Character::Any),
        )),
        input@.len() >= 1 ==> (r matches Ok((c, rem)) && c == input@[0] && rem@ == input@.skip(1)),
        r matches Ok((c, rem)) ==> is_remainder(input@, rem@),
{
    take_class(input, Character::Any)
}

/// Parses a single ASCII decimal digit.
pub fn decimal<'a>(input: &'a str) -> (r: Output<'a, char>)
    ensures
        input@.len() == 0 ==> (r matches Err(e) && e@ == spec_unexpected_end(
            SpecExpect::Character(Character::Decimal),
        )),
        input@.len() >= 1 && spec_is_decimal(input@[0]) ==> (r matches Ok((c, rem)) && c
            == input@[0] && rem@ == input@.skip(1)),
        input@.len() >= 1 && !spec_is_decimal(input@[0]) ==> (r matches Err(e) && e@
            == spec_unexpected(SpecExpect::Character(Character::Decimal), input@[0])),
        r matches Ok((c, rem)) ==> is_remainder(input@, rem@),
{
    take_class(input, Character::Decimal)
}

/// Parses a single ASCII hexadecimal digit.
pub fn hexadecimal<'a>(input: &'a str) -> (r: Output<'a, char>)
    ensures
        input@.len() == 0 ==> (r matches Err(e) && e@ == spec_unexpected_end(
            SpecExpect::Character(Character::Hexadecimal),
        )),
        input@.len() >= 1 && spec_is_hexadecimal(input@[0]) ==> (r matches Ok((c, rem)) && c
            == input@[0] && rem@ == input@.skip(1)),
        input@.len() >= 1 && !spec_is_hexadecimal(input@[0]) ==> (r matches Err(e) && e@
            == spec_unexpected(SpecExpect::Character(Character::Hexadecimal), input@[0])),
        r matches Ok((c, rem)) ==> is_remainder(input@, rem@),
{
    take_class(input, Character::Hexadecimal)
}

/// Parses a single ASCII letter.
pub fn alphabetic<'a>(input: &'a str) -> (r: Output<'a, char>)
    ensures
        input@.len() == 0 ==> (r matches Err(e) && e@ == spec_unexpected_end(
            SpecExpect::Character(Character::Alphabetic),
        )),
        input@.len() >= 1 && spec_is_alphabetic(input@[0]) ==> (r matches Ok((c, rem)) && c
            == input@[0] && rem@ == input@.skip(1)),
        input@.len() >= 1 && !spec_is_alphabetic(input@[0]) ==> (r matches Err(e) && e@
            == spec_unexpected(SpecExpect::Character(Character::Alphabetic), input@[0])),
        r matches Ok((c, rem)) ==> is_remainder(input@, rem@),
{
    take_class(input, Character::Alphabetic)
}

/// Parses a single ASCII letter or decimal digit.
pub fn alphanumeric<'a>(input: &'a str) -> (r: Output<'a, char>)
    ensures
        input@.len() == 0 ==> (r matches Err(e) && e@ == spec_unexpected_end(
            SpecExpect::Character(Character::Alphanumeric),
        )),
        input@.len() >= 1 && spec_is_alphanumeric(input@[0]) ==> (r matches Ok((c, rem)) && c
            == input@[0] && rem@ == input@.skip(1)),
        input@.len() >= 1 && !spec_is_alphanumeric(input@[0]) ==> (r matches Err(e) && e@
            == spec_unexpected(SpecExpect::Character(Character::Alphanumeric), input@[0])),
        r matches Ok((c, rem)) ==> is_remainder(input@, rem@),
{
    take_class(input, Character::Alphanumeric)
}

/// Parses a single ASCII lowercase letter.
pub fn lowercase<'a>(input: &'a str) -> (r: Output<'a, char>)
    ensures
        input@.len() == 0 ==> (r matches Err(e) && e@ == spec_unexpected_end(
            SpecExpect::Character(Character::Lowercase),
        )),
        input@.len() >= 1 && spec_is_lowercase(input@[0]) ==> (r matches Ok((c, rem)) && c
            == input@[0] && rem@ == input@.skip(1)),
        input@.len() >= 1 && !spec_is_lowercase(input@[0]) ==> (r matches Err(e) && e@
            == spec_unexpected(SpecExpect::Character(Character::Lowercase), input@[0])),
        r matches Ok((c, rem)) ==> is_remainder(input@, rem@),
{
    take_class(input, Character::Lowercase)
}

/// Parses a single ASCII uppercase letter.
pub fn uppercase<'a>(input: &'a str) -> (r: Output<'a, char>)
    ensures
        input@.len() == 0 ==> (r matches Err(e) && e@ == spec_unexpected_end(
            SpecExpect::Character(Character::Uppercase),
        )),
        input@.len() >= 1 && spec_is_uppercase(input@[0]) ==> (r matches Ok((c, rem)) && c
            == input@[0] && rem@ == input@.skip(1)),
        input@.len() >= 1 && !spec_is_uppercase(input@[0]) ==> (r matches Err(e) && e@
            == spec_unexpected(SpecExpect::Character(Character::Uppercase), input@[0])),
        r matches Ok((c, rem)) ==> is_remainder(input@, rem@),
{
    take_class(input, Character::Uppercase)
}

/// Parses a single space or horizontal tab.
pub fn indent<'a>(input: &'a str) -> (r: Output<'a, char>)
    ensures
        input@.len() == 0 ==> (r matches Err(e) && e@ == spec_unexpected_end(
            SpecExpect::Character(Character::Indent),
        )),
        input@.len() >= 1 && spec_is_indent(input@[0]) ==> (r matches Ok((c, rem)) && c
            == input@[0] && rem@ == input@.skip(1)),
        input@.len() >= 1 && !spec_is_indent(input@[0]) ==> (r matches Err(e) && e@
            == spec_unexpected(SpecExpect::Character(Character::Indent), input@[0])),
        r matches Ok((c, rem)) ==> is_remainder(input@, rem@),
{
    take_class(input, Character::Indent)
}

/// Parses a single line feed, carriage return, or form feed.
pub fn linebreak<'a>(input: &'a str) -> (r: Output<'a, char>)
    ensures
        input@.len() == 0 ==> (r matches Err(e) && e@ == spec_unexpected_end(
            SpecExpect::Character(Character::Linebreak),
        )),
        input@.len() >= 1 && spec_is_linebreak(input@[0]) ==> (r matches Ok((c, rem)) && c
            == input@[0] && rem@ == input@.skip(1)),
        input@.len() >= 1 && !spec_is_linebreak(input@[0]) ==> (r matches Err(e) && e@
            == spec_unexpected(SpecExpect::Character(Character::Linebreak), input@[0])),
        r matches Ok((c, rem)) ==> is_remainder(input@, rem@),
{
    take_class(input, Character::Linebreak)
}

/// Parses a single whitespace code point.
pub fn whitespace<'a>(input: &'a str) -> (r: Output<'a, char>)
    ensures
        input@.len() == 0 ==> (r matches Err(e) && e@ == spec_unexpected_end(
            SpecExpect::Character(Character::Whitespace),
        )),
        input@.len() >= 1 && spec_is_whitespace(input@[0]) ==> (r matches Ok((c, rem)) && c
            == input@[0] && rem@ == input@.skip(1)),
        input@.len() >= 1 && !spec_is_whitespace(input@[0]) ==> (r matches Err(e) && e@
            == spec_unexpected(SpecExpect::Character(Character::Whitespace), input@[0])),
        r matches Ok((c, rem)) ==> is_remainder(input@, rem@),
{
    take_class(input, Character::Whitespace)
}

/// A classifier is itself a parser for one code point of its class.
impl<'a> Parser<'a, char> for Character {
    open spec fn wf(&self) -> bool {
        true
    }

    open spec fn ok(&self, input: Seq<char>, out: char, rem: Seq<char>) -> bool {
        &&& input.len() >= 1
        &&& char_class_matches(*self, input[0])
        &&& out == input[0]
        &&& rem == input.skip(1)
    }

    open spec fn err(&self, input: Seq<char>, e: SpecError) -> bool {
        ||| input.len() == 0 && e == spec_unexpected_end(SpecExpect::Character(*self))
        ||| input.len() >= 1 && !char_class_matches(*self, input[0]) && e == spec_unexpected(
            SpecExpect::Character(*self),
            input[0],
        )
    }

    fn parse(&self, input: &'a str) -> (r: Output<'a, char>) {
        match self {
            Character::Any => take_class(input, Character::Any),
            Character::Decimal => take_class(input, Character::Decimal),
            Character::Hexadecimal => take_class(input, Character::Hexadecimal),
            Character::Alphabetic => take_class(input, Character::Alphabetic),
            Character::Alphanumeric => take_class(input, Character::Alphanumeric),
            Character::Lowercase => take_class(input, Character::Lowercase),
            Character::Uppercase => take_class(input, Character::Uppercase),
            Character::Indent => take_class(input, Character::Indent),
            Character::Linebreak => take_class(input, Character::Linebreak),
            Character::Whitespace => take_class(input, Character::Whitespace),
            Character::Custom(ch) => take_class(input, Character::Custom(*ch)),
        }
    }
}

impl From<char> for Character {
    fn from(from: char) -> (r: Self) {
        Character::Custom(from)
    }
}

impl vstd::std_specs::convert::FromSpecImpl<char> for Character {
    open spec fn obeys_from_spec() -> bool {
        true
    }

    open spec fn from_spec(v: char) -> Character {
        Character::Custom(v)
    }
}

} // verus!
