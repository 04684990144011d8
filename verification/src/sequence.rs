use vstd::prelude::*;

use crate::character::Character;
use crate::character::char_class_matches;
use crate::character::matches_class;
use crate::error::Error;
use crate::error::SpecError;
use crate::error::SpecExpect;
use crate::error::spec_unexpected;
use crate::error::spec_unexpected_end;
use crate::parser::Output;
use crate::parser::Parser;
use crate::parser::is_remainder;
use crate::parser::lemma_remainder_skip;
use crate::parser::text_err;
use crate::parser::text_ok;
use crate::parser::text_parse;
use vstd::string::StringExecFns;

verus! {

/// A named multi-code-point class (a maximal run of the class), or a literal
/// text to match exactly. Each variant doubles as a parser for such a run.
#[derive(Clone, Debug, PartialEq)]
pub enum Sequence {
    Any,
    Decimal,
    Hexadecimal,
    Alphabetic,
    Alphanumeric,
    Lowercase,
    Uppercase,
    Indent,
    Linebreak,
    Whitespace,
    Custom(String),
}

/// Ghost model of a `Sequence`: the literal text is abstracted to its characters.
pub enum SpecSeqClass {
    Any,
    Decimal,
    Hexadecimal,
    Alphabetic,
    Alphanumeric,
    Lowercase,
    Uppercase,
    Indent,
    Linebreak,
    Whitespace,
    Custom(Seq<char>),
}

impl View for Sequence {
    type V = SpecSeqClass;

    open spec fn view(&self) -> SpecSeqClass {
        match self {
            Sequence::Any => SpecSeqClass::Any,
            Sequence::Decimal => SpecSeqClass::Decimal,
            Sequence::Hexadecimal => SpecSeqClass::Hexadecimal,
            Sequence::Alphabetic => SpecSeqClass::Alphabetic,
            Sequence::Alphanumeric => SpecSeqClass::Alphanumeric,
            Sequence::Lowercase => SpecSeqClass::Lowercase,
            Sequence::Uppercase => SpecSeqClass::Uppercase,
            Sequence::Indent => SpecSeqClass::Indent,
            Sequence::Linebreak => SpecSeqClass::Linebreak,
            Sequence::Whitespace => SpecSeqClass::Whitespace,
            Sequence::Custom(s) => SpecSeqClass::Custom(s@),
        }
    }
}

impl Sequence {
    /// Wraps literal text as a classifier that matches exactly it.
    pub fn custom(sequence: &str) -> (r: Self)
        ensures
            r@ == SpecSeqClass::Custom(sequence@),
    {
        Sequence::Custom(sequence.to_owned())
    }
}

/// The canonical text by which the sequence classifier names itself in
/// error messages: the class name, or the literal text in double quotes.
pub open spec fn spec_render_seq_class(class: SpecSeqClass) -> Seq<char> {
    match class {
        SpecSeqClass::Any => "any"@,
        SpecSeqClass::Decimal => "decimal"@,
        SpecSeqClass::Hexadecimal => "hexadecimal"@,
        SpecSeqClass::Alphabetic => "alphabetic"@,
        SpecSeqClass::Alphanumeric => "alphanumeric"@,
        SpecSeqClass::Lowercase => "lowercase"@,
        SpecSeqClass::Uppercase => "uppercase"@,
        SpecSeqClass::Indent => "indent"@,
        SpecSeqClass::Linebreak => "linebreak"@,
        SpecSeqClass::Whitespace => "whitespace"@,
        SpecSeqClass::Custom(text) => "\""@ + text + "\""@,
    }
}

impl Sequence {
    /// Renders this classifier for diagnostics.
    pub fn render(&self) -> (r: String)
        ensures
            r@ == spec_render_seq_class(self@),
    {
        match self {
            Sequence::Any => String::from_str("any"),
            Sequence::Decimal => String::from_str("decimal"),
            Sequence::Hexadecimal => String::from_str("hexadecimal"),
            Sequence::Alphabetic => String::from_str("alphabetic"),
            Sequence::Alphanumeric => String::from_str("alphanumeric"),
            Sequence::Lowercase => String::from_str("lowercase"),
            Sequence::Uppercase => String::from_str("uppercase"),
            Sequence::Indent => String::from_str("indent"),
            Sequence::Linebreak => String::from_str("linebreak"),
            Sequence::Whitespace => String::from_str("whitespace"),
            Sequence::Custom(text) => {
                let mut s = String::from_str("\"");
                s.append(text.as_str());
                s.append("\"");
                proof {
                    assert(s@ =~= "\""@ + text@ + "\""@);
                }
                s
            },
        }
    }
}

/// The length of the maximal leading run of `s` accepted by `p`.
pub open spec fn run_len(s: Seq<char>, p: spec_fn(char) -> bool) -> int
    decreases s.len(),
{
    if s.len() == 0 || !p(s[0]) {
        0
    } else {
        1 + run_len(s.skip(1), p)
    }
}

/// The predicate of the classifier `class`, as a function value.
pub open spec fn cls_pred(class: Character) -> spec_fn(char) -> bool {
    |c: char| char_class_matches(class, c)
}

/// `run_len` is pinned by its bounding facts: if the first `n` code points
/// are accepted and the run cannot extend past `n`, the maximal run is `n`.
pub proof fn lemma_run_len(s: Seq<char>, p: spec_fn(char) -> bool, n: int)
    requires
        0 <= n <= s.len(),
        forall|j: int| 0 <= j < n ==> p(s[j]),
        n == s.len() || !p(s[n]),
    ensures
        run_len(s, p) == n,
    decreases n,
{
    if n == 0 {
    } else {
        assert(p(s[0]));
        lemma_run_len(s.skip(1), p, n - 1);
    }
}

/// Consumes the maximal non-empty run of code points accepted by `class`, or
/// fails without consuming, naming `exp` as what was expected.
pub(crate) fn scan_class<'a>(input: &'a str, class: Character, exp: Sequence) -> (r: Output<
    'a,
    &'a str,
>)
    ensures
        input@.len() == 0 ==> (r matches Err(e) && e@ == spec_unexpected_end(
            SpecExpect::Sequence(exp@),
        )),
        input@.len() >= 1 && char_class_matches(class, input@[0]) ==> (r matches Ok((out, rem))
            && out@ == input@.take(run_len(input@, cls_pred(class))) && rem@ == input@.skip(
            run_len(input@, cls_pred(class)),
        )),
        input@.len() >= 1 && !char_class_matches(class, input@[0]) ==> (r matches Err(e) && e@
            == spec_unexpected(SpecExpect::Sequence(exp@), input@[0])),
        r matches Ok((out, rem)) ==> is_remainder(input@, rem@),
{
    let n = input.unicode_len();
    if n == 0 {
        return Err(Error::found_end().but_expect(exp));
    }
    let c0 = input.get_char(0);
    if !matches_class(&class, c0) {
        return Err(Error::found(c0).but_expect(exp));
    }
    let mut i: usize = 1;
    while i < n
        invariant
            1 <= i <= n,
            n == input@.len(),
            forall|j: int| 0 <= j < i ==> char_class_matches(class, input@[j]),
        ensures
            1 <= i <= n,
            forall|j: int| 0 <= j < i ==> char_class_matches(class, input@[j]),
            i == n || !char_class_matches(class, input@[i as int]),
        decreases n - i,
    {
        let c = input.get_char(i);
        if !matches_class(&class, c) {
            break ;
        }
        i += 1;
    }
    proof {
        lemma_run_len(input@, cls_pred(class), i as int);
        lemma_remainder_skip(input@, i as int);
    }
    let out = input.substring_char(0, i);
    let rem = input.substring_char(i, n);
    Ok((out, rem))
}

/// Parses the whole of the input, however long it is; fails only on empty
/// input.
pub fn any<'a>(input: &'a str) -> (r: Output<'a, &'a str>)
    ensures
        input@.len() == 0 ==> (r matches Err(e) && e@ == spec_unexpected_end(
            SpecExpect::Sequence(SpecSeqClass::Any),
        )),
        input@.len() >= 1 ==> (r matches Ok((out, rem)) && out@ == input@ && rem@
            == Seq::<char>::empty()),
{
    let r = scan_class(input, Character::Any, Sequence::Any);
    proof {
        if input@.len() >= 1 {
            lemma_run_len(input@, cls_pred(Character::Any), input@.len() as int);
            if let Ok((out, rem)) = &r {
                assert(out@ =~= input@);
                assert(rem@ =~= Seq::<char>::empty());
            }
        }
    }
    r
}

/// Parses the maximal non-empty run of ASCII decimal digits.
pub fn decimal<'a>(input: &'a str) -> (r: Output<'a, &'a str>)
    ensures
        input@.len() == 0 ==> (r matches Err(e) && e@ == spec_unexpected_end(
            SpecExpect::Sequence(SpecSeqClass::Decimal),
        )),
        input@.len() >= 1 && char_class_matches(Character::Decimal, input@[0]) ==> (r matches Ok(
            (out, rem),
        ) && out@ == input@.take(run_len(input@, cls_pred(Character::Decimal))) && rem@
            == input@.skip(run_len(input@, cls_pred(Character::Decimal)))),
        input@.len() >= 1 && !char_class_matches(Character::Decimal, input@[0]) ==> (r matches Err(
            e,
        ) && e@ == spec_unexpected(SpecExpect::Sequence(SpecSeqClass::Decimal), input@[0])),
        r matches Ok((out, rem)) ==> is_remainder(input@, rem@),
{
    scan_class(input, Character::Decimal, Sequence::Decimal)
}

/// Parses the maximal non-empty run of ASCII hexadecimal digits.
pub fn hexadecimal<'a>(input: &'a str) -> (r: Output<'a, &'a str>)
    ensures
        input@.len() == 0 ==> (r matches Err(e) && e@ == spec_unexpected_end(
            SpecExpect::Sequence(SpecSeqClass::Hexadecimal),
        )),
        input@.len() >= 1 && char_class_matches(Character::Hexadecimal, input@[0]) ==> (r
            matches Ok((out, rem)) && out@ == input@.take(
            run_len(input@, cls_pred(Character::Hexadecimal)),
        ) && rem@ == input@.skip(run_len(input@, cls_pred(Character::Hexadecimal)))),
        input@.len() >= 1 && !char_class_matches(Character::Hexadecimal, input@[0]) ==> (r
            matches Err(e) && e@ == spec_unexpected(
            SpecExpect::Sequence(SpecSeqClass::Hexadecimal),
            input@[0],
        )),
        r matches Ok((out, rem)) ==> is_remainder(input@, rem@),
{
    scan_class(input, Character::Hexadecimal, Sequence::Hexadecimal)
}

/// Parses the maximal non-empty run of ASCII letters.
pub fn alphabetic<'a>(input: &'a str) -> (r: Output<'a, &'a str>)
    ensures
        input@.len() == 0 ==> (r matches Err(e) && e@ == spec_unexpected_end(
            SpecExpect::Sequence(SpecSeqClass::Alphabetic),
        )),
        input@.len() >= 1 && char_class_matches(Character::Alphabetic, input@[0]) ==> (r
            matches Ok((out, rem)) && out@ == input@.take(
            run_len(input@, cls_pred(Character::Alphabetic)),
        ) && rem@ == input@.skip(run_len(input@, cls_pred(Character::Alphabetic)))),
        input@.len() >= 1 && !char_class_matches(Character::Alphabetic, input@[0]) ==> (r
            matches Err(e) && e@ == spec_unexpected(
            SpecExpect::Sequence(SpecSeqClass::Alphabetic),
            input@[0],
        )),
        r matches Ok((out, rem)) ==> is_remainder(input@, rem@),
{
    scan_class(input, Character::Alphabetic, Sequence::Alphabetic)
}

/// Parses the maximal non-empty run of ASCII letters and decimal digits.
pub fn alphanumeric<'a>(input: &'a str) -> (r: Output<'a, &'a str>)
    ensures
        input@.len() == 0 ==> (r matches Err(e) && e@ == spec_unexpected_end(
            SpecExpect::Sequence(SpecSeqClass::Alphanumeric),
        )),
        input@.len() >= 1 && char_class_matches(Character::Alphanumeric, input@[0]) ==> (r
            matches Ok((out, rem)) && out@ == input@.take(
            run_len(input@, cls_pred(Character::Alphanumeric)),
        ) && rem@ == input@.skip(run_len(input@, cls_pred(Character::Alphanumeric)))),
        input@.len() >= 1 && !char_class_matches(Character::Alphanumeric, input@[0]) ==> (r
            matches Err(e) && e@ == spec_unexpected(
            SpecExpect::Sequence(SpecSeqClass::Alphanumeric),
            input@[0],
        )),
        r matches Ok((out, rem)) ==> is_remainder(input@, rem@),
{
    scan_class(input, Character::Alphanumeric, Sequence::Alphanumeric)
}

/// Parses the maximal non-empty run of ASCII lowercase letters.
pub fn lowercase<'a>(input: &'a str) -> (r: Output<'a, &'a str>)
    ensures
        input@.len() == 0 ==> (r matches Err(e) && e@ == spec_unexpected_end(
            SpecExpect::Sequence(SpecSeqClass::Lowercase),
        )),
        input@.len() >= 1 && char_class_matches(Character::Lowercase, input@[0]) ==> (r matches Ok(
            (out, rem),
        ) && out@ == input@.take(run_len(input@, cls_pred(Character::Lowercase))) && rem@
            == input@.skip(run_len(input@, cls_pred(Character::Lowercase)))),
        input@.len() >= 1 && !char_class_matches(Character::Lowercase, input@[0]) ==> (r
            matches Err(e) && e@ == spec_unexpected(
            SpecExpect::Sequence(SpecSeqClass::Lowercase),
            input@[0],
        )),
        r matches Ok((out, rem)) ==> is_remainder(input@, rem@),
{
    scan_class(input, Character::Lowercase, Sequence::Lowercase)
}

/// Parses the maximal non-empty run of ASCII uppercase letters.
pub fn uppercase<'a>(input: &'a str) -> (r: Output<'a, &'a str>)
    ensures
        input@.len() == 0 ==> (r matches Err(e) && e@ == spec_unexpected_end(
            SpecExpect::Sequence(SpecSeqClass::Uppercase),
        )),
        input@.len() >= 1 && char_class_matches(Character::Uppercase, input@[0]) ==> (r matches Ok(
            (out, rem),
        ) && out@ == input@.take(run_len(input@, cls_pred(Character::Uppercase))) && rem@
            == input@.skip(run_len(input@, cls_pred(Character::Uppercase)))),
        input@.len() >= 1 && !char_class_matches(Character::Uppercase, input@[0]) ==> (r
            matches Err(e) && e@ == spec_unexpected(
            SpecExpect::Sequence(SpecSeqClass::Uppercase),
            input@[0],
        )),
        r matches Ok((out, rem)) ==> is_remainder(input@, rem@),
{
    scan_class(input, Character::Uppercase, Sequence::Uppercase)
}

/// Parses the maximal non-empty run of spaces and horizontal tabs.
pub fn indent<'a>(input: &'a str) -> (r: Output<'a, &'a str>)
    ensures
        input@.len() == 0 ==> (r matches Err(e) && e@ == spec_unexpected_end(
            SpecExpect::Sequence(SpecSeqClass::Indent),
        )),
        input@.len() >= 1 && char_class_matches(Character::Indent, input@[0]) ==> (r matches Ok(
            (out, rem),
        ) && out@ == input@.take(run_len(input@, cls_pred(Character::Indent))) && rem@
            == input@.skip(run_len(input@, cls_pred(Character::Indent)))),
        input@.len() >= 1 && !char_class_matches(Character::Indent, input@[0]) ==> (r matches Err(
            e,
        ) && e@ == spec_unexpected(SpecExpect::Sequence(SpecSeqClass::Indent), input@[0])),
        r matches Ok((out, rem)) ==> is_remainder(input@, rem@),
{
    scan_class(input, Character::Indent, Sequence::Indent)
}

/// Parses the maximal non-empty run of linebreak code points.
pub fn linebreak<'a>(input: &'a str) -> (r: Output<'a, &'a str>)
    ensures
        input@.len() == 0 ==> (r matches Err(e) && e@ == spec_unexpected_end(
            SpecExpect::Sequence(SpecSeqClass::Linebreak),
        )),
        input@.len() >= 1 && char_class_matches(Character::Linebreak, input@[0]) ==> (r matches Ok(
            (out, rem),
        ) && out@ == input@.take(run_len(input@, cls_pred(Character::Linebreak))) && rem@
            == input@.skip(run_len(input@, cls_pred(Character::Linebreak)))),
        input@.len() >= 1 && !char_class_matches(Character::Linebreak, input@[0]) ==> (r
            matches Err(e) && e@ == spec_unexpected(
            SpecExpect::Sequence(SpecSeqClass::Linebreak),
            input@[0],
        )),
        r matches Ok((out, rem)) ==> is_remainder(input@, rem@),
{
    scan_class(input, Character::Linebreak, Sequence::Linebreak)
}

/// Parses the maximal non-empty run of whitespace code points.
pub fn whitespace<'a>(input: &'a str) -> (r: Output<'a, &'a str>)
    ensures
        input@.len() == 0 ==> (r matches Err(e) && e@ == spec_unexpected_end(
            SpecExpect::Sequence(SpecSeqClass::Whitespace),
        )),
        input@.len() >= 1 && char_class_matches(Character::Whitespace, input@[0]) ==> (r
            matches Ok((out, rem)) && out@ == input@.take(
            run_len(input@, cls_pred(Character::Whitespace)),
        ) && rem@ == input@.skip(run_len(input@, cls_pred(Character::Whitespace)))),
        input@.len() >= 1 && !char_class_matches(Character::Whitespace, input@[0]) ==> (r
            matches Err(e) && e@ == spec_unexpected(
            SpecExpect::Sequence(SpecSeqClass::Whitespace),
            input@[0],
        )),
        r matches Ok((out, rem)) ==> is_remainder(input@, rem@),
{
    scan_class(input, Character::Whitespace, Sequence::Whitespace)
}

/// The parser that `sequence` builds: a literal text match.
pub struct Text<'b> {
    pub sequence: &'b str,
}

/// A parser that matches the literal text `sequence` exactly, character by
/// character, and fails at the first divergence.
pub fn sequence<'b>(text: &'b str) -> (r: Text<'b>)
    ensures
        r.sequence == text,
{
    Text { sequence: text }
}

impl<'a, 'b> Parser<'a, &'a str> for Text<'b> {
    open spec fn wf(&self) -> bool {
        true
    }

    open spec fn ok(&self, input: Seq<char>, out: &'a str, rem: Seq<char>) -> bool {
        text_ok(self.sequence@, input, out@, rem)
    }

    open spec fn err(&self, input: Seq<char>, e: SpecError) -> bool {
        text_err(self.sequence@, input, e)
    }

    fn parse(&self, input: &'a str) -> (r: Output<'a, &'a str>) {
        text_parse(self.sequence, input)
    }
}

/// A success of the run of `class`: the value is the maximal non-empty run,
/// the remainder what follows it.
pub open spec fn run_ok(class: Character, input: Seq<char>, out: Seq<char>, rem: Seq<char>) -> bool {
    let k = run_len(input, cls_pred(class));
    &&& input.len() >= 1
    &&& char_class_matches(class, input[0])
    &&& out == input.take(k)
    &&& rem == input.skip(k)
}

/// A failure of the run of `class`: the input was empty or its first code
/// point was rejected, and `exp` is reported as what was expected.
pub open spec fn run_err(class: Character, exp: SpecSeqClass, input: Seq<char>, e: SpecError) -> bool {
    ||| input.len() == 0 && e == spec_unexpected_end(SpecExpect::Sequence(exp))
    ||| input.len() >= 1 && !char_class_matches(class, input[0]) && e == spec_unexpected(
        SpecExpect::Sequence(exp),
        input[0],
    )
}

/// A sequence classifier is itself a parser for a maximal run of its class,
/// or for its literal text.
impl<'a> Parser<'a, &'a str> for Sequence {
    open spec fn wf(&self) -> bool {
        true
    }

    open spec fn ok(&self, input: Seq<char>, out: &'a str, rem: Seq<char>) -> bool {
        match *self {
            Sequence::Any => run_ok(Character::Any, input, out@, rem),
            Sequence::Decimal => run_ok(Character::Decimal, input, out@, rem),
            Sequence::Hexadecimal => run_ok(Character::Hexadecimal, input, out@, rem),
            Sequence::Alphabetic => run_ok(Character::Alphabetic, input, out@, rem),
            Sequence::Alphanumeric => run_ok(Character::Alphanumeric, input, out@, rem),
            Sequence::Lowercase => run_ok(Character::Lowercase, input, out@, rem),
            Sequence::Uppercase => run_ok(Character::Uppercase, input, out@, rem),
            Sequence::Indent => run_ok(Character::Indent, input, out@, rem),
            Sequence::Linebreak => run_ok(Character::Linebreak, input, out@, rem),
            Sequence::Whitespace => run_ok(Character::Whitespace, input, out@, rem),
            Sequence::Custom(ref s) => text_ok(s@, input, out@, rem),
        }
    }

    open spec fn err(&self, input: Seq<char>, e: SpecError) -> bool {
        match *self {
            Sequence::Any => run_err(Character::Any, SpecSeqClass::Any, input, e),
            Sequence::Decimal => run_err(Character::Decimal, SpecSeqClass::Decimal, input, e),
            Sequence::Hexadecimal => run_err(
                Character::Hexadecimal,
                SpecSeqClass::Hexadecimal,
                input,
                e,
            ),
            Sequence::Alphabetic => run_err(
                Character::Alphabetic,
                SpecSeqClass::Alphabetic,
                input,
                e,
            ),
            Sequence::Alphanumeric => run_err(
                Character::Alphanumeric,
                SpecSeqClass::Alphanumeric,
                input,
                e,
            ),
            Sequence::Lowercase => run_err(Character::Lowercase, SpecSeqClass::Lowercase, input, e),
            Sequence::Uppercase => run_err(Character::Uppercase, SpecSeqClass::Uppercase, input, e),
            Sequence::Indent => run_err(Character::Indent, SpecSeqClass::Indent, input, e),
            Sequence::Linebreak => run_err(Character::Linebreak, SpecSeqClass::Linebreak, input, e),
            Sequence::Whitespace => run_err(
                Character::Whitespace,
                SpecSeqClass::Whitespace,
                input,
                e,
            ),
            Sequence::Custom(ref s) => text_err(s@, input, e),
        }
    }

    fn parse(&self, input: &'a str) -> (r: Output<'a, &'a str>) {
        match self {
            Sequence::Any => scan_class(input, Character::Any, Sequence::Any),
            Sequence::Decimal => scan_class(input, Character::Decimal, Sequence::Decimal),
            Sequence::Hexadecimal => scan_class(
                input,
                Character::Hexadecimal,
                Sequence::Hexadecimal,
            ),
            Sequence::Alphabetic => scan_class(input, Character::Alphabetic, Sequence::Alphabetic),
            Sequence::Alphanumeric => scan_class(
                input,
                Character::Alphanumeric,
                Sequence::Alphanumeric,
            ),
            Sequence::Lowercase => scan_class(input, Character::Lowercase, Sequence::Lowercase),
            Sequence::Uppercase => scan_class(input, Character::Uppercase, Sequence::Uppercase),
            Sequence::Indent => scan_class(input, Character::Indent, Sequence::Indent),
            Sequence::Linebreak => scan_class(input, Character::Linebreak, Sequence::Linebreak),
            Sequence::Whitespace => scan_class(input, Character::Whitespace, Sequence::Whitespace),
            Sequence::Custom(s) => text_parse(s.as_str(), input),
        }
    }
}

impl From<String> for Sequence {
    fn from(from: String) -> (r: Self) {
        Sequence::Custom(from)
    }
}

impl vstd::std_specs::convert::FromSpecImpl<String> for Sequence {
    open spec fn obeys_from_spec() -> bool {
        true
    }

    open spec fn from_spec(v: String) -> Sequence {
        Sequence::Custom(v)
    }
}

} // verus!
