use vstd::prelude::*;

use crate::character::Character;
use crate::sequence::Sequence;
use crate::sequence::SpecSeqClass;
use crate::character::spec_render_character;
use crate::sequence::spec_render_seq_class;
use vstd::std_specs::convert::IntoSpec;
use vstd::string::StringExecFns;

verus! {

/// What a parser hoped to see, for diagnostics: the end of the input, any
/// valid alternative, a character class, or a sequence class.
#[derive(Clone, Debug, PartialEq)]
pub enum Expect {
    End,
    Valid,
    Character(Character),
    Sequence(Sequence),
}

/// Ghost model of an `Expect`.
pub enum SpecExpect {
    End,
    Valid,
    Character(Character),
    Sequence(SpecSeqClass),
}

impl View for Expect {
    type V = SpecExpect;

    open spec fn view(&self) -> SpecExpect {
        match self {
            Expect::End => SpecExpect::End,
            Expect::Valid => SpecExpect::Valid,
            Expect::Character(c) => SpecExpect::Character(*c),
            Expect::Sequence(s) => SpecExpect::Sequence(s@),
        }
    }
}

/// The payload of an error: what was expected, what was found, and an
/// optional diagnostic label, each independent and optional.
#[derive(Clone, Debug, PartialEq)]
pub struct InnerError(pub Option<Expect>, pub Option<Expect>, pub Option<String>);

/// Ghost model of an `InnerError`.
pub struct SpecInner {
    pub expect: Option<SpecExpect>,
    pub found: Option<SpecExpect>,
    pub context: Option<Seq<char>>,
}

impl View for InnerError {
    type V = SpecInner;

    open spec fn view(&self) -> SpecInner {
        SpecInner {
            expect: match self.0 {
                Some(x) => Some(x@),
                None => None,
            },
            found: match self.1 {
                Some(x) => Some(x@),
                None => None,
            },
            context: match self.2 {
                Some(ref s) => Some(s@),
                None => None,
            },
        }
    }
}

/// A structured parse failure. `Pass` is recoverable: an enclosing
/// alternation may still try a sibling branch. `Fail` is committed: it must
/// propagate past every enclosing alternation.
#[derive(Clone, Debug, PartialEq)]
pub enum Error {
    Pass(InnerError),
    Fail(InnerError),
}

/// Ghost model of an `Error`.
pub enum SpecError {
    Pass(SpecInner),
    Fail(SpecInner),
}

impl View for Error {
    type V = SpecError;

    open spec fn view(&self) -> SpecError {
        match self {
            Error::Pass(i) => SpecError::Pass(i@),
            Error::Fail(i) => SpecError::Fail(i@),
        }
    }
}

/// The payload of an error, whichever its severity.
pub open spec fn inner_of(e: SpecError) -> SpecInner {
    match e {
        SpecError::Pass(i) => i,
        SpecError::Fail(i) => i,
    }
}

/// A recoverable error that records only what was expected.
pub open spec fn spec_expect(x: SpecExpect) -> SpecError {
    SpecError::Pass(SpecInner { expect: Some(x), found: None, context: None })
}

/// A recoverable error that records only what was found.
pub open spec fn spec_found(x: SpecExpect) -> SpecError {
    SpecError::Pass(SpecInner { expect: None, found: Some(x), context: None })
}

/// A recoverable error that records the character that was found.
pub open spec fn spec_found_char(c: char) -> SpecError {
    spec_found(SpecExpect::Character(Character::Custom(c)))
}

/// A recoverable error that records that the input had ended.
pub open spec fn spec_found_end() -> SpecError {
    spec_found(SpecExpect::End)
}

/// The committed error of a construct that cannot possibly match.
pub open spec fn spec_invalid() -> SpecError {
    SpecError::Fail(SpecInner { expect: Some(SpecExpect::Valid), found: None, context: None })
}

/// A recoverable mismatch: expected `x`, found the character `c`.
pub open spec fn spec_unexpected(x: SpecExpect, c: char) -> SpecError {
    SpecError::Pass(
        SpecInner {
            expect: Some(x),
            found: Some(SpecExpect::Character(Character::Custom(c))),
            context: None,
        },
    )
}

/// A recoverable mismatch: expected `x`, found the end of the input.
pub open spec fn spec_unexpected_end(x: SpecExpect) -> SpecError {
    SpecError::Pass(
        SpecInner { expect: Some(x), found: Some(SpecExpect::End), context: None },
    )
}

/// `e` with its expectation overwritten by `x`; severity and the rest kept.
pub open spec fn with_expect(e: SpecError, x: SpecExpect) -> SpecError {
    match e {
        SpecError::Pass(i) => SpecError::Pass(
            SpecInner { expect: Some(x), found: i.found, context: i.context },
        ),
        SpecError::Fail(i) => SpecError::Fail(
            SpecInner { expect: Some(x), found: i.found, context: i.context },
        ),
    }
}

/// `e` with its found field overwritten by `x`; severity and the rest kept.
pub open spec fn with_found(e: SpecError, x: SpecExpect) -> SpecError {
    match e {
        SpecError::Pass(i) => SpecError::Pass(
            SpecInner { expect: i.expect, found: Some(x), context: i.context },
        ),
        SpecError::Fail(i) => SpecError::Fail(
            SpecInner { expect: i.expect, found: Some(x), context: i.context },
        ),
    }
}

/// `e` with its diagnostic label overwritten by `l`; severity and the rest kept.
pub open spec fn with_label(e: SpecError, l: Seq<char>) -> SpecError {
    match e {
        SpecError::Pass(i) => SpecError::Pass(
            SpecInner { expect: i.expect, found: i.found, context: Some(l) },
        ),
        SpecError::Fail(i) => SpecError::Fail(
            SpecInner { expect: i.expect, found: i.found, context: Some(l) },
        ),
    }
}

/// `e` demoted to recoverable severity; its payload kept.
pub open spec fn to_pass(e: SpecError) -> SpecError {
    SpecError::Pass(inner_of(e))
}

/// `e` promoted to committed severity; its payload kept.
pub open spec fn to_fail(e: SpecError) -> SpecError {
    SpecError::Fail(inner_of(e))
}

impl Error {
    /// The committed, content-less error of a construct that cannot match.
    pub fn invalid() -> (r: Self)
        ensures
            r@ == spec_invalid(),
    {
        Error::Fail(InnerError(Some(Expect::Valid), None, None))
    }

    /// `error` decorated with the diagnostic label `ctx`.
    pub fn context(ctx: &str, error: Error) -> (r: Self)
        ensures
            r@ == with_label(error@, ctx@),
    {
        error.with_context(ctx)
    }

    /// A recoverable error that records only what was expected.
    pub fn expect<T: Into<Expect>>(expect: T) -> (r: Self)
        ensures
            T::obeys_into_spec() ==> r@ == spec_expect(expect.into_spec()@),
    {
        Error::Pass(InnerError(Some(expect.into()), None, None))
    }

    /// A recoverable error that records only what was found.
    pub fn found<T: Into<Expect>>(found: T) -> (r: Self)
        ensures
            T::obeys_into_spec() ==> r@ == spec_found(found.into_spec()@),
    {
        Error::Pass(InnerError(None, Some(found.into()), None))
    }

    /// A recoverable error that records that the input had ended.
    pub fn found_end() -> (r: Self)
        ensures
            r@ == spec_found_end(),
    {
        Error::Pass(InnerError(None, Some(Expect::End), None))
    }

    /// This error with its expectation overwritten; the rest kept.
    pub fn but_expect<T: Into<Expect>>(self, expect: T) -> (r: Self)
        ensures
            T::obeys_into_spec() ==> r@ == with_expect(self@, expect.into_spec()@),
    {
        let x = expect.into();
        match self {
            Error::Pass(i) => Error::Pass(InnerError(Some(x), i.1, i.2)),
            Error::Fail(i) => Error::Fail(InnerError(Some(x), i.1, i.2)),
        }
    }

    /// This error with its found field overwritten; the rest kept.
    pub fn but_found<T: Into<Expect>>(self, found: T) -> (r: Self)
        ensures
            T::obeys_into_spec() ==> r@ == with_found(self@, found.into_spec()@),
    {
        let x = found.into();
        match self {
            Error::Pass(i) => Error::Pass(InnerError(i.0, Some(x), i.2)),
            Error::Fail(i) => Error::Fail(InnerError(i.0, Some(x), i.2)),
        }
    }

    /// This error with its found field overwritten by the end of the input.
    pub fn but_found_end(self) -> (r: Self)
        ensures
            r@ == with_found(self@, SpecExpect::End),
    {
        match self {
            Error::Pass(i) => Error::Pass(InnerError(i.0, Some(Expect::End), i.2)),
            Error::Fail(i) => Error::Fail(InnerError(i.0, Some(Expect::End), i.2)),
        }
    }

    /// This error decorated with the diagnostic label `ctx`.
    pub fn with_context(self, ctx: &str) -> (r: Self)
        ensures
            r@ == with_label(self@, ctx@),
    {
        let l = ctx.to_owned();
        match self {
            Error::Pass(i) => Error::Pass(InnerError(i.0, i.1, Some(l))),
            Error::Fail(i) => Error::Fail(InnerError(i.0, i.1, Some(l))),
        }
    }

    /// The diagnostic label, if one was attached.
    pub fn get_context(&self) -> (r: Option<&str>)
        ensures
            match r {
                Some(s) => inner_of(self@).context == Some(s@),
                None => inner_of(self@).context is None,
            },
    {
        match self {
            Error::Pass(i) => match &i.2 {
                Some(c) => Some(c.as_str()),
                None => None,
            },
            Error::Fail(i) => match &i.2 {
                Some(c) => Some(c.as_str()),
                None => None,
            },
        }
    }

    /// Overwrites the diagnostic label in place.
    pub fn set_context(&mut self, ctx: &str)
        ensures
            final(self)@ == with_label(old(self)@, ctx@),
    {
        let l = ctx.to_owned();
        match self {
            Error::Pass(i) => i.2 = Some(l),
            Error::Fail(i) => i.2 = Some(l),
        }
    }

    /// Whether this error is recoverable.
    pub fn is_pass(&self) -> (r: bool)
        ensures
            r == (self@ matches SpecError::Pass(_)),
    {
        match self {
            Error::Pass(_) => true,
            _ => false,
        }
    }

    /// The payload, when this error is recoverable.
    pub fn as_pass(&self) -> (r: Option<&InnerError>)
        ensures
            match r {
                Some(i) => self@ == SpecError::Pass(i@),
                None => self@ matches SpecError::Fail(_),
            },
    {
        match self {
            Error::Pass(i) => Some(i),
            _ => None,
        }
    }

    /// This error demoted to recoverable severity; its payload kept.
    pub fn into_pass(self) -> (r: Self)
        ensures
            r@ == to_pass(self@),
    {
        match self {
            Error::Fail(i) => Error::Pass(i),
            _ => self,
        }
    }

    /// Whether this error is committed.
    pub fn is_fail(&self) -> (r: bool)
        ensures
            r == (self@ matches SpecError::Fail(_)),
    {
        match self {
            Error::Fail(_) => true,
            _ => false,
        }
    }

    /// The payload, when this error is committed.
    pub fn as_fail(&self) -> (r: Option<&InnerError>)
        ensures
            match r {
                Some(i) => self@ == SpecError::Fail(i@),
                None => self@ matches SpecError::Pass(_),
            },
    {
        match self {
            Error::Fail(i) => Some(i),
            _ => None,
        }
    }

    /// This error promoted to committed severity; its payload kept.
    pub fn into_fail(self) -> (r: Self)
        ensures
            r@ == to_fail(self@),
    {
        match self {
            Error::Pass(i) => Error::Fail(i),
            _ => self,
        }
    }
}

/// The canonical rendering of an expectation for diagnostics.
pub open spec fn spec_render_expect(x: SpecExpect) -> Seq<char> {
    match x {
        SpecExpect::End => "end of input"@,
        SpecExpect::Valid => "valid parser"@,
        SpecExpect::Character(c) => "character: "@ + spec_render_character(c),
        SpecExpect::Sequence(s) => "sequence: "@ + spec_render_seq_class(s),
    }
}

impl Expect {
    /// Renders this expectation for diagnostics.
    pub fn render(&self) -> (r: String)
        ensures
            r@ == spec_render_expect(self@),
    {
        match self {
            Expect::End => String::from_str("end of input"),
            Expect::Valid => String::from_str("valid parser"),
            Expect::Character(c) => {
                let mut s = String::from_str("character: ");
                let t = c.render();
                s.append(t.as_str());
                s
            },
            Expect::Sequence(sq) => {
                let mut s = String::from_str("sequence: ");
                let t = sq.render();
                s.append(t.as_str());
                s
            },
        }
    }
}

/// The canonical rendering of an error's payload: the label, the
/// expectation and the finding, each on its place and each only if present.
pub open spec fn spec_render_inner(i: SpecInner) -> Seq<char> {
    let head = "Error:"@ + (match i.context {
        Some(c) => " in "@ + c,
        None => Seq::<char>::empty(),
    });
    let with_expect = head + (match i.expect {
        Some(x) => "\nExpected "@ + spec_render_expect(x),
        None => Seq::<char>::empty(),
    });
    with_expect + (match i.found {
        Some(x) => "\nFound "@ + spec_render_expect(x),
        None => Seq::<char>::empty(),
    })
}

impl InnerError {
    /// Renders this payload for diagnostics.
    pub fn render(&self) -> (r: String)
        ensures
            r@ == spec_render_inner(self@),
    {
        let mut s = String::from_str("Error:");
        match &self.2 {
            Some(ctx) => {
                s.append(" in ");
                s.append(ctx.as_str());
            },
            None => {},
        }
        match &self.0 {
            Some(x) => {
                s.append("\nExpected ");
                let t = x.render();
                s.append(t.as_str());
            },
            None => {},
        }
        match &self.1 {
            Some(x) => {
                s.append("\nFound ");
                let t = x.render();
                s.append(t.as_str());
            },
            None => {},
        }
        proof {
            assert(s@ =~= spec_render_inner(self@));
        }
        s
    }
}

impl Error {
    /// Renders this error for diagnostics: the canonical human-readable
    /// form, the same for either severity.
    pub fn render(&self) -> (r: String)
        ensures
            r@ == spec_render_inner(inner_of(self@)),
    {
        match self {
            Error::Pass(i) => i.render(),
            Error::Fail(i) => i.render(),
        }
    }
}

impl From<char> for Expect {
    fn from(from: char) -> (r: Self) {
        Expect::Character(Character::Custom(from))
    }
}

impl vstd::std_specs::convert::FromSpecImpl<char> for Expect {
    open spec fn obeys_from_spec() -> bool {
        true
    }

    open spec fn from_spec(v: char) -> Expect {
        Expect::Character(Character::Custom(v))
    }
}

impl From<Character> for Expect {
    fn from(from: Character) -> (r: Self) {
        Expect::Character(from)
    }
}

impl vstd::std_specs::convert::FromSpecImpl<Character> for Expect {
    open spec fn obeys_from_spec() -> bool {
        true
    }

    open spec fn from_spec(v: Character) -> Expect {
        Expect::Character(v)
    }
}

impl From<Sequence> for Expect {
    fn from(from: Sequence) -> (r: Self) {
        Expect::Sequence(from)
    }
}

impl vstd::std_specs::convert::FromSpecImpl<Sequence> for Expect {
    open spec fn obeys_from_spec() -> bool {
        true
    }

    open spec fn from_spec(v: Sequence) -> Expect {
        Expect::Sequence(v)
    }
}

impl From<()> for Expect {
    fn from(from: ()) -> (r: Self) {
        Expect::End
    }
}

impl vstd::std_specs::convert::FromSpecImpl<()> for Expect {
    open spec fn obeys_from_spec() -> bool {
        true
    }

    open spec fn from_spec(v: ()) -> Expect {
        Expect::End
    }
}

} // verus!
