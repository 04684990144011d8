use vstd::prelude::*;

use crate::error::Error;
use crate::error::SpecError;
use crate::error::SpecInner;
use crate::error::spec_invalid;
use crate::parser::Output;
use crate::parser::Parser;
use crate::parser::is_remainder;
use crate::parser::lemma_remainder_refl;

verus! {

/// An ordered choice: a homogeneous collection or a fixed heterogeneous
/// group of parsers with one output type, tried in order. The first success
/// wins; a committed error from any candidate stops the scan at once; when
/// every candidate fails recoverably, the last candidate's error is kept.
pub trait Branch<'a, O> {
    spec fn branch_wf(&self) -> bool;

    spec fn branch_ok(&self, input: Seq<char>, out: O, rem: Seq<char>) -> bool;

    spec fn branch_err(&self, input: Seq<char>, e: SpecError) -> bool;

    fn parse_branch(&self, input: &'a str) -> (r: Output<'a, O>)
        requires
            self.branch_wf(),
        ensures
            r matches Ok((out, rem)) ==> (self.branch_ok(input@, out, rem@) && is_remainder(
                input@,
                rem@,
            )),
            r matches Err(e) ==> self.branch_err(input@, e@),
    ;
}

/// `p` can fail recoverably on `input`, so that an ordered choice may move
/// past it to the next candidate.
pub open spec fn soft_failure<'a, O, T: Parser<'a, O>>(p: T, input: Seq<char>) -> bool {
    exists|i: SpecInner| p.err(input, SpecError::Pass(i))
}

/// The parser that `branch` builds: an ordered choice over its candidates.
pub struct Choice<B> {
    pub branches: B,
}

/// A parser that tries the given candidates in order and returns the first
/// success; see `Branch` for how failures are resolved.
pub fn branch<B>(alternatives: B) -> (r: Choice<B>)
    ensures
        r.branches == alternatives,
{
    Choice { branches: alternatives }
}

impl<'a, O, B: Branch<'a, O>> Parser<'a, O> for Choice<B> {
    open spec fn wf(&self) -> bool {
        self.branches.branch_wf()
    }

    open spec fn ok(&self, input: Seq<char>, out: O, rem: Seq<char>) -> bool {
        self.branches.branch_ok(input, out, rem)
    }

    open spec fn err(&self, input: Seq<char>, e: SpecError) -> bool {
        self.branches.branch_err(input, e)
    }

    fn parse(&self, input: &'a str) -> (r: Output<'a, O>) {
        self.branches.parse_branch(input)
    }
}

/// The parser that `either` builds: `first`, or else `second`.
pub struct Either<A, B> {
    pub first: A,
    pub second: B,
}

/// A parser that tries `a`; on a recoverable failure it tries `b` from the
/// same input and returns `b`'s outcome as it stands; a committed failure of
/// `a` propagates at once, and `b` is never attempted.
pub fn either<A, B>(a: A, b: B) -> (r: Either<A, B>)
    ensures
        r.first == a,
        r.second == b,
{
    Either { first: a, second: b }
}

impl<'a, O, A, B> Parser<'a, O> for Either<A, B> where A: Parser<'a, O>, B: Parser<'a, O> {
    open spec fn wf(&self) -> bool {
        &&& self.first.wf()
        &&& self.second.wf()
    }

    open spec fn ok(&self, input: Seq<char>, out: O, rem: Seq<char>) -> bool {
        ||| self.first.ok(input, out, rem)
        ||| (exists|i: SpecInner| self.first.err(input, SpecError::Pass(i)))
            && self.second.ok(input, out, rem)
    }

    open spec fn err(&self, input: Seq<char>, e: SpecError) -> bool {
        ||| self.first.err(input, e) && e matches SpecError::Fail(_)
        ||| (exists|i: SpecInner| self.first.err(input, SpecError::Pass(i)))
            && self.second.err(input, e)
    }

    fn parse(&self, input: &'a str) -> (r: Output<'a, O>) {
        match self.first.parse(input) {
            Ok(success) => Ok(success),
            Err(e) => match e {
                Error::Pass(inner) => {
                    proof {
                        assert(self.first.err(input@, SpecError::Pass(inner@)));
                    }
                    self.second.parse(input)
                },
                Error::Fail(inner) => Err(Error::Fail(inner)),
            },
        }
    }
}

/// The parser that `optional` builds: a value, or its absence.
pub struct Optional<P> {
    pub parser: P,
}

/// A parser that wraps a success of `parser` in `Some`; a recoverable
/// failure becomes `None` with the input untouched; a committed failure
/// propagates unchanged.
pub fn optional<P>(parser: P) -> (r: Optional<P>)
    ensures
        r.parser == parser,
{
    Optional { parser }
}

impl<'a, O, P> Parser<'a, Option<O>> for Optional<P> where P: Parser<'a, O> {
    open spec fn wf(&self) -> bool {
        self.parser.wf()
    }

    open spec fn ok(&self, input: Seq<char>, out: Option<O>, rem: Seq<char>) -> bool {
        match out {
            Some(v) => self.parser.ok(input, v, rem),
            None => rem == input && exists|i: SpecInner|
                self.parser.err(input, SpecError::Pass(i)),
        }
    }

    open spec fn err(&self, input: Seq<char>, e: SpecError) -> bool {
        self.parser.err(input, e) && e matches SpecError::Fail(_)
    }

    fn parse(&self, input: &'a str) -> (r: Output<'a, Option<O>>) {
        match self.parser.parse(input) {
            Ok((v, rem)) => Ok((Some(v), rem)),
            Err(e) => match e {
                Error::Pass(inner) => {
                    proof {
                        assert(self.parser.err(input@, SpecError::Pass(inner@)));
                        lemma_remainder_refl(input@);
                    }
                    Ok((None, input))
                },
                Error::Fail(inner) => Err(Error::Fail(inner)),
            },
        }
    }
}

/// The empty group is a trivially successful choice: it yields `()` and
/// consumes nothing.
impl<'a> Branch<'a, ()> for () {
    open spec fn branch_wf(&self) -> bool {
        true
    }

    open spec fn branch_ok(&self, input: Seq<char>, out: (), rem: Seq<char>) -> bool {
        rem == input
    }

    open spec fn branch_err(&self, input: Seq<char>, e: SpecError) -> bool {
        false
    }

    fn parse_branch(&self, input: &'a str) -> (r: Output<'a, ()>) {
        proof {
            lemma_remainder_refl(input@);
        }
        Ok(((), input))
    }
}

/// An ordered choice over a homogeneous list of parsers. An empty list
/// always fails with the committed content-less error.
impl<'a, O, T> Branch<'a, O> for Vec<T> where T: Parser<'a, O> {
    open spec fn branch_wf(&self) -> bool {
        forall|k: int| 0 <= k < self@.len() ==> (#[trigger] self@[k]).wf()
    }

    open spec fn branch_ok(&self, input: Seq<char>, out: O, rem: Seq<char>) -> bool {
        exists|j: int|
            {
                &&& 0 <= j < self@.len()
                &&& (#[trigger] self@[j]).ok(input, out, rem)
                &&& forall|k: int| 0 <= k < j ==> soft_failure(#[trigger] self@[k], input)
            }
    }

    open spec fn branch_err(&self, input: Seq<char>, e: SpecError) -> bool {
        ||| self@.len() == 0 && e == spec_invalid()
        ||| exists|j: int|
            {
                &&& 0 <= j < self@.len()
                &&& (#[trigger] self@[j]).err(input, e)
                &&& e matches SpecError::Fail(_)
                &&& forall|k: int| 0 <= k < j ==> soft_failure(#[trigger] self@[k], input)
            }
        ||| {
            &&& e matches SpecError::Pass(_)
            &&& self@.len() >= 1
            &&& self@[self@.len() - 1].err(input, e)
            &&& forall|k: int| 0 <= k < self@.len() - 1 ==> soft_failure(#[trigger] self@[k], input)
        }
    }

    fn parse_branch(&self, input: &'a str) -> (r: Output<'a, O>) {
        let mut latest = Error::invalid();
        let mut idx: usize = 0;
        while idx < self.len()
            invariant
                0 <= idx <= self@.len(),
                self.branch_wf(),
                forall|k: int| 0 <= k < idx ==> soft_failure(#[trigger] self@[k], input@),
                idx == 0 ==> latest@ == spec_invalid(),
                idx >= 1 ==> self@[idx - 1].err(input@, latest@) && latest@ matches SpecError::Pass(
                    _,
                ),
            decreases self@.len() - idx,
        {
            let candidate = &self[idx];
            match candidate.parse(input) {
                Ok((v, rem)) => {
                    proof {
                        assert(self@[idx as int].ok(input@, v, rem@));
                        assert(self.branch_ok(input@, v, rem@));
                    }
                    return Ok((v, rem));
                },
                Err(e) => match e {
                    Error::Fail(inner) => {
                        proof {
                            assert(self@[idx as int].err(input@, SpecError::Fail(inner@)));
                            assert(self.branch_err(input@, SpecError::Fail(inner@)));
                        }
                        return Err(Error::Fail(inner));
                    },
                    Error::Pass(inner) => {
                        proof {
                            assert(self@[idx as int].err(input@, SpecError::Pass(inner@)));
                            assert(soft_failure(self@[idx as int], input@));
                        }
                        latest = Error::Pass(inner);
                    },
                },
            }
            idx += 1;
        }
        proof {
            if self@.len() >= 1 {
                assert(self@[self@.len() - 1].err(input@, latest@));
            }
            assert(self.branch_err(input@, latest@));
        }
        Err(latest)
    }
}

/// An ordered choice over a group of one parser: that parser's own outcome.
impl<'a, O, A: Parser<'a, O>> Branch<'a, O> for (A,) {
    open spec fn branch_wf(&self) -> bool {
        self.0.wf()
    }

    open spec fn branch_ok(&self, input: Seq<char>, out: O, rem: Seq<char>) -> bool {
        self.0.ok(input, out, rem)
    }

    open spec fn branch_err(&self, input: Seq<char>, e: SpecError) -> bool {
        self.0.err(input, e)
    }

    fn parse_branch(&self, input: &'a str) -> (r: Output<'a, O>) {
        self.0.parse(input)
    }
}

/// An ordered choice over a fixed group of 2 parsers with one output
/// type.
impl<'a, O, A: Parser<'a, O>, B: Parser<'a, O>> Branch<'a, O> for (A, B) {
    open spec fn branch_wf(&self) -> bool {
        &&& self.0.wf()
        &&& self.1.wf()
    }

    open spec fn branch_ok(&self, input: Seq<char>, out: O, rem: Seq<char>) -> bool {
        ||| self.0.ok(input, out, rem)
        ||| soft_failure(self.0, input) && ({
            self.1.ok(input, out, rem)
        })
    }

    open spec fn branch_err(&self, input: Seq<char>, e: SpecError) -> bool {
        ||| self.0.err(input, e) && e matches SpecError::Fail(_)
        ||| soft_failure(self.0, input) && ({
            self.1.err(input, e)
        })
    }

    fn parse_branch(&self, input: &'a str) -> (r: Output<'a, O>) {
        match self.0.parse(input) {
            Ok(success) => {
                return Ok(success);
            },
            Err(e) => match e {
                Error::Fail(inner) => {
                    return Err(Error::Fail(inner));
                },
                Error::Pass(inner) => {
                    proof {
                        assert(self.0.err(input@, SpecError::Pass(inner@)));
                        assert(soft_failure(self.0, input@));
                    }
                },
            },
        }
        self.1.parse(input)
    }
}

/// An ordered choice over a fixed group of 3 parsers with one output
/// type.
impl<'a, O, A: Parser<'a, O>, B: Parser<'a, O>, C: Parser<'a, O>> Branch<'a, O> for (A, B, C) {
    open spec fn branch_wf(&self) -> bool {
        &&& self.0.wf()
        &&& self.1.wf()
        &&& self.2.wf()
    }

    open spec fn branch_ok(&self, input: Seq<char>, out: O, rem: Seq<char>) -> bool {
        ||| self.0.ok(input, out, rem)
        ||| soft_failure(self.0, input) && ({
            ||| self.1.ok(input, out, rem)
            ||| soft_failure(self.1, input) && ({
                self.2.ok(input, out, rem)
            })
        })
    }

    open spec fn branch_err(&self, input: Seq<char>, e: SpecError) -> bool {
        ||| self.0.err(input, e) && e matches SpecError::Fail(_)
        ||| soft_failure(self.0, input) && ({
            ||| self.1.err(input, e) && e matches SpecError::Fail(_)
            ||| soft_failure(self.1, input) && ({
                self.2.err(input, e)
            })
        })
    }

    fn parse_branch(&self, input: &'a str) -> (r: Output<'a, O>) {
        match self.0.parse(input) {
            Ok(success) => {
                return Ok(success);
            },
            Err(e) => match e {
                Error::Fail(inner) => {
                    return Err(Error::Fail(inner));
                },
                Error::Pass(inner) => {
                    proof {
                        assert(self.0.err(input@, SpecError::Pass(inner@)));
                        assert(soft_failure(self.0, input@));
                    }
                },
            },
        }
        match self.1.parse(input) {
            Ok(success) => {
                return Ok(success);
            },
            Err(e) => match e {
                Error::Fail(inner) => {
                    return Err(Error::Fail(inner));
                },
                Error::Pass(inner) => {
                    proof {
                        assert(self.1.err(input@, SpecError::Pass(inner@)));
                        assert(soft_failure(self.1, input@));
                    }
                },
            },
        }
        self.2.parse(input)
    }
}

/// An ordered choice over a fixed group of 4 parsers with one output
/// type.
impl<'a, O, A: Parser<'a, O>, B: Parser<'a, O>, C: Parser<'a, O>, D: Parser<'a, O>> Branch<'a, O> for (A, B, C, D) {
    open spec fn branch_wf(&self) -> bool {
        &&& self.0.wf()
        &&& self.1.wf()
        &&& self.2.wf()
        &&& self.3.wf()
    }

    open spec fn branch_ok(&self, input: Seq<char>, out: O, rem: Seq<char>) -> bool {
        ||| self.0.ok(input, out, rem)
        ||| soft_failure(self.0, input) && ({
            ||| self.1.ok(input, out, rem)
            ||| soft_failure(self.1, input) && ({
                ||| self.2.ok(input, out, rem)
                ||| soft_failure(self.2, input) && ({
                    self.3.ok(input, out, rem)
                })
            })
        })
    }

    open spec fn branch_err(&self, input: Seq<char>, e: SpecError) -> bool {
        ||| self.0.err(input, e) && e matches SpecError::Fail(_)
        ||| soft_failure(self.0, input) && ({
            ||| self.1.err(input, e) && e matches SpecError::Fail(_)
            ||| soft_failure(self.1, input) && ({
                ||| self.2.err(input, e) && e matches SpecError::Fail(_)
                ||| soft_failure(self.2, input) && ({
                    self.3.err(input, e)
                })
            })
        })
    }

    fn parse_branch(&self, input: &'a str) -> (r: Output<'a, O>) {
        match self.0.parse(input) {
            Ok(success) => {
                return Ok(success);
            },
            Err(e) => match e {
                Error::Fail(inner) => {
                    return Err(Error::Fail(inner));
                },
                Error::Pass(inner) => {
                    proof {
                        assert(self.0.err(input@, SpecError::Pass(inner@)));
                        assert(soft_failure(self.0, input@));
                    }
                },
            },
        }
        match self.1.parse(input) {
            Ok(success) => {
                return Ok(success);
            },
            Err(e) => match e {
                Error::Fail(inner) => {
                    return Err(Error::Fail(inner));
                },
                Error::Pass(inner) => {
                    proof {
                        assert(self.1.err(input@, SpecError::Pass(inner@)));
                        assert(soft_failure(self.1, input@));
                    }
                },
            },
        }
        match self.2.parse(input) {
            Ok(success) => {
                return Ok(success);
            },
            Err(e) => match e {
                Error::Fail(inner) => {
                    return Err(Error::Fail(inner));
                },
                Error::Pass(inner) => {
                    proof {
                        assert(self.2.err(input@, SpecError::Pass(inner@)));
                        assert(soft_failure(self.2, input@));
                    }
                },
            },
        }
        self.3.parse(input)
    }
}

/// An ordered choice over a fixed group of 5 parsers with one output
/// type.
impl<'a, O, A: Parser<'a, O>, B: Parser<'a, O>, C: Parser<'a, O>, D: Parser<'a, O>, E: Parser<'a, O>> Branch<'a, O> for (A, B, C, D, E) {
    open spec fn branch_wf(&self) -> bool {
        &&& self.0.wf()
        &&& self.1.wf()
        &&& self.2.wf()
        &&& self.3.wf()
        &&& self.4.wf()
    }

    open spec fn branch_ok(&self, input: Seq<char>, out: O, rem: Seq<char>) -> bool {
        ||| self.0.ok(input, out, rem)
        ||| soft_failure(self.0, input) && ({
            ||| self.1.ok(input, out, rem)
            ||| soft_failure(self.1, input) && ({
                ||| self.2.ok(input, out, rem)
                ||| soft_failure(self.2, input) && ({
                    ||| self.3.ok(input, out, rem)
                    ||| soft_failure(self.3, input) && ({
                        self.4.ok(input, out, rem)
                    })
                })
            })
        })
    }

    open spec fn branch_err(&self, input: Seq<char>, e: SpecError) -> bool {
        ||| self.0.err(input, e) && e matches SpecError::Fail(_)
        ||| soft_failure(self.0, input) && ({
            ||| self.1.err(input, e) && e matches SpecError::Fail(_)
            ||| soft_failure(self.1, input) && ({
                ||| self.2.err(input, e) && e matches SpecError::Fail(_)
                ||| soft_failure(self.2, input) && ({
                    ||| self.3.err(input, e) && e matches SpecError::Fail(_)
                    ||| soft_failure(self.3, input) && ({
                        self.4.err(input, e)
                    })
                })
            })
        })
    }

    fn parse_branch(&self, input: &'a str) -> (r: Output<'a, O>) {
        match self.0.parse(input) {
            Ok(success) => {
                return Ok(success);
            },
            Err(e) => match e {
                Error::Fail(inner) => {
                    return Err(Error::Fail(inner));
                },
                Error::Pass(inner) => {
                    proof {
                        assert(self.0.err(input@, SpecError::Pass(inner@)));
                        assert(soft_failure(self.0, input@));
                    }
                },
            },
        }
        match self.1.parse(input) {
            Ok(success) => {
                return Ok(success);
            },
            Err(e) => match e {
                Error::Fail(inner) => {
                    return Err(Error::Fail(inner));
                },
                Error::Pass(inner) => {
                    proof {
                        assert(self.1.err(input@, SpecError::Pass(inner@)));
                        assert(soft_failure(self.1, input@));
                    }
                },
            },
        }
        match self.2.parse(input) {
            Ok(success) => {
                return Ok(success);
            },
            Err(e) => match e {
                Error::Fail(inner) => {
                    return Err(Error::Fail(inner));
                },
                Error::Pass(inner) => {
                    proof {
                        assert(self.2.err(input@, SpecError::Pass(inner@)));
                        assert(soft_failure(self.2, input@));
                    }
                },
            },
        }
        match self.3.parse(input) {
            Ok(success) => {
                return Ok(success);
            },
            Err(e) => match e {
                Error::Fail(inner) => {
                    return Err(Error::Fail(inner));
                },
                Error::Pass(inner) => {
                    proof {
                        assert(self.3.err(input@, SpecError::Pass(inner@)));
                        assert(soft_failure(self.3, input@));
                    }
                },
            },
        }
        self.4.parse(input)
    }
}

/// An ordered choice over a fixed group of 6 parsers with one output
/// type.
impl<'a, O, A: Parser<'a, O>, B: Parser<'a, O>, C: Parser<'a, O>, D: Parser<'a, O>, E: Parser<'a, O>, F: Parser<'a, O>> Branch<'a, O> for (A, B, C, D, E, F) {
    open spec fn branch_wf(&self) -> bool {
        &&& self.0.wf()
        &&& self.1.wf()
        &&& self.2.wf()
        &&& self.3.wf()
        &&& self.4.wf()
        &&& self.5.wf()
    }

    open spec fn branch_ok(&self, input: Seq<char>, out: O, rem: Seq<char>) -> bool {
        ||| self.0.ok(input, out, rem)
        ||| soft_failure(self.0, input) && ({
            ||| self.1.ok(input, out, rem)
            ||| soft_failure(self.1, input) && ({
                ||| self.2.ok(input, out, rem)
                ||| soft_failure(self.2, input) && ({
                    ||| self.3.ok(input, out, rem)
                    ||| soft_failure(self.3, input) && ({
                        ||| self.4.ok(input, out, rem)
                        ||| soft_failure(self.4, input) && ({
                            self.5.ok(input, out, rem)
                        })
                    })
                })
            })
        })
    }

    open spec fn branch_err(&self, input: Seq<char>, e: SpecError) -> bool {
        ||| self.0.err(input, e) && e matches SpecError::Fail(_)
        ||| soft_failure(self.0, input) && ({
            ||| self.1.err(input, e) && e matches SpecError::Fail(_)
            ||| soft_failure(self.1, input) && ({
                ||| self.2.err(input, e) && e matches SpecError::Fail(_)
                ||| soft_failure(self.2, input) && ({
                    ||| self.3.err(input, e) && e matches SpecError::Fail(_)
                    ||| soft_failure(self.3, input) && ({
                        ||| self.4.err(input, e) && e matches SpecError::Fail(_)
                        ||| soft_failure(self.4, input) && ({
                            self.5.err(input, e)
                        })
                    })
                })
            })
        })
    }

    fn parse_branch(&self, input: &'a str) -> (r: Output<'a, O>) {
        match self.0.parse(input) {
            Ok(success) => {
                return Ok(success);
            },
            Err(e) => match e {
                Error::Fail(inner) => {
                    return Err(Error::Fail(inner));
                },
                Error::Pass(inner) => {
                    proof {
                        assert(self.0.err(input@, SpecError::Pass(inner@)));
                        assert(soft_failure(self.0, input@));
                    }
                },
            },
        }
        match self.1.parse(input) {
            Ok(success) => {
                return Ok(success);
            },
            Err(e) => match e {
                Error::Fail(inner) => {
                    return Err(Error::Fail(inner));
                },
                Error::Pass(inner) => {
                    proof {
                        assert(self.1.err(input@, SpecError::Pass(inner@)));
                        assert(soft_failure(self.1, input@));
                    }
                },
            },
        }
        match self.2.parse(input) {
            Ok(success) => {
                return Ok(success);
            },
            Err(e) => match e {
                Error::Fail(inner) => {
                    return Err(Error::Fail(inner));
                },
                Error::Pass(inner) => {
                    proof {
                        assert(self.2.err(input@, SpecError::Pass(inner@)));
                        assert(soft_failure(self.2, input@));
                    }
                },
            },
        }
        match self.3.parse(input) {
            Ok(success) => {
                return Ok(success);
            },
            Err(e) => match e {
                Error::Fail(inner) => {
                    return Err(Error::Fail(inner));
                },
                Error::Pass(inner) => {
                    proof {
                        assert(self.3.err(input@, SpecError::Pass(inner@)));
                        assert(soft_failure(self.3, input@));
                    }
                },
            },
        }
        match self.4.parse(input) {
            Ok(success) => {
                return Ok(success);
            },
            Err(e) => match e {
                Error::Fail(inner) => {
                    return Err(Error::Fail(inner));
                },
                Error::Pass(inner) => {
                    proof {
                        assert(self.4.err(input@, SpecError::Pass(inner@)));
                        assert(soft_failure(self.4, input@));
                    }
                },
            },
        }
        self.5.parse(input)
    }
}

/// An ordered choice over a fixed group of 7 parsers with one output
/// type.
impl<'a, O, A: Parser<'a, O>, B: Parser<'a, O>, C: Parser<'a, O>, D: Parser<'a, O>, E: Parser<'a, O>, F: Parser<'a, O>, G: Parser<'a, O>> Branch<'a, O> for (A, B, C, D, E, F, G) {
    open spec fn branch_wf(&self) -> bool {
        &&& self.0.wf()
        &&& self.1.wf()
        &&& self.2.wf()
        &&& self.3.wf()
        &&& self.4.wf()
        &&& self.5.wf()
        &&& self.6.wf()
    }

    open spec fn branch_ok(&self, input: Seq<char>, out: O, rem: Seq<char>) -> bool {
        ||| self.0.ok(input, out, rem)
        ||| soft_failure(self.0, input) && ({
            ||| self.1.ok(input, out, rem)
            ||| soft_failure(self.1, input) && ({
                ||| self.2.ok(input, out, rem)
                ||| soft_failure(self.2, input) && ({
                    ||| self.3.ok(input, out, rem)
                    ||| soft_failure(self.3, input) && ({
                        ||| self.4.ok(input, out, rem)
                        ||| soft_failure(self.4, input) && ({
                            ||| self.5.ok(input, out, rem)
                            ||| soft_failure(self.5, input) && ({
                                self.6.ok(input, out, rem)
                            })
                        })
                    })
                })
            })
        })
    }

    open spec fn branch_err(&self, input: Seq<char>, e: SpecError) -> bool {
        ||| self.0.err(input, e) && e matches SpecError::Fail(_)
        ||| soft_failure(self.0, input) && ({
            ||| self.1.err(input, e) && e matches SpecError::Fail(_)
            ||| soft_failure(self.1, input) && ({
                ||| self.2.err(input, e) && e matches SpecError::Fail(_)
                ||| soft_failure(self.2, input) && ({
                    ||| self.3.err(input, e) && e matches SpecError::Fail(_)
                    ||| soft_failure(self.3, input) && ({
                        ||| self.4.err(input, e) && e matches SpecError::Fail(_)
                        ||| soft_failure(self.4, input) && ({
                            ||| self.5.err(input, e) && e matches SpecError::Fail(_)
                            ||| soft_failure(self.5, input) && ({
                                self.6.err(input, e)
                            })
                        })
                    })
                })
            })
        })
    }

    fn parse_branch(&self, input: &'a str) -> (r: Output<'a, O>) {
        match self.0.parse(input) {
            Ok(success) => {
                return Ok(success);
            },
            Err(e) => match e {
                Error::Fail(inner) => {
                    return Err(Error::Fail(inner));
                },
                Error::Pass(inner) => {
                    proof {
                        assert(self.0.err(input@, SpecError::Pass(inner@)));
                        assert(soft_failure(self.0, input@));
                    }
                },
            },
        }
        match self.1.parse(input) {
            Ok(success) => {
                return Ok(success);
            },
            Err(e) => match e {
                Error::Fail(inner) => {
                    return Err(Error::Fail(inner));
                },
                Error::Pass(inner) => {
                    proof {
                        assert(self.1.err(input@, SpecError::Pass(inner@)));
                        assert(soft_failure(self.1, input@));
                    }
                },
            },
        }
        match self.2.parse(input) {
            Ok(success) => {
                return Ok(success);
            },
            Err(e) => match e {
                Error::Fail(inner) => {
                    return Err(Error::Fail(inner));
                },
                Error::Pass(inner) => {
                    proof {
                        assert(self.2.err(input@, SpecError::Pass(inner@)));
                        assert(soft_failure(self.2, input@));
                    }
                },
            },
        }
        match self.3.parse(input) {
            Ok(success) => {
                return Ok(success);
            },
            Err(e) => match e {
                Error::Fail(inner) => {
                    return Err(Error::Fail(inner));
                },
                Error::Pass(inner) => {
                    proof {
                        assert(self.3.err(input@, SpecError::Pass(inner@)));
                        assert(soft_failure(self.3, input@));
                    }
                },
            },
        }
        match self.4.parse(input) {
            Ok(success) => {
                return Ok(success);
            },
            Err(e) => match e {
                Error::Fail(inner) => {
                    return Err(Error::Fail(inner));
                },
                Error::Pass(inner) => {
                    proof {
                        assert(self.4.err(input@, SpecError::Pass(inner@)));
                        assert(soft_failure(self.4, input@));
                    }
                },
            },
        }
        match self.5.parse(input) {
            Ok(success) => {
                return Ok(success);
            },
            Err(e) => match e {
                Error::Fail(inner) => {
                    return Err(Error::Fail(inner));
                },
                Error::Pass(inner) => {
                    proof {
                        assert(self.5.err(input@, SpecError::Pass(inner@)));
                        assert(soft_failure(self.5, input@));
                    }
                },
            },
        }
        self.6.parse(input)
    }
}

/// An ordered choice over a fixed group of 8 parsers with one output
/// type.
impl<'a, O, A: Parser<'a, O>, B: Parser<'a, O>, C: Parser<'a, O>, D: Parser<'a, O>, E: Parser<'a, O>, F: Parser<'a, O>, G: Parser<'a, O>, H: Parser<'a, O>> Branch<'a, O> for (A, B, C, D, E, F, G, H) {
    open spec fn branch_wf(&self) -> bool {
        &&& self.0.wf()
        &&& self.1.wf()
        &&& self.2.wf()
        &&& self.3.wf()
        &&& self.4.wf()
        &&& self.5.wf()
        &&& self.6.wf()
        &&& self.7.wf()
    }

    open spec fn branch_ok(&self, input: Seq<char>, out: O, rem: Seq<char>) -> bool {
        ||| self.0.ok(input, out, rem)
        ||| soft_failure(self.0, input) && ({
            ||| self.1.ok(input, out, rem)
            ||| soft_failure(self.1, input) && ({
                ||| self.2.ok(input, out, rem)
                ||| soft_failure(self.2, input) && ({
                    ||| self.3.ok(input, out, rem)
                    ||| soft_failure(self.3, input) && ({
                        ||| self.4.ok(input, out, rem)
                        ||| soft_failure(self.4, input) && ({
                            ||| self.5.ok(input, out, rem)
                            ||| soft_failure(self.5, input) && ({
                                ||| self.6.ok(input, out, rem)
                                ||| soft_failure(self.6, input) && ({
                                    self.7.ok(input, out, rem)
                                })
                            })
                        })
                    })
                })
            })
        })
    }

    open spec fn branch_err(&self, input: Seq<char>, e: SpecError) -> bool {
        ||| self.0.err(input, e) && e matches SpecError::Fail(_)
        ||| soft_failure(self.0, input) && ({
            ||| self.1.err(input, e) && e matches SpecError::Fail(_)
            ||| soft_failure(self.1, input) && ({
                ||| self.2.err(input, e) && e matches SpecError::Fail(_)
                ||| soft_failure(self.2, input) && ({
                    ||| self.3.err(input, e) && e matches SpecError::Fail(_)
                    ||| soft_failure(self.3, input) && ({
                        ||| self.4.err(input, e) && e matches SpecError::Fail(_)
                        ||| soft_failure(self.4, input) && ({
                            ||| self.5.err(input, e) && e matches SpecError::Fail(_)
                            ||| soft_failure(self.5, input) && ({
                                ||| self.6.err(input, e) && e matches SpecError::Fail(_)
                                ||| soft_failure(self.6, input) && ({
                                    self.7.err(input, e)
                                })
                            })
                        })
                    })
                })
            })
        })
    }

    fn parse_branch(&self, input: &'a str) -> (r: Output<'a, O>) {
        match self.0.parse(input) {
            Ok(success) => {
                return Ok(success);
            },
            Err(e) => match e {
                Error::Fail(inner) => {
                    return Err(Error::Fail(inner));
                },
                Error::Pass(inner) => {
                    proof {
                        assert(self.0.err(input@, SpecError::Pass(inner@)));
                        assert(soft_failure(self.0, input@));
                    }
                },
            },
        }
        match self.1.parse(input) {
            Ok(success) => {
                return Ok(success);
            },
            Err(e) => match e {
                Error::Fail(inner) => {
                    return Err(Error::Fail(inner));
                },
                Error::Pass(inner) => {
                    proof {
                        assert(self.1.err(input@, SpecError::Pass(inner@)));
                        assert(soft_failure(self.1, input@));
                    }
                },
            },
        }
        match self.2.parse(input) {
            Ok(success) => {
                return Ok(success);
            },
            Err(e) => match e {
                Error::Fail(inner) => {
                    return Err(Error::Fail(inner));
                },
                Error::Pass(inner) => {
                    proof {
                        assert(self.2.err(input@, SpecError::Pass(inner@)));
                        assert(soft_failure(self.2, input@));
                    }
                },
            },
        }
        match self.3.parse(input) {
            Ok(success) => {
                return Ok(success);
            },
            Err(e) => match e {
                Error::Fail(inner) => {
                    return Err(Error::Fail(inner));
                },
                Error::Pass(inner) => {
                    proof {
                        assert(self.3.err(input@, SpecError::Pass(inner@)));
                        assert(soft_failure(self.3, input@));
                    }
                },
            },
        }
        match self.4.parse(input) {
            Ok(success) => {
                return Ok(success);
            },
            Err(e) => match e {
                Error::Fail(inner) => {
                    return Err(Error::Fail(inner));
                },
                Error::Pass(inner) => {
                    proof {
                        assert(self.4.err(input@, SpecError::Pass(inner@)));
                        assert(soft_failure(self.4, input@));
                    }
                },
            },
        }
        match self.5.parse(input) {
            Ok(success) => {
                return Ok(success);
            },
            Err(e) => match e {
                Error::Fail(inner) => {
                    return Err(Error::Fail(inner));
                },
                Error::Pass(inner) => {
                    proof {
                        assert(self.5.err(input@, SpecError::Pass(inner@)));
                        assert(soft_failure(self.5, input@));
                    }
                },
            },
        }
        match self.6.parse(input) {
            Ok(success) => {
                return Ok(success);
            },
            Err(e) => match e {
                Error::Fail(inner) => {
                    return Err(Error::Fail(inner));
                },
                Error::Pass(inner) => {
                    proof {
                        assert(self.6.err(input@, SpecError::Pass(inner@)));
                        assert(soft_failure(self.6, input@));
                    }
                },
            },
        }
        self.7.parse(input)
    }
}

/// An ordered choice over a fixed group of 9 parsers with one output
/// type.
impl<'a, O, A: Parser<'a, O>, B: Parser<'a, O>, C: Parser<'a, O>, D: Parser<'a, O>, E: Parser<'a, O>, F: Parser<'a, O>, G: Parser<'a, O>, H: Parser<'a, O>, I: Parser<'a, O>> Branch<'a, O> for (A, B, C, D, E, F, G, H, I) {
    open spec fn branch_wf(&self) -> bool {
        &&& self.0.wf()
        &&& self.1.wf()
        &&& self.2.wf()
        &&& self.3.wf()
        &&& self.4.wf()
        &&& self.5.wf()
        &&& self.6.wf()
        &&& self.7.wf()
        &&& self.8.wf()
    }

    open spec fn branch_ok(&self, input: Seq<char>, out: O, rem: Seq<char>) -> bool {
        ||| self.0.ok(input, out, rem)
        ||| soft_failure(self.0, input) && ({
            ||| self.1.ok(input, out, rem)
            ||| soft_failure(self.1, input) && ({
                ||| self.2.ok(input, out, rem)
                ||| soft_failure(self.2, input) && ({
                    ||| self.3.ok(input, out, rem)
                    ||| soft_failure(self.3, input) && ({
                        ||| self.4.ok(input, out, rem)
                        ||| soft_failure(self.4, input) && ({
                            ||| self.5.ok(input, out, rem)
                            ||| soft_failure(self.5, input) && ({
                                ||| self.6.ok(input, out, rem)
                                ||| soft_failure(self.6, input) && ({
                                    ||| self.7.ok(input, out, rem)
                                    ||| soft_failure(self.7, input) && ({
                                        self.8.ok(input, out, rem)
                                    })
                                })
                            })
                        })
                    })
                })
            })
        })
    }

    open spec fn branch_err(&self, input: Seq<char>, e: SpecError) -> bool {
        ||| self.0.err(input, e) && e matches SpecError::Fail(_)
        ||| soft_failure(self.0, input) && ({
            ||| self.1.err(input, e) && e matches SpecError::Fail(_)
            ||| soft_failure(self.1, input) && ({
                ||| self.2.err(input, e) && e matches SpecError::Fail(_)
                ||| soft_failure(self.2, input) && ({
                    ||| self.3.err(input, e) && e matches SpecError::Fail(_)
                    ||| soft_failure(self.3, input) && ({
                        ||| self.4.err(input, e) && e matches SpecError::Fail(_)
                        ||| soft_failure(self.4, input) && ({
                            ||| self.5.err(input, e) && e matches SpecError::Fail(_)
                            ||| soft_failure(self.5, input) && ({
                                ||| self.6.err(input, e) && e matches SpecError::Fail(_)
                                ||| soft_failure(self.6, input) && ({
                                    ||| self.7.err(input, e) && e matches SpecError::Fail(_)
                                    ||| soft_failure(self.7, input) && ({
                                        self.8.err(input, e)
                                    })
                                })
                            })
                        })
                    })
                })
            })
        })
    }

    fn parse_branch(&self, input: &'a str) -> (r: Output<'a, O>) {
        match self.0.parse(input) {
            Ok(success) => {
                return Ok(success);
            },
            Err(e) => match e {
                Error::Fail(inner) => {
                    return Err(Error::Fail(inner));
                },
                Error::Pass(inner) => {
                    proof {
                        assert(self.0.err(input@, SpecError::Pass(inner@)));
                        assert(soft_failure(self.0, input@));
                    }
                },
            },
        }
        match self.1.parse(input) {
            Ok(success) => {
                return Ok(success);
            },
            Err(e) => match e {
                Error::Fail(inner) => {
                    return Err(Error::Fail(inner));
                },
                Error::Pass(inner) => {
                    proof {
                        assert(self.1.err(input@, SpecError::Pass(inner@)));
                        assert(soft_failure(self.1, input@));
                    }
                },
            },
        }
        match self.2.parse(input) {
            Ok(success) => {
                return Ok(success);
            },
            Err(e) => match e {
                Error::Fail(inner) => {
                    return Err(Error::Fail(inner));
                },
                Error::Pass(inner) => {
                    proof {
                        assert(self.2.err(input@, SpecError::Pass(inner@)));
                        assert(soft_failure(self.2, input@));
                    }
                },
            },
        }
        match self.3.parse(input) {
            Ok(success) => {
                return Ok(success);
            },
            Err(e) => match e {
                Error::Fail(inner) => {
                    return Err(Error::Fail(inner));
                },
                Error::Pass(inner) => {
                    proof {
                        assert(self.3.err(input@, SpecError::Pass(inner@)));
                        assert(soft_failure(self.3, input@));
                    }
                },
            },
        }
        match self.4.parse(input) {
            Ok(success) => {
                return Ok(success);
            },
            Err(e) => match e {
                Error::Fail(inner) => {
                    return Err(Error::Fail(inner));
                },
                Error::Pass(inner) => {
                    proof {
                        assert(self.4.err(input@, SpecError::Pass(inner@)));
                        assert(soft_failure(self.4, input@));
                    }
                },
            },
        }
        match self.5.parse(input) {
            Ok(success) => {
                return Ok(success);
            },
            Err(e) => match e {
                Error::Fail(inner) => {
                    return Err(Error::Fail(inner));
                },
                Error::Pass(inner) => {
                    proof {
                        assert(self.5.err(input@, SpecError::Pass(inner@)));
                        assert(soft_failure(self.5, input@));
                    }
                },
            },
        }
        match self.6.parse(input) {
            Ok(success) => {
                return Ok(success);
            },
            Err(e) => match e {
                Error::Fail(inner) => {
                    return Err(Error::Fail(inner));
                },
                Error::Pass(inner) => {
                    proof {
                        assert(self.6.err(input@, SpecError::Pass(inner@)));
                        assert(soft_failure(self.6, input@));
                    }
                },
            },
        }
        match self.7.parse(input) {
            Ok(success) => {
                return Ok(success);
            },
            Err(e) => match e {
                Error::Fail(inner) => {
                    return Err(Error::Fail(inner));
                },
                Error::Pass(inner) => {
                    proof {
                        assert(self.7.err(input@, SpecError::Pass(inner@)));
                        assert(soft_failure(self.7, input@));
                    }
                },
            },
        }
        self.8.parse(input)
    }
}

/// An ordered choice over a fixed group of 10 parsers with one output
/// type.
impl<'a, O, A: Parser<'a, O>, B: Parser<'a, O>, C: Parser<'a, O>, D: Parser<'a, O>, E: Parser<'a, O>, F: Parser<'a, O>, G: Parser<'a, O>, H: Parser<'a, O>, I: Parser<'a, O>, J: Parser<'a, O>> Branch<'a, O> for (A, B, C, D, E, F, G, H, I, J) {
    open spec fn branch_wf(&self) -> bool {
        &&& self.0.wf()
        &&& self.1.wf()
        &&& self.2.wf()
        &&& self.3.wf()
        &&& self.4.wf()
        &&& self.5.wf()
        &&& self.6.wf()
        &&& self.7.wf()
        &&& self.8.wf()
        &&& self.9.wf()
    }

    open spec fn branch_ok(&self, input: Seq<char>, out: O, rem: Seq<char>) -> bool {
        ||| self.0.ok(input, out, rem)
        ||| soft_failure(self.0, input) && ({
            ||| self.1.ok(input, out, rem)
            ||| soft_failure(self.1, input) && ({
                ||| self.2.ok(input, out, rem)
                ||| soft_failure(self.2, input) && ({
                    ||| self.3.ok(input, out, rem)
                    ||| soft_failure(self.3, input) && ({
                        ||| self.4.ok(input, out, rem)
                        ||| soft_failure(self.4, input) && ({
                            ||| self.5.ok(input, out, rem)
                            ||| soft_failure(self.5, input) && ({
                                ||| self.6.ok(input, out, rem)
                                ||| soft_failure(self.6, input) && ({
                                    ||| self.7.ok(input, out, rem)
                                    ||| soft_failure(self.7, input) && ({
                                        ||| self.8.ok(input, out, rem)
                                        ||| soft_failure(self.8, input) && ({
                                            self.9.ok(input, out, rem)
                                        })
                                    })
                                })
                            })
                        })
                    })
                })
            })
        })
    }

    open spec fn branch_err(&self, input: Seq<char>, e: SpecError) -> bool {
        ||| self.0.err(input, e) && e matches SpecError::Fail(_)
        ||| soft_failure(self.0, input) && ({
            ||| self.1.err(input, e) && e matches SpecError::Fail(_)
            ||| soft_failure(self.1, input) && ({
                ||| self.2.err(input, e) && e matches SpecError::Fail(_)
                ||| soft_failure(self.2, input) && ({
                    ||| self.3.err(input, e) && e matches SpecError::Fail(_)
                    ||| soft_failure(self.3, input) && ({
                        ||| self.4.err(input, e) && e matches SpecError::Fail(_)
                        ||| soft_failure(self.4, input) && ({
                            ||| self.5.err(input, e) && e matches SpecError::Fail(_)
                            ||| soft_failure(self.5, input) && ({
                                ||| self.6.err(input, e) && e matches SpecError::Fail(_)
                                ||| soft_failure(self.6, input) && ({
                                    ||| self.7.err(input, e) && e matches SpecError::Fail(_)
                                    ||| soft_failure(self.7, input) && ({
                                        ||| self.8.err(input, e) && e matches SpecError::Fail(_)
                                        ||| soft_failure(self.8, input) && ({
                                            self.9.err(input, e)
                                        })
                                    })
                                })
                            })
                        })
                    })
                })
            })
        })
    }

    fn parse_branch(&self, input: &'a str) -> (r: Output<'a, O>) {
        match self.0.parse(input) {
            Ok(success) => {
                return Ok(success);
            },
            Err(e) => match e {
                Error::Fail(inner) => {
                    return Err(Error::Fail(inner));
                },
                Error::Pass(inner) => {
                    proof {
                        assert(self.0.err(input@, SpecError::Pass(inner@)));
                        assert(soft_failure(self.0, input@));
                    }
                },
            },
        }
        match self.1.parse(input) {
            Ok(success) => {
                return Ok(success);
            },
            Err(e) => match e {
                Error::Fail(inner) => {
                    return Err(Error::Fail(inner));
                },
                Error::Pass(inner) => {
                    proof {
                        assert(self.1.err(input@, SpecError::Pass(inner@)));
                        assert(soft_failure(self.1, input@));
                    }
                },
            },
        }
        match self.2.parse(input) {
            Ok(success) => {
                return Ok(success);
            },
            Err(e) => match e {
                Error::Fail(inner) => {
                    return Err(Error::Fail(inner));
                },
                Error::Pass(inner) => {
                    proof {
                        assert(self.2.err(input@, SpecError::Pass(inner@)));
                        assert(soft_failure(self.2, input@));
                    }
                },
            },
        }
        match self.3.parse(input) {
            Ok(success) => {
                return Ok(success);
            },
            Err(e) => match e {
                Error::Fail(inner) => {
                    return Err(Error::Fail(inner));
                },
                Error::Pass(inner) => {
                    proof {
                        assert(self.3.err(input@, SpecError::Pass(inner@)));
                        assert(soft_failure(self.3, input@));
                    }
                },
            },
        }
        match self.4.parse(input) {
            Ok(success) => {
                return Ok(success);
            },
            Err(e) => match e {
                Error::Fail(inner) => {
                    return Err(Error::Fail(inner));
                },
                Error::Pass(inner) => {
                    proof {
                        assert(self.4.err(input@, SpecError::Pass(inner@)));
                        assert(soft_failure(self.4, input@));
                    }
                },
            },
        }
        match self.5.parse(input) {
            Ok(success) => {
                return Ok(success);
            },
            Err(e) => match e {
                Error::Fail(inner) => {
                    return Err(Error::Fail(inner));
                },
                Error::Pass(inner) => {
                    proof {
                        assert(self.5.err(input@, SpecError::Pass(inner@)));
                        assert(soft_failure(self.5, input@));
                    }
                },
            },
        }
        match self.6.parse(input) {
            Ok(success) => {
                return Ok(success);
            },
            Err(e) => match e {
                Error::Fail(inner) => {
                    return Err(Error::Fail(inner));
                },
                Error::Pass(inner) => {
                    proof {
                        assert(self.6.err(input@, SpecError::Pass(inner@)));
                        assert(soft_failure(self.6, input@));
                    }
                },
            },
        }
        match self.7.parse(input) {
            Ok(success) => {
                return Ok(success);
            },
            Err(e) => match e {
                Error::Fail(inner) => {
                    return Err(Error::Fail(inner));
                },
                Error::Pass(inner) => {
                    proof {
                        assert(self.7.err(input@, SpecError::Pass(inner@)));
                        assert(soft_failure(self.7, input@));
                    }
                },
            },
        }
        match self.8.parse(input) {
            Ok(success) => {
                return Ok(success);
            },
            Err(e) => match e {
                Error::Fail(inner) => {
                    return Err(Error::Fail(inner));
                },
                Error::Pass(inner) => {
                    proof {
                        assert(self.8.err(input@, SpecError::Pass(inner@)));
                        assert(soft_failure(self.8, input@));
                    }
                },
            },
        }
        self.9.parse(input)
    }
}

/// An ordered choice over a fixed group of 11 parsers with one output
/// type.
impl<'a, O, A: Parser<'a, O>, B: Parser<'a, O>, C: Parser<'a, O>, D: Parser<'a, O>, E: Parser<'a, O>, F: Parser<'a, O>, G: Parser<'a, O>, H: Parser<'a, O>, I: Parser<'a, O>, J: Parser<'a, O>, K: Parser<'a, O>> Branch<'a, O> for (A, B, C, D, E, F, G, H, I, J, K) {
    open spec fn branch_wf(&self) -> bool {
        &&& self.0.wf()
        &&& self.1.wf()
        &&& self.2.wf()
        &&& self.3.wf()
        &&& self.4.wf()
        &&& self.5.wf()
        &&& self.6.wf()
        &&& self.7.wf()
        &&& self.8.wf()
        &&& self.9.wf()
        &&& self.10.wf()
    }

    open spec fn branch_ok(&self, input: Seq<char>, out: O, rem: Seq<char>) -> bool {
        ||| self.0.ok(input, out, rem)
        ||| soft_failure(self.0, input) && ({
            ||| self.1.ok(input, out, rem)
            ||| soft_failure(self.1, input) && ({
                ||| self.2.ok(input, out, rem)
                ||| soft_failure(self.2, input) && ({
                    ||| self.3.ok(input, out, rem)
                    ||| soft_failure(self.3, input) && ({
                        ||| self.4.ok(input, out, rem)
                        ||| soft_failure(self.4, input) && ({
                            ||| self.5.ok(input, out, rem)
                            ||| soft_failure(self.5, input) && ({
                                ||| self.6.ok(input, out, rem)
                                ||| soft_failure(self.6, input) && ({
                                    ||| self.7.ok(input, out, rem)
                                    ||| soft_failure(self.7, input) && ({
                                        ||| self.8.ok(input, out, rem)
                                        ||| soft_failure(self.8, input) && ({
                                            ||| self.9.ok(input, out, rem)
                                            ||| soft_failure(self.9, input) && ({
                                                self.10.ok(input, out, rem)
                                            })
                                        })
                                    })
                                })
                            })
                        })
                    })
                })
            })
        })
    }

    open spec fn branch_err(&self, input: Seq<char>, e: SpecError) -> bool {
        ||| self.0.err(input, e) && e matches SpecError::Fail(_)
        ||| soft_failure(self.0, input) && ({
            ||| self.1.err(input, e) && e matches SpecError::Fail(_)
            ||| soft_failure(self.1, input) && ({
                ||| self.2.err(input, e) && e matches SpecError::Fail(_)
                ||| soft_failure(self.2, input) && ({
                    ||| self.3.err(input, e) && e matches SpecError::Fail(_)
                    ||| soft_failure(self.3, input) && ({
                        ||| self.4.err(input, e) && e matches SpecError::Fail(_)
                        ||| soft_failure(self.4, input) && ({
                            ||| self.5.err(input, e) && e matches SpecError::Fail(_)
                            ||| soft_failure(self.5, input) && ({
                                ||| self.6.err(input, e) && e matches SpecError::Fail(_)
                                ||| soft_failure(self.6, input) && ({
                                    ||| self.7.err(input, e) && e matches SpecError::Fail(_)
                                    ||| soft_failure(self.7, input) && ({
                                        ||| self.8.err(input, e) && e matches SpecError::Fail(_)
                                        ||| soft_failure(self.8, input) && ({
                                            ||| self.9.err(input, e) && e matches SpecError::Fail(_)
                                            ||| soft_failure(self.9, input) && ({
                                                self.10.err(input, e)
                                            })
                                        })
                                    })
                                })
                            })
                        })
                    })
                })
            })
        })
    }

    fn parse_branch(&self, input: &'a str) -> (r: Output<'a, O>) {
        match self.0.parse(input) {
            Ok(success) => {
                return Ok(success);
            },
            Err(e) => match e {
                Error::Fail(inner) => {
                    return Err(Error::Fail(inner));
                },
                Error::Pass(inner) => {
                    proof {
                        assert(self.0.err(input@, SpecError::Pass(inner@)));
                        assert(soft_failure(self.0, input@));
                    }
                },
            },
        }
        match self.1.parse(input) {
            Ok(success) => {
                return Ok(success);
            },
            Err(e) => match e {
                Error::Fail(inner) => {
                    return Err(Error::Fail(inner));
                },
                Error::Pass(inner) => {
                    proof {
                        assert(self.1.err(input@, SpecError::Pass(inner@)));
                        assert(soft_failure(self.1, input@));
                    }
                },
            },
        }
        match self.2.parse(input) {
            Ok(success) => {
                return Ok(success);
            },
            Err(e) => match e {
                Error::Fail(inner) => {
                    return Err(Error::Fail(inner));
                },
                Error::Pass(inner) => {
                    proof {
                        assert(self.2.err(input@, SpecError::Pass(inner@)));
                        assert(soft_failure(self.2, input@));
                    }
                },
            },
        }
        match self.3.parse(input) {
            Ok(success) => {
                return Ok(success);
            },
            Err(e) => match e {
                Error::Fail(inner) => {
                    return Err(Error::Fail(inner));
                },
                Error::Pass(inner) => {
                    proof {
                        assert(self.3.err(input@, SpecError::Pass(inner@)));
                        assert(soft_failure(self.3, input@));
                    }
                },
            },
        }
        match self.4.parse(input) {
            Ok(success) => {
                return Ok(success);
            },
            Err(e) => match e {
                Error::Fail(inner) => {
                    return Err(Error::Fail(inner));
                },
                Error::Pass(inner) => {
                    proof {
                        assert(self.4.err(input@, SpecError::Pass(inner@)));
                        assert(soft_failure(self.4, input@));
                    }
                },
            },
        }
        match self.5.parse(input) {
            Ok(success) => {
                return Ok(success);
            },
            Err(e) => match e {
                Error::Fail(inner) => {
                    return Err(Error::Fail(inner));
                },
                Error::Pass(inner) => {
                    proof {
                        assert(self.5.err(input@, SpecError::Pass(inner@)));
                        assert(soft_failure(self.5, input@));
                    }
                },
            },
        }
        match self.6.parse(input) {
            Ok(success) => {
                return Ok(success);
            },
            Err(e) => match e {
                Error::Fail(inner) => {
                    return Err(Error::Fail(inner));
                },
                Error::Pass(inner) => {
                    proof {
                        assert(self.6.err(input@, SpecError::Pass(inner@)));
                        assert(soft_failure(self.6, input@));
                    }
                },
            },
        }
        match self.7.parse(input) {
            Ok(success) => {
                return Ok(success);
            },
            Err(e) => match e {
                Error::Fail(inner) => {
                    return Err(Error::Fail(inner));
                },
                Error::Pass(inner) => {
                    proof {
                        assert(self.7.err(input@, SpecError::Pass(inner@)));
                        assert(soft_failure(self.7, input@));
                    }
                },
            },
        }
        match self.8.parse(input) {
            Ok(success) => {
                return Ok(success);
            },
            Err(e) => match e {
                Error::Fail(inner) => {
                    return Err(Error::Fail(inner));
                },
                Error::Pass(inner) => {
                    proof {
                        assert(self.8.err(input@, SpecError::Pass(inner@)));
                        assert(soft_failure(self.8, input@));
                    }
                },
            },
        }
        match self.9.parse(input) {
            Ok(success) => {
                return Ok(success);
            },
            Err(e) => match e {
                Error::Fail(inner) => {
                    return Err(Error::Fail(inner));
                },
                Error::Pass(inner) => {
                    proof {
                        assert(self.9.err(input@, SpecError::Pass(inner@)));
                        assert(soft_failure(self.9, input@));
                    }
                },
            },
        }
        self.10.parse(input)
    }
}

/// An ordered choice over a fixed group of 12 parsers with one output
/// type.
impl<'a, O, A: Parser<'a, O>, B: Parser<'a, O>, C: Parser<'a, O>, D: Parser<'a, O>, E: Parser<'a, O>, F: Parser<'a, O>, G: Parser<'a, O>, H: Parser<'a, O>, I: Parser<'a, O>, J: Parser<'a, O>, K: Parser<'a, O>, L: Parser<'a, O>> Branch<'a, O> for (A, B, C, D, E, F, G, H, I, J, K, L) {
    open spec fn branch_wf(&self) -> bool {
        &&& self.0.wf()
        &&& self.1.wf()
        &&& self.2.wf()
        &&& self.3.wf()
        &&& self.4.wf()
        &&& self.5.wf()
        &&& self.6.wf()
        &&& self.7.wf()
        &&& self.8.wf()
        &&& self.9.wf()
        &&& self.10.wf()
        &&& self.11.wf()
    }

    open spec fn branch_ok(&self, input: Seq<char>, out: O, rem: Seq<char>) -> bool {
        ||| self.0.ok(input, out, rem)
        ||| soft_failure(self.0, input) && ({
            ||| self.1.ok(input, out, rem)
            ||| soft_failure(self.1, input) && ({
                ||| self.2.ok(input, out, rem)
                ||| soft_failure(self.2, input) && ({
                    ||| self.3.ok(input, out, rem)
                    ||| soft_failure(self.3, input) && ({
                        ||| self.4.ok(input, out, rem)
                        ||| soft_failure(self.4, input) && ({
                            ||| self.5.ok(input, out, rem)
                            ||| soft_failure(self.5, input) && ({
                                ||| self.6.ok(input, out, rem)
                                ||| soft_failure(self.6, input) && ({
                                    ||| self.7.ok(input, out, rem)
                                    ||| soft_failure(self.7, input) && ({
                                        ||| self.8.ok(input, out, rem)
                                        ||| soft_failure(self.8, input) && ({
                                            ||| self.9.ok(input, out, rem)
                                            ||| soft_failure(self.9, input) && ({
                                                ||| self.10.ok(input, out, rem)
                                                ||| soft_failure(self.10, input) && ({
                                                    self.11.ok(input, out, rem)
                                                })
                                            })
                                        })
                                    })
                                })
                            })
                        })
                    })
                })
            })
        })
    }

    open spec fn branch_err(&self, input: Seq<char>, e: SpecError) -> bool {
        ||| self.0.err(input, e) && e matches SpecError::Fail(_)
        ||| soft_failure(self.0, input) && ({
            ||| self.1.err(input, e) && e matches SpecError::Fail(_)
            ||| soft_failure(self.1, input) && ({
                ||| self.2.err(input, e) && e matches SpecError::Fail(_)
                ||| soft_failure(self.2, input) && ({
                    ||| self.3.err(input, e) && e matches SpecError::Fail(_)
                    ||| soft_failure(self.3, input) && ({
                        ||| self.4.err(input, e) && e matches SpecError::Fail(_)
                        ||| soft_failure(self.4, input) && ({
                            ||| self.5.err(input, e) && e matches SpecError::Fail(_)
                            ||| soft_failure(self.5, input) && ({
                                ||| self.6.err(input, e) && e matches SpecError::Fail(_)
                                ||| soft_failure(self.6, input) && ({
                                    ||| self.7.err(input, e) && e matches SpecError::Fail(_)
                                    ||| soft_failure(self.7, input) && ({
                                        ||| self.8.err(input, e) && e matches SpecError::Fail(_)
                                        ||| soft_failure(self.8, input) && ({
                                            ||| self.9.err(input, e) && e matches SpecError::Fail(_)
                                            ||| soft_failure(self.9, input) && ({
                                                ||| self.10.err(input, e) && e matches SpecError::Fail(_)
                                                ||| soft_failure(self.10, input) && ({
                                                    self.11.err(input, e)
                                                })
                                            })
                                        })
                                    })
                                })
                            })
                        })
                    })
                })
            })
        })
    }

    fn parse_branch(&self, input: &'a str) -> (r: Output<'a, O>) {
        match self.0.parse(input) {
            Ok(success) => {
                return Ok(success);
            },
            Err(e) => match e {
                Error::Fail(inner) => {
                    return Err(Error::Fail(inner));
                },
                Error::Pass(inner) => {
                    proof {
                        assert(self.0.err(input@, SpecError::Pass(inner@)));
                        assert(soft_failure(self.0, input@));
                    }
                },
            },
        }
        match self.1.parse(input) {
            Ok(success) => {
                return Ok(success);
            },
            Err(e) => match e {
                Error::Fail(inner) => {
                    return Err(Error::Fail(inner));
                },
                Error::Pass(inner) => {
                    proof {
                        assert(self.1.err(input@, SpecError::Pass(inner@)));
                        assert(soft_failure(self.1, input@));
                    }
                },
            },
        }
        match self.2.parse(input) {
            Ok(success) => {
                return Ok(success);
            },
            Err(e) => match e {
                Error::Fail(inner) => {
                    return Err(Error::Fail(inner));
                },
                Error::Pass(inner) => {
                    proof {
                        assert(self.2.err(input@, SpecError::Pass(inner@)));
                        assert(soft_failure(self.2, input@));
                    }
                },
            },
        }
        match self.3.parse(input) {
            Ok(success) => {
                return Ok(success);
            },
            Err(e) => match e {
                Error::Fail(inner) => {
                    return Err(Error::Fail(inner));
                },
                Error::Pass(inner) => {
                    proof {
                        assert(self.3.err(input@, SpecError::Pass(inner@)));
                        assert(soft_failure(self.3, input@));
                    }
                },
            },
        }
        match self.4.parse(input) {
            Ok(success) => {
                return Ok(success);
            },
            Err(e) => match e {
                Error::Fail(inner) => {
                    return Err(Error::Fail(inner));
                },
                Error::Pass(inner) => {
                    proof {
                        assert(self.4.err(input@, SpecError::Pass(inner@)));
                        assert(soft_failure(self.4, input@));
                    }
                },
            },
        }
        match self.5.parse(input) {
            Ok(success) => {
                return Ok(success);
            },
            Err(e) => match e {
                Error::Fail(inner) => {
                    return Err(Error::Fail(inner));
                },
                Error::Pass(inner) => {
                    proof {
                        assert(self.5.err(input@, SpecError::Pass(inner@)));
                        assert(soft_failure(self.5, input@));
                    }
                },
            },
        }
        match self.6.parse(input) {
            Ok(success) => {
                return Ok(success);
            },
            Err(e) => match e {
                Error::Fail(inner) => {
                    return Err(Error::Fail(inner));
                },
                Error::Pass(inner) => {
                    proof {
                        assert(self.6.err(input@, SpecError::Pass(inner@)));
                        assert(soft_failure(self.6, input@));
                    }
                },
            },
        }
        match self.7.parse(input) {
            Ok(success) => {
                return Ok(success);
            },
            Err(e) => match e {
                Error::Fail(inner) => {
                    return Err(Error::Fail(inner));
                },
                Error::Pass(inner) => {
                    proof {
                        assert(self.7.err(input@, SpecError::Pass(inner@)));
                        assert(soft_failure(self.7, input@));
                    }
                },
            },
        }
        match self.8.parse(input) {
            Ok(success) => {
                return Ok(success);
            },
            Err(e) => match e {
                Error::Fail(inner) => {
                    return Err(Error::Fail(inner));
                },
                Error::Pass(inner) => {
                    proof {
                        assert(self.8.err(input@, SpecError::Pass(inner@)));
                        assert(soft_failure(self.8, input@));
                    }
                },
            },
        }
        match self.9.parse(input) {
            Ok(success) => {
                return Ok(success);
            },
            Err(e) => match e {
                Error::Fail(inner) => {
                    return Err(Error::Fail(inner));
                },
                Error::Pass(inner) => {
                    proof {
                        assert(self.9.err(input@, SpecError::Pass(inner@)));
                        assert(soft_failure(self.9, input@));
                    }
                },
            },
        }
        match self.10.parse(input) {
            Ok(success) => {
                return Ok(success);
            },
            Err(e) => match e {
                Error::Fail(inner) => {
                    return Err(Error::Fail(inner));
                },
                Error::Pass(inner) => {
                    proof {
                        assert(self.10.err(input@, SpecError::Pass(inner@)));
                        assert(soft_failure(self.10, input@));
                    }
                },
            },
        }
        self.11.parse(input)
    }
}

} // verus!
