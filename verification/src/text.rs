//! A character-cursor input over text, and primitive parsers on it.
//!
//! `TextInput` is a borrowed piece of text together with a position; parsers
//! consume characters by advancing the position. `ExpectChar` matches one
//! expected character, and `Fail` always fails, recoverably or fatally —
//! between them they give grammars their leaves and make every combinator
//! behaviour reachable.

use vstd::prelude::*;
use vstd::string::*;
use crate::monoid_parser::{ParseErr, ParseInput, Parser};

verus! {

/// An input cursor over borrowed text: the characters of `text` from
/// position `pos` on are still to be read.
#[derive(Debug, Clone, Copy, PartialEq, Eq)]
pub struct TextInput<'a> {
    /// The whole text being parsed.
    pub text: &'a str,
    /// How many characters of the text have been consumed.
    pub pos: usize,
}

impl<'a> TextInput<'a> {
    /// The characters still to be read.
    pub open spec fn remaining(&self) -> Seq<char> {
        if self.pos <= self.text@.len() {
            self.text@.subrange(self.pos as int, self.text@.len() as int)
        } else {
            Seq::empty()
        }
    }

    /// A cursor at the start of the given text.
    pub fn new(text: &'a str) -> (r: TextInput<'a>)
        ensures
            r == (TextInput { text, pos: 0 }),
    {
        TextInput { text, pos: 0 }
    }
}

impl<'a> ParseInput for TextInput<'a> {
    open spec fn spec_len(&self) -> nat {
        if self.pos <= self.text@.len() {
            (self.text@.len() - self.pos) as nat
        } else {
            0
        }
    }

    fn input_len(&self) -> (n: usize) {
        let total = self.text.unicode_len();
        if self.pos <= total {
            total - self.pos
        } else {
            0
        }
    }
}

/// Match one expected character, producing it as text; on any other
/// character, or at the end of the input, fail recoverably with the given
/// error code without consuming anything.
#[derive(Debug, Clone, Copy, PartialEq, Eq)]
pub struct ExpectChar {
    /// The character this parser matches.
    pub expected: char,
    /// The error code given on a failed match.
    pub code: u64,
}

impl<'a> Parser<TextInput<'a>, String, u64> for ExpectChar {
    open spec fn spec_parse(&self, input: TextInput<'a>) -> Result<
        (TextInput<'a>, Seq<char>),
        ParseErr<u64>,
    > {
        if input.pos < input.text@.len() && input.text@[input.pos as int] == self.expected {
            Result::Ok(
                (
                    TextInput { text: input.text, pos: (input.pos + 1) as usize },
                    seq![self.expected],
                ),
            )
        } else {
            Result::Err(ParseErr::Recoverable(self.code))
        }
    }

    fn parse(&self, input: TextInput<'a>) -> (r: Result<
        (TextInput<'a>, String),
        ParseErr<u64>,
    >) {
        let total = input.text.unicode_len();
        if input.pos < total {
            let c = input.text.get_char(input.pos);
            if c == self.expected {
                let piece = input.text.substring_char(input.pos, input.pos + 1);
                proof {
                    assert(piece@ =~= seq![self.expected]);
                }
                return Result::Ok(
                    (TextInput { text: input.text, pos: input.pos + 1 }, piece.to_owned()),
                );
            }
        }
        Result::Err(ParseErr::Recoverable(self.code))
    }
}

/// Always fail with the given error code, recoverably or fatally, consuming
/// nothing.
#[derive(Debug, Clone, Copy, PartialEq, Eq)]
pub struct Fail {
    /// The error code to fail with.
    pub code: u64,
    /// Whether the failure is fatal rather than recoverable.
    pub fatal: bool,
}

impl<'a> Parser<TextInput<'a>, String, u64> for Fail {
    open spec fn spec_parse(&self, input: TextInput<'a>) -> Result<
        (TextInput<'a>, Seq<char>),
        ParseErr<u64>,
    > {
        if self.fatal {
            Result::Err(ParseErr::Fatal(self.code))
        } else {
            Result::Err(ParseErr::Recoverable(self.code))
        }
    }

    fn parse(&self, input: TextInput<'a>) -> (r: Result<
        (TextInput<'a>, String),
        ParseErr<u64>,
    >) {
        if self.fatal {
            Result::Err(ParseErr::Fatal(self.code))
        } else {
            Result::Err(ParseErr::Recoverable(self.code))
        }
    }
}

} // verus!
