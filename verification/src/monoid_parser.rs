//! Parser combinators over parsers whose outputs are combinable values.
//!
//! A parser reads an input cursor and either succeeds with the remaining
//! input and an output, or fails. Failures are either recoverable — nothing
//! irrevocable happened, an alternative may be tried — or fatal, in which
//! case every combinator propagates the failure unchanged. The combinators
//! here sequence (`then`), make optional (`opt`), repeat (`many0`, `many1`)
//! and flatten (`flatten`) inner parsers, folding their outputs with the
//! `Monoid` operations.

use vstd::prelude::*;
use crate::monoid::{concat, concat_models, seq_models, Monoid};

verus! {

/// A parse failure, in one of the two kinds that flow through the
/// combinators.
#[derive(Debug, PartialEq, Eq, Clone, Copy)]
pub enum ParseErr<E> {
    /// This alternative did not match and nothing changed irrevocably;
    /// a combinator may recover from it.
    Recoverable(E),
    /// Parsing must stop; every combinator propagates this unchanged.
    Fatal(E),
}

/// An input cursor that knows how many items are left to read.
///
/// The remaining length is what the repetition combinators use to guard
/// against looping forever on a parser that matches without consuming input.
pub trait ParseInput: Copy + Sized {
    /// The number of items left to read.
    spec fn spec_len(&self) -> nat;

    /// The number of items left to read.
    fn input_len(&self) -> (n: usize)
        ensures
            n as nat == self.spec_len(),
    ;
}

/// Whether an executable parse result agrees with a described one: same
/// success or failure, the same remaining input and error, and an output
/// whose model is the described model.
pub open spec fn parse_result_matches<I, O: Monoid, E>(
    r: Result<(I, O), ParseErr<E>>,
    m: Result<(I, O::Model), ParseErr<E>>,
) -> bool {
    match (r, m) {
        (Result::Ok((i1, o)), Result::Ok((i2, om))) => i1 == i2 && o.model() == om,
        (Result::Err(e1), Result::Err(e2)) => e1 == e2,
        _ => false,
    }
}

/// A parser over input `I`, producing a combinable output `O` or an error
/// `E`.
///
/// Parsers are pure: `spec_parse` describes the one result a parser gives on
/// an input, and `parse` must agree with it. A parser either succeeds with
/// the remaining input and an output, or fails recoverably or fatally.
pub trait Parser<I, O, E>: Sized where O: Monoid {
    /// The result of this parser on an input: the remaining input and the
    /// output's model on success, or the error on failure.
    spec fn spec_parse(&self, input: I) -> Result<(I, O::Model), ParseErr<E>>;

    /// Run the parser on an input.
    fn parse(&self, input: I) -> (r: Result<(I, O), ParseErr<E>>)
        ensures
            parse_result_matches(r, self.spec_parse(input)),
    ;
}

/// Parse with `p1`, then with `p2` on the remaining input, and `combine`
/// their outputs. Either sub-parser's failure propagates unchanged.
pub struct Then<P1, P2> {
    /// The first parser.
    pub p1: P1,
    /// The second parser.
    pub p2: P2,
}

impl<P1, P2, I, O, E> Parser<I, O, E> for Then<P1, P2> where
    P1: Parser<I, O, E>,
    P2: Parser<I, O, E>,
    O: Monoid,
 {
    open spec fn spec_parse(&self, input: I) -> Result<(I, O::Model), ParseErr<E>> {
        match self.p1.spec_parse(input) {
            Result::Ok((mid, m1)) => match self.p2.spec_parse(mid) {
                Result::Ok((rest, m2)) => Result::Ok((rest, O::combine_model(m1, m2))),
                Result::Err(e) => Result::Err(e),
            },
            Result::Err(e) => Result::Err(e),
        }
    }

    fn parse(&self, input: I) -> (r: Result<(I, O), ParseErr<E>>) {
        match self.p1.parse(input) {
            Result::Ok((mid, o1)) => match self.p2.parse(mid) {
                Result::Ok((rest, o2)) => Result::Ok((rest, o1.combine(o2))),
                Result::Err(e) => Result::Err(e),
            },
            Result::Err(e) => Result::Err(e),
        }
    }
}

/// Parse with `p1`; on success give its output, and on a recoverable failure
/// succeed with `unit` leaving the input unconsumed. A fatal failure
/// propagates unchanged: `opt` never masks fatal errors.
pub struct Opt<P1> {
    /// The inner parser.
    pub p1: P1,
}

impl<P1, I, O, E> Parser<I, O, E> for Opt<P1> where P1: Parser<I, O, E>, I: Copy, O: Monoid {
    open spec fn spec_parse(&self, input: I) -> Result<(I, O::Model), ParseErr<E>> {
        match self.p1.spec_parse(input) {
            Result::Ok(r) => Result::Ok(r),
            Result::Err(ParseErr::Recoverable(_)) => Result::Ok((input, O::unit_model())),
            Result::Err(ParseErr::Fatal(e)) => Result::Err(ParseErr::Fatal(e)),
        }
    }

    fn parse(&self, input: I) -> (r: Result<(I, O), ParseErr<E>>) {
        match self.p1.parse(input) {
            Result::Ok(r) => Result::Ok(r),
            Result::Err(ParseErr::Recoverable(_)) => Result::Ok((input, O::unit())),
            Result::Err(ParseErr::Fatal(e)) => Result::Err(ParseErr::Fatal(e)),
        }
    }
}

/// The result of running `p` repeatedly from `input`, folding each output
/// onto `acc` with `combine`: repetition stops with the fold so far when `p`
/// fails recoverably, or as soon as a match leaves the input position
/// unadvanced; a fatal failure propagates, discarding the fold.
pub open spec fn many_spec<P1, I, O, E>(p: P1, input: I, acc: O::Model) -> Result<
    (I, O::Model),
    ParseErr<E>,
> where P1: Parser<I, O, E>, I: ParseInput, O: Monoid
    decreases input.spec_len(),
{
    match p.spec_parse(input) {
        Result::Err(ParseErr::Recoverable(_)) => Result::Ok((input, acc)),
        Result::Err(ParseErr::Fatal(e)) => Result::Err(ParseErr::Fatal(e)),
        Result::Ok((rest, m)) => if rest.spec_len() < input.spec_len() {
            many_spec::<P1, I, O, E>(p, rest, O::combine_model(acc, m))
        } else {
            Result::Ok((rest, O::combine_model(acc, m)))
        },
    }
}

/// Run `p` repeatedly from `input`, folding the outputs onto `acc`, as
/// `many_spec` describes. The loop is iterative, so the recursion depth does
/// not grow with the input length.
#[verifier::loop_isolation(false)]
fn parse_repeated<P1, I, O, E>(p: &P1, input: I, acc: O) -> (r: Result<(I, O), ParseErr<E>>) where
    P1: Parser<I, O, E>,
    I: ParseInput,
    O: Monoid,

    ensures
        parse_result_matches(r, many_spec::<P1, I, O, E>(*p, input, acc.model())),
{
    let ghost target: Result<(I, O::Model), ParseErr<E>> = many_spec::<P1, I, O, E>(
        *p,
        input,
        acc.model(),
    );
    let mut cur = input;
    let mut acc = acc;
    loop
        invariant
            many_spec::<P1, I, O, E>(*p, cur, acc.model()) == target,
        decreases cur.spec_len(),
    {
        match p.parse(cur) {
            Result::Err(ParseErr::Recoverable(_)) => {
                return Result::Ok((cur, acc));
            },
            Result::Err(ParseErr::Fatal(e)) => {
                return Result::Err(ParseErr::Fatal(e));
            },
            Result::Ok((rest, o)) => {
                let stop = rest.input_len() >= cur.input_len();
                acc = acc.combine(o);
                if stop {
                    return Result::Ok((rest, acc));
                }
                cur = rest;
            },
        }
    }
}

/// Run `p1` repeatedly until it fails recoverably or the input position
/// fails to advance, and fold all the outputs with `concat`. Zero matches is
/// a success yielding `unit`; a fatal failure propagates, discarding any
/// partial fold.
pub struct Many0<P1> {
    /// The repeated parser.
    pub p1: P1,
}

impl<P1, I, O, E> Parser<I, O, E> for Many0<P1> where
    P1: Parser<I, O, E>,
    I: ParseInput,
    O: Monoid,
 {
    open spec fn spec_parse(&self, input: I) -> Result<(I, O::Model), ParseErr<E>> {
        many_spec::<P1, I, O, E>(self.p1, input, O::unit_model())
    }

    fn parse(&self, input: I) -> (r: Result<(I, O), ParseErr<E>>) {
        parse_repeated(&self.p1, input, O::unit())
    }
}

/// The same as `Many0`, but at least one match is required: a recoverable
/// failure on the first attempt is surfaced as the composite's failure
/// rather than masked.
pub struct Many1<P1> {
    /// The repeated parser.
    pub p1: P1,
}

impl<P1, I, O, E> Parser<I, O, E> for Many1<P1> where
    P1: Parser<I, O, E>,
    I: ParseInput,
    O: Monoid,
 {
    open spec fn spec_parse(&self, input: I) -> Result<(I, O::Model), ParseErr<E>> {
        match self.p1.spec_parse(input) {
            Result::Err(e) => Result::Err(e),
            Result::Ok((rest, m)) => if rest.spec_len() < input.spec_len() {
                many_spec::<P1, I, O, E>(self.p1, rest, m)
            } else {
                Result::Ok((rest, m))
            },
        }
    }

    fn parse(&self, input: I) -> (r: Result<(I, O), ParseErr<E>>) {
        match self.p1.parse(input) {
            Result::Err(e) => Result::Err(e),
            Result::Ok((rest, o)) => {
                if rest.input_len() < input.input_len() {
                    parse_repeated(&self.p1, rest, o)
                } else {
                    Result::Ok((rest, o))
                }
            },
        }
    }
}

/// The outputs collected by running `p` repeatedly from `input`, appended to
/// `acc`: collection stops when `p` fails recoverably, or as soon as a match
/// leaves the input position unadvanced; a fatal failure propagates,
/// discarding the collected outputs.
pub open spec fn repeat_spec<P1, I, O, E>(p: P1, input: I, acc: Seq<O::Model>) -> Result<
    (I, Seq<O::Model>),
    ParseErr<E>,
> where P1: Parser<I, O, E>, I: ParseInput, O: Monoid
    decreases input.spec_len(),
{
    match p.spec_parse(input) {
        Result::Err(ParseErr::Recoverable(_)) => Result::Ok((input, acc)),
        Result::Err(ParseErr::Fatal(e)) => Result::Err(ParseErr::Fatal(e)),
        Result::Ok((rest, m)) => if rest.spec_len() < input.spec_len() {
            repeat_spec::<P1, I, O, E>(p, rest, acc.push(m))
        } else {
            Result::Ok((rest, acc.push(m)))
        },
    }
}

/// Run `p1` repeatedly until it fails recoverably or the input position
/// fails to advance, and give all the outputs, uncombined, in a vector.
///
/// This is the engine-level repetition helper: `flatten` adapts its output
/// into a single combined value.
pub struct Repeat<P1> {
    /// The repeated parser.
    pub p1: P1,
}

impl<P1, I, O, E> Parser<I, Vec<O>, E> for Repeat<P1> where
    P1: Parser<I, O, E>,
    I: ParseInput,
    O: Monoid,
 {
    open spec fn spec_parse(&self, input: I) -> Result<(I, Seq<O::Model>), ParseErr<E>> {
        repeat_spec::<P1, I, O, E>(self.p1, input, Seq::empty())
    }

    #[verifier::loop_isolation(false)]
    fn parse(&self, input: I) -> (r: Result<(I, Vec<O>), ParseErr<E>>) {
        let mut cur = input;
        let mut items: Vec<O> = Vec::new();
        proof {
            assert(seq_models::<O>(items@) =~= Seq::<O::Model>::empty());
        }
        loop
            invariant
                repeat_spec::<P1, I, O, E>(self.p1, cur, seq_models(items@)) == repeat_spec::<
                    P1,
                    I,
                    O,
                    E,
                >(self.p1, input, Seq::empty()),
            decreases cur.spec_len(),
        {
            match self.p1.parse(cur) {
                Result::Err(ParseErr::Recoverable(_)) => {
                    return Result::Ok((cur, items));
                },
                Result::Err(ParseErr::Fatal(e)) => {
                    return Result::Err(ParseErr::Fatal(e));
                },
                Result::Ok((rest, o)) => {
                    let stop = rest.input_len() >= cur.input_len();
                    proof {
                        assert(seq_models::<O>(items@.push(o)) =~= seq_models::<O>(
                            items@,
                        ).push(o.model()));
                    }
                    items.push(o);
                    if stop {
                        return Result::Ok((rest, items));
                    }
                    cur = rest;
                },
            }
        }
    }
}

/// Adapt a parser whose output is a vector of combinable elements into a
/// parser whose output is the single value folded from them with `concat`.
pub struct Flatten<P1> {
    /// The inner parser, producing a vector of combinable outputs.
    pub p1: P1,
}

impl<P1, I, O, E> Parser<I, O, E> for Flatten<P1> where P1: Parser<I, Vec<O>, E>, O: Monoid {
    open spec fn spec_parse(&self, input: I) -> Result<(I, O::Model), ParseErr<E>> {
        match self.p1.spec_parse(input) {
            Result::Ok((rest, ms)) => Result::Ok((rest, concat_models::<O>(ms))),
            Result::Err(e) => Result::Err(e),
        }
    }

    fn parse(&self, input: I) -> (r: Result<(I, O), ParseErr<E>>) {
        match self.p1.parse(input) {
            Result::Ok((rest, items)) => Result::Ok((rest, concat(items))),
            Result::Err(e) => Result::Err(e),
        }
    }
}

/// Borrow a parser so it can be handed to a combinator without giving up
/// ownership of the original parser value.
pub struct ByRef<'a, P1> {
    /// The borrowed parser.
    pub p1: &'a P1,
}

/// Wrap a borrow of a parser as a parser, so the original can be reused.
pub fn by_ref<'a, P1>(p1: &'a P1) -> (r: ByRef<'a, P1>)
    ensures
        r == (ByRef { p1 }),
{
    ByRef { p1 }
}

impl<'a, P1, I, O, E> Parser<I, O, E> for ByRef<'a, P1> where P1: Parser<I, O, E>, O: Monoid {
    open spec fn spec_parse(&self, input: I) -> Result<(I, O::Model), ParseErr<E>> {
        self.p1.spec_parse(input)
    }

    fn parse(&self, input: I) -> (r: Result<(I, O), ParseErr<E>>) {
        self.p1.parse(input)
    }
}

/// Helper methods on parsers that produce combinable values: each consumes
/// the parser and builds the corresponding combinator around it.
pub trait MonoidParser<I, O, E>: Sized where O: Monoid {
    /// Parse with `self`, then with `p2`, and `combine` their outputs.
    fn then<P2>(self, p2: P2) -> (r: Then<Self, P2>)
        ensures
            r == (Then { p1: self, p2 }),
    {
        Then { p1: self, p2 }
    }

    /// Parse with `self`, recovering with `unit` from a recoverable failure.
    fn opt(self) -> (r: Opt<Self>)
        ensures
            r == (Opt { p1: self }),
    {
        Opt { p1: self }
    }

    /// Parse with `self` zero or more times, folding the outputs.
    fn many0(self) -> (r: Many0<Self>)
        ensures
            r == (Many0 { p1: self }),
    {
        Many0 { p1: self }
    }

    /// Parse with `self` one or more times, folding the outputs.
    fn many1(self) -> (r: Many1<Self>)
        ensures
            r == (Many1 { p1: self }),
    {
        Many1 { p1: self }
    }

    /// Fold the vector of outputs of `self` into one value with `concat`.
    fn flatten(self) -> (r: Flatten<Self>)
        ensures
            r == (Flatten { p1: self }),
    {
        Flatten { p1: self }
    }
}

impl<P, I, O, E> MonoidParser<I, O, E> for P where P: Parser<I, O, E>, O: Monoid {

}

/// The fold threaded by `many_spec` agrees with the collection threaded by
/// `repeat_spec`, whenever the fold so far is the `concat` of the outputs
/// collected so far.
proof fn lemma_many_agrees_with_repeat<P1, I, O, E>(
    p: P1,
    input: I,
    acc_m: O::Model,
    acc_s: Seq<O::Model>,
) where P1: Parser<I, O, E>, I: ParseInput, O: Monoid
    requires
        acc_m == concat_models::<O>(acc_s),
    ensures
        many_spec::<P1, I, O, E>(p, input, acc_m) == (match repeat_spec::<P1, I, O, E>(
            p,
            input,
            acc_s,
        ) {
            Result::Ok((rest, ms)) => Result::Ok((rest, concat_models::<O>(ms))),
            Result::Err(e) => Result::Err(e),
        }),
    decreases input.spec_len(),
{
    match p.spec_parse(input) {
        Result::Err(_) => {},
        Result::Ok((rest, m)) => {
            assert(acc_s.push(m).drop_last() =~= acc_s);
            assert(O::combine_model(acc_m, m) == concat_models::<O>(acc_s.push(m)));
            if rest.spec_len() < input.spec_len() {
                lemma_many_agrees_with_repeat::<P1, I, O, E>(
                    p,
                    rest,
                    O::combine_model(acc_m, m),
                    acc_s.push(m),
                );
            }
        },
    }
}

/// Law: `many0` is `flatten` over the engine-level repetition: repeating a
/// parser and folding each output as it comes gives the same result as
/// collecting all the outputs with `Repeat` and folding them with `concat`.
pub proof fn lemma_many0_flattens_repeat<P1, I, O, E>(p: P1, input: I) where
    P1: Parser<I, O, E>,
    I: ParseInput,
    O: Monoid,

    ensures
        (Many0 { p1: p }).spec_parse(input) == (Flatten { p1: Repeat { p1: p } }).spec_parse(
            input,
        ),
{
    lemma_many_agrees_with_repeat::<P1, I, O, E>(p, input, O::unit_model(), Seq::empty());
}

/// Law: `many1` is `many0` with at least one match required: whenever the
/// inner parser's first attempt succeeds, the two give the same result.
pub proof fn lemma_many1_agrees_with_many0_on_success<P1, I, O, E>(p: P1, input: I) where
    P1: Parser<I, O, E>,
    I: ParseInput,
    O: Monoid,

    requires
        p.spec_parse(input) is Ok,
    ensures
        (Many1 { p1: p }).spec_parse(input) == (Many0 { p1: p }).spec_parse(input),
{
    let (rest, m) = p.spec_parse(input)->Ok_0;
    O::lemma_unit_left(m);
}

/// Law: a parser that fails recoverably on an input, wrapped in `opt`,
/// succeeds on that input with `unit` and the input unconsumed.
pub proof fn lemma_opt_recovers<P1, I, O, E>(p: P1, input: I, e: E) where
    P1: Parser<I, O, E>,
    I: Copy,
    O: Monoid,

    requires
        p.spec_parse(input) == Result::<(I, O::Model), ParseErr<E>>::Err(ParseErr::Recoverable(e)),
    ensures
        (Opt { p1: p }).spec_parse(input) == Result::<(I, O::Model), ParseErr<E>>::Ok((
            input,
            O::unit_model(),
        )),
{
}

/// Law: a parser that fails recoverably on an input, wrapped in `many0`,
/// succeeds on that input with zero matches: the result is `unit` and the
/// input is unconsumed.
pub proof fn lemma_many0_zero_matches<P1, I, O, E>(p: P1, input: I, e: E) where
    P1: Parser<I, O, E>,
    I: ParseInput,
    O: Monoid,

    requires
        p.spec_parse(input) == Result::<(I, O::Model), ParseErr<E>>::Err(ParseErr::Recoverable(e)),
    ensures
        (Many0 { p1: p }).spec_parse(input) == Result::<(I, O::Model), ParseErr<E>>::Ok((
            input,
            O::unit_model(),
        )),
{
}

/// Law: a parser that fails recoverably on an input, wrapped in `many1`,
/// fails on that input, surfacing the original recoverable failure unchanged.
pub proof fn lemma_many1_zero_matches<P1, I, O, E>(p: P1, input: I, e: E) where
    P1: Parser<I, O, E>,
    I: ParseInput,
    O: Monoid,

    requires
        p.spec_parse(input) == Result::<(I, O::Model), ParseErr<E>>::Err(ParseErr::Recoverable(e)),
    ensures
        (Many1 { p1: p }).spec_parse(input) == Result::<(I, O::Model), ParseErr<E>>::Err(
            ParseErr::Recoverable(e),
        ),
{
}

/// Law: a parser that fails fatally on an input still reports that fatal
/// failure, unchanged, when wrapped in `opt`, `many0`, `many1` or `then`:
/// no combinator masks a fatal error.
pub proof fn lemma_fatal_propagates<P1, P2, I, O, E>(p: P1, q: P2, input: I, e: E) where
    P1: Parser<I, O, E>,
    P2: Parser<I, O, E>,
    I: ParseInput,
    O: Monoid,

    requires
        p.spec_parse(input) == Result::<(I, O::Model), ParseErr<E>>::Err(ParseErr::Fatal(e)),
    ensures
        (Opt { p1: p }).spec_parse(input) == Result::<(I, O::Model), ParseErr<E>>::Err(
            ParseErr::Fatal(e),
        ),
        (Many0 { p1: p }).spec_parse(input) == Result::<(I, O::Model), ParseErr<E>>::Err(
            ParseErr::Fatal(e),
        ),
        (Many1 { p1: p }).spec_parse(input) == Result::<(I, O::Model), ParseErr<E>>::Err(
            ParseErr::Fatal(e),
        ),
        (Then { p1: p, p2: q }).spec_parse(input) == Result::<(I, O::Model), ParseErr<E>>::Err(
            ParseErr::Fatal(e),
        ),
{
}

} // verus!
