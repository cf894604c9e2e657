//! Behaviour of the parser combinators over concrete text inputs: sequencing,
//! optionality, repetition, flattening, and the recoverable/fatal error
//! distinction.

use monoidal::monoid_parser::{by_ref, MonoidParser, ParseErr, ParseInput, Parser, Repeat};
use monoidal::text::{ExpectChar, Fail, TextInput};

fn ch(c: char, code: u64) -> ExpectChar {
    ExpectChar { expected: c, code }
}

fn recoverable(code: u64) -> Fail {
    Fail { code, fatal: false }
}

fn fatal(code: u64) -> Fail {
    Fail { code, fatal: true }
}

#[test]
fn expect_char_matches() {
    let input = TextInput::new("ab");
    let (rest, out) = ch('a', 1).parse(input).unwrap();
    assert_eq!(out, "a");
    assert_eq!(rest.pos, 1);
    assert_eq!(rest.input_len(), 1);
}

#[test]
fn expect_char_mismatch_is_recoverable() {
    let input = TextInput::new("ba");
    assert_eq!(ch('a', 5).parse(input), Err(ParseErr::Recoverable(5)));
}

#[test]
fn expect_char_at_end_is_recoverable() {
    let input = TextInput::new("");
    assert_eq!(ch('a', 5).parse(input), Err(ParseErr::Recoverable(5)));
}

#[test]
fn then_combines_both_outputs() {
    let p = ch('a', 1).then(ch('b', 2));
    let (rest, out) = p.parse(TextInput::new("ab")).unwrap();
    assert_eq!(out, "ab");
    assert_eq!(rest.input_len(), 0);
}

#[test]
fn then_propagates_first_failure() {
    let p = ch('a', 1).then(ch('b', 2));
    assert_eq!(p.parse(TextInput::new("xb")), Err(ParseErr::Recoverable(1)));
}

#[test]
fn then_propagates_second_failure() {
    let p = ch('a', 1).then(ch('b', 2));
    assert_eq!(p.parse(TextInput::new("ax")), Err(ParseErr::Recoverable(2)));
}

#[test]
fn opt_on_recoverable_failure_gives_unit() {
    let p = recoverable(7).opt();
    let (rest, out) = p.parse(TextInput::new("anything")).unwrap();
    assert_eq!(out, "");
    assert_eq!(rest.pos, 0);
    assert_eq!(rest.input_len(), 8);
}

#[test]
fn opt_on_success_gives_the_output() {
    let p = ch('a', 1).opt();
    let (rest, out) = p.parse(TextInput::new("ab")).unwrap();
    assert_eq!(out, "a");
    assert_eq!(rest.pos, 1);
}

#[test]
fn many0_zero_matches_succeeds_with_unit() {
    let p = recoverable(7).many0();
    let (rest, out) = p.parse(TextInput::new("abc")).unwrap();
    assert_eq!(out, "");
    assert_eq!(rest.pos, 0);
}

#[test]
fn many0_folds_all_matches() {
    let p = ch('a', 1).many0();
    let (rest, out) = p.parse(TextInput::new("aaab")).unwrap();
    assert_eq!(out, "aaa");
    assert_eq!(rest.pos, 3);
}

#[test]
fn many1_zero_matches_surfaces_the_failure() {
    let p = recoverable(9).many1();
    assert_eq!(
        p.parse(TextInput::new("abc")),
        Err(ParseErr::Recoverable(9))
    );
}

#[test]
fn many1_folds_all_matches() {
    let p = ch('a', 1).many1();
    let (rest, out) = p.parse(TextInput::new("aab")).unwrap();
    assert_eq!(out, "aa");
    assert_eq!(rest.pos, 2);
}

#[test]
fn many1_needs_only_one_match() {
    let p = ch('a', 1).many1();
    let (rest, out) = p.parse(TextInput::new("ab")).unwrap();
    assert_eq!(out, "a");
    assert_eq!(rest.pos, 1);
}

#[test]
fn fatal_propagates_through_opt() {
    let p = fatal(3).opt();
    assert_eq!(p.parse(TextInput::new("ab")), Err(ParseErr::Fatal(3)));
}

#[test]
fn fatal_propagates_through_many0() {
    let p = fatal(3).many0();
    assert_eq!(p.parse(TextInput::new("ab")), Err(ParseErr::Fatal(3)));
}

#[test]
fn fatal_propagates_through_many1() {
    let p = fatal(3).many1();
    assert_eq!(p.parse(TextInput::new("ab")), Err(ParseErr::Fatal(3)));
}

#[test]
fn fatal_propagates_through_then() {
    let p = fatal(3).then(ch('a', 1));
    assert_eq!(p.parse(TextInput::new("ab")), Err(ParseErr::Fatal(3)));
}

#[test]
fn repeat_collects_uncombined_outputs() {
    let p = Repeat { p1: ch('a', 1) };
    let (rest, out) = p.parse(TextInput::new("aab")).unwrap();
    assert_eq!(out, vec!["a".to_string(), "a".to_string()]);
    assert_eq!(rest.pos, 2);
}

#[test]
fn flatten_folds_collected_outputs() {
    let p = Repeat { p1: ch('a', 1) }.flatten();
    let (rest, out) = p.parse(TextInput::new("aaab")).unwrap();
    assert_eq!(out, "aaa");
    assert_eq!(rest.pos, 3);
}

#[test]
fn flatten_on_zero_matches_gives_unit() {
    let p = Repeat { p1: ch('a', 1) }.flatten();
    let (rest, out) = p.parse(TextInput::new("b")).unwrap();
    assert_eq!(out, "");
    assert_eq!(rest.pos, 0);
}

#[test]
fn by_ref_leaves_the_parser_reusable() {
    let p = ch('a', 1);
    let seq_p = by_ref(&p).then(by_ref(&p));
    let (rest, out) = seq_p.parse(TextInput::new("aa")).unwrap();
    assert_eq!(out, "aa");
    assert_eq!(rest.input_len(), 0);
    let (_, again) = p.parse(TextInput::new("a")).unwrap();
    assert_eq!(again, "a");
}

#[test]
fn input_len_counts_remaining_characters() {
    let input = TextInput::new("abc");
    assert_eq!(input.input_len(), 3);
    let (rest, _) = ch('a', 1).parse(input).unwrap();
    assert_eq!(rest.input_len(), 2);
}
