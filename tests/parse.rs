use ast_toolkit2::parsable::parse;
use ast_toolkit2::repeat::Error as RepeatError;
use ast_toolkit2::{CopiedStream, Expects, Loc, Needed, NibbleError, OptionFormatter, ParseStream, Parsable, ResultExt, VecFormatter};

/// A decimal digit, for exercising the composite parsers.
#[derive(Debug, Eq, PartialEq)]
struct Digit(u8);

/// An `x` where a digit should be: recognized, but illegal.
#[derive(Debug, Eq, PartialEq)]
struct BadDigit(u64);

impl Parsable<u8> for Digit {
    type Formatter = &'static str;
    type Error = BadDigit;

    fn expects() -> &'static str { "a digit" }

    fn parse<S: ParseStream<Elem = u8>>(input: S) -> Result<(Self, S), NibbleError<&'static str, BadDigit>> {
        match input.next() {
            None => Err(NibbleError::Unmatched("a digit", Some(Needed::Bounded(1, 1)))),
            Some((rem, _, b)) if b.is_ascii_digit() => Ok((Digit(b - b'0'), rem)),
            Some((_, loc, b'x')) => Err(NibbleError::Error(BadDigit(loc.start()))),
            Some(_) => Err(NibbleError::Unmatched("a digit", None)),
        }
    }
}

#[test]
fn repetition_of_zero_matches() {
    let input = CopiedStream::new(1, b"ab".as_slice());
    let (digits, rem) = Vec::<Digit>::parse(input).unwrap();
    assert!(digits.is_empty());
    assert_eq!(rem, input);

    let empty = CopiedStream::new(1, b"".as_slice());
    assert_eq!(Vec::<Digit>::parse(empty), Ok((Vec::new(), empty)));
}

#[test]
fn repetition_collects_until_unmatched() {
    let input = CopiedStream::new(1, b"123a4".as_slice());
    let (digits, rem) = Vec::<Digit>::parse(input).unwrap();
    assert_eq!(digits, vec![Digit(1), Digit(2), Digit(3)]);
    assert_eq!(rem, input.advance(3));

    // The end of the input ends the repetition, it does not fail it.
    let input = CopiedStream::new(1, b"98".as_slice());
    assert_eq!(Vec::<Digit>::parse(input), Ok((vec![Digit(9), Digit(8)], input.advance(2))));
}

#[test]
fn repetition_reports_the_failing_index() {
    let input = CopiedStream::new(1, b"12x4".as_slice());
    assert_eq!(Vec::<Digit>::parse(input), Err(NibbleError::Error(RepeatError { pos: 2, err: BadDigit(2) })));
    let input = CopiedStream::new(1, b"x".as_slice());
    assert_eq!(Vec::<Digit>::parse(input), Err(NibbleError::Error(RepeatError { pos: 0, err: BadDigit(0) })));
}

#[test]
fn optional_parser_outcomes() {
    let input = CopiedStream::new(1, b"a".as_slice());
    assert_eq!(Option::<Digit>::parse(input), Ok((None, input)));

    let input = CopiedStream::new(1, b"".as_slice());
    assert_eq!(Option::<Digit>::parse(input), Ok((None, input)));

    let input = CopiedStream::new(1, b"7a".as_slice());
    assert_eq!(Option::<Digit>::parse(input), Ok((Some(Digit(7)), input.advance(1))));

    let input = CopiedStream::new(1, b"x".as_slice());
    assert_eq!(Option::<Digit>::parse(input), Err(NibbleError::Error(BadDigit(0))));
}

#[test]
fn composite_descriptions() {
    assert_eq!(Option::<Digit>::expects(), OptionFormatter { fmt: "a digit" });
    assert_eq!(Vec::<Digit>::expects().fmt, "a digit");
    assert_eq!(OptionFormatter::from(3).fmt, 3);
    let v: VecFormatter<u8> = VecFormatter::from(4);
    assert_eq!(v.fmt, 4);
}

#[test]
fn parse_from_the_stream_side() {
    let input = CopiedStream::new(1, b"5".as_slice());
    assert_eq!(parse::<u8, Digit, _>(input), Ok((Digit(5), input.advance(1))));
}

#[test]
fn needed_size_hints() {
    assert_eq!(Needed::Bounded(2, 5).size_hint(), (2, Some(5)));
    assert_eq!(Needed::AtLeast(3).size_hint(), (3, None));
    assert_eq!(Needed::Unknown.size_hint(), (0, None));
}

#[test]
fn nibble_error_mappers() {
    let unmatched: NibbleError<u8, u16> = NibbleError::Unmatched(3, Some(Needed::Unknown));
    let error: NibbleError<u8, u16> = NibbleError::Error(9);

    assert_eq!(unmatched.clone().auto_map::<u32, u64>(), NibbleError::Unmatched(3u32, Some(Needed::Unknown)));
    assert_eq!(error.clone().auto_map::<u32, u64>(), NibbleError::Error(9u64));

    assert_eq!(unmatched.clone().map_fmt::<u8, u16, _>(|f| f + 1), NibbleError::Unmatched(4, Some(Needed::Unknown)));
    assert_eq!(error.clone().map_fmt::<u8, u16, _>(|f| f + 1), NibbleError::Error(9));

    assert_eq!(unmatched.clone().map_nerr::<u8, u16, _>(|e| e * 2), NibbleError::Unmatched(3, Some(Needed::Unknown)));
    assert_eq!(error.map_nerr::<u8, u16, _>(|e| e * 2), NibbleError::Error(18));
}

#[test]
fn result_transpose_and_auto_map() {
    let ok: Result<u8, NibbleError<u8, u16>> = Ok(1);
    let unmatched: Result<u8, NibbleError<u8, u16>> = Err(NibbleError::Unmatched(2, None));
    let error: Result<u8, NibbleError<u8, u16>> = Err(NibbleError::Error(3));
    assert_eq!(ok.clone().transpose(), Ok(Some(1)));
    assert_eq!(unmatched.clone().transpose(), Ok(None));
    assert_eq!(error.clone().transpose(), Err(NibbleError::Error(3)));

    assert_eq!(ok.auto_map::<u32, u64>(), Ok(1));
    assert_eq!(unmatched.auto_map::<u32, u64>(), Err(NibbleError::Unmatched(2u32, None)));
    assert_eq!(error.auto_map::<u32, u64>(), Err(NibbleError::Error(3u64)));
}

#[test]
fn stream_commit_keeps_the_position() {
    let input = CopiedStream::new(5, b"ab".as_slice());
    let (after, loc, b) = input.next().unwrap();
    assert_eq!(b, b'a');
    assert_eq!(loc.start(), 0);
    assert_eq!(after.commit(), after);
    assert!(after.same_position(&input.advance(1)));
    assert!(!after.same_position(&input));
    let (_, loc, b) = after.commit().next().unwrap();
    assert_eq!(b, b'b');
    assert_eq!(loc.source, Some(5));
    assert_eq!(loc.end(), Some(2));
    let _ = Loc::new();
}

#[test]
fn result_map_fmt_and_map_nerr() {
    let unmatched: Result<u8, NibbleError<u8, u16>> = Err(NibbleError::Unmatched(2, None));
    let error: Result<u8, NibbleError<u8, u16>> = Err(NibbleError::Error(3));
    let ok: Result<u8, NibbleError<u8, u16>> = Ok(1);
    assert_eq!(ResultExt::map_fmt::<u8, u16, _>(unmatched.clone(), |f| f * 10), Err(NibbleError::Unmatched(20, None)));
    assert_eq!(ResultExt::map_fmt::<u8, u16, _>(error.clone(), |f| f * 10), Err(NibbleError::Error(3)));
    assert_eq!(ResultExt::map_nerr::<u8, u16, _>(unmatched, |e| e + 1), Err(NibbleError::Unmatched(2, None)));
    assert_eq!(ResultExt::map_nerr::<u8, u16, _>(error, |e| e + 1), Err(NibbleError::Error(4)));
    assert_eq!(ResultExt::map_nerr::<u8, u16, _>(ok, |e| e + 1), Ok(1));
}

#[test]
fn descriptions_compose() {
    assert_eq!(Option::<Digit>::expects().describe(), "optionally a digit");
    assert_eq!(Vec::<Digit>::expects().describe(), "zero or more occurrences of a digit");
    assert_eq!(Option::<Vec<Digit>>::expects().describe(), "optionally zero or more occurrences of a digit");
    assert_eq!("an identifier".describe(), "an identifier");
}
