//! Parsing something that may be absent.
use crate::error::{NibbleError, Needed};
use crate::loc::Loc;
use crate::parsable::Parsable;
use crate::stream::ParseStream;
use vstd::prelude::*;

verus! {

/// Describes what an optional parser expects: optionally what `F` describes.
#[derive(Debug, PartialEq, Eq)]
pub struct OptionFormatter<F> {
    /// The description of the value that may be there.
    pub fmt: F,
}

impl<F> From<F> for OptionFormatter<F> {
    fn from(value: F) -> (r: Self) {
        OptionFormatter { fmt: value }
    }
}

impl<F> vstd::std_specs::convert::FromSpecImpl<F> for OptionFormatter<F> {
    open spec fn obeys_from_spec() -> bool {
        true
    }

    open spec fn from_spec(v: F) -> OptionFormatter<F> {
        OptionFormatter { fmt: v }
    }
}

/// Whether parsing `T` from `input` may end unmatched.
pub open spec fn may_be_unmatched<E, T: Parsable<E>>(input: Seq<(E, Loc)>) -> bool {
    exists|fmt: T::Formatter, needed: Option<Needed>|
        #[trigger] T::parses(input, Err(NibbleError::Unmatched(fmt, needed)))
}

impl<E, T: Parsable<E>> Parsable<E> for Option<T> {
    type Formatter = OptionFormatter<T::Formatter>;
    type Error = T::Error;

    open spec fn spec_expects() -> OptionFormatter<T::Formatter> {
        OptionFormatter { fmt: T::spec_expects() }
    }

    /// A value of `T` is `Some` of it; input that is not a `T` is `None`, taking nothing; an
    /// illegal `T` is the same error. Never unmatched.
    open spec fn parses(
        input: Seq<(E, Loc)>,
        out: Result<(Self, nat), NibbleError<OptionFormatter<T::Formatter>, T::Error>>,
    ) -> bool {
        match out {
            Ok((Some(value), n)) => T::parses(input, Ok((value, n))),
            Ok((None, n)) => n == 0 && may_be_unmatched::<E, T>(input),
            Err(NibbleError::Error(err)) => T::parses(input, Err(NibbleError::Error(err))),
            Err(NibbleError::Unmatched(_, _)) => false,
        }
    }

    fn expects() -> (r: OptionFormatter<T::Formatter>) {
        OptionFormatter { fmt: T::expects() }
    }

    fn parse<S: ParseStream<Elem = E>>(input: S) -> (r: Result<
        (Self, S),
        NibbleError<OptionFormatter<T::Formatter>, T::Error>,
    >) {
        match T::parse(input) {
            Ok((value, rem)) => Ok((Some(value), rem)),
            Err(NibbleError::Unmatched(fmt, needed)) => {
                assert(T::parses(input.rest(), Err(NibbleError::Unmatched(fmt, needed))));
                assert(input.rest().skip(0) =~= input.rest());
                Ok((None, input))
            },
            Err(NibbleError::Error(err)) => Err(NibbleError::Error(err)),
        }
    }
}

/// Input that is not a `T`, even where no more input would make it one, is an absent optional
/// `T` that takes nothing; an illegal `T` is the same error for the optional; and an optional is
/// never unmatched.
pub proof fn lemma_optional_outcomes<E, T: Parsable<E>>(
    input: Seq<(E, Loc)>,
    fmt: T::Formatter,
    err: T::Error,
    opt_fmt: OptionFormatter<T::Formatter>,
    needed: Option<Needed>,
)
    ensures
        T::parses(input, Err(NibbleError::Unmatched(fmt, None))) ==> <Option<T> as Parsable<
            E,
        >>::parses(input, Ok((None, 0))),
        <Option<T> as Parsable<E>>::parses(input, Err(NibbleError::Error(err))) == T::parses(
            input,
            Err(NibbleError::Error(err)),
        ),
        !<Option<T> as Parsable<E>>::parses(input, Err(NibbleError::Unmatched(opt_fmt, needed))),
{
}

} // verus!
