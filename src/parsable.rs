//! The parsing protocol: types that recognize themselves at the head of a [`ParseStream`].
use crate::error::NibbleError;
use crate::loc::Loc;
use crate::stream::ParseStream;
use vstd::prelude::*;

verus! {

/// A type that can be parsed from a stream of `E` elements.
///
/// Parsing has three outcomes: a value and the stream after what it took; `Unmatched`, where
/// the input is not this type (and may be something else); or `Error`, where the input is this
/// type but invalid. See [`NibbleError`].
pub trait Parsable<E>: Sized {
    /// Describes what this type expects, for diagnostics.
    type Formatter;
    /// What goes wrong with input that is recognized but illegal.
    type Error;

    /// The description of what this type expects. Implementations that are verified define it;
    /// it is left unknown for the others.
    closed spec fn spec_expects() -> Self::Formatter {
        arbitrary()
    }

    /// Whether `out` is an outcome of parsing this type from the elements `input`: the value
    /// with the number of elements it took, or why there is none. Implementations that are
    /// verified define it; it is left unknown for the others.
    closed spec fn parses(
        input: Seq<(E, Loc)>,
        out: Result<(Self, nat), NibbleError<Self::Formatter, Self::Error>>,
    ) -> bool {
        arbitrary()
    }

    /// Describes what this type expects ("an identifier", ...).
    fn expects() -> (r: Self::Formatter)
        ensures
            r == Self::spec_expects(),
    ;

    /// Parses a value of this type from the head of `input`.
    ///
    /// On success, returns the value and the stream after the elements it took.
    fn parse<S: ParseStream<Elem = E>>(input: S) -> (r: Result<
        (Self, S),
        NibbleError<Self::Formatter, Self::Error>,
    >)
        ensures
            match r {
                Ok((value, rem)) => {
                    let taken = input.rest().len() - rem.rest().len();
                    &&& rem.rest().len() <= input.rest().len()
                    &&& rem.rest() == input.rest().skip(taken)
                    &&& Self::parses(input.rest(), Ok((value, taken as nat)))
                },
                Err(e) => Self::parses(input.rest(), Err(e)),
            },
    ;
}

/// Parses a `P` from the head of `input`: [`Parsable::parse`], called from the stream's side
/// (`parse::<_, Ident, _>(stream)`).
pub fn parse<E, P: Parsable<E>, S: ParseStream<Elem = E>>(input: S) -> (r: Result<
    (P, S),
    NibbleError<P::Formatter, P::Error>,
>)
    ensures
        match r {
            Ok((value, rem)) => {
                let taken = input.rest().len() - rem.rest().len();
                &&& rem.rest().len() <= input.rest().len()
                &&& rem.rest() == input.rest().skip(taken)
                &&& P::parses(input.rest(), Ok((value, taken as nat)))
            },
            Err(e) => P::parses(input.rest(), Err(e)),
        },
{
    P::parse(input)
}

} // verus!
