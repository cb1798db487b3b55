//! The outcomes of a parse that did not produce a value.
use vstd::prelude::*;
use vstd::std_specs::convert::FromSpec;

verus! {

/// How much more input an unmatched parser could use to match, if any would do.
#[derive(Clone, Copy, Debug, PartialEq, Eq, Structural, Hash)]
pub enum Needed {
    /// Between `.0` and `.1` (both inclusive) more elements.
    Bounded(usize, usize),
    /// At least this many more elements, maybe more.
    AtLeast(usize),
    /// More elements, but how many is not known.
    Unknown,
}

impl Needed {
    /// The least number of elements to add (`0` if unknown) and, if known, the most.
    pub fn size_hint(&self) -> (r: (usize, Option<usize>))
        ensures
            r == match *self {
                Needed::Bounded(min, max) => (min, Some(max)),
                Needed::AtLeast(min) => (min, None),
                Needed::Unknown => (0usize, None::<usize>),
            },
    {
        match *self {
            Needed::Bounded(min, max) => (min, Some(max)),
            Needed::AtLeast(min) => (min, None),
            Needed::Unknown => (0, None),
        }
    }
}

/// Why a parse produced no value.
///
/// - `Unmatched`: the input is not this construct (`F` describes what was expected). Something
///   else may still match there. The [`Needed`] says whether, and how much, more input could make
///   it match; `None` means no amount of input will.
/// - `Error`: the input is this construct but is invalid. Nothing else will match there either.
#[derive(Clone, Debug, PartialEq, Eq)]
pub enum NibbleError<F, E> {
    /// The input was not recognized.
    Unmatched(F, Option<Needed>),
    /// The input was recognized, but is illegal.
    Error(E),
}

impl<F, E> NibbleError<F, E> {
    /// Converts both the description and the error with their `From` conversions.
    pub fn auto_map<F2: From<F>, E2: From<E>>(self) -> (r: NibbleError<F2, E2>)
        ensures
            match self {
                NibbleError::Unmatched(fmt, needed) => r is Unmatched && r->Unmatched_1 == needed
                    && (F2::obeys_from_spec() ==> r->Unmatched_0 == F2::from_spec(fmt)),
                NibbleError::Error(err) => r is Error && (E2::obeys_from_spec()
                    ==> r->Error_0 == E2::from_spec(err)),
            },
    {
        match self {
            NibbleError::Unmatched(fmt, needed) => NibbleError::Unmatched(F2::from(fmt), needed),
            NibbleError::Error(err) => NibbleError::Error(E2::from(err)),
        }
    }

    /// Maps the description with `map`; the error is converted with its `From` conversion.
    pub fn map_fmt<F2, E2: From<E>, M: FnOnce(F) -> F2>(self, map: M) -> (r: NibbleError<F2, E2>)
        requires
            self is Unmatched ==> map.requires((self->Unmatched_0,)),
        ensures
            match self {
                NibbleError::Unmatched(fmt, needed) => r is Unmatched && r->Unmatched_1 == needed
                    && map.ensures((fmt,), r->Unmatched_0),
                NibbleError::Error(err) => r is Error && (E2::obeys_from_spec() ==> r->Error_0
                    == E2::from_spec(err)),
            },
    {
        match self {
            NibbleError::Unmatched(fmt, needed) => NibbleError::Unmatched(map(fmt), needed),
            NibbleError::Error(err) => NibbleError::Error(E2::from(err)),
        }
    }

    /// Maps the error with `map`; the description is converted with its `From` conversion.
    pub fn map_nerr<F2: From<F>, E2, M: FnOnce(E) -> E2>(self, map: M) -> (r: NibbleError<F2, E2>)
        requires
            self is Error ==> map.requires((self->Error_0,)),
        ensures
            match self {
                NibbleError::Unmatched(fmt, needed) => r is Unmatched && r->Unmatched_1 == needed
                    && (F2::obeys_from_spec() ==> r->Unmatched_0 == F2::from_spec(fmt)),
                NibbleError::Error(err) => r is Error && map.ensures((err,), r->Error_0),
            },
    {
        match self {
            NibbleError::Unmatched(fmt, needed) => NibbleError::Unmatched(F2::from(fmt), needed),
            NibbleError::Error(err) => NibbleError::Error(map(err)),
        }
    }
}

/// [`NibbleError`]'s conversions, called through a `Result`.
pub trait ResultExt<T, F, E>: Sized {
    /// This value as a result.
    spec fn as_result(self) -> Result<T, NibbleError<F, E>>;

    /// Turns an `Unmatched` error into `Ok(None)` and a value into `Ok(Some(..))`; an `Error`
    /// stays.
    fn transpose(self) -> (r: Result<Option<T>, NibbleError<F, E>>)
        ensures
            match self.as_result() {
                Ok(v) => r == Ok::<Option<T>, NibbleError<F, E>>(Some(v)),
                Err(NibbleError::Unmatched(_, _)) => r == Ok::<Option<T>, NibbleError<F, E>>(None),
                Err(NibbleError::Error(e)) => r == Err::<Option<T>, NibbleError<F, E>>(
                    NibbleError::Error(e),
                ),
            },
    ;

    /// [`NibbleError::auto_map`] on the error, if any.
    fn auto_map<F2: From<F>, E2: From<E>>(self) -> (r: Result<T, NibbleError<F2, E2>>)
        ensures
            match self.as_result() {
                Ok(v) => r == Ok::<T, NibbleError<F2, E2>>(v),
                Err(NibbleError::Unmatched(fmt, needed)) => r is Err && r->Err_0 is Unmatched
                    && r->Err_0->Unmatched_1 == needed && (F2::obeys_from_spec()
                    ==> r->Err_0->Unmatched_0 == F2::from_spec(fmt)),
                Err(NibbleError::Error(err)) => r is Err && r->Err_0 is Error && (
                E2::obeys_from_spec() ==> r->Err_0->Error_0 == E2::from_spec(err)),
            },
    ;

    /// [`NibbleError::map_fmt`] on the error, if any.
    fn map_fmt<F2, E2: From<E>, M: FnOnce(F) -> F2>(self, map: M) -> (r: Result<
        T,
        NibbleError<F2, E2>,
    >)
        requires
            self.as_result() is Err && self.as_result()->Err_0 is Unmatched ==> map.requires(
                (self.as_result()->Err_0->Unmatched_0,),
            ),
        ensures
            match self.as_result() {
                Ok(v) => r == Ok::<T, NibbleError<F2, E2>>(v),
                Err(NibbleError::Unmatched(fmt, needed)) => r is Err && r->Err_0 is Unmatched
                    && r->Err_0->Unmatched_1 == needed && map.ensures(
                    (fmt,),
                    r->Err_0->Unmatched_0,
                ),
                Err(NibbleError::Error(err)) => r is Err && r->Err_0 is Error && (
                E2::obeys_from_spec() ==> r->Err_0->Error_0 == E2::from_spec(err)),
            },
    ;

    /// [`NibbleError::map_nerr`] on the error, if any.
    fn map_nerr<F2: From<F>, E2, M: FnOnce(E) -> E2>(self, map: M) -> (r: Result<
        T,
        NibbleError<F2, E2>,
    >)
        requires
            self.as_result() is Err && self.as_result()->Err_0 is Error ==> map.requires(
                (self.as_result()->Err_0->Error_0,),
            ),
        ensures
            match self.as_result() {
                Ok(v) => r == Ok::<T, NibbleError<F2, E2>>(v),
                Err(NibbleError::Unmatched(fmt, needed)) => r is Err && r->Err_0 is Unmatched
                    && r->Err_0->Unmatched_1 == needed && (F2::obeys_from_spec()
                    ==> r->Err_0->Unmatched_0 == F2::from_spec(fmt)),
                Err(NibbleError::Error(err)) => r is Err && r->Err_0 is Error && map.ensures(
                    (err,),
                    r->Err_0->Error_0,
                ),
            },
    ;
}

impl<T, F, E> ResultExt<T, F, E> for Result<T, NibbleError<F, E>> {
    open spec fn as_result(self) -> Result<T, NibbleError<F, E>> {
        self
    }

    fn transpose(self) -> (r: Result<Option<T>, NibbleError<F, E>>) {
        match self {
            Ok(v) => Ok(Some(v)),
            Err(NibbleError::Unmatched(_, _)) => Ok(None),
            Err(NibbleError::Error(e)) => Err(NibbleError::Error(e)),
        }
    }

    fn auto_map<F2: From<F>, E2: From<E>>(self) -> (r: Result<T, NibbleError<F2, E2>>) {
        match self {
            Ok(v) => Ok(v),
            Err(err) => Err(err.auto_map()),
        }
    }

    fn map_fmt<F2, E2: From<E>, M: FnOnce(F) -> F2>(self, map: M) -> (r: Result<
        T,
        NibbleError<F2, E2>,
    >) {
        match self {
            Ok(v) => Ok(v),
            Err(err) => Err(err.map_fmt(map)),
        }
    }

    fn map_nerr<F2: From<F>, E2, M: FnOnce(E) -> E2>(self, map: M) -> (r: Result<
        T,
        NibbleError<F2, E2>,
    >) {
        match self {
            Ok(v) => Ok(v),
            Err(err) => Err(err.map_nerr(map)),
        }
    }
}

} // verus!
