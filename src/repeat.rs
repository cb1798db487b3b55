//! Parsing zero or more occurrences of something.
use crate::error::NibbleError;
use crate::loc::Loc;
use crate::optional::may_be_unmatched;
use crate::parsable::Parsable;
use crate::stream::ParseStream;
use vstd::prelude::*;

verus! {

/// A repetition failed on one of its elements.
#[derive(Debug, PartialEq, Eq)]
pub struct Error<E> {
    /// The zero-based index of the element that failed.
    pub pos: usize,
    /// Why that element failed.
    pub err: E,
}

/// Describes what a repetition expects: zero or more occurrences of what `F` describes.
#[derive(Debug, PartialEq, Eq)]
pub struct VecFormatter<F> {
    /// The description of one occurrence.
    pub fmt: F,
}

impl<F> From<F> for VecFormatter<F> {
    fn from(value: F) -> (r: Self) {
        VecFormatter { fmt: value }
    }
}

impl<F> vstd::std_specs::convert::FromSpecImpl<F> for VecFormatter<F> {
    open spec fn obeys_from_spec() -> bool {
        true
    }

    open spec fn from_spec(v: F) -> VecFormatter<F> {
        VecFormatter { fmt: v }
    }
}

/// The sum of `counts`.
pub open spec fn total(counts: Seq<nat>) -> nat
    decreases counts.len(),
{
    if counts.len() == 0 {
        0
    } else {
        total(counts.drop_last()) + counts.last()
    }
}

/// Whether parsing `T` one after another from `input` may give `items`, the `i`-th taking
/// `counts[i]` elements, each at least one.
pub open spec fn parsed_in_turn<E, T: Parsable<E>>(
    input: Seq<(E, Loc)>,
    items: Seq<T>,
    counts: Seq<nat>,
) -> bool {
    &&& items.len() == counts.len()
    &&& forall|i: int|
        0 <= i < items.len() ==> {
            &&& #[trigger] counts[i] > 0
            &&& T::parses(input.skip(total(counts.take(i)) as int), Ok((items[i], counts[i])))
        }
}

/// Whether a repetition of `T` may stop before `input`: `T` is unmatched there, or matches
/// without taking anything.
pub open spec fn may_stop<E, T: Parsable<E>>(input: Seq<(E, Loc)>) -> bool {
    ||| may_be_unmatched::<E, T>(input)
    ||| exists|value: T| #[trigger] T::parses(input, Ok((value, 0)))
}

/// Whether parsing `T` in turn from `input` may give exactly `items`, taking `n` elements.
pub open spec fn repeats_to<E, T: Parsable<E>>(
    input: Seq<(E, Loc)>,
    items: Seq<T>,
    n: nat,
) -> bool {
    exists|counts: Seq<nat>|
        {
            &&& #[trigger] parsed_in_turn(input, items, counts)
            &&& n == total(counts)
            &&& may_stop::<E, T>(input.skip(n as int))
        }
}

/// Whether parsing `T` in turn from `input` may match `pos` items and then fail with `err`.
pub open spec fn repeat_fails_at<E, T: Parsable<E>>(
    input: Seq<(E, Loc)>,
    pos: nat,
    err: T::Error,
) -> bool {
    exists|items: Seq<T>, counts: Seq<nat>|
        {
            &&& #[trigger] parsed_in_turn(input, items, counts)
            &&& items.len() == pos
            &&& T::parses(input.skip(total(counts) as int), Err(NibbleError::Error(err)))
        }
}

/// Adding one more item to a run of items parsed in turn.
proof fn lemma_parsed_in_turn_push<E, T: Parsable<E>>(
    input: Seq<(E, Loc)>,
    items: Seq<T>,
    counts: Seq<nat>,
    item: T,
    count: nat,
)
    requires
        parsed_in_turn(input, items, counts),
        count > 0,
        T::parses(input.skip(total(counts) as int), Ok((item, count))),
    ensures
        parsed_in_turn(input, items.push(item), counts.push(count)),
        total(counts.push(count)) == total(counts) + count,
{
    let c2 = counts.push(count);
    assert(c2.drop_last() =~= counts);
    assert forall|i: int| 0 <= i < items.len() + 1 implies {
        &&& #[trigger] c2[i] > 0
        &&& T::parses(input.skip(total(c2.take(i)) as int), Ok((items.push(item)[i], c2[i])))
    } by {
        if i < items.len() {
            assert(c2.take(i) =~= counts.take(i));
        } else {
            assert(c2.take(i) =~= counts);
        }
    }
}

impl<E, T: Parsable<E>> Parsable<E> for Vec<T> {
    type Formatter = VecFormatter<T::Formatter>;
    type Error = Error<T::Error>;

    open spec fn spec_expects() -> VecFormatter<T::Formatter> {
        VecFormatter { fmt: T::spec_expects() }
    }

    /// `T` parsed in turn for as long as it matches and takes input; an illegal `T` fails the
    /// whole, tagged with its index. Never unmatched: zero occurrences are a match.
    open spec fn parses(
        input: Seq<(E, Loc)>,
        out: Result<(Self, nat), NibbleError<VecFormatter<T::Formatter>, Error<T::Error>>>,
    ) -> bool {
        match out {
            Ok((items, n)) => repeats_to::<E, T>(input, items@, n),
            Err(NibbleError::Error(err)) => repeat_fails_at::<E, T>(input, err.pos as nat, err.err),
            Err(NibbleError::Unmatched(_, _)) => false,
        }
    }

    fn expects() -> (r: VecFormatter<T::Formatter>) {
        VecFormatter { fmt: T::expects() }
    }

    fn parse<S: ParseStream<Elem = E>>(input: S) -> (r: Result<
        (Self, S),
        NibbleError<VecFormatter<T::Formatter>, Error<T::Error>>,
    >) {
        let ghost all = input.rest();
        let ghost mut counts: Seq<nat> = Seq::empty();
        // Failing parses are common, so nothing is allocated until the first element matches.
        let mut res: Vec<T> = Vec::new();
        let mut cur: S = input;
        loop
            invariant
                all == input.rest(),
                parsed_in_turn(all, res@, counts),
                total(counts) <= all.len(),
                cur.rest() == all.skip(total(counts) as int),
            decreases cur.rest().len(),
        {
            match T::parse(cur) {
                Ok((value, rem)) => {
                    let ghost taken = cur.rest().len() - rem.rest().len();
                    if rem.same_position(&cur) {
                        // A match that takes nothing ends the repetition, or it would never end.
                        assert(cur.rest().skip(0) =~= cur.rest());
                        assert(T::parses(all.skip(total(counts) as int), Ok((value, 0))));
                        assert(may_stop::<E, T>(all.skip(total(counts) as int)));
                        assert(parsed_in_turn(all, res@, counts));
                        return Ok((res, cur));
                    }
                    proof {
                        assert(all.skip(total(counts) as int).skip(taken) =~= all.skip(
                            total(counts) + taken,
                        ));
                        lemma_parsed_in_turn_push(all, res@, counts, value, taken as nat);
                        counts = counts.push(taken as nat);
                    }
                    if res.len() == 0 {
                        res.reserve(4);
                    }
                    res.push(value);
                    cur = rem;
                },
                Err(NibbleError::Unmatched(fmt, needed)) => {
                    assert(T::parses(cur.rest(), Err(NibbleError::Unmatched(fmt, needed))));
                    assert(may_be_unmatched::<E, T>(cur.rest()));
                    assert(may_stop::<E, T>(all.skip(total(counts) as int)));
                    assert(parsed_in_turn(all, res@, counts));
                    return Ok((res, cur));
                },
                Err(NibbleError::Error(err)) => {
                    let pos: usize = res.len();
                    assert(parsed_in_turn(all, res@, counts));
                    return Err(NibbleError::Error(Error { pos, err }));
                },
            }
        }
    }
}

/// Where `T` cannot match at the head of `input` (every outcome of parsing it there is
/// `Unmatched`), the repetition matches zero occurrences, takes no input, and does not fail.
pub proof fn lemma_repeat_none<E, T: Parsable<E>>(
    input: Seq<(E, Loc)>,
    out: Result<(Vec<T>, nat), NibbleError<VecFormatter<T::Formatter>, Error<T::Error>>>,
)
    requires
        forall|o: Result<(T, nat), NibbleError<T::Formatter, T::Error>>|
            #[trigger] T::parses(input, o) ==> o is Err && o->Err_0 is Unmatched,
        <Vec<T> as Parsable<E>>::parses(input, out),
    ensures
        out is Ok,
        out->Ok_0.0@.len() == 0,
        out->Ok_0.1 == 0,
{
    assert(input.skip(0) =~= input);
    match out {
        Ok((items, n)) => {
            let counts = choose|counts: Seq<nat>|
                {
                    &&& #[trigger] parsed_in_turn(input, items@, counts)
                    &&& n == total(counts)
                    &&& may_stop::<E, T>(input.skip(n as int))
                };
            if items@.len() > 0 {
                assert(counts.take(0) =~= Seq::<nat>::empty());
                assert(T::parses(input.skip(0), Ok((items@[0], counts[0]))));
            }
            assert(counts =~= Seq::<nat>::empty());
        },
        Err(NibbleError::Error(err)) => {
            let (items, counts) = choose|items: Seq<T>, counts: Seq<nat>|
                {
                    &&& #[trigger] parsed_in_turn(input, items, counts)
                    &&& items.len() == err.pos
                    &&& T::parses(
                        input.skip(total(counts) as int),
                        Err(NibbleError::Error(err.err)),
                    )
                };
            if items.len() > 0 {
                assert(counts.take(0) =~= Seq::<nat>::empty());
                assert(T::parses(input.skip(0), Ok((items[0], counts[0]))));
            }
            assert(counts =~= Seq::<nat>::empty());
        },
        Err(NibbleError::Unmatched(_, _)) => {},
    }
}

} // verus!
