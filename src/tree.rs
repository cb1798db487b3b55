//! Classifying AST nodes, and the fixed-literal terminals ("tags") with their parser.
use crate::error::{NibbleError, Needed};
use crate::loc::Loc;
use crate::located::{fold_locs, Located};
use crate::parsable::Parsable;
use crate::stream::ParseStream;
use vstd::prelude::*;
use vstd::std_specs::cmp::PartialEqSpec;
use vstd::string::StringSliceAdditionalSpecFns;

verus! {

/// A node of an AST, branch or leaf.
pub trait Node: Located {

}

/// A branch of an AST: a node that always has children.
pub trait NonTerm: Node {

}

/// A leaf of an AST: a node that never has children (a keyword, an identifier, a literal).
pub trait Term: Node {

}

/// A terminal that is one fixed sequence of elements, such as a keyword or a punctuation mark.
///
/// Every such type is [`Parsable`]: it matches exactly its tag.
pub trait Tag<E: 'static>: Sized + Term {
    /// The elements this tag consists of. Implementations that are verified define it; it is
    /// left unknown for the others.
    closed spec fn spec_tag() -> Seq<E> {
        arbitrary()
    }

    /// The tag parsed at `loc`. Implementations that are verified define it; it is left
    /// unknown for the others.
    closed spec fn spec_with_loc(loc: Loc) -> Self {
        arbitrary()
    }

    /// Returns the elements this tag consists of.
    fn tag() -> (r: &'static [E])
        ensures
            r@ == Self::spec_tag(),
    ;

    /// Creates the tag as parsed at `loc`.
    fn with_loc(loc: Loc) -> (r: Self)
        ensures
            r == Self::spec_with_loc(loc),
    ;

    /// Creates the tag at a location that points to nothing.
    fn new() -> (r: Self)
        ensures
            r == Self::spec_with_loc(Loc::spec_new()),
    {
        Self::with_loc(Loc::new())
    }
}

/// A [`Tag`] over bytes, written as text: a UTF-8 keyword or punctuation mark.
///
/// Every such type is a `Tag<u8>` of the text's bytes, and so [`Parsable`] over bytes.
pub trait Utf8Tag: Sized + Term {
    /// The bytes of the tag's text. Implementations that are verified define it; it is left
    /// unknown for the others.
    closed spec fn spec_text_bytes() -> Seq<u8> {
        arbitrary()
    }

    /// The tag parsed at `loc`. Implementations that are verified define it; it is left
    /// unknown for the others.
    closed spec fn spec_with_loc(loc: Loc) -> Self {
        arbitrary()
    }

    /// Returns the tag's text.
    fn tag() -> (r: &'static str)
        ensures
            r.spec_bytes() == Self::spec_text_bytes(),
    ;

    /// Creates the tag as parsed at `loc`.
    fn with_loc(loc: Loc) -> (r: Self)
        ensures
            r == Self::spec_with_loc(loc),
    ;

    /// Creates the tag at a location that points to nothing.
    fn new() -> (r: Self)
        ensures
            r == Self::spec_with_loc(Loc::spec_new()),
    {
        Self::with_loc(Loc::new())
    }
}

impl<T: Utf8Tag> Tag<u8> for T {
    open spec fn spec_tag() -> Seq<u8> {
        <T as Utf8Tag>::spec_text_bytes()
    }

    open spec fn spec_with_loc(loc: Loc) -> Self {
        <T as Utf8Tag>::spec_with_loc(loc)
    }

    fn tag() -> (r: &'static [u8]) {
        <T as Utf8Tag>::tag().as_bytes()
    }

    fn with_loc(loc: Loc) -> (r: Self) {
        <T as Utf8Tag>::with_loc(loc)
    }
}

/// Describes what a tag parser expects: the tag of `T`.
#[derive(Debug, PartialEq, Eq)]
pub struct TagFormatter<E, T> {
    /// Marks the element and tag types.
    pub marker: core::marker::PhantomData<(E, T)>,
}

impl<E: 'static, T: Tag<E>> TagFormatter<E, T> {
    /// The elements of the expected tag.
    pub fn tag(&self) -> (r: &'static [E])
        ensures
            r@ == T::spec_tag(),
    {
        T::tag()
    }
}

/// The locations of the elements in `input`, in order.
pub open spec fn elem_locs<E>(input: Seq<(E, Loc)>) -> Seq<Loc> {
    input.map_values(|p: (E, Loc)| p.1)
}

/// Whether the first `n` elements of `input` equal those of `tag`.
pub open spec fn agrees<E: PartialEq>(input: Seq<(E, Loc)>, tag: Seq<E>, n: int) -> bool {
    forall|j: int| 0 <= j < n ==> (#[trigger] input[j]).0.eq_spec(&tag[j])
}

/// What matching `tag` against the head of `input` gives: on a match, the number of elements
/// taken and the location they span; else the [`Needed`] hint of an `Unmatched`.
///
/// A wrong element can never become right, so a mismatch needs nothing more (`None`); input
/// that ends while all of it matched needs exactly the rest of the tag.
pub open spec fn tag_match<E: PartialEq>(input: Seq<(E, Loc)>, tag: Seq<E>) -> Result<
    (nat, Loc),
    Option<Needed>,
> {
    let m = if input.len() < tag.len() {
        input.len()
    } else {
        tag.len()
    };
    if !agrees(input, tag, m as int) {
        Err(None)
    } else if input.len() >= tag.len() {
        Ok((tag.len(), fold_locs(elem_locs(input.take(tag.len() as int)))))
    } else {
        let missing = (tag.len() - input.len()) as usize;
        Err(Some(Needed::Bounded(missing, missing)))
    }
}

impl<E: PartialEq + 'static, T: Tag<E>> Parsable<E> for T {
    type Formatter = TagFormatter<E, T>;
    type Error = core::convert::Infallible;

    open spec fn spec_expects() -> TagFormatter<E, T> {
        TagFormatter { marker: core::marker::PhantomData }
    }

    /// Where the elements compare as their `==` says, exactly what [`tag_match`] gives.
    open spec fn parses(
        input: Seq<(E, Loc)>,
        out: Result<(Self, nat), NibbleError<TagFormatter<E, T>, core::convert::Infallible>>,
    ) -> bool {
        E::obeys_eq_spec() ==> match tag_match(input, T::spec_tag()) {
            Ok((n, loc)) => out == Ok::<
                (Self, nat),
                NibbleError<TagFormatter<E, T>, core::convert::Infallible>,
            >((T::spec_with_loc(loc), n)),
            Err(needed) => out == Err::<
                (Self, nat),
                NibbleError<TagFormatter<E, T>, core::convert::Infallible>,
            >(NibbleError::Unmatched(Self::spec_expects(), needed)),
        }
    }

    fn expects() -> (r: TagFormatter<E, T>) {
        TagFormatter { marker: core::marker::PhantomData }
    }

    fn parse<S: ParseStream<Elem = E>>(input: S) -> (r: Result<
        (Self, S),
        NibbleError<TagFormatter<E, T>, core::convert::Infallible>,
    >) {
        let tag: &'static [E] = T::tag();
        let n: usize = tag.len();
        let mut cur: S = input;
        let mut loc: Loc = Loc::new();
        let mut i: usize = 0;
        let ghost all = input.rest();
        while i < n
            invariant
                i <= n,
                n == tag@.len(),
                tag@ == T::spec_tag(),
                all == input.rest(),
                i <= all.len(),
                cur.rest() == all.skip(i as int),
                E::obeys_eq_spec() ==> agrees(all, tag@, i as int),
                loc == fold_locs(elem_locs(all.take(i as int))),
            decreases n - i,
        {
            match cur.next() {
                None => {
                    let missing: usize = n - i;
                    let needed = Needed::Bounded(missing, missing);
                    return Err(NibbleError::Unmatched(Self::expects(), Some(needed)));
                },
                Some((after, l, e)) => {
                    if !(e == tag[i]) {
                        return Err(NibbleError::Unmatched(Self::expects(), None));
                    }
                    assert(elem_locs(all.take(i + 1)).drop_last() =~= elem_locs(
                        all.take(i as int),
                    ));
                    if i == 0 {
                        loc = l;
                    } else {
                        loc.extend(l);
                    }
                    assert(after.rest() =~= all.skip(i + 1));
                    cur = after;
                    i = i + 1;
                },
            }
        }
        Ok((T::with_loc(loc), cur))
    }
}

} // verus!
