//! Values that know where in a source they come from.
use crate::loc::Loc;
use vstd::prelude::*;

verus! {

/// Something tied to a location in a source text.
pub trait Located {
    /// The location of this whole value. Implementations that are verified define it; it is
    /// left unknown for the others.
    closed spec fn spec_loc(&self) -> Loc {
        arbitrary()
    }

    /// Returns a location that covers this value as a whole.
    fn loc(&self) -> (r: Loc)
        ensures
            r == self.spec_loc(),
    ;
}

/// The location covering a sequence of locations, merged left to right; the location that
/// points to nothing for an empty sequence.
pub open spec fn fold_locs(locs: Seq<Loc>) -> Loc
    decreases locs.len(),
{
    if locs.len() == 0 {
        Loc::spec_new()
    } else if locs.len() == 1 {
        locs[0]
    } else {
        fold_locs(locs.drop_last()).spec_join(locs.last())
    }
}

/// The locations of each element of `items`, in order.
pub open spec fn locs_of<T: Located>(items: Seq<T>) -> Seq<Loc> {
    items.map_values(|t: T| t.spec_loc())
}

impl Located for Loc {
    open spec fn spec_loc(&self) -> Loc {
        *self
    }

    fn loc(&self) -> (r: Loc) {
        *self
    }
}

impl<'a, T: Located> Located for &'a T {
    open spec fn spec_loc(&self) -> Loc {
        (**self).spec_loc()
    }

    fn loc(&self) -> (r: Loc) {
        (**self).loc()
    }
}

impl<T: Located> Located for Box<T> {
    open spec fn spec_loc(&self) -> Loc {
        (**self).spec_loc()
    }

    fn loc(&self) -> (r: Loc) {
        (**self).loc()
    }
}

impl<T: Located> Located for Option<T> {
    /// The location of the value if there is one, else the location that points to nothing.
    open spec fn spec_loc(&self) -> Loc {
        match self {
            Some(v) => v.spec_loc(),
            None => Loc::spec_new(),
        }
    }

    fn loc(&self) -> (r: Loc) {
        match self {
            Some(v) => v.loc(),
            None => Loc::new(),
        }
    }
}

impl<T: Located> Located for Vec<T> {
    /// The locations of the elements merged left to right.
    open spec fn spec_loc(&self) -> Loc {
        fold_locs(locs_of(self@))
    }

    fn loc(&self) -> (r: Loc) {
        let n: usize = self.len();
        if n == 0 {
            return Loc::new();
        }
        let mut res: Loc = self[0].loc();
        let mut i: usize = 1;
        assert(locs_of(self@).take(1) =~= seq![self@[0].spec_loc()]);
        while i < n
            invariant
                1 <= i <= n,
                n == self@.len(),
                res == fold_locs(locs_of(self@).take(i as int)),
            decreases n - i,
        {
            let l: Loc = self[i].loc();
            res.extend(l);
            assert(locs_of(self@).take(i + 1).drop_last() =~= locs_of(self@).take(i as int));
            i = i + 1;
        }
        assert(locs_of(self@).take(n as int) =~= locs_of(self@));
        res
    }
}

/// Merging the locations of no values gives the location that points to nothing; of one value,
/// its own location; of more, the location of all but the last merged with that of the last.
pub proof fn lemma_fold_locs(locs: Seq<Loc>)
    ensures
        locs.len() == 0 ==> fold_locs(locs) == Loc::spec_new(),
        locs.len() == 1 ==> fold_locs(locs) == locs[0],
        locs.len() > 1 ==> fold_locs(locs) == fold_locs(locs.drop_last()).spec_join(locs.last()),
{
}

} // verus!
