//! Human-readable descriptions of what a parser expects, for diagnostics.
use crate::optional::OptionFormatter;
use crate::range::{decimal, push_decimal};
use crate::repeat::VecFormatter;
use crate::tree::{Tag, TagFormatter};
use vstd::prelude::*;
use vstd::string::StringExecFns;

verus! {

/// A description of what a parser expects, to complete "expected ...".
pub trait Expects {
    /// The text of this description. Implementations that are verified define it; it is left
    /// unknown for the others.
    closed spec fn spec_text(&self) -> Seq<char> {
        arbitrary()
    }

    /// Writes this description ("an identifier", "optionally a digit", ...).
    fn describe(&self) -> (r: String)
        ensures
            r@ == self.spec_text(),
    ;
}

impl<'a> Expects for &'a str {
    /// The text itself.
    open spec fn spec_text(&self) -> Seq<char> {
        (*self)@
    }

    fn describe(&self) -> (r: String) {
        <String as StringExecFns>::from_str(*self)
    }
}

impl<F: Expects> Expects for OptionFormatter<F> {
    /// "optionally " and the description of the value.
    open spec fn spec_text(&self) -> Seq<char> {
        "optionally "@ + self.fmt.spec_text()
    }

    fn describe(&self) -> (r: String) {
        let mut out = <String as StringExecFns>::from_str("optionally ");
        let inner = self.fmt.describe();
        out.append(inner.as_str());
        out
    }
}

impl<F: Expects> Expects for VecFormatter<F> {
    /// "zero or more occurrences of " and the description of one occurrence.
    open spec fn spec_text(&self) -> Seq<char> {
        "zero or more occurrences of "@ + self.fmt.spec_text()
    }

    fn describe(&self) -> (r: String) {
        let mut out = <String as StringExecFns>::from_str("zero or more occurrences of ");
        let inner = self.fmt.describe();
        out.append(inner.as_str());
        out
    }
}

/// The bytes of `bytes` in decimal, separated by ", ".
pub open spec fn byte_list(bytes: Seq<u8>) -> Seq<char>
    decreases bytes.len(),
{
    if bytes.len() == 0 {
        Seq::empty()
    } else if bytes.len() == 1 {
        decimal(bytes[0] as nat)
    } else {
        byte_list(bytes.drop_last()) + ", "@ + decimal(bytes.last() as nat)
    }
}

impl<T: Tag<u8>> Expects for TagFormatter<u8, T> {
    /// The tag's bytes as a list: `[72, 105]`.
    open spec fn spec_text(&self) -> Seq<char> {
        "["@ + byte_list(T::spec_tag()) + "]"@
    }

    fn describe(&self) -> (r: String) {
        let tag: &'static [u8] = T::tag();
        let mut out = <String as StringExecFns>::from_str("[");
        let mut i: usize = 0;
        while i < tag.len()
            invariant
                i <= tag@.len(),
                tag@ == T::spec_tag(),
                out@ == "["@ + byte_list(tag@.take(i as int)),
            decreases tag@.len() - i,
        {
            if i > 0 {
                out.append(", ");
            }
            push_decimal(&mut out, tag[i] as u64);
            proof {
                let s = tag@.take(i + 1);
                assert(s.drop_last() =~= tag@.take(i as int));
                if i == 0 {
                    assert(byte_list(tag@.take(i as int)) =~= Seq::<char>::empty());
                }
            }
            i = i + 1;
        }
        out.append("]");
        assert(tag@.take(tag@.len() as int) =~= tag@);
        out
    }
}

} // verus!
