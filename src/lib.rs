//! Building blocks for AST-based parsers: source locations that can be sliced and merged without
//! holding the source text, and an incremental parsing protocol over streams of elements.
pub mod error;
pub mod expects;
pub mod loc;
pub mod located;
pub mod optional;
pub mod parsable;
pub mod range;
pub mod repeat;
pub mod stream;
pub mod tree;

pub use error::{Needed, NibbleError, ResultExt};
pub use expects::Expects;
pub use loc::{Loc, TestLoc};
pub use located::Located;
pub use optional::OptionFormatter;
pub use parsable::Parsable;
pub use range::{Index, Length, Range};
pub use repeat::VecFormatter;
pub use stream::{CopiedStream, ParseStream, SliceParser};
pub use tree::{Node, NonTerm, Tag, TagFormatter, Term, Utf8Tag};
