//! Typed parser combinators: each matcher is a type whose `tparse` consumes a
//! prefix of the input, with an exhaustively checked extraction for ordered
//! choices.
pub mod alternation;
pub mod combinators;
pub mod extract;
pub mod laws;
pub mod parse;

pub use alternation::{Alt, Alternatives, End, Or};
pub use combinators::{AllConsumed, Is, IsNot, VecN};
pub use extract::{AddMatcher, Dispatch, EmptySlots, IsNothing, IsPresent, MapType, Matcher, TupleMapType};
pub use parse::{RangedChar, RemainingLength, StrConst, TParse, TStr};
