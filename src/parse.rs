//! The matcher contract and the primitive atoms.
use vstd::prelude::*;
use vstd::string::StrSliceExecFns;
use std::marker::PhantomData;

verus! {

/// A matcher: a type whose values are what it reads from the start of a text.
///
/// Lengths are counted in characters (Unicode scalar values).
pub trait TParse: Sized {
    /// How many characters the matcher consumes from `input`, or `None` when it
    /// does not match.
    spec fn spec_len(input: Seq<char>) -> Option<nat>;

    /// Whether `v` is the value read from `input` on a match.
    spec fn spec_value(input: Seq<char>, v: Self) -> bool;

    /// Reads a value from the start of `input` and reports how many characters
    /// it consumed.
    fn tparse(input: &str) -> (r: Option<(Self, usize)>)
        ensures
            match r {
                None => Self::spec_len(input@) is None,
                Some((v, n)) => {
                    &&& Self::spec_len(input@) == Some(n as nat)
                    &&& Self::spec_value(input@, v)
                    &&& n <= input@.len()
                },
            },
    ;
}

/// `char` matches any single character.
impl TParse for char {
    open spec fn spec_len(input: Seq<char>) -> Option<nat> {
        if input.len() > 0 {
            Some(1)
        } else {
            None
        }
    }

    open spec fn spec_value(input: Seq<char>, v: char) -> bool {
        input.len() > 0 && v == input[0]
    }

    fn tparse(input: &str) -> (r: Option<(char, usize)>) {
        if input.is_empty() {
            None
        } else {
            Some((input.get_char(0), 1))
        }
    }
}

/// Supplies the text that a `TStr` matches.
///
/// Implemented once for each literal a grammar uses; `text` must always return
/// the same string, the one that `spec_str` names.
pub trait StrConst {
    /// The literal, as characters. It is empty unless an impl says otherwise,
    /// so an impl of a non-empty literal states it here.
    open spec fn spec_str() -> Seq<char> {
        Seq::empty()
    }

    fn text() -> (r: &'static str)
        ensures
            r@ == Self::spec_str(),
    ;
}

/// Matches exactly the literal that `S` supplies.
pub struct TStr<S: StrConst>(pub PhantomData<S>);

impl<S: StrConst> TStr<S> {
    /// The literal this matcher reads.
    pub fn str(&self) -> (r: &'static str)
        ensures
            r@ == S::spec_str(),
    {
        S::text()
    }
}

/// Whether `input` begins with `prefix`.
pub open spec fn starts_with(input: Seq<char>, prefix: Seq<char>) -> bool {
    prefix.len() <= input.len() && input.subrange(0, prefix.len() as int) == prefix
}

impl<S: StrConst> TParse for TStr<S> {
    open spec fn spec_len(input: Seq<char>) -> Option<nat> {
        if starts_with(input, S::spec_str()) {
            Some(S::spec_str().len())
        } else {
            None
        }
    }

    open spec fn spec_value(input: Seq<char>, v: TStr<S>) -> bool {
        true
    }

    fn tparse(input: &str) -> (r: Option<(TStr<S>, usize)>) {
        let lit = S::text();
        let n = lit.unicode_len();
        let len = input.unicode_len();
        if n > len {
            return None;
        }
        let mut i: usize = 0;
        while i < n
            invariant
                n == lit@.len(),
                len == input@.len(),
                n <= len,
                i <= n,
                lit@ == S::spec_str(),
                forall|j: int| 0 <= j < i ==> input@[j] == lit@[j],
            decreases n - i,
        {
            if input.get_char(i) != lit.get_char(i) {
                assert(input@.subrange(0, n as int)[i as int] != lit@[i as int]);
                return None;
            }
            i += 1;
        }
        assert(input@.subrange(0, n as int) =~= lit@);
        Some((TStr(PhantomData), n))
    }
}

/// Matches one character whose code point lies in `START..=END`.
pub struct RangedChar<const START: u32, const END: u32>(pub char);

impl<const START: u32, const END: u32> TParse for RangedChar<START, END> {
    open spec fn spec_len(input: Seq<char>) -> Option<nat> {
        if input.len() > 0 && START <= input[0] as u32 <= END {
            Some(1)
        } else {
            None
        }
    }

    open spec fn spec_value(input: Seq<char>, v: RangedChar<START, END>) -> bool {
        input.len() > 0 && v.0 == input[0]
    }

    fn tparse(input: &str) -> (r: Option<(RangedChar<START, END>, usize)>) {
        match char::tparse(input) {
            None => None,
            Some((c, n)) => {
                let code = c as u32;
                if START <= code && code <= END {
                    Some((RangedChar(c), n))
                } else {
                    None
                }
            },
        }
    }
}

/// Always matches without consuming; holds the number of characters left.
pub struct RemainingLength(pub usize);

impl TParse for RemainingLength {
    open spec fn spec_len(input: Seq<char>) -> Option<nat> {
        Some(0)
    }

    open spec fn spec_value(input: Seq<char>, v: RemainingLength) -> bool {
        v.0 == input.len()
    }

    fn tparse(input: &str) -> (r: Option<(RemainingLength, usize)>) {
        Some((RemainingLength(input.unicode_len()), 0))
    }
}

} // verus!
