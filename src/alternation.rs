//! Ordered choice among any number of matchers.
//!
//! The alternatives form a list: `Alt<A, Alt<B, ... Alt<Z, End>>>`. As a
//! value, `Alt` is the tagged union of the alternatives' values: `Here` holds
//! the value of the first alternative, `There` what the rest read. The index of
//! the winning alternative, counted from 0, is how many `There` wrap the `Here`.
use vstd::prelude::*;

use crate::parse::TParse;

verus! {

/// The alternative `P`, tried before the alternatives `R`.
pub enum Alt<P, R> {
    Here(P),
    There(R),
}

/// The end of a list of alternatives: it never matches.
pub struct End;

impl TParse for End {
    open spec fn spec_len(input: Seq<char>) -> Option<nat> {
        None
    }

    open spec fn spec_value(input: Seq<char>, v: End) -> bool {
        false
    }

    fn tparse(input: &str) -> (r: Option<(End, usize)>) {
        None
    }
}

impl<P: TParse, R: TParse> TParse for Alt<P, R> {
    open spec fn spec_len(input: Seq<char>) -> Option<nat> {
        match P::spec_len(input) {
            Some(n) => Some(n),
            None => R::spec_len(input),
        }
    }

    open spec fn spec_value(input: Seq<char>, v: Alt<P, R>) -> bool {
        match v {
            Alt::Here(p) => P::spec_len(input) is Some && P::spec_value(input, p),
            Alt::There(r) => P::spec_len(input) is None && R::spec_value(input, r),
        }
    }

    fn tparse(input: &str) -> (r: Option<(Alt<P, R>, usize)>) {
        match P::tparse(input) {
            Some((p, n)) => Some((Alt::Here(p), n)),
            None => match R::tparse(input) {
                Some((r, n)) => Some((Alt::There(r), n)),
                None => None,
            },
        }
    }
}

/// A list of alternatives, and as a value, which of them matched.
pub trait Alternatives: TParse {
    /// How many alternatives the list holds.
    spec fn arity() -> nat;

    /// The index of the alternative this value came from, counted from 0.
    spec fn spec_index(&self) -> nat;

    /// A value read from some input came from one of the alternatives.
    proof fn lemma_index_in_range(input: Seq<char>, v: Self)
        requires
            Self::spec_value(input, v),
        ensures
            v.spec_index() < Self::arity(),
    ;

    fn index(&self) -> (r: usize)
        requires
            self.spec_index() <= usize::MAX,
        ensures
            r == self.spec_index(),
    ;
}

impl Alternatives for End {
    open spec fn arity() -> nat {
        0
    }

    open spec fn spec_index(&self) -> nat {
        0
    }

    proof fn lemma_index_in_range(input: Seq<char>, v: End) {
    }

    fn index(&self) -> (r: usize) {
        0
    }
}

impl<P: TParse, R: Alternatives> Alternatives for Alt<P, R> {
    open spec fn arity() -> nat {
        1 + R::arity()
    }

    open spec fn spec_index(&self) -> nat {
        match self {
            Alt::Here(_) => 0,
            Alt::There(r) => 1 + r.spec_index(),
        }
    }

    proof fn lemma_index_in_range(input: Seq<char>, v: Alt<P, R>) {
        if let Alt::There(r) = v {
            R::lemma_index_in_range(input, r);
        }
    }

    fn index(&self) -> (r: usize) {
        match self {
            Alt::Here(_) => 0,
            Alt::There(r) => 1 + r.index(),
        }
    }
}

/// Tries the alternatives of `T` in order; the first that matches wins.
pub struct Or<T>(pub T);

impl<T: Alternatives> TParse for Or<T> {
    open spec fn spec_len(input: Seq<char>) -> Option<nat> {
        T::spec_len(input)
    }

    open spec fn spec_value(input: Seq<char>, v: Or<T>) -> bool {
        T::spec_value(input, v.0)
    }

    fn tparse(input: &str) -> (r: Option<(Or<T>, usize)>) {
        match T::tparse(input) {
            Some((v, n)) => Some((Or(v), n)),
            None => None,
        }
    }
}

impl<T: Alternatives> Or<T> {
    /// The index of the alternative that matched, counted from 0.
    pub fn index(&self) -> (r: usize)
        requires
            T::arity() <= usize::MAX,
            self.0.spec_index() < T::arity(),
        ensures
            r == self.0.spec_index(),
    {
        self.0.index()
    }
}

} // verus!
