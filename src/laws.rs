//! Laws that relate the matchers to one another.
use vstd::prelude::*;

use crate::alternation::{Alt, Alternatives, Or};
use crate::combinators::{lemma_many_values_count, AllConsumed, VecN};
use crate::extract::{AddMatcher, Dispatch};
use crate::parse::{starts_with, StrConst, TParse, TStr};

verus! {

/// A literal matches exactly the inputs that begin with it, and then consumes
/// its own length.
pub proof fn lemma_literal<S: StrConst>(input: Seq<char>)
    ensures
        TStr::<S>::spec_len(input) is Some <==> starts_with(input, S::spec_str()),
        TStr::<S>::spec_len(input) is Some ==> TStr::<S>::spec_len(input) == Some(
            S::spec_str().len(),
        ),
{
}

/// Any character matches exactly the non-empty inputs, and then consumes one
/// character.
pub proof fn lemma_any_char(input: Seq<char>)
    ensures
        char::spec_len(input) is Some <==> input.len() > 0,
        char::spec_len(input) is Some ==> char::spec_len(input) == Some(1nat),
{
}

/// At least `N` repetitions match exactly where the plain repetition reads `N`
/// values or more, and both then consume the same characters.
pub proof fn lemma_at_least_n<const N: usize, P: TParse>(input: Seq<char>, vs: Vec<P>)
    requires
        Vec::<P>::spec_value(input, vs),
    ensures
        VecN::<N, P>::spec_len(input) is Some <==> vs@.len() >= N,
        VecN::<N, P>::spec_len(input) is Some ==> VecN::<N, P>::spec_len(input) == Vec::<
            P,
        >::spec_len(input),
{
    lemma_many_values_count::<P>(input, vs@);
}

/// An optional matcher matches every input, the empty one included.
pub proof fn lemma_optional_never_fails<P: TParse>(input: Seq<char>)
    ensures
        Option::<P>::spec_len(input) is Some,
{
}

/// Full consumption matches exactly where the inner matcher consumes the whole
/// input.
pub proof fn lemma_fully_consumed<P: TParse>(input: Seq<char>)
    ensures
        AllConsumed::<P>::spec_len(input) is Some <==> P::spec_len(input) == Some(input.len()),
{
}

/// Where the first alternative matches, it wins, whatever the others would do.
pub proof fn lemma_first_match_wins<P: TParse, R: Alternatives>(
    input: Seq<char>,
    v: Or<Alt<P, R>>,
)
    requires
        P::spec_len(input) is Some,
        Or::<Alt<P, R>>::spec_value(input, v),
    ensures
        v.0.spec_index() == 0,
        v.0 is Here,
{
}

/// A handler list that can finish an extraction holds a handler for every
/// alternative, and for nothing else.
pub proof fn lemma_finish_needs_every_index<V: Alternatives, Args, Out, S: Dispatch<V, Args, Out>>()
    ensures
        S::registered() =~= Set::new(|i: nat| i < V::arity()),
{
    S::lemma_complete();
}

/// Adding a handler fills a slot that was empty, and only that slot.
pub proof fn lemma_add_fills_one_slot<const K: usize, F, M: AddMatcher<K, F>>()
    ensures
        !M::registered_before().contains(K as nat),
        M::registered_after() =~= M::registered_before().insert(K as nat),
{
    M::lemma_fills_one();
}

} // verus!
