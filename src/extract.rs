//! Exhaustive extraction of an alternation's result.
//!
//! A `Matcher` holds the result of an `Or`, an argument bundle for the handlers,
//! and one slot per alternative. A slot is `IsNothing` until a handler is added
//! for its index, and `IsPresent` after. `add_matcher` exists only for a slot
//! that is still empty, and `do_match` only once every slot is filled, so an
//! incomplete or doubly filled handler set does not type-check.
use vstd::prelude::*;
use std::marker::PhantomData;

use crate::alternation::{Alt, Alternatives, End, Or};
use crate::parse::TParse;

verus! {

/// Whether a slot holds a handler.
pub trait MapType {
    spec fn present() -> bool;
}

/// A slot holding the handler `F`.
pub struct IsPresent<F>(pub F);

/// A slot without a handler.
pub struct IsNothing;

impl MapType for IsNothing {
    open spec fn present() -> bool {
        false
    }
}

impl<F> MapType for IsPresent<F> {
    open spec fn present() -> bool {
        true
    }
}

/// A list of slots, `(S0, (S1, ... ()))`.
pub trait TupleMapType {
    /// The indices whose slot holds a handler.
    spec fn registered() -> Set<nat>;
}

impl TupleMapType for () {
    open spec fn registered() -> Set<nat> {
        Set::empty()
    }
}

impl<M: MapType, S: TupleMapType> TupleMapType for (M, S) {
    open spec fn registered() -> Set<nat> {
        Set::new(
            |i: nat|
                if i == 0 {
                    M::present()
                } else {
                    S::registered().contains((i - 1) as nat)
                },
        )
    }
}

/// The builder: the alternation's result `or`, the handlers' shared
/// arguments `args`, and one slot per alternative in `handlers`.
pub struct Matcher<A, Args, Out, S> {
    pub args: Args,
    pub handlers: S,
    pub or: Or<A>,
    pub out: PhantomData<Out>,
}

/// A full list of handlers, one for each alternative of `V`, each producing
/// an `Out` from its alternative's value and the shared arguments.
pub trait Dispatch<V: Alternatives, Args, Out>: TupleMapType + Sized {
    /// Whether the handler for the alternative that `v` came from accepts
    /// `v`'s value and `args`.
    spec fn spec_ready(&self, v: V, args: Args) -> bool;

    /// Whether `out` is what that handler may return on them.
    spec fn spec_dispatched(&self, v: V, args: Args, out: Out) -> bool;

    /// Every index of `V` holds a handler.
    proof fn lemma_complete()
        ensures
            Self::registered() =~= Set::new(|i: nat| i < V::arity()),
    ;

    /// Calls the handler for the alternative that `v` came from, and no other.
    fn dispatch(self, v: V, args: Args) -> (out: Out)
        requires
            self.spec_ready(v, args),
        ensures
            self.spec_dispatched(v, args, out),
    ;
}

impl<Args, Out> Dispatch<End, Args, Out> for () {
    open spec fn spec_ready(&self, v: End, args: Args) -> bool {
        false
    }

    open spec fn spec_dispatched(&self, v: End, args: Args, out: Out) -> bool {
        false
    }

    proof fn lemma_complete() {
    }

    fn dispatch(self, v: End, args: Args) -> (out: Out) {
        vstd::pervasive::unreached()
    }
}

impl<P, R, F, S, Args, Out> Dispatch<Alt<P, R>, Args, Out> for (IsPresent<F>, S) where
    P: TParse,
    R: Alternatives,
    F: FnOnce(P, Args) -> Out,
    S: Dispatch<R, Args, Out>,
 {
    open spec fn spec_ready(&self, v: Alt<P, R>, args: Args) -> bool {
        match v {
            Alt::Here(p) => self.0.0.requires((p, args)),
            Alt::There(r) => self.1.spec_ready(r, args),
        }
    }

    open spec fn spec_dispatched(&self, v: Alt<P, R>, args: Args, out: Out) -> bool {
        match v {
            Alt::Here(p) => self.0.0.ensures((p, args), out),
            Alt::There(r) => self.1.spec_dispatched(r, args, out),
        }
    }

    proof fn lemma_complete() {
        S::lemma_complete();
    }

    fn dispatch(self, v: Alt<P, R>, args: Args) -> (out: Out) {
        let (slot, rest) = self;
        match v {
            Alt::Here(p) => (slot.0)(p, args),
            Alt::There(r) => rest.dispatch(r, args),
        }
    }
}

impl<A: Alternatives, Args, Out, S: Dispatch<A, Args, Out>> Matcher<A, Args, Out, S> {
    /// Hands the alternation's value and the shared arguments to the handler
    /// of the alternative that matched, and returns what it returns.
    pub fn do_match(self) -> (out: Out)
        requires
            self.handlers.spec_ready(self.or.0, self.args),
        ensures
            self.handlers.spec_dispatched(self.or.0, self.args, out),
    {
        let Matcher { args, handlers, or, out: _ } = self;
        handlers.dispatch(or.0, args)
    }
}

/// A list of alternatives, with the list of empty slots of the same length.
pub trait EmptySlots: Alternatives {
    type Empty: TupleMapType;

    /// No index of the empty list holds a handler.
    proof fn lemma_empty()
        ensures
            Self::Empty::registered() =~= Set::<nat>::empty(),
    ;

    fn empty_slots() -> Self::Empty;
}

impl EmptySlots for End {
    type Empty = ();

    proof fn lemma_empty() {
    }

    fn empty_slots() -> () {
    }
}

impl<P: TParse, R: EmptySlots> EmptySlots for Alt<P, R> {
    type Empty = (IsNothing, R::Empty);

    proof fn lemma_empty() {
        R::lemma_empty();
    }

    fn empty_slots() -> (IsNothing, R::Empty) {
        (IsNothing, R::empty_slots())
    }
}

impl<T: EmptySlots> Or<T> {
    /// Starts the extraction of this result: no handler yet, and `args` to be
    /// handed to the one that runs.
    pub fn matcher<Args, Out>(self, args: Args) -> (r: Matcher<T, Args, Out, T::Empty>)
        ensures
            r.or == self,
            r.args == args,
            T::Empty::registered() =~= Set::<nat>::empty(),
    {
        proof {
            T::lemma_empty();
        }
        Matcher { args, handlers: T::empty_slots(), or: self, out: PhantomData }
    }
}

/// Fills the empty slot `VARIANT` with the handler `F`.
pub trait AddMatcher<const VARIANT: usize, F>: Sized {
    type Output;

    /// The slots that hold a handler, before and after.
    spec fn registered_before() -> Set<nat>;

    spec fn registered_after() -> Set<nat>;

    /// Whether `out` is `self` with `f` in slot `VARIANT`.
    spec fn spec_added(self, f: F, out: Self::Output) -> bool;

    /// The slot was empty, and is the one filled.
    proof fn lemma_fills_one()
        ensures
            !Self::registered_before().contains(VARIANT as nat),
            Self::registered_after() =~= Self::registered_before().insert(VARIANT as nat),
    ;

    fn add_matcher(self, f: F) -> (r: Self::Output)
        ensures
            Self::spec_added(self, f, r),
    ;
}

impl<A0, R, Args, Out, S, F> AddMatcher<0, F> for Matcher<Alt<A0, R>, Args, Out, (IsNothing, S)> where
    S: TupleMapType,
    F: FnOnce(A0, Args) -> Out,
 {
    type Output = Matcher<Alt<A0, R>, Args, Out, (IsPresent<F>, S)>;

    open spec fn registered_before() -> Set<nat> {
        <(IsNothing, S)>::registered()
    }

    open spec fn registered_after() -> Set<nat> {
        <(IsPresent<F>, S)>::registered()
    }

    open spec fn spec_added(self, f: F, out: Self::Output) -> bool {
        &&& out.args == self.args
        &&& out.or == self.or
        &&& out.handlers == (IsPresent(f), self.handlers.1)
    }

    proof fn lemma_fills_one() {
    }

    fn add_matcher(self, f: F) -> (r: Self::Output) {
        let Matcher { args, handlers, or, out: _ } = self;
        let (_, s) = handlers;
        Matcher { args, handlers: (IsPresent(f), s), or, out: PhantomData }
    }
}

impl<A0, A1, R, Args, Out, S0, S, F> AddMatcher<1, F> for Matcher<
    Alt<A0, Alt<A1, R>>,
    Args,
    Out,
    (S0, (IsNothing, S)),
> where
    S0: MapType,
    S: TupleMapType,
    F: FnOnce(A1, Args) -> Out,
 {
    type Output = Matcher<Alt<A0, Alt<A1, R>>, Args, Out, (S0, (IsPresent<F>, S))>;

    open spec fn registered_before() -> Set<nat> {
        <(S0, (IsNothing, S))>::registered()
    }

    open spec fn registered_after() -> Set<nat> {
        <(S0, (IsPresent<F>, S))>::registered()
    }

    open spec fn spec_added(self, f: F, out: Self::Output) -> bool {
        &&& out.args == self.args
        &&& out.or == self.or
        &&& out.handlers == (self.handlers.0, (IsPresent(f), self.handlers.1.1))
    }

    proof fn lemma_fills_one() {
    }

    fn add_matcher(self, f: F) -> (r: Self::Output) {
        let Matcher { args, handlers, or, out: _ } = self;
        let (s0, (_, s)) = handlers;
        Matcher { args, handlers: (s0, (IsPresent(f), s)), or, out: PhantomData }
    }
}

impl<A0, A1, A2, R, Args, Out, S0, S1, S, F> AddMatcher<2, F> for Matcher<
    Alt<A0, Alt<A1, Alt<A2, R>>>,
    Args,
    Out,
    (S0, (S1, (IsNothing, S))),
> where
    S0: MapType,
    S1: MapType,
    S: TupleMapType,
    F: FnOnce(A2, Args) -> Out,
 {
    type Output = Matcher<Alt<A0, Alt<A1, Alt<A2, R>>>, Args, Out, (S0, (S1, (IsPresent<F>, S)))>;

    open spec fn registered_before() -> Set<nat> {
        <(S0, (S1, (IsNothing, S)))>::registered()
    }

    open spec fn registered_after() -> Set<nat> {
        <(S0, (S1, (IsPresent<F>, S)))>::registered()
    }

    open spec fn spec_added(self, f: F, out: Self::Output) -> bool {
        &&& out.args == self.args
        &&& out.or == self.or
        &&& out.handlers == (self.handlers.0, (self.handlers.1.0, (IsPresent(f), self.handlers.1.1.1)))
    }

    proof fn lemma_fills_one() {
    }

    fn add_matcher(self, f: F) -> (r: Self::Output) {
        let Matcher { args, handlers, or, out: _ } = self;
        let (s0, (s1, (_, s))) = handlers;
        Matcher { args, handlers: (s0, (s1, (IsPresent(f), s))), or, out: PhantomData }
    }
}

impl<A0, A1, A2, A3, R, Args, Out, S0, S1, S2, S, F> AddMatcher<3, F> for Matcher<
    Alt<A0, Alt<A1, Alt<A2, Alt<A3, R>>>>,
    Args,
    Out,
    (S0, (S1, (S2, (IsNothing, S)))),
> where
    S0: MapType,
    S1: MapType,
    S2: MapType,
    S: TupleMapType,
    F: FnOnce(A3, Args) -> Out,
 {
    type Output = Matcher<Alt<A0, Alt<A1, Alt<A2, Alt<A3, R>>>>, Args, Out, (S0, (S1, (S2, (IsPresent<F>, S))))>;

    open spec fn registered_before() -> Set<nat> {
        <(S0, (S1, (S2, (IsNothing, S))))>::registered()
    }

    open spec fn registered_after() -> Set<nat> {
        <(S0, (S1, (S2, (IsPresent<F>, S))))>::registered()
    }

    open spec fn spec_added(self, f: F, out: Self::Output) -> bool {
        &&& out.args == self.args
        &&& out.or == self.or
        &&& out.handlers == (self.handlers.0, (self.handlers.1.0, (self.handlers.1.1.0, (IsPresent(f), self.handlers.1.1.1.1))))
    }

    proof fn lemma_fills_one() {
    }

    fn add_matcher(self, f: F) -> (r: Self::Output) {
        let Matcher { args, handlers, or, out: _ } = self;
        let (s0, (s1, (s2, (_, s)))) = handlers;
        Matcher { args, handlers: (s0, (s1, (s2, (IsPresent(f), s)))), or, out: PhantomData }
    }
}

impl<A0, A1, A2, A3, A4, R, Args, Out, S0, S1, S2, S3, S, F> AddMatcher<4, F> for Matcher<
    Alt<A0, Alt<A1, Alt<A2, Alt<A3, Alt<A4, R>>>>>,
    Args,
    Out,
    (S0, (S1, (S2, (S3, (IsNothing, S))))),
> where
    S0: MapType,
    S1: MapType,
    S2: MapType,
    S3: MapType,
    S: TupleMapType,
    F: FnOnce(A4, Args) -> Out,
 {
    type Output = Matcher<Alt<A0, Alt<A1, Alt<A2, Alt<A3, Alt<A4, R>>>>>, Args, Out, (S0, (S1, (S2, (S3, (IsPresent<F>, S)))))>;

    open spec fn registered_before() -> Set<nat> {
        <(S0, (S1, (S2, (S3, (IsNothing, S)))))>::registered()
    }

    open spec fn registered_after() -> Set<nat> {
        <(S0, (S1, (S2, (S3, (IsPresent<F>, S)))))>::registered()
    }

    open spec fn spec_added(self, f: F, out: Self::Output) -> bool {
        &&& out.args == self.args
        &&& out.or == self.or
        &&& out.handlers == (self.handlers.0, (self.handlers.1.0, (self.handlers.1.1.0, (self.handlers.1.1.1.0, (IsPresent(f), self.handlers.1.1.1.1.1)))))
    }

    proof fn lemma_fills_one() {
    }

    fn add_matcher(self, f: F) -> (r: Self::Output) {
        let Matcher { args, handlers, or, out: _ } = self;
        let (s0, (s1, (s2, (s3, (_, s))))) = handlers;
        Matcher { args, handlers: (s0, (s1, (s2, (s3, (IsPresent(f), s))))), or, out: PhantomData }
    }
}

impl<A0, A1, A2, A3, A4, A5, R, Args, Out, S0, S1, S2, S3, S4, S, F> AddMatcher<5, F> for Matcher<
    Alt<A0, Alt<A1, Alt<A2, Alt<A3, Alt<A4, Alt<A5, R>>>>>>,
    Args,
    Out,
    (S0, (S1, (S2, (S3, (S4, (IsNothing, S)))))),
> where
    S0: MapType,
    S1: MapType,
    S2: MapType,
    S3: MapType,
    S4: MapType,
    S: TupleMapType,
    F: FnOnce(A5, Args) -> Out,
 {
    type Output = Matcher<Alt<A0, Alt<A1, Alt<A2, Alt<A3, Alt<A4, Alt<A5, R>>>>>>, Args, Out, (S0, (S1, (S2, (S3, (S4, (IsPresent<F>, S))))))>;

    open spec fn registered_before() -> Set<nat> {
        <(S0, (S1, (S2, (S3, (S4, (IsNothing, S))))))>::registered()
    }

    open spec fn registered_after() -> Set<nat> {
        <(S0, (S1, (S2, (S3, (S4, (IsPresent<F>, S))))))>::registered()
    }

    open spec fn spec_added(self, f: F, out: Self::Output) -> bool {
        &&& out.args == self.args
        &&& out.or == self.or
        &&& out.handlers == (self.handlers.0, (self.handlers.1.0, (self.handlers.1.1.0, (self.handlers.1.1.1.0, (self.handlers.1.1.1.1.0, (IsPresent(f), self.handlers.1.1.1.1.1.1))))))
    }

    proof fn lemma_fills_one() {
    }

    fn add_matcher(self, f: F) -> (r: Self::Output) {
        let Matcher { args, handlers, or, out: _ } = self;
        let (s0, (s1, (s2, (s3, (s4, (_, s)))))) = handlers;
        Matcher { args, handlers: (s0, (s1, (s2, (s3, (s4, (IsPresent(f), s)))))), or, out: PhantomData }
    }
}

impl<A0, A1, A2, A3, A4, A5, A6, R, Args, Out, S0, S1, S2, S3, S4, S5, S, F> AddMatcher<6, F> for Matcher<
    Alt<A0, Alt<A1, Alt<A2, Alt<A3, Alt<A4, Alt<A5, Alt<A6, R>>>>>>>,
    Args,
    Out,
    (S0, (S1, (S2, (S3, (S4, (S5, (IsNothing, S))))))),
> where
    S0: MapType,
    S1: MapType,
    S2: MapType,
    S3: MapType,
    S4: MapType,
    S5: MapType,
    S: TupleMapType,
    F: FnOnce(A6, Args) -> Out,
 {
    type Output = Matcher<Alt<A0, Alt<A1, Alt<A2, Alt<A3, Alt<A4, Alt<A5, Alt<A6, R>>>>>>>, Args, Out, (S0, (S1, (S2, (S3, (S4, (S5, (IsPresent<F>, S)))))))>;

    open spec fn registered_before() -> Set<nat> {
        <(S0, (S1, (S2, (S3, (S4, (S5, (IsNothing, S)))))))>::registered()
    }

    open spec fn registered_after() -> Set<nat> {
        <(S0, (S1, (S2, (S3, (S4, (S5, (IsPresent<F>, S)))))))>::registered()
    }

    open spec fn spec_added(self, f: F, out: Self::Output) -> bool {
        &&& out.args == self.args
        &&& out.or == self.or
        &&& out.handlers == (self.handlers.0, (self.handlers.1.0, (self.handlers.1.1.0, (self.handlers.1.1.1.0, (self.handlers.1.1.1.1.0, (self.handlers.1.1.1.1.1.0, (IsPresent(f), self.handlers.1.1.1.1.1.1.1)))))))
    }

    proof fn lemma_fills_one() {
    }

    fn add_matcher(self, f: F) -> (r: Self::Output) {
        let Matcher { args, handlers, or, out: _ } = self;
        let (s0, (s1, (s2, (s3, (s4, (s5, (_, s))))))) = handlers;
        Matcher { args, handlers: (s0, (s1, (s2, (s3, (s4, (s5, (IsPresent(f), s))))))), or, out: PhantomData }
    }
}

impl<A0, A1, A2, A3, A4, A5, A6, A7, R, Args, Out, S0, S1, S2, S3, S4, S5, S6, S, F> AddMatcher<7, F> for Matcher<
    Alt<A0, Alt<A1, Alt<A2, Alt<A3, Alt<A4, Alt<A5, Alt<A6, Alt<A7, R>>>>>>>>,
    Args,
    Out,
    (S0, (S1, (S2, (S3, (S4, (S5, (S6, (IsNothing, S)))))))),
> where
    S0: MapType,
    S1: MapType,
    S2: MapType,
    S3: MapType,
    S4: MapType,
    S5: MapType,
    S6: MapType,
    S: TupleMapType,
    F: FnOnce(A7, Args) -> Out,
 {
    type Output = Matcher<Alt<A0, Alt<A1, Alt<A2, Alt<A3, Alt<A4, Alt<A5, Alt<A6, Alt<A7, R>>>>>>>>, Args, Out, (S0, (S1, (S2, (S3, (S4, (S5, (S6, (IsPresent<F>, S))))))))>;

    open spec fn registered_before() -> Set<nat> {
        <(S0, (S1, (S2, (S3, (S4, (S5, (S6, (IsNothing, S))))))))>::registered()
    }

    open spec fn registered_after() -> Set<nat> {
        <(S0, (S1, (S2, (S3, (S4, (S5, (S6, (IsPresent<F>, S))))))))>::registered()
    }

    open spec fn spec_added(self, f: F, out: Self::Output) -> bool {
        &&& out.args == self.args
        &&& out.or == self.or
        &&& out.handlers == (self.handlers.0, (self.handlers.1.0, (self.handlers.1.1.0, (self.handlers.1.1.1.0, (self.handlers.1.1.1.1.0, (self.handlers.1.1.1.1.1.0, (self.handlers.1.1.1.1.1.1.0, (IsPresent(f), self.handlers.1.1.1.1.1.1.1.1))))))))
    }

    proof fn lemma_fills_one() {
    }

    fn add_matcher(self, f: F) -> (r: Self::Output) {
        let Matcher { args, handlers, or, out: _ } = self;
        let (s0, (s1, (s2, (s3, (s4, (s5, (s6, (_, s)))))))) = handlers;
        Matcher { args, handlers: (s0, (s1, (s2, (s3, (s4, (s5, (s6, (IsPresent(f), s)))))))), or, out: PhantomData }
    }
}

impl<A0, A1, A2, A3, A4, A5, A6, A7, A8, R, Args, Out, S0, S1, S2, S3, S4, S5, S6, S7, S, F> AddMatcher<8, F> for Matcher<
    Alt<A0, Alt<A1, Alt<A2, Alt<A3, Alt<A4, Alt<A5, Alt<A6, Alt<A7, Alt<A8, R>>>>>>>>>,
    Args,
    Out,
    (S0, (S1, (S2, (S3, (S4, (S5, (S6, (S7, (IsNothing, S))))))))),
> where
    S0: MapType,
    S1: MapType,
    S2: MapType,
    S3: MapType,
    S4: MapType,
    S5: MapType,
    S6: MapType,
    S7: MapType,
    S: TupleMapType,
    F: FnOnce(A8, Args) -> Out,
 {
    type Output = Matcher<Alt<A0, Alt<A1, Alt<A2, Alt<A3, Alt<A4, Alt<A5, Alt<A6, Alt<A7, Alt<A8, R>>>>>>>>>, Args, Out, (S0, (S1, (S2, (S3, (S4, (S5, (S6, (S7, (IsPresent<F>, S)))))))))>;

    open spec fn registered_before() -> Set<nat> {
        <(S0, (S1, (S2, (S3, (S4, (S5, (S6, (S7, (IsNothing, S)))))))))>::registered()
    }

    open spec fn registered_after() -> Set<nat> {
        <(S0, (S1, (S2, (S3, (S4, (S5, (S6, (S7, (IsPresent<F>, S)))))))))>::registered()
    }

    open spec fn spec_added(self, f: F, out: Self::Output) -> bool {
        &&& out.args == self.args
        &&& out.or == self.or
        &&& out.handlers == (self.handlers.0, (self.handlers.1.0, (self.handlers.1.1.0, (self.handlers.1.1.1.0, (self.handlers.1.1.1.1.0, (self.handlers.1.1.1.1.1.0, (self.handlers.1.1.1.1.1.1.0, (self.handlers.1.1.1.1.1.1.1.0, (IsPresent(f), self.handlers.1.1.1.1.1.1.1.1.1)))))))))
    }

    proof fn lemma_fills_one() {
    }

    fn add_matcher(self, f: F) -> (r: Self::Output) {
        let Matcher { args, handlers, or, out: _ } = self;
        let (s0, (s1, (s2, (s3, (s4, (s5, (s6, (s7, (_, s))))))))) = handlers;
        Matcher { args, handlers: (s0, (s1, (s2, (s3, (s4, (s5, (s6, (s7, (IsPresent(f), s))))))))), or, out: PhantomData }
    }
}

impl<A0, A1, A2, A3, A4, A5, A6, A7, A8, A9, R, Args, Out, S0, S1, S2, S3, S4, S5, S6, S7, S8, S, F> AddMatcher<9, F> for Matcher<
    Alt<A0, Alt<A1, Alt<A2, Alt<A3, Alt<A4, Alt<A5, Alt<A6, Alt<A7, Alt<A8, Alt<A9, R>>>>>>>>>>,
    Args,
    Out,
    (S0, (S1, (S2, (S3, (S4, (S5, (S6, (S7, (S8, (IsNothing, S)))))))))),
> where
    S0: MapType,
    S1: MapType,
    S2: MapType,
    S3: MapType,
    S4: MapType,
    S5: MapType,
    S6: MapType,
    S7: MapType,
    S8: MapType,
    S: TupleMapType,
    F: FnOnce(A9, Args) -> Out,
 {
    type Output = Matcher<Alt<A0, Alt<A1, Alt<A2, Alt<A3, Alt<A4, Alt<A5, Alt<A6, Alt<A7, Alt<A8, Alt<A9, R>>>>>>>>>>, Args, Out, (S0, (S1, (S2, (S3, (S4, (S5, (S6, (S7, (S8, (IsPresent<F>, S))))))))))>;

    open spec fn registered_before() -> Set<nat> {
        <(S0, (S1, (S2, (S3, (S4, (S5, (S6, (S7, (S8, (IsNothing, S))))))))))>::registered()
    }

    open spec fn registered_after() -> Set<nat> {
        <(S0, (S1, (S2, (S3, (S4, (S5, (S6, (S7, (S8, (IsPresent<F>, S))))))))))>::registered()
    }

    open spec fn spec_added(self, f: F, out: Self::Output) -> bool {
        &&& out.args == self.args
        &&& out.or == self.or
        &&& out.handlers == (self.handlers.0, (self.handlers.1.0, (self.handlers.1.1.0, (self.handlers.1.1.1.0, (self.handlers.1.1.1.1.0, (self.handlers.1.1.1.1.1.0, (self.handlers.1.1.1.1.1.1.0, (self.handlers.1.1.1.1.1.1.1.0, (self.handlers.1.1.1.1.1.1.1.1.0, (IsPresent(f), self.handlers.1.1.1.1.1.1.1.1.1.1))))))))))
    }

    proof fn lemma_fills_one() {
    }

    fn add_matcher(self, f: F) -> (r: Self::Output) {
        let Matcher { args, handlers, or, out: _ } = self;
        let (s0, (s1, (s2, (s3, (s4, (s5, (s6, (s7, (s8, (_, s)))))))))) = handlers;
        Matcher { args, handlers: (s0, (s1, (s2, (s3, (s4, (s5, (s6, (s7, (s8, (IsPresent(f), s)))))))))), or, out: PhantomData }
    }
}

impl<A0, A1, A2, A3, A4, A5, A6, A7, A8, A9, A10, R, Args, Out, S0, S1, S2, S3, S4, S5, S6, S7, S8, S9, S, F> AddMatcher<10, F> for Matcher<
    Alt<A0, Alt<A1, Alt<A2, Alt<A3, Alt<A4, Alt<A5, Alt<A6, Alt<A7, Alt<A8, Alt<A9, Alt<A10, R>>>>>>>>>>>,
    Args,
    Out,
    (S0, (S1, (S2, (S3, (S4, (S5, (S6, (S7, (S8, (S9, (IsNothing, S))))))))))),
> where
    S0: MapType,
    S1: MapType,
    S2: MapType,
    S3: MapType,
    S4: MapType,
    S5: MapType,
    S6: MapType,
    S7: MapType,
    S8: MapType,
    S9: MapType,
    S: TupleMapType,
    F: FnOnce(A10, Args) -> Out,
 {
    type Output = Matcher<Alt<A0, Alt<A1, Alt<A2, Alt<A3, Alt<A4, Alt<A5, Alt<A6, Alt<A7, Alt<A8, Alt<A9, Alt<A10, R>>>>>>>>>>>, Args, Out, (S0, (S1, (S2, (S3, (S4, (S5, (S6, (S7, (S8, (S9, (IsPresent<F>, S)))))))))))>;

    open spec fn registered_before() -> Set<nat> {
        <(S0, (S1, (S2, (S3, (S4, (S5, (S6, (S7, (S8, (S9, (IsNothing, S)))))))))))>::registered()
    }

    open spec fn registered_after() -> Set<nat> {
        <(S0, (S1, (S2, (S3, (S4, (S5, (S6, (S7, (S8, (S9, (IsPresent<F>, S)))))))))))>::registered()
    }

    open spec fn spec_added(self, f: F, out: Self::Output) -> bool {
        &&& out.args == self.args
        &&& out.or == self.or
        &&& out.handlers == (self.handlers.0, (self.handlers.1.0, (self.handlers.1.1.0, (self.handlers.1.1.1.0, (self.handlers.1.1.1.1.0, (self.handlers.1.1.1.1.1.0, (self.handlers.1.1.1.1.1.1.0, (self.handlers.1.1.1.1.1.1.1.0, (self.handlers.1.1.1.1.1.1.1.1.0, (self.handlers.1.1.1.1.1.1.1.1.1.0, (IsPresent(f), self.handlers.1.1.1.1.1.1.1.1.1.1.1)))))))))))
    }

    proof fn lemma_fills_one() {
    }

    fn add_matcher(self, f: F) -> (r: Self::Output) {
        let Matcher { args, handlers, or, out: _ } = self;
        let (s0, (s1, (s2, (s3, (s4, (s5, (s6, (s7, (s8, (s9, (_, s))))))))))) = handlers;
        Matcher { args, handlers: (s0, (s1, (s2, (s3, (s4, (s5, (s6, (s7, (s8, (s9, (IsPresent(f), s))))))))))), or, out: PhantomData }
    }
}

impl<A0, A1, A2, A3, A4, A5, A6, A7, A8, A9, A10, A11, R, Args, Out, S0, S1, S2, S3, S4, S5, S6, S7, S8, S9, S10, S, F> AddMatcher<11, F> for Matcher<
    Alt<A0, Alt<A1, Alt<A2, Alt<A3, Alt<A4, Alt<A5, Alt<A6, Alt<A7, Alt<A8, Alt<A9, Alt<A10, Alt<A11, R>>>>>>>>>>>>,
    Args,
    Out,
    (S0, (S1, (S2, (S3, (S4, (S5, (S6, (S7, (S8, (S9, (S10, (IsNothing, S)))))))))))),
> where
    S0: MapType,
    S1: MapType,
    S2: MapType,
    S3: MapType,
    S4: MapType,
    S5: MapType,
    S6: MapType,
    S7: MapType,
    S8: MapType,
    S9: MapType,
    S10: MapType,
    S: TupleMapType,
    F: FnOnce(A11, Args) -> Out,
 {
    type Output = Matcher<Alt<A0, Alt<A1, Alt<A2, Alt<A3, Alt<A4, Alt<A5, Alt<A6, Alt<A7, Alt<A8, Alt<A9, Alt<A10, Alt<A11, R>>>>>>>>>>>>, Args, Out, (S0, (S1, (S2, (S3, (S4, (S5, (S6, (S7, (S8, (S9, (S10, (IsPresent<F>, S))))))))))))>;

    open spec fn registered_before() -> Set<nat> {
        <(S0, (S1, (S2, (S3, (S4, (S5, (S6, (S7, (S8, (S9, (S10, (IsNothing, S))))))))))))>::registered()
    }

    open spec fn registered_after() -> Set<nat> {
        <(S0, (S1, (S2, (S3, (S4, (S5, (S6, (S7, (S8, (S9, (S10, (IsPresent<F>, S))))))))))))>::registered()
    }

    open spec fn spec_added(self, f: F, out: Self::Output) -> bool {
        &&& out.args == self.args
        &&& out.or == self.or
        &&& out.handlers == (self.handlers.0, (self.handlers.1.0, (self.handlers.1.1.0, (self.handlers.1.1.1.0, (self.handlers.1.1.1.1.0, (self.handlers.1.1.1.1.1.0, (self.handlers.1.1.1.1.1.1.0, (self.handlers.1.1.1.1.1.1.1.0, (self.handlers.1.1.1.1.1.1.1.1.0, (self.handlers.1.1.1.1.1.1.1.1.1.0, (self.handlers.1.1.1.1.1.1.1.1.1.1.0, (IsPresent(f), self.handlers.1.1.1.1.1.1.1.1.1.1.1.1))))))))))))
    }

    proof fn lemma_fills_one() {
    }

    fn add_matcher(self, f: F) -> (r: Self::Output) {
        let Matcher { args, handlers, or, out: _ } = self;
        let (s0, (s1, (s2, (s3, (s4, (s5, (s6, (s7, (s8, (s9, (s10, (_, s)))))))))))) = handlers;
        Matcher { args, handlers: (s0, (s1, (s2, (s3, (s4, (s5, (s6, (s7, (s8, (s9, (s10, (IsPresent(f), s)))))))))))), or, out: PhantomData }
    }
}

impl<A0, A1, A2, A3, A4, A5, A6, A7, A8, A9, A10, A11, A12, R, Args, Out, S0, S1, S2, S3, S4, S5, S6, S7, S8, S9, S10, S11, S, F> AddMatcher<12, F> for Matcher<
    Alt<A0, Alt<A1, Alt<A2, Alt<A3, Alt<A4, Alt<A5, Alt<A6, Alt<A7, Alt<A8, Alt<A9, Alt<A10, Alt<A11, Alt<A12, R>>>>>>>>>>>>>,
    Args,
    Out,
    (S0, (S1, (S2, (S3, (S4, (S5, (S6, (S7, (S8, (S9, (S10, (S11, (IsNothing, S))))))))))))),
> where
    S0: MapType,
    S1: MapType,
    S2: MapType,
    S3: MapType,
    S4: MapType,
    S5: MapType,
    S6: MapType,
    S7: MapType,
    S8: MapType,
    S9: MapType,
    S10: MapType,
    S11: MapType,
    S: TupleMapType,
    F: FnOnce(A12, Args) -> Out,
 {
    type Output = Matcher<Alt<A0, Alt<A1, Alt<A2, Alt<A3, Alt<A4, Alt<A5, Alt<A6, Alt<A7, Alt<A8, Alt<A9, Alt<A10, Alt<A11, Alt<A12, R>>>>>>>>>>>>>, Args, Out, (S0, (S1, (S2, (S3, (S4, (S5, (S6, (S7, (S8, (S9, (S10, (S11, (IsPresent<F>, S)))))))))))))>;

    open spec fn registered_before() -> Set<nat> {
        <(S0, (S1, (S2, (S3, (S4, (S5, (S6, (S7, (S8, (S9, (S10, (S11, (IsNothing, S)))))))))))))>::registered()
    }

    open spec fn registered_after() -> Set<nat> {
        <(S0, (S1, (S2, (S3, (S4, (S5, (S6, (S7, (S8, (S9, (S10, (S11, (IsPresent<F>, S)))))))))))))>::registered()
    }

    open spec fn spec_added(self, f: F, out: Self::Output) -> bool {
        &&& out.args == self.args
        &&& out.or == self.or
        &&& out.handlers == (self.handlers.0, (self.handlers.1.0, (self.handlers.1.1.0, (self.handlers.1.1.1.0, (self.handlers.1.1.1.1.0, (self.handlers.1.1.1.1.1.0, (self.handlers.1.1.1.1.1.1.0, (self.handlers.1.1.1.1.1.1.1.0, (self.handlers.1.1.1.1.1.1.1.1.0, (self.handlers.1.1.1.1.1.1.1.1.1.0, (self.handlers.1.1.1.1.1.1.1.1.1.1.0, (self.handlers.1.1.1.1.1.1.1.1.1.1.1.0, (IsPresent(f), self.handlers.1.1.1.1.1.1.1.1.1.1.1.1.1)))))))))))))
    }

    proof fn lemma_fills_one() {
    }

    fn add_matcher(self, f: F) -> (r: Self::Output) {
        let Matcher { args, handlers, or, out: _ } = self;
        let (s0, (s1, (s2, (s3, (s4, (s5, (s6, (s7, (s8, (s9, (s10, (s11, (_, s))))))))))))) = handlers;
        Matcher { args, handlers: (s0, (s1, (s2, (s3, (s4, (s5, (s6, (s7, (s8, (s9, (s10, (s11, (IsPresent(f), s))))))))))))), or, out: PhantomData }
    }
}

impl<A0, A1, A2, A3, A4, A5, A6, A7, A8, A9, A10, A11, A12, A13, R, Args, Out, S0, S1, S2, S3, S4, S5, S6, S7, S8, S9, S10, S11, S12, S, F> AddMatcher<13, F> for Matcher<
    Alt<A0, Alt<A1, Alt<A2, Alt<A3, Alt<A4, Alt<A5, Alt<A6, Alt<A7, Alt<A8, Alt<A9, Alt<A10, Alt<A11, Alt<A12, Alt<A13, R>>>>>>>>>>>>>>,
    Args,
    Out,
    (S0, (S1, (S2, (S3, (S4, (S5, (S6, (S7, (S8, (S9, (S10, (S11, (S12, (IsNothing, S)))))))))))))),
> where
    S0: MapType,
    S1: MapType,
    S2: MapType,
    S3: MapType,
    S4: MapType,
    S5: MapType,
    S6: MapType,
    S7: MapType,
    S8: MapType,
    S9: MapType,
    S10: MapType,
    S11: MapType,
    S12: MapType,
    S: TupleMapType,
    F: FnOnce(A13, Args) -> Out,
 {
    type Output = Matcher<Alt<A0, Alt<A1, Alt<A2, Alt<A3, Alt<A4, Alt<A5, Alt<A6, Alt<A7, Alt<A8, Alt<A9, Alt<A10, Alt<A11, Alt<A12, Alt<A13, R>>>>>>>>>>>>>>, Args, Out, (S0, (S1, (S2, (S3, (S4, (S5, (S6, (S7, (S8, (S9, (S10, (S11, (S12, (IsPresent<F>, S))))))))))))))>;

    open spec fn registered_before() -> Set<nat> {
        <(S0, (S1, (S2, (S3, (S4, (S5, (S6, (S7, (S8, (S9, (S10, (S11, (S12, (IsNothing, S))))))))))))))>::registered()
    }

    open spec fn registered_after() -> Set<nat> {
        <(S0, (S1, (S2, (S3, (S4, (S5, (S6, (S7, (S8, (S9, (S10, (S11, (S12, (IsPresent<F>, S))))))))))))))>::registered()
    }

    open spec fn spec_added(self, f: F, out: Self::Output) -> bool {
        &&& out.args == self.args
        &&& out.or == self.or
        &&& out.handlers == (self.handlers.0, (self.handlers.1.0, (self.handlers.1.1.0, (self.handlers.1.1.1.0, (self.handlers.1.1.1.1.0, (self.handlers.1.1.1.1.1.0, (self.handlers.1.1.1.1.1.1.0, (self.handlers.1.1.1.1.1.1.1.0, (self.handlers.1.1.1.1.1.1.1.1.0, (self.handlers.1.1.1.1.1.1.1.1.1.0, (self.handlers.1.1.1.1.1.1.1.1.1.1.0, (self.handlers.1.1.1.1.1.1.1.1.1.1.1.0, (self.handlers.1.1.1.1.1.1.1.1.1.1.1.1.0, (IsPresent(f), self.handlers.1.1.1.1.1.1.1.1.1.1.1.1.1.1))))))))))))))
    }

    proof fn lemma_fills_one() {
    }

    fn add_matcher(self, f: F) -> (r: Self::Output) {
        let Matcher { args, handlers, or, out: _ } = self;
        let (s0, (s1, (s2, (s3, (s4, (s5, (s6, (s7, (s8, (s9, (s10, (s11, (s12, (_, s)))))))))))))) = handlers;
        Matcher { args, handlers: (s0, (s1, (s2, (s3, (s4, (s5, (s6, (s7, (s8, (s9, (s10, (s11, (s12, (IsPresent(f), s)))))))))))))), or, out: PhantomData }
    }
}

impl<A0, A1, A2, A3, A4, A5, A6, A7, A8, A9, A10, A11, A12, A13, A14, R, Args, Out, S0, S1, S2, S3, S4, S5, S6, S7, S8, S9, S10, S11, S12, S13, S, F> AddMatcher<14, F> for Matcher<
    Alt<A0, Alt<A1, Alt<A2, Alt<A3, Alt<A4, Alt<A5, Alt<A6, Alt<A7, Alt<A8, Alt<A9, Alt<A10, Alt<A11, Alt<A12, Alt<A13, Alt<A14, R>>>>>>>>>>>>>>>,
    Args,
    Out,
    (S0, (S1, (S2, (S3, (S4, (S5, (S6, (S7, (S8, (S9, (S10, (S11, (S12, (S13, (IsNothing, S))))))))))))))),
> where
    S0: MapType,
    S1: MapType,
    S2: MapType,
    S3: MapType,
    S4: MapType,
    S5: MapType,
    S6: MapType,
    S7: MapType,
    S8: MapType,
    S9: MapType,
    S10: MapType,
    S11: MapType,
    S12: MapType,
    S13: MapType,
    S: TupleMapType,
    F: FnOnce(A14, Args) -> Out,
 {
    type Output = Matcher<Alt<A0, Alt<A1, Alt<A2, Alt<A3, Alt<A4, Alt<A5, Alt<A6, Alt<A7, Alt<A8, Alt<A9, Alt<A10, Alt<A11, Alt<A12, Alt<A13, Alt<A14, R>>>>>>>>>>>>>>>, Args, Out, (S0, (S1, (S2, (S3, (S4, (S5, (S6, (S7, (S8, (S9, (S10, (S11, (S12, (S13, (IsPresent<F>, S)))))))))))))))>;

    open spec fn registered_before() -> Set<nat> {
        <(S0, (S1, (S2, (S3, (S4, (S5, (S6, (S7, (S8, (S9, (S10, (S11, (S12, (S13, (IsNothing, S)))))))))))))))>::registered()
    }

    open spec fn registered_after() -> Set<nat> {
        <(S0, (S1, (S2, (S3, (S4, (S5, (S6, (S7, (S8, (S9, (S10, (S11, (S12, (S13, (IsPresent<F>, S)))))))))))))))>::registered()
    }

    open spec fn spec_added(self, f: F, out: Self::Output) -> bool {
        &&& out.args == self.args
        &&& out.or == self.or
        &&& out.handlers == (self.handlers.0, (self.handlers.1.0, (self.handlers.1.1.0, (self.handlers.1.1.1.0, (self.handlers.1.1.1.1.0, (self.handlers.1.1.1.1.1.0, (self.handlers.1.1.1.1.1.1.0, (self.handlers.1.1.1.1.1.1.1.0, (self.handlers.1.1.1.1.1.1.1.1.0, (self.handlers.1.1.1.1.1.1.1.1.1.0, (self.handlers.1.1.1.1.1.1.1.1.1.1.0, (self.handlers.1.1.1.1.1.1.1.1.1.1.1.0, (self.handlers.1.1.1.1.1.1.1.1.1.1.1.1.0, (self.handlers.1.1.1.1.1.1.1.1.1.1.1.1.1.0, (IsPresent(f), self.handlers.1.1.1.1.1.1.1.1.1.1.1.1.1.1.1)))))))))))))))
    }

    proof fn lemma_fills_one() {
    }

    fn add_matcher(self, f: F) -> (r: Self::Output) {
        let Matcher { args, handlers, or, out: _ } = self;
        let (s0, (s1, (s2, (s3, (s4, (s5, (s6, (s7, (s8, (s9, (s10, (s11, (s12, (s13, (_, s))))))))))))))) = handlers;
        Matcher { args, handlers: (s0, (s1, (s2, (s3, (s4, (s5, (s6, (s7, (s8, (s9, (s10, (s11, (s12, (s13, (IsPresent(f), s))))))))))))))), or, out: PhantomData }
    }
}

impl<A0, A1, A2, A3, A4, A5, A6, A7, A8, A9, A10, A11, A12, A13, A14, A15, R, Args, Out, S0, S1, S2, S3, S4, S5, S6, S7, S8, S9, S10, S11, S12, S13, S14, S, F> AddMatcher<15, F> for Matcher<
    Alt<A0, Alt<A1, Alt<A2, Alt<A3, Alt<A4, Alt<A5, Alt<A6, Alt<A7, Alt<A8, Alt<A9, Alt<A10, Alt<A11, Alt<A12, Alt<A13, Alt<A14, Alt<A15, R>>>>>>>>>>>>>>>>,
    Args,
    Out,
    (S0, (S1, (S2, (S3, (S4, (S5, (S6, (S7, (S8, (S9, (S10, (S11, (S12, (S13, (S14, (IsNothing, S)))))))))))))))),
> where
    S0: MapType,
    S1: MapType,
    S2: MapType,
    S3: MapType,
    S4: MapType,
    S5: MapType,
    S6: MapType,
    S7: MapType,
    S8: MapType,
    S9: MapType,
    S10: MapType,
    S11: MapType,
    S12: MapType,
    S13: MapType,
    S14: MapType,
    S: TupleMapType,
    F: FnOnce(A15, Args) -> Out,
 {
    type Output = Matcher<Alt<A0, Alt<A1, Alt<A2, Alt<A3, Alt<A4, Alt<A5, Alt<A6, Alt<A7, Alt<A8, Alt<A9, Alt<A10, Alt<A11, Alt<A12, Alt<A13, Alt<A14, Alt<A15, R>>>>>>>>>>>>>>>>, Args, Out, (S0, (S1, (S2, (S3, (S4, (S5, (S6, (S7, (S8, (S9, (S10, (S11, (S12, (S13, (S14, (IsPresent<F>, S))))))))))))))))>;

    open spec fn registered_before() -> Set<nat> {
        <(S0, (S1, (S2, (S3, (S4, (S5, (S6, (S7, (S8, (S9, (S10, (S11, (S12, (S13, (S14, (IsNothing, S))))))))))))))))>::registered()
    }

    open spec fn registered_after() -> Set<nat> {
        <(S0, (S1, (S2, (S3, (S4, (S5, (S6, (S7, (S8, (S9, (S10, (S11, (S12, (S13, (S14, (IsPresent<F>, S))))))))))))))))>::registered()
    }

    open spec fn spec_added(self, f: F, out: Self::Output) -> bool {
        &&& out.args == self.args
        &&& out.or == self.or
        &&& out.handlers == (self.handlers.0, (self.handlers.1.0, (self.handlers.1.1.0, (self.handlers.1.1.1.0, (self.handlers.1.1.1.1.0, (self.handlers.1.1.1.1.1.0, (self.handlers.1.1.1.1.1.1.0, (self.handlers.1.1.1.1.1.1.1.0, (self.handlers.1.1.1.1.1.1.1.1.0, (self.handlers.1.1.1.1.1.1.1.1.1.0, (self.handlers.1.1.1.1.1.1.1.1.1.1.0, (self.handlers.1.1.1.1.1.1.1.1.1.1.1.0, (self.handlers.1.1.1.1.1.1.1.1.1.1.1.1.0, (self.handlers.1.1.1.1.1.1.1.1.1.1.1.1.1.0, (self.handlers.1.1.1.1.1.1.1.1.1.1.1.1.1.1.0, (IsPresent(f), self.handlers.1.1.1.1.1.1.1.1.1.1.1.1.1.1.1.1))))))))))))))))
    }

    proof fn lemma_fills_one() {
    }

    fn add_matcher(self, f: F) -> (r: Self::Output) {
        let Matcher { args, handlers, or, out: _ } = self;
        let (s0, (s1, (s2, (s3, (s4, (s5, (s6, (s7, (s8, (s9, (s10, (s11, (s12, (s13, (s14, (_, s)))))))))))))))) = handlers;
        Matcher { args, handlers: (s0, (s1, (s2, (s3, (s4, (s5, (s6, (s7, (s8, (s9, (s10, (s11, (s12, (s13, (s14, (IsPresent(f), s)))))))))))))))), or, out: PhantomData }
    }
}

} // verus!
