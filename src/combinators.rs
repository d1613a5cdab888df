//! Structural combinators: sequences, repetition, optionality, lookahead and
//! full consumption.
//!
//! A sequence is a tuple of two to eight matchers; a longer one nests tuples.
use vstd::prelude::*;
use vstd::string::StrSliceExecFns;
use std::marker::PhantomData;

use crate::parse::TParse;

verus! {

/// The characters left after the first `n` are consumed.
pub open spec fn rest(input: Seq<char>, n: nat) -> Seq<char> {
    input.subrange(n as int, input.len() as int)
}

/// Hands back `input` without its first `n` characters.
fn skip_chars(input: &str, n: usize) -> (r: &str)
    requires
        n <= input@.len(),
    ensures
        r@ == rest(input@, n as nat),
        input@.len() <= usize::MAX,
{
    let len = input.unicode_len();
    input.substring_char(n, len)
}

/// Two matchers, one after the other.
impl<A: TParse, B: TParse> TParse for (A, B) {
    open spec fn spec_len(input: Seq<char>) -> Option<nat> {
        match A::spec_len(input) {
            None => None,
            Some(a) => match B::spec_len(rest(input, a)) {
                None => None,
                Some(b) => Some(a + b),
            },
        }
    }

    open spec fn spec_value(input: Seq<char>, v: (A, B)) -> bool {
        match A::spec_len(input) {
            None => false,
            Some(a) => {
                &&& A::spec_value(input, v.0)
                &&& B::spec_value(rest(input, a), v.1)
            },
        }
    }

    fn tparse(input: &str) -> (r: Option<((A, B), usize)>) {
        let (a, na) = match A::tparse(input) {
            None => return None,
            Some(p) => p,
        };
        let input_b = skip_chars(input, na);
        let (b, nb) = match B::tparse(input_b) {
            None => return None,
            Some(p) => p,
        };
        Some(((a, b), na + nb))
    }
}

/// Three matchers, one after the other.
impl<A: TParse, B: TParse, C: TParse> TParse for (A, B, C) {
    open spec fn spec_len(input: Seq<char>) -> Option<nat> {
        match A::spec_len(input) {
            None => None,
            Some(a) => match B::spec_len(rest(input, a)) {
                None => None,
                Some(b) => match C::spec_len(rest(input, a + b)) {
                    None => None,
                    Some(c) => Some(a + b + c),
                },
            },
        }
    }

    open spec fn spec_value(input: Seq<char>, v: (A, B, C)) -> bool {
        match A::spec_len(input) {
            None => false,
            Some(a) => match B::spec_len(rest(input, a)) {
                None => false,
                Some(b) => {
                    &&& A::spec_value(input, v.0)
                    &&& B::spec_value(rest(input, a), v.1)
                    &&& C::spec_value(rest(input, a + b), v.2)
                },
            },
        }
    }

    fn tparse(input: &str) -> (r: Option<((A, B, C), usize)>) {
        let (a, na) = match A::tparse(input) {
            None => return None,
            Some(p) => p,
        };
        let input_b = skip_chars(input, na);
        let (b, nb) = match B::tparse(input_b) {
            None => return None,
            Some(p) => p,
        };
        let input_c = skip_chars(input, na + nb);
        assert(input_c@ =~= rest(input_b@, nb as nat));
        let (c, nc) = match C::tparse(input_c) {
            None => return None,
            Some(p) => p,
        };
        Some(((a, b, c), na + nb + nc))
    }
}

/// Four matchers, one after the other.
impl<A: TParse, B: TParse, C: TParse, D: TParse> TParse for (A, B, C, D) {
    open spec fn spec_len(input: Seq<char>) -> Option<nat> {
        match A::spec_len(input) {
            None => None,
            Some(a) => match B::spec_len(rest(input, a)) {
                None => None,
                Some(b) => match C::spec_len(rest(input, a + b)) {
                    None => None,
                    Some(c) => match D::spec_len(rest(input, a + b + c)) {
                        None => None,
                        Some(d) => Some(a + b + c + d),
                    },
                },
            },
        }
    }

    open spec fn spec_value(input: Seq<char>, v: (A, B, C, D)) -> bool {
        match A::spec_len(input) {
            None => false,
            Some(a) => match B::spec_len(rest(input, a)) {
                None => false,
                Some(b) => match C::spec_len(rest(input, a + b)) {
                    None => false,
                    Some(c) => {
                        &&& A::spec_value(input, v.0)
                        &&& B::spec_value(rest(input, a), v.1)
                        &&& C::spec_value(rest(input, a + b), v.2)
                        &&& D::spec_value(rest(input, a + b + c), v.3)
                    },
                },
            },
        }
    }

    fn tparse(input: &str) -> (r: Option<((A, B, C, D), usize)>) {
        let (a, na) = match A::tparse(input) {
            None => return None,
            Some(p) => p,
        };
        let input_b = skip_chars(input, na);
        let (b, nb) = match B::tparse(input_b) {
            None => return None,
            Some(p) => p,
        };
        let input_c = skip_chars(input, na + nb);
        assert(input_c@ =~= rest(input_b@, nb as nat));
        let (c, nc) = match C::tparse(input_c) {
            None => return None,
            Some(p) => p,
        };
        let input_d = skip_chars(input, na + nb + nc);
        assert(input_d@ =~= rest(input_c@, nc as nat));
        let (d, nd) = match D::tparse(input_d) {
            None => return None,
            Some(p) => p,
        };
        Some(((a, b, c, d), na + nb + nc + nd))
    }
}

/// Five matchers, one after the other.
impl<A: TParse, B: TParse, C: TParse, D: TParse, E: TParse> TParse for (A, B, C, D, E) {
    open spec fn spec_len(input: Seq<char>) -> Option<nat> {
        match A::spec_len(input) {
            None => None,
            Some(a) => match B::spec_len(rest(input, a)) {
                None => None,
                Some(b) => match C::spec_len(rest(input, a + b)) {
                    None => None,
                    Some(c) => match D::spec_len(rest(input, a + b + c)) {
                        None => None,
                        Some(d) => match E::spec_len(rest(input, a + b + c + d)) {
                            None => None,
                            Some(e) => Some(a + b + c + d + e),
                        },
                    },
                },
            },
        }
    }

    open spec fn spec_value(input: Seq<char>, v: (A, B, C, D, E)) -> bool {
        match A::spec_len(input) {
            None => false,
            Some(a) => match B::spec_len(rest(input, a)) {
                None => false,
                Some(b) => match C::spec_len(rest(input, a + b)) {
                    None => false,
                    Some(c) => match D::spec_len(rest(input, a + b + c)) {
                        None => false,
                        Some(d) => {
                            &&& A::spec_value(input, v.0)
                            &&& B::spec_value(rest(input, a), v.1)
                            &&& C::spec_value(rest(input, a + b), v.2)
                            &&& D::spec_value(rest(input, a + b + c), v.3)
                            &&& E::spec_value(rest(input, a + b + c + d), v.4)
                        },
                    },
                },
            },
        }
    }

    fn tparse(input: &str) -> (r: Option<((A, B, C, D, E), usize)>) {
        let (a, na) = match A::tparse(input) {
            None => return None,
            Some(p) => p,
        };
        let input_b = skip_chars(input, na);
        let (b, nb) = match B::tparse(input_b) {
            None => return None,
            Some(p) => p,
        };
        let input_c = skip_chars(input, na + nb);
        assert(input_c@ =~= rest(input_b@, nb as nat));
        let (c, nc) = match C::tparse(input_c) {
            None => return None,
            Some(p) => p,
        };
        let input_d = skip_chars(input, na + nb + nc);
        assert(input_d@ =~= rest(input_c@, nc as nat));
        let (d, nd) = match D::tparse(input_d) {
            None => return None,
            Some(p) => p,
        };
        let input_e = skip_chars(input, na + nb + nc + nd);
        assert(input_e@ =~= rest(input_d@, nd as nat));
        let (e, ne) = match E::tparse(input_e) {
            None => return None,
            Some(p) => p,
        };
        Some(((a, b, c, d, e), na + nb + nc + nd + ne))
    }
}

/// Six matchers, one after the other.
impl<
    A: TParse,
    B: TParse,
    C: TParse,
    D: TParse,
    E: TParse,
    F: TParse,
> TParse for (A, B, C, D, E, F) {
    open spec fn spec_len(input: Seq<char>) -> Option<nat> {
        match A::spec_len(input) {
            None => None,
            Some(a) => match B::spec_len(rest(input, a)) {
                None => None,
                Some(b) => match C::spec_len(rest(input, a + b)) {
                    None => None,
                    Some(c) => match D::spec_len(rest(input, a + b + c)) {
                        None => None,
                        Some(d) => match E::spec_len(rest(input, a + b + c + d)) {
                            None => None,
                            Some(e) => match F::spec_len(rest(input, a + b + c + d + e)) {
                                None => None,
                                Some(f) => Some(a + b + c + d + e + f),
                            },
                        },
                    },
                },
            },
        }
    }

    open spec fn spec_value(input: Seq<char>, v: (A, B, C, D, E, F)) -> bool {
        match A::spec_len(input) {
            None => false,
            Some(a) => match B::spec_len(rest(input, a)) {
                None => false,
                Some(b) => match C::spec_len(rest(input, a + b)) {
                    None => false,
                    Some(c) => match D::spec_len(rest(input, a + b + c)) {
                        None => false,
                        Some(d) => match E::spec_len(rest(input, a + b + c + d)) {
                            None => false,
                            Some(e) => {
                                &&& A::spec_value(input, v.0)
                                &&& B::spec_value(rest(input, a), v.1)
                                &&& C::spec_value(rest(input, a + b), v.2)
                                &&& D::spec_value(rest(input, a + b + c), v.3)
                                &&& E::spec_value(rest(input, a + b + c + d), v.4)
                                &&& F::spec_value(rest(input, a + b + c + d + e), v.5)
                            },
                        },
                    },
                },
            },
        }
    }

    fn tparse(input: &str) -> (r: Option<((A, B, C, D, E, F), usize)>) {
        let (a, na) = match A::tparse(input) {
            None => return None,
            Some(p) => p,
        };
        let input_b = skip_chars(input, na);
        let (b, nb) = match B::tparse(input_b) {
            None => return None,
            Some(p) => p,
        };
        let input_c = skip_chars(input, na + nb);
        assert(input_c@ =~= rest(input_b@, nb as nat));
        let (c, nc) = match C::tparse(input_c) {
            None => return None,
            Some(p) => p,
        };
        let input_d = skip_chars(input, na + nb + nc);
        assert(input_d@ =~= rest(input_c@, nc as nat));
        let (d, nd) = match D::tparse(input_d) {
            None => return None,
            Some(p) => p,
        };
        let input_e = skip_chars(input, na + nb + nc + nd);
        assert(input_e@ =~= rest(input_d@, nd as nat));
        let (e, ne) = match E::tparse(input_e) {
            None => return None,
            Some(p) => p,
        };
        let input_f = skip_chars(input, na + nb + nc + nd + ne);
        assert(input_f@ =~= rest(input_e@, ne as nat));
        let (f, nf) = match F::tparse(input_f) {
            None => return None,
            Some(p) => p,
        };
        Some(((a, b, c, d, e, f), na + nb + nc + nd + ne + nf))
    }
}

/// Seven matchers, one after the other.
impl<
    A: TParse,
    B: TParse,
    C: TParse,
    D: TParse,
    E: TParse,
    F: TParse,
    G: TParse,
> TParse for (A, B, C, D, E, F, G) {
    open spec fn spec_len(input: Seq<char>) -> Option<nat> {
        match A::spec_len(input) {
            None => None,
            Some(a) => match B::spec_len(rest(input, a)) {
                None => None,
                Some(b) => match C::spec_len(rest(input, a + b)) {
                    None => None,
                    Some(c) => match D::spec_len(rest(input, a + b + c)) {
                        None => None,
                        Some(d) => match E::spec_len(rest(input, a + b + c + d)) {
                            None => None,
                            Some(e) => match F::spec_len(rest(input, a + b + c + d + e)) {
                                None => None,
                                Some(f) => match G::spec_len(rest(input, a + b + c + d + e + f)) {
                                    None => None,
                                    Some(g) => Some(a + b + c + d + e + f + g),
                                },
                            },
                        },
                    },
                },
            },
        }
    }

    open spec fn spec_value(input: Seq<char>, v: (A, B, C, D, E, F, G)) -> bool {
        match A::spec_len(input) {
            None => false,
            Some(a) => match B::spec_len(rest(input, a)) {
                None => false,
                Some(b) => match C::spec_len(rest(input, a + b)) {
                    None => false,
                    Some(c) => match D::spec_len(rest(input, a + b + c)) {
                        None => false,
                        Some(d) => match E::spec_len(rest(input, a + b + c + d)) {
                            None => false,
                            Some(e) => match F::spec_len(rest(input, a + b + c + d + e)) {
                                None => false,
                                Some(f) => {
                                    &&& A::spec_value(input, v.0)
                                    &&& B::spec_value(rest(input, a), v.1)
                                    &&& C::spec_value(rest(input, a + b), v.2)
                                    &&& D::spec_value(rest(input, a + b + c), v.3)
                                    &&& E::spec_value(rest(input, a + b + c + d), v.4)
                                    &&& F::spec_value(rest(input, a + b + c + d + e), v.5)
                                    &&& G::spec_value(rest(input, a + b + c + d + e + f), v.6)
                                },
                            },
                        },
                    },
                },
            },
        }
    }

    fn tparse(input: &str) -> (r: Option<((A, B, C, D, E, F, G), usize)>) {
        let (a, na) = match A::tparse(input) {
            None => return None,
            Some(p) => p,
        };
        let input_b = skip_chars(input, na);
        let (b, nb) = match B::tparse(input_b) {
            None => return None,
            Some(p) => p,
        };
        let input_c = skip_chars(input, na + nb);
        assert(input_c@ =~= rest(input_b@, nb as nat));
        let (c, nc) = match C::tparse(input_c) {
            None => return None,
            Some(p) => p,
        };
        let input_d = skip_chars(input, na + nb + nc);
        assert(input_d@ =~= rest(input_c@, nc as nat));
        let (d, nd) = match D::tparse(input_d) {
            None => return None,
            Some(p) => p,
        };
        let input_e = skip_chars(input, na + nb + nc + nd);
        assert(input_e@ =~= rest(input_d@, nd as nat));
        let (e, ne) = match E::tparse(input_e) {
            None => return None,
            Some(p) => p,
        };
        let input_f = skip_chars(input, na + nb + nc + nd + ne);
        assert(input_f@ =~= rest(input_e@, ne as nat));
        let (f, nf) = match F::tparse(input_f) {
            None => return None,
            Some(p) => p,
        };
        let input_g = skip_chars(input, na + nb + nc + nd + ne + nf);
        assert(input_g@ =~= rest(input_f@, nf as nat));
        let (g, ng) = match G::tparse(input_g) {
            None => return None,
            Some(p) => p,
        };
        Some(((a, b, c, d, e, f, g), na + nb + nc + nd + ne + nf + ng))
    }
}

/// Eight matchers, one after the other.
impl<
    A: TParse,
    B: TParse,
    C: TParse,
    D: TParse,
    E: TParse,
    F: TParse,
    G: TParse,
    H: TParse,
> TParse for (A, B, C, D, E, F, G, H) {
    open spec fn spec_len(input: Seq<char>) -> Option<nat> {
        match A::spec_len(input) {
            None => None,
            Some(a) => match B::spec_len(rest(input, a)) {
                None => None,
                Some(b) => match C::spec_len(rest(input, a + b)) {
                    None => None,
                    Some(c) => match D::spec_len(rest(input, a + b + c)) {
                        None => None,
                        Some(d) => match E::spec_len(rest(input, a + b + c + d)) {
                            None => None,
                            Some(e) => match F::spec_len(rest(input, a + b + c + d + e)) {
                                None => None,
                                Some(f) => match G::spec_len(rest(input, a + b + c + d + e + f)) {
                                    None => None,
                                    Some(g) => match H::spec_len(rest(input, a + b + c + d + e + f + g)) {
                                        None => None,
                                        Some(h) => Some(a + b + c + d + e + f + g + h),
                                    },
                                },
                            },
                        },
                    },
                },
            },
        }
    }

    open spec fn spec_value(input: Seq<char>, v: (A, B, C, D, E, F, G, H)) -> bool {
        match A::spec_len(input) {
            None => false,
            Some(a) => match B::spec_len(rest(input, a)) {
                None => false,
                Some(b) => match C::spec_len(rest(input, a + b)) {
                    None => false,
                    Some(c) => match D::spec_len(rest(input, a + b + c)) {
                        None => false,
                        Some(d) => match E::spec_len(rest(input, a + b + c + d)) {
                            None => false,
                            Some(e) => match F::spec_len(rest(input, a + b + c + d + e)) {
                                None => false,
                                Some(f) => match G::spec_len(rest(input, a + b + c + d + e + f)) {
                                    None => false,
                                    Some(g) => {
                                        &&& A::spec_value(input, v.0)
                                        &&& B::spec_value(rest(input, a), v.1)
                                        &&& C::spec_value(rest(input, a + b), v.2)
                                        &&& D::spec_value(rest(input, a + b + c), v.3)
                                        &&& E::spec_value(rest(input, a + b + c + d), v.4)
                                        &&& F::spec_value(rest(input, a + b + c + d + e), v.5)
                                        &&& G::spec_value(rest(input, a + b + c + d + e + f), v.6)
                                        &&& H::spec_value(rest(input, a + b + c + d + e + f + g), v.7)
                                    },
                                },
                            },
                        },
                    },
                },
            },
        }
    }

    fn tparse(input: &str) -> (r: Option<((A, B, C, D, E, F, G, H), usize)>) {
        let (a, na) = match A::tparse(input) {
            None => return None,
            Some(p) => p,
        };
        let input_b = skip_chars(input, na);
        let (b, nb) = match B::tparse(input_b) {
            None => return None,
            Some(p) => p,
        };
        let input_c = skip_chars(input, na + nb);
        assert(input_c@ =~= rest(input_b@, nb as nat));
        let (c, nc) = match C::tparse(input_c) {
            None => return None,
            Some(p) => p,
        };
        let input_d = skip_chars(input, na + nb + nc);
        assert(input_d@ =~= rest(input_c@, nc as nat));
        let (d, nd) = match D::tparse(input_d) {
            None => return None,
            Some(p) => p,
        };
        let input_e = skip_chars(input, na + nb + nc + nd);
        assert(input_e@ =~= rest(input_d@, nd as nat));
        let (e, ne) = match E::tparse(input_e) {
            None => return None,
            Some(p) => p,
        };
        let input_f = skip_chars(input, na + nb + nc + nd + ne);
        assert(input_f@ =~= rest(input_e@, ne as nat));
        let (f, nf) = match F::tparse(input_f) {
            None => return None,
            Some(p) => p,
        };
        let input_g = skip_chars(input, na + nb + nc + nd + ne + nf);
        assert(input_g@ =~= rest(input_f@, nf as nat));
        let (g, ng) = match G::tparse(input_g) {
            None => return None,
            Some(p) => p,
        };
        let input_h = skip_chars(input, na + nb + nc + nd + ne + nf + ng);
        assert(input_h@ =~= rest(input_g@, ng as nat));
        let (h, nh) = match H::tparse(input_h) {
            None => return None,
            Some(p) => p,
        };
        Some(((a, b, c, d, e, f, g, h), na + nb + nc + nd + ne + nf + ng + nh))
    }
}

/// Whether one more repetition follows a match of `n` characters: a match that
/// consumes nothing ends the repetition, so that it cannot run forever.
pub open spec fn goes_on(input: Seq<char>, n: nat) -> bool {
    0 < n <= input.len()
}

/// Characters consumed by repeating `P` on `input` until it fails.
pub open spec fn many_len<P: TParse>(input: Seq<char>) -> nat
    decreases input.len(),
{
    match P::spec_len(input) {
        None => 0,
        Some(n) => if goes_on(input, n) {
            n + many_len::<P>(rest(input, n))
        } else {
            n
        },
    }
}

/// Number of matches of `P` read by repeating it on `input` until it fails.
pub open spec fn many_count<P: TParse>(input: Seq<char>) -> nat
    decreases input.len(),
{
    match P::spec_len(input) {
        None => 0,
        Some(n) => if goes_on(input, n) {
            1 + many_count::<P>(rest(input, n))
        } else {
            1
        },
    }
}

/// Whether `vs` are the values read by repeating `P` on `input` until it fails.
pub open spec fn many_values<P: TParse>(input: Seq<char>, vs: Seq<P>) -> bool
    decreases input.len(),
{
    match P::spec_len(input) {
        None => vs.len() == 0,
        Some(n) => {
            &&& vs.len() > 0
            &&& P::spec_value(input, vs[0])
            &&& if goes_on(input, n) {
                many_values::<P>(rest(input, n), vs.drop_first())
            } else {
                vs.len() == 1
            }
        },
    }
}

/// The values read by a repetition are as many as the matches it counts.
pub proof fn lemma_many_values_count<P: TParse>(input: Seq<char>, vs: Seq<P>)
    requires
        many_values::<P>(input, vs),
    ensures
        vs.len() == many_count::<P>(input),
    decreases input.len(),
{
    if let Some(n) = P::spec_len(input) {
        if goes_on(input, n) {
            lemma_many_values_count::<P>(rest(input, n), vs.drop_first());
        }
    }
}

/// Appends to `out` the values read by repeating `P` on `input`, and returns
/// the characters consumed.
fn many_into<P: TParse>(input: &str, out: &mut Vec<P>) -> (n: usize)
    ensures
        n == many_len::<P>(input@),
        n <= input@.len(),
        final(out)@.len() == old(out)@.len() + many_count::<P>(input@),
        final(out)@.subrange(0, old(out)@.len() as int) == old(out)@,
        many_values::<P>(input@, final(out)@.skip(old(out)@.len() as int)),
    decreases input@.len(),
{
    let ghost start = out@.len();
    match P::tparse(input) {
        None => {
            assert(out@.skip(start as int) =~= Seq::<P>::empty());
            assert(out@.subrange(0, start as int) =~= out@);
            0
        },
        Some((v, n)) => {
            out.push(v);
            if n == 0 {
                assert(out@.skip(start as int) =~= seq![out@[start as int]]);
                assert(out@.subrange(0, start as int) =~= old(out)@);
                n
            } else {
                let tail = skip_chars(input, n);
                let ghost mid = out@;
                let m = many_into(tail, out);
                assert(out@.subrange(0, start as int) =~= mid.subrange(0, start as int));
                assert(out@.skip(start as int).drop_first() =~= out@.skip(start as int + 1));
                assert(out@.subrange(0, mid.len() as int)[start as int] == out@[start as int]);
                n + m
            }
        },
    }
}

/// Zero or more repetitions of `P`, read until it fails; never fails itself.
impl<P: TParse> TParse for Vec<P> {
    open spec fn spec_len(input: Seq<char>) -> Option<nat> {
        Some(many_len::<P>(input))
    }

    open spec fn spec_value(input: Seq<char>, v: Vec<P>) -> bool {
        many_values::<P>(input, v@)
    }

    fn tparse(input: &str) -> (r: Option<(Vec<P>, usize)>) {
        let mut out: Vec<P> = Vec::new();
        let n = many_into(input, &mut out);
        assert(out@.skip(0) =~= out@);
        Some((out, n))
    }
}

/// At least `N` consecutive repetitions of `P`.
pub struct VecN<const N: usize, P>(pub Vec<P>);

impl<const N: usize, P: TParse> TParse for VecN<N, P> {
    open spec fn spec_len(input: Seq<char>) -> Option<nat> {
        if many_count::<P>(input) >= N {
            Some(many_len::<P>(input))
        } else {
            None
        }
    }

    open spec fn spec_value(input: Seq<char>, v: VecN<N, P>) -> bool {
        many_values::<P>(input, v.0@)
    }

    fn tparse(input: &str) -> (r: Option<(VecN<N, P>, usize)>) {
        let mut out: Vec<P> = Vec::new();
        let n = many_into(input, &mut out);
        assert(out@.skip(0) =~= out@);
        if out.len() >= N {
            Some((VecN(out), n))
        } else {
            None
        }
    }
}

/// Zero or one match of `P`: `None`, consuming nothing, where `P` fails.
impl<P: TParse> TParse for Option<P> {
    open spec fn spec_len(input: Seq<char>) -> Option<nat> {
        match P::spec_len(input) {
            None => Some(0),
            Some(n) => Some(n),
        }
    }

    open spec fn spec_value(input: Seq<char>, v: Option<P>) -> bool {
        match P::spec_len(input) {
            None => v is None,
            Some(_) => match v {
                None => false,
                Some(x) => P::spec_value(input, x),
            },
        }
    }

    fn tparse(input: &str) -> (r: Option<(Option<P>, usize)>) {
        match P::tparse(input) {
            None => Some((None, 0)),
            Some((v, n)) => Some((Some(v), n)),
        }
    }
}

/// Lookahead: matches where `P` does, but consumes nothing.
pub struct Is<P: TParse>(pub PhantomData<P>);

impl<P: TParse> TParse for Is<P> {
    open spec fn spec_len(input: Seq<char>) -> Option<nat> {
        match P::spec_len(input) {
            None => None,
            Some(_) => Some(0),
        }
    }

    open spec fn spec_value(input: Seq<char>, v: Is<P>) -> bool {
        true
    }

    fn tparse(input: &str) -> (r: Option<(Is<P>, usize)>) {
        match P::tparse(input) {
            None => None,
            Some(_) => Some((Is(PhantomData), 0)),
        }
    }
}

/// Negative lookahead: matches where `P` does not, and consumes nothing.
pub struct IsNot<P: TParse>(pub PhantomData<P>);

impl<P: TParse> TParse for IsNot<P> {
    open spec fn spec_len(input: Seq<char>) -> Option<nat> {
        match P::spec_len(input) {
            None => Some(0),
            Some(_) => None,
        }
    }

    open spec fn spec_value(input: Seq<char>, v: IsNot<P>) -> bool {
        true
    }

    fn tparse(input: &str) -> (r: Option<(IsNot<P>, usize)>) {
        match P::tparse(input) {
            None => Some((IsNot(PhantomData), 0)),
            Some(_) => None,
        }
    }
}

/// Matches where `P` matches the whole input.
pub struct AllConsumed<P: TParse>(pub P);

impl<P: TParse> TParse for AllConsumed<P> {
    open spec fn spec_len(input: Seq<char>) -> Option<nat> {
        match P::spec_len(input) {
            Some(n) => if n == input.len() {
                Some(n)
            } else {
                None
            },
            None => None,
        }
    }

    open spec fn spec_value(input: Seq<char>, v: AllConsumed<P>) -> bool {
        P::spec_value(input, v.0)
    }

    fn tparse(input: &str) -> (r: Option<(AllConsumed<P>, usize)>) {
        let (v, n) = match P::tparse(input) {
            None => return None,
            Some(p) => p,
        };
        if n == input.unicode_len() {
            Some((AllConsumed(v), n))
        } else {
            None
        }
    }
}

} // verus!
