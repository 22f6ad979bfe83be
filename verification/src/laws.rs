//! What holds of every lifted function, stated over the relation
//! [`is_lift_of`] that [`lift`](crate::lift) establishes.
use vstd::prelude::*;
use vstd::std_specs::convert::FromSpec;
use crate::{converts_to, is_lift_of, relays};

verus! {

/// What `seed.and_then(f).map_err(E2::from)` may return: the function is
/// applied to a success and the error of the outcome is converted afterwards.
pub open spec fn chained_then_converted<F, I, O, E1, E2>(
    f: F,
    seed: Result<I, E1>,
    out: Result<O, E2>,
) -> bool where F: Fn(I) -> Result<O, E1>, E2: From<E1> {
    match seed {
        Ok(x) => exists|r: Result<O, E1>| #[trigger] f.ensures((x,), r) && relays(r, out),
        Err(e) => out is Err && converts_to(e, out->Err_0),
    }
}

/// What `seed.map_err(E2::from).and_then(g)` may return: the error of the
/// seed is converted first, and `g` is applied to a success.
pub open spec fn converted_then_chained<G, I, O, E1, E2>(
    g: G,
    seed: Result<I, E1>,
    out: Result<O, E2>,
) -> bool where G: Fn(I) -> Result<O, E2>, E2: From<E1> {
    match seed {
        Ok(x) => g.ensures((x,), out),
        Err(e) => out is Err && converts_to(e, out->Err_0),
    }
}

/// `f` gives at most one result for the argument `x`.
pub open spec fn single_valued_at<F, I, O, E1>(f: F, x: I) -> bool where
    F: Fn(I) -> Result<O, E1>,
 {
    forall|r1: Result<O, E1>, r2: Result<O, E1>|
        #[trigger] f.ensures((x,), r1) && #[trigger] f.ensures((x,), r2) ==> r1 == r2
}

/// Nothing is made up: a success of the lifted function on `x` is a success
/// that `f` may give on `x`, and a failure of it is the conversion of a
/// failure that `f` may give on `x`.
pub proof fn lemma_results_come_from_the_function<F, G, I, O, E1, E2>(
    f: F,
    g: G,
    x: I,
    out: Result<O, E2>,
) where F: Fn(I) -> Result<O, E1>, G: Fn(I) -> Result<O, E2>, E2: From<E1>
    requires
        is_lift_of(g, f),
        g.ensures((x,), out),
    ensures
        out is Ok ==> f.ensures((x,), Ok::<O, E1>(out->Ok_0)),
        out is Err ==> exists|e1: E1| #[trigger]
            f.ensures((x,), Err::<O, E1>(e1)) && converts_to(e1, out->Err_0),
{
}

/// Success passes through: where `f` can only succeed with `o` on `x`, the
/// lifted function accepts `x` and can only succeed with the same `o`.
pub proof fn lemma_success_passes_through<F, G, I, O, E1, E2>(f: F, g: G, x: I, o: O) where
    F: Fn(I) -> Result<O, E1>,
    G: Fn(I) -> Result<O, E2>,
    E2: From<E1>,

    requires
        is_lift_of(g, f),
        f.requires((x,)),
        forall|r: Result<O, E1>| #[trigger] f.ensures((x,), r) ==> r == Ok::<O, E1>(o),
    ensures
        g.requires((x,)),
        forall|out: Result<O, E2>| #[trigger] g.ensures((x,), out) ==> out == Ok::<O, E2>(o),
{
}

/// Failure is converted: where `f` can only fail with `e1` on `x`, the lifted
/// function accepts `x` and can only fail, with a value that `E2::from(e1)`
/// gives; that value is `E2::from_spec(e1)` where the conversion keeps to its
/// specification.
pub proof fn lemma_failure_is_converted<F, G, I, O, E1, E2>(f: F, g: G, x: I, e1: E1) where
    F: Fn(I) -> Result<O, E1>,
    G: Fn(I) -> Result<O, E2>,
    E2: From<E1>,

    requires
        is_lift_of(g, f),
        f.requires((x,)),
        forall|r: Result<O, E1>| #[trigger] f.ensures((x,), r) ==> r == Err::<O, E1>(e1),
    ensures
        g.requires((x,)),
        forall|out: Result<O, E2>| #[trigger]
            g.ensures((x,), out) ==> out is Err && converts_to(e1, out->Err_0),
        E2::obeys_from_spec() ==> forall|out: Result<O, E2>| #[trigger]
            g.ensures((x,), out) ==> out == Err::<O, E2>(E2::from_spec(e1)),
{
}

/// Chaining the lifted function after converting the seed's error gives
/// nothing that chaining the function itself and converting afterwards could
/// not give; a failed seed comes out as its own conversion either way.
pub proof fn lemma_chaining_agrees<F, G, I, O, E1, E2>(
    f: F,
    g: G,
    seed: Result<I, E1>,
    out: Result<O, E2>,
) where F: Fn(I) -> Result<O, E1>, G: Fn(I) -> Result<O, E2>, E2: From<E1>
    requires
        is_lift_of(g, f),
        converted_then_chained(g, seed, out),
    ensures
        chained_then_converted(f, seed, out),
        seed is Err ==> out is Err && converts_to(seed->Err_0, out->Err_0),
{
}

/// With a function that gives one result per argument and a conversion that
/// keeps to its specification, the two ways of chaining give the same value.
pub proof fn lemma_chaining_agrees_exactly<F, G, I, O, E1, E2>(
    f: F,
    g: G,
    seed: Result<I, E1>,
    a: Result<O, E2>,
    b: Result<O, E2>,
) where F: Fn(I) -> Result<O, E1>, G: Fn(I) -> Result<O, E2>, E2: From<E1>
    requires
        is_lift_of(g, f),
        E2::obeys_from_spec(),
        seed is Ok ==> single_valued_at(f, seed->Ok_0),
        converted_then_chained(g, seed, a),
        chained_then_converted(f, seed, b),
    ensures
        a == b,
        seed is Err ==> a == Err::<O, E2>(E2::from_spec(seed->Err_0)),
{
}

/// Identity conversion: lifting into the same error type, with a conversion
/// that hands every error back unchanged, gives a function that accepts what
/// `f` accepts and returns only what `f` may return.
pub proof fn lemma_identity_conversion<F, G, I, O, E>(f: F, g: G) where
    F: Fn(I) -> Result<O, E>,
    G: Fn(I) -> Result<O, E>,

    requires
        is_lift_of::<F, G, I, O, E, E>(g, f),
        forall|e: E, out: E| #[trigger] converts_to::<E, E>(e, out) ==> out == e,
    ensures
        forall|x: I|
            #![trigger f.requires((x,))]
            #![trigger g.requires((x,))]
            f.requires((x,)) ==> g.requires((x,)),
        forall|x: I, out: Result<O, E>| #[trigger] g.ensures((x,), out) ==> f.ensures((x,), out),
{
}

} // verus!
