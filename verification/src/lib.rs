//! Lifts a fallible function that fails with one error type into a function
//! that fails with another, whenever the second error can be made `From` the
//! first.
//!
//! ```text
//! result
//!     .map_err(Error::from)
//!     .and_then(lift(failable))
//! ```
//!
//! Function values are described by the results they may give
//! (`call_ensures`) and the arguments they accept (`call_requires`); the
//! contract of [`lift`] relates the two functions in those terms.
use vstd::prelude::*;

pub mod laws;

verus! {

/// `out` is a value that `E2::from(e)` may return.
pub open spec fn converts_to<E1, E2: From<E1>>(e: E1, out: E2) -> bool {
    call_ensures(E2::from, (e,), out)
}

/// `out` carries `r` into the other error type: a success is the very same
/// success, a failure is the conversion of that failure.
pub open spec fn relays<O, E1, E2: From<E1>>(r: Result<O, E1>, out: Result<O, E2>) -> bool {
    match r {
        Ok(o) => out == Ok::<O, E2>(o),
        Err(e) => out is Err && converts_to(e, out->Err_0),
    }
}

/// `g` stands for `f` with its failures converted: it accepts every argument
/// that `f` accepts, and whatever it returns for an argument relays one
/// result that `f` may return for that same argument.
pub open spec fn is_lift_of<F, G, I, O, E1, E2>(g: G, f: F) -> bool where
    F: Fn(I) -> Result<O, E1>,
    G: Fn(I) -> Result<O, E2>,
    E2: From<E1>,
 {
    &&& forall|x: I|
        #![trigger f.requires((x,))]
        #![trigger g.requires((x,))]
        f.requires((x,)) ==> g.requires((x,))
    &&& forall|x: I, out: Result<O, E2>| #[trigger]
        g.ensures((x,), out) ==> exists|r: Result<O, E1>| #[trigger]
            f.ensures((x,), r) && relays(r, out)
}

/// Lifts a fallible function that fails with error `E1` into one that fails
/// with error `E2`.
///
/// * `F`: the function to lift.
/// * `I`: the input type of the function.
/// * `O`: the output type of the function.
/// * `E1`: the error type that the function can fail with.
/// * `E2`: the error type that the lifted function will fail with.
pub fn lift<F, I, O, E1, E2>(f: F) -> (g: impl Fn(I) -> Result<O, E2>) where
    F: Fn(I) -> Result<O, E1>,
    E2: From<E1>,

    ensures
        is_lift_of(g, f),
{
    move |t: I| -> (out: Result<O, E2>)
        requires
            f.requires((t,)),
        ensures
            exists|r: Result<O, E1>| #[trigger] f.ensures((t,), r) && relays(r, out),
        { f(t).map_err(E2::from) }
}

} // verus!
