//! Inert helpers for illustrative code: a call that stands in for omitted
//! work, a call that consumes a value of any type, and a helper that runs a
//! block and throws its result away.

use vstd::prelude::*;

verus! {

/// The value that a call of [`placeholder`] hands back: nothing.
pub open spec fn nothing() -> () {
    ()
}

/// A placeholder function that does nothing.
///
/// Use it in examples where a function must be called but what it does is
/// beside the point.
pub fn placeholder() -> (r: ())
    ensures
        r == nothing(),
{
}

/// The value that a call of [`use_value`] hands back for `v`: nothing,
/// whatever `v` is.
pub open spec fn discarded<T>(v: T) -> () {
    ()
}

/// A placeholder function that takes any argument and discards it.
///
/// The type parameter carries no bound, so a value of any type can be
/// consumed without asking anything of it.
pub fn use_value<T>(_value: T) -> (r: ())
    ensures
        r == discarded(_value),
{
}

/// Runs `f` once and throws its result away.
///
/// Lets an example compute a value through several statements without the
/// value being used afterwards. The block's own effects are those of `f`: what
/// `f` promises of its result holds of the value that was dropped.
pub fn ignore<R, F: FnOnce() -> R>(f: F) -> (r: ())
    requires
        f.requires(()),
    ensures
        exists|out: R| f.ensures((), out),
        r == nothing(),
{
    let _out = f();
}

/// Any number of calls of [`placeholder`], [`use_value`] and [`ignore`], in
/// any order and on any arguments, hand back one and the same value: nothing.
pub proof fn lemma_calls_agree<A, B>(a: A, b: B)
    ensures
        discarded(a) == discarded(b),
        discarded(a) == nothing(),
{
}

} // verus!
