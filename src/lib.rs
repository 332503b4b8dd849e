//! Take ownership of a whole tuple of borrowed values at once.
//!
//! [`own`] turns each reference of a tuple (of up to twelve) into its owned form with
//! [`ToOwned`] and hands the owned values, one argument each, to a closure that is called
//! once. What the closure returns is returned unchanged.
use vstd::prelude::*;

mod private;

verus! {

/// Relies on `ToOwned::to_owned` to produce the owned form of a borrowed value. Its
/// documentation promises nothing that a contract could state for every type, so this
/// wrapper has no `ensures`; what it returned is described by [`owned_from`] instead.
#[verifier::external_body]
fn to_owned_of<B: ToOwned + ?Sized>(b: &B) -> B::Owned {
    b.to_owned()
}

/// `o` is a value that converting `b` to its owned form may give.
pub closed spec fn owned_from<B: ToOwned + ?Sized>(b: &B, o: B::Owned) -> bool {
    call_ensures(to_owned_of::<B>, (b,), o)
}

/// Converts `b` to its owned form; the result is stated by [`owned_from`].
pub(crate) fn convert<B: ToOwned + ?Sized>(b: &B) -> (o: B::Owned)
    ensures
        owned_from(b, o),
{
    // A call through a function value is known to give a result that the function may
    // return, which is what `owned_from` states.
    let conv = to_owned_of::<B>;
    conv(b)
}

/// Takes a tuple of references (up to 12), turns each into its owned version with
/// [`ToOwned`], in slot order, and passes the owned values to `closure`, one argument per
/// slot, calling it exactly once. The closure's result is returned as it is.
///
/// [`Closure`] is implemented for every [`FnOnce`] with the matching signature, so a fn
/// item or fn pointer of that signature will do as well.
pub fn own<R, C>(refs: R, closure: C) -> (out: C::Output)
    where
        C: Closure<R>,
    requires
        closure.accepts(refs),
    ensures
        closure.produces(refs, out),
{
    closure.call(refs)
}

/// A consumer of the owned forms of a tuple of references: any [`FnOnce`] whose
/// parameters are, in order, the [`ToOwned::Owned`] types of the tuple's pointees.
///
/// A closure whose parameter type differs from the owned form of its slot, or whose
/// number of parameters differs from the tuple's arity, is not a `Closure` of that
/// tuple, and a call of [`own`] with it does not compile.
pub trait Closure<R>: private::Closure<R> {}

impl<R, F> Closure<R> for F where F: private::Closure<R> {}

} // verus!
