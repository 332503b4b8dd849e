use vstd::prelude::*;

use crate::convert;
use crate::owned_from;

verus! {

/// The sealed part of [`crate::Closure`]: one impl for each tuple arity.
pub trait Closure<R>: Sized {
    type Output;

    /// The closure may be called on every owned form of `variables`.
    spec fn accepts(&self, variables: R) -> bool;

    /// `output` is what the closure may return when called on some owned form of
    /// `variables`, slot by slot.
    spec fn produces(&self, variables: R, output: Self::Output) -> bool;

    fn call(self, variables: R) -> (output: Self::Output)
        requires
            self.accepts(variables),
        ensures
            self.produces(variables, output),
    ;
}

impl<FN, Out, A: ToOwned + ?Sized> Closure<(&A,)> for FN where
    FN: FnOnce(A::Owned) -> Out,
 {
    type Output = Out;

    open spec fn accepts(&self, r: (&A,)) -> bool {
        forall|a: A::Owned|
            #![trigger self.requires((a,))]
            {
                &&& owned_from(r.0, a)
            } ==> self.requires((a,))
    }

    open spec fn produces(&self, r: (&A,), output: Out) -> bool {
        exists|a: A::Owned|
            #![trigger self.ensures((a,), output)]
            {
                &&& owned_from(r.0, a)
                &&& self.ensures((a,), output)
            }
    }

    fn call(self, r: (&A,)) -> (output: Out) {
        let a = convert(r.0);
        self(a)
    }
}

impl<FN, Out, A: ToOwned + ?Sized, B: ToOwned + ?Sized> Closure<(&A, &B)> for FN where
    FN: FnOnce(A::Owned, B::Owned) -> Out,
 {
    type Output = Out;

    open spec fn accepts(&self, r: (&A, &B)) -> bool {
        forall|a: A::Owned, b: B::Owned|
            #![trigger self.requires((a, b))]
            {
                &&& owned_from(r.0, a)
                &&& owned_from(r.1, b)
            } ==> self.requires((a, b))
    }

    open spec fn produces(&self, r: (&A, &B), output: Out) -> bool {
        exists|a: A::Owned, b: B::Owned|
            #![trigger self.ensures((a, b), output)]
            {
                &&& owned_from(r.0, a)
                &&& owned_from(r.1, b)
                &&& self.ensures((a, b), output)
            }
    }

    fn call(self, r: (&A, &B)) -> (output: Out) {
        let a = convert(r.0);
        let b = convert(r.1);
        self(a, b)
    }
}

impl<FN, Out, A: ToOwned + ?Sized, B: ToOwned + ?Sized, C: ToOwned + ?Sized> Closure<(&A, &B, &C)> for FN where
    FN: FnOnce(A::Owned, B::Owned, C::Owned) -> Out,
 {
    type Output = Out;

    open spec fn accepts(&self, r: (&A, &B, &C)) -> bool {
        forall|a: A::Owned, b: B::Owned, c: C::Owned|
            #![trigger self.requires((a, b, c))]
            {
                &&& owned_from(r.0, a)
                &&& owned_from(r.1, b)
                &&& owned_from(r.2, c)
            } ==> self.requires((a, b, c))
    }

    open spec fn produces(&self, r: (&A, &B, &C), output: Out) -> bool {
        exists|a: A::Owned, b: B::Owned, c: C::Owned|
            #![trigger self.ensures((a, b, c), output)]
            {
                &&& owned_from(r.0, a)
                &&& owned_from(r.1, b)
                &&& owned_from(r.2, c)
                &&& self.ensures((a, b, c), output)
            }
    }

    fn call(self, r: (&A, &B, &C)) -> (output: Out) {
        let a = convert(r.0);
        let b = convert(r.1);
        let c = convert(r.2);
        self(a, b, c)
    }
}

impl<
    FN,
    Out,
    A: ToOwned + ?Sized,
    B: ToOwned + ?Sized,
    C: ToOwned + ?Sized,
    D: ToOwned + ?Sized,
> Closure<(&A, &B, &C, &D)> for FN where
    FN: FnOnce(A::Owned, B::Owned, C::Owned, D::Owned) -> Out,
 {
    type Output = Out;

    open spec fn accepts(&self, r: (&A, &B, &C, &D)) -> bool {
        forall|a: A::Owned, b: B::Owned, c: C::Owned, d: D::Owned|
            #![trigger self.requires((a, b, c, d))]
            {
                &&& owned_from(r.0, a)
                &&& owned_from(r.1, b)
                &&& owned_from(r.2, c)
                &&& owned_from(r.3, d)
            } ==> self.requires((a, b, c, d))
    }

    open spec fn produces(&self, r: (&A, &B, &C, &D), output: Out) -> bool {
        exists|a: A::Owned, b: B::Owned, c: C::Owned, d: D::Owned|
            #![trigger self.ensures((a, b, c, d), output)]
            {
                &&& owned_from(r.0, a)
                &&& owned_from(r.1, b)
                &&& owned_from(r.2, c)
                &&& owned_from(r.3, d)
                &&& self.ensures((a, b, c, d), output)
            }
    }

    fn call(self, r: (&A, &B, &C, &D)) -> (output: Out) {
        let a = convert(r.0);
        let b = convert(r.1);
        let c = convert(r.2);
        let d = convert(r.3);
        self(a, b, c, d)
    }
}

impl<
    FN,
    Out,
    A: ToOwned + ?Sized,
    B: ToOwned + ?Sized,
    C: ToOwned + ?Sized,
    D: ToOwned + ?Sized,
    E: ToOwned + ?Sized,
> Closure<(&A, &B, &C, &D, &E)> for FN where
    FN: FnOnce(A::Owned, B::Owned, C::Owned, D::Owned, E::Owned) -> Out,
 {
    type Output = Out;

    open spec fn accepts(&self, r: (&A, &B, &C, &D, &E)) -> bool {
        forall|
            a: A::Owned,
            b: B::Owned,
            c: C::Owned,
            d: D::Owned,
            e: E::Owned,
        |
            #![trigger self.requires((a, b, c, d, e))]
            {
                &&& owned_from(r.0, a)
                &&& owned_from(r.1, b)
                &&& owned_from(r.2, c)
                &&& owned_from(r.3, d)
                &&& owned_from(r.4, e)
            } ==> self.requires((a, b, c, d, e))
    }

    open spec fn produces(&self, r: (&A, &B, &C, &D, &E), output: Out) -> bool {
        exists|
            a: A::Owned,
            b: B::Owned,
            c: C::Owned,
            d: D::Owned,
            e: E::Owned,
        |
            #![trigger self.ensures((a, b, c, d, e), output)]
            {
                &&& owned_from(r.0, a)
                &&& owned_from(r.1, b)
                &&& owned_from(r.2, c)
                &&& owned_from(r.3, d)
                &&& owned_from(r.4, e)
                &&& self.ensures((a, b, c, d, e), output)
            }
    }

    fn call(self, r: (&A, &B, &C, &D, &E)) -> (output: Out) {
        let a = convert(r.0);
        let b = convert(r.1);
        let c = convert(r.2);
        let d = convert(r.3);
        let e = convert(r.4);
        self(a, b, c, d, e)
    }
}

impl<
    FN,
    Out,
    A: ToOwned + ?Sized,
    B: ToOwned + ?Sized,
    C: ToOwned + ?Sized,
    D: ToOwned + ?Sized,
    E: ToOwned + ?Sized,
    F: ToOwned + ?Sized,
> Closure<(&A, &B, &C, &D, &E, &F)> for FN where
    FN: FnOnce(A::Owned, B::Owned, C::Owned, D::Owned, E::Owned, F::Owned) -> Out,
 {
    type Output = Out;

    open spec fn accepts(&self, r: (&A, &B, &C, &D, &E, &F)) -> bool {
        forall|
            a: A::Owned,
            b: B::Owned,
            c: C::Owned,
            d: D::Owned,
            e: E::Owned,
            f: F::Owned,
        |
            #![trigger self.requires((a, b, c, d, e, f))]
            {
                &&& owned_from(r.0, a)
                &&& owned_from(r.1, b)
                &&& owned_from(r.2, c)
                &&& owned_from(r.3, d)
                &&& owned_from(r.4, e)
                &&& owned_from(r.5, f)
            } ==> self.requires((a, b, c, d, e, f))
    }

    open spec fn produces(&self, r: (&A, &B, &C, &D, &E, &F), output: Out) -> bool {
        exists|
            a: A::Owned,
            b: B::Owned,
            c: C::Owned,
            d: D::Owned,
            e: E::Owned,
            f: F::Owned,
        |
            #![trigger self.ensures((a, b, c, d, e, f), output)]
            {
                &&& owned_from(r.0, a)
                &&& owned_from(r.1, b)
                &&& owned_from(r.2, c)
                &&& owned_from(r.3, d)
                &&& owned_from(r.4, e)
                &&& owned_from(r.5, f)
                &&& self.ensures((a, b, c, d, e, f), output)
            }
    }

    fn call(self, r: (&A, &B, &C, &D, &E, &F)) -> (output: Out) {
        let a = convert(r.0);
        let b = convert(r.1);
        let c = convert(r.2);
        let d = convert(r.3);
        let e = convert(r.4);
        let f = convert(r.5);
        self(a, b, c, d, e, f)
    }
}

impl<
    FN,
    Out,
    A: ToOwned + ?Sized,
    B: ToOwned + ?Sized,
    C: ToOwned + ?Sized,
    D: ToOwned + ?Sized,
    E: ToOwned + ?Sized,
    F: ToOwned + ?Sized,
    G: ToOwned + ?Sized,
> Closure<(&A, &B, &C, &D, &E, &F, &G)> for FN where
    FN: FnOnce(A::Owned, B::Owned, C::Owned, D::Owned, E::Owned, F::Owned, G::Owned) -> Out,
 {
    type Output = Out;

    open spec fn accepts(&self, r: (&A, &B, &C, &D, &E, &F, &G)) -> bool {
        forall|
            a: A::Owned,
            b: B::Owned,
            c: C::Owned,
            d: D::Owned,
            e: E::Owned,
            f: F::Owned,
            g: G::Owned,
        |
            #![trigger self.requires((a, b, c, d, e, f, g))]
            {
                &&& owned_from(r.0, a)
                &&& owned_from(r.1, b)
                &&& owned_from(r.2, c)
                &&& owned_from(r.3, d)
                &&& owned_from(r.4, e)
                &&& owned_from(r.5, f)
                &&& owned_from(r.6, g)
            } ==> self.requires((a, b, c, d, e, f, g))
    }

    open spec fn produces(&self, r: (&A, &B, &C, &D, &E, &F, &G), output: Out) -> bool {
        exists|
            a: A::Owned,
            b: B::Owned,
            c: C::Owned,
            d: D::Owned,
            e: E::Owned,
            f: F::Owned,
            g: G::Owned,
        |
            #![trigger self.ensures((a, b, c, d, e, f, g), output)]
            {
                &&& owned_from(r.0, a)
                &&& owned_from(r.1, b)
                &&& owned_from(r.2, c)
                &&& owned_from(r.3, d)
                &&& owned_from(r.4, e)
                &&& owned_from(r.5, f)
                &&& owned_from(r.6, g)
                &&& self.ensures((a, b, c, d, e, f, g), output)
            }
    }

    fn call(self, r: (&A, &B, &C, &D, &E, &F, &G)) -> (output: Out) {
        let a = convert(r.0);
        let b = convert(r.1);
        let c = convert(r.2);
        let d = convert(r.3);
        let e = convert(r.4);
        let f = convert(r.5);
        let g = convert(r.6);
        self(a, b, c, d, e, f, g)
    }
}

impl<
    FN,
    Out,
    A: ToOwned + ?Sized,
    B: ToOwned + ?Sized,
    C: ToOwned + ?Sized,
    D: ToOwned + ?Sized,
    E: ToOwned + ?Sized,
    F: ToOwned + ?Sized,
    G: ToOwned + ?Sized,
    H: ToOwned + ?Sized,
> Closure<(&A, &B, &C, &D, &E, &F, &G, &H)> for FN where
    FN: FnOnce(A::Owned, B::Owned, C::Owned, D::Owned, E::Owned, F::Owned, G::Owned, H::Owned) -> Out,
 {
    type Output = Out;

    open spec fn accepts(&self, r: (&A, &B, &C, &D, &E, &F, &G, &H)) -> bool {
        forall|
            a: A::Owned,
            b: B::Owned,
            c: C::Owned,
            d: D::Owned,
            e: E::Owned,
            f: F::Owned,
            g: G::Owned,
            h: H::Owned,
        |
            #![trigger self.requires((a, b, c, d, e, f, g, h))]
            {
                &&& owned_from(r.0, a)
                &&& owned_from(r.1, b)
                &&& owned_from(r.2, c)
                &&& owned_from(r.3, d)
                &&& owned_from(r.4, e)
                &&& owned_from(r.5, f)
                &&& owned_from(r.6, g)
                &&& owned_from(r.7, h)
            } ==> self.requires((a, b, c, d, e, f, g, h))
    }

    open spec fn produces(&self, r: (&A, &B, &C, &D, &E, &F, &G, &H), output: Out) -> bool {
        exists|
            a: A::Owned,
            b: B::Owned,
            c: C::Owned,
            d: D::Owned,
            e: E::Owned,
            f: F::Owned,
            g: G::Owned,
            h: H::Owned,
        |
            #![trigger self.ensures((a, b, c, d, e, f, g, h), output)]
            {
                &&& owned_from(r.0, a)
                &&& owned_from(r.1, b)
                &&& owned_from(r.2, c)
                &&& owned_from(r.3, d)
                &&& owned_from(r.4, e)
                &&& owned_from(r.5, f)
                &&& owned_from(r.6, g)
                &&& owned_from(r.7, h)
                &&& self.ensures((a, b, c, d, e, f, g, h), output)
            }
    }

    fn call(self, r: (&A, &B, &C, &D, &E, &F, &G, &H)) -> (output: Out) {
        let a = convert(r.0);
        let b = convert(r.1);
        let c = convert(r.2);
        let d = convert(r.3);
        let e = convert(r.4);
        let f = convert(r.5);
        let g = convert(r.6);
        let h = convert(r.7);
        self(a, b, c, d, e, f, g, h)
    }
}

impl<
    FN,
    Out,
    A: ToOwned + ?Sized,
    B: ToOwned + ?Sized,
    C: ToOwned + ?Sized,
    D: ToOwned + ?Sized,
    E: ToOwned + ?Sized,
    F: ToOwned + ?Sized,
    G: ToOwned + ?Sized,
    H: ToOwned + ?Sized,
    I: ToOwned + ?Sized,
> Closure<(&A, &B, &C, &D, &E, &F, &G, &H, &I)> for FN where
    FN: FnOnce(
        A::Owned,
        B::Owned,
        C::Owned,
        D::Owned,
        E::Owned,
        F::Owned,
        G::Owned,
        H::Owned,
        I::Owned,
    ) -> Out,
 {
    type Output = Out;

    open spec fn accepts(&self, r: (&A, &B, &C, &D, &E, &F, &G, &H, &I)) -> bool {
        forall|
            a: A::Owned,
            b: B::Owned,
            c: C::Owned,
            d: D::Owned,
            e: E::Owned,
            f: F::Owned,
            g: G::Owned,
            h: H::Owned,
            i: I::Owned,
        |
            #![trigger self.requires((a, b, c, d, e, f, g, h, i))]
            {
                &&& owned_from(r.0, a)
                &&& owned_from(r.1, b)
                &&& owned_from(r.2, c)
                &&& owned_from(r.3, d)
                &&& owned_from(r.4, e)
                &&& owned_from(r.5, f)
                &&& owned_from(r.6, g)
                &&& owned_from(r.7, h)
                &&& owned_from(r.8, i)
            } ==> self.requires((a, b, c, d, e, f, g, h, i))
    }

    open spec fn produces(&self, r: (&A, &B, &C, &D, &E, &F, &G, &H, &I), output: Out) -> bool {
        exists|
            a: A::Owned,
            b: B::Owned,
            c: C::Owned,
            d: D::Owned,
            e: E::Owned,
            f: F::Owned,
            g: G::Owned,
            h: H::Owned,
            i: I::Owned,
        |
            #![trigger self.ensures((a, b, c, d, e, f, g, h, i), output)]
            {
                &&& owned_from(r.0, a)
                &&& owned_from(r.1, b)
                &&& owned_from(r.2, c)
                &&& owned_from(r.3, d)
                &&& owned_from(r.4, e)
                &&& owned_from(r.5, f)
                &&& owned_from(r.6, g)
                &&& owned_from(r.7, h)
                &&& owned_from(r.8, i)
                &&& self.ensures((a, b, c, d, e, f, g, h, i), output)
            }
    }

    fn call(self, r: (&A, &B, &C, &D, &E, &F, &G, &H, &I)) -> (output: Out) {
        let a = convert(r.0);
        let b = convert(r.1);
        let c = convert(r.2);
        let d = convert(r.3);
        let e = convert(r.4);
        let f = convert(r.5);
        let g = convert(r.6);
        let h = convert(r.7);
        let i = convert(r.8);
        self(a, b, c, d, e, f, g, h, i)
    }
}

impl<
    FN,
    Out,
    A: ToOwned + ?Sized,
    B: ToOwned + ?Sized,
    C: ToOwned + ?Sized,
    D: ToOwned + ?Sized,
    E: ToOwned + ?Sized,
    F: ToOwned + ?Sized,
    G: ToOwned + ?Sized,
    H: ToOwned + ?Sized,
    I: ToOwned + ?Sized,
    J: ToOwned + ?Sized,
> Closure<(&A, &B, &C, &D, &E, &F, &G, &H, &I, &J)> for FN where
    FN: FnOnce(
        A::Owned,
        B::Owned,
        C::Owned,
        D::Owned,
        E::Owned,
        F::Owned,
        G::Owned,
        H::Owned,
        I::Owned,
        J::Owned,
    ) -> Out,
 {
    type Output = Out;

    open spec fn accepts(&self, r: (&A, &B, &C, &D, &E, &F, &G, &H, &I, &J)) -> bool {
        forall|
            a: A::Owned,
            b: B::Owned,
            c: C::Owned,
            d: D::Owned,
            e: E::Owned,
            f: F::Owned,
            g: G::Owned,
            h: H::Owned,
            i: I::Owned,
            j: J::Owned,
        |
            #![trigger self.requires((a, b, c, d, e, f, g, h, i, j))]
            {
                &&& owned_from(r.0, a)
                &&& owned_from(r.1, b)
                &&& owned_from(r.2, c)
                &&& owned_from(r.3, d)
                &&& owned_from(r.4, e)
                &&& owned_from(r.5, f)
                &&& owned_from(r.6, g)
                &&& owned_from(r.7, h)
                &&& owned_from(r.8, i)
                &&& owned_from(r.9, j)
            } ==> self.requires((a, b, c, d, e, f, g, h, i, j))
    }

    open spec fn produces(&self, r: (&A, &B, &C, &D, &E, &F, &G, &H, &I, &J), output: Out) -> bool {
        exists|
            a: A::Owned,
            b: B::Owned,
            c: C::Owned,
            d: D::Owned,
            e: E::Owned,
            f: F::Owned,
            g: G::Owned,
            h: H::Owned,
            i: I::Owned,
            j: J::Owned,
        |
            #![trigger self.ensures((a, b, c, d, e, f, g, h, i, j), output)]
            {
                &&& owned_from(r.0, a)
                &&& owned_from(r.1, b)
                &&& owned_from(r.2, c)
                &&& owned_from(r.3, d)
                &&& owned_from(r.4, e)
                &&& owned_from(r.5, f)
                &&& owned_from(r.6, g)
                &&& owned_from(r.7, h)
                &&& owned_from(r.8, i)
                &&& owned_from(r.9, j)
                &&& self.ensures((a, b, c, d, e, f, g, h, i, j), output)
            }
    }

    fn call(self, r: (&A, &B, &C, &D, &E, &F, &G, &H, &I, &J)) -> (output: Out) {
        let a = convert(r.0);
        let b = convert(r.1);
        let c = convert(r.2);
        let d = convert(r.3);
        let e = convert(r.4);
        let f = convert(r.5);
        let g = convert(r.6);
        let h = convert(r.7);
        let i = convert(r.8);
        let j = convert(r.9);
        self(a, b, c, d, e, f, g, h, i, j)
    }
}

impl<
    FN,
    Out,
    A: ToOwned + ?Sized,
    B: ToOwned + ?Sized,
    C: ToOwned + ?Sized,
    D: ToOwned + ?Sized,
    E: ToOwned + ?Sized,
    F: ToOwned + ?Sized,
    G: ToOwned + ?Sized,
    H: ToOwned + ?Sized,
    I: ToOwned + ?Sized,
    J: ToOwned + ?Sized,
    K: ToOwned + ?Sized,
> Closure<(&A, &B, &C, &D, &E, &F, &G, &H, &I, &J, &K)> for FN where
    FN: FnOnce(
        A::Owned,
        B::Owned,
        C::Owned,
        D::Owned,
        E::Owned,
        F::Owned,
        G::Owned,
        H::Owned,
        I::Owned,
        J::Owned,
        K::Owned,
    ) -> Out,
 {
    type Output = Out;

    open spec fn accepts(&self, r: (&A, &B, &C, &D, &E, &F, &G, &H, &I, &J, &K)) -> bool {
        forall|
            a: A::Owned,
            b: B::Owned,
            c: C::Owned,
            d: D::Owned,
            e: E::Owned,
            f: F::Owned,
            g: G::Owned,
            h: H::Owned,
            i: I::Owned,
            j: J::Owned,
            k: K::Owned,
        |
            #![trigger self.requires((a, b, c, d, e, f, g, h, i, j, k))]
            {
                &&& owned_from(r.0, a)
                &&& owned_from(r.1, b)
                &&& owned_from(r.2, c)
                &&& owned_from(r.3, d)
                &&& owned_from(r.4, e)
                &&& owned_from(r.5, f)
                &&& owned_from(r.6, g)
                &&& owned_from(r.7, h)
                &&& owned_from(r.8, i)
                &&& owned_from(r.9, j)
                &&& owned_from(r.10, k)
            } ==> self.requires((a, b, c, d, e, f, g, h, i, j, k))
    }

    open spec fn produces(&self, r: (&A, &B, &C, &D, &E, &F, &G, &H, &I, &J, &K), output: Out) -> bool {
        exists|
            a: A::Owned,
            b: B::Owned,
            c: C::Owned,
            d: D::Owned,
            e: E::Owned,
            f: F::Owned,
            g: G::Owned,
            h: H::Owned,
            i: I::Owned,
            j: J::Owned,
            k: K::Owned,
        |
            #![trigger self.ensures((a, b, c, d, e, f, g, h, i, j, k), output)]
            {
                &&& owned_from(r.0, a)
                &&& owned_from(r.1, b)
                &&& owned_from(r.2, c)
                &&& owned_from(r.3, d)
                &&& owned_from(r.4, e)
                &&& owned_from(r.5, f)
                &&& owned_from(r.6, g)
                &&& owned_from(r.7, h)
                &&& owned_from(r.8, i)
                &&& owned_from(r.9, j)
                &&& owned_from(r.10, k)
                &&& self.ensures((a, b, c, d, e, f, g, h, i, j, k), output)
            }
    }

    fn call(self, r: (&A, &B, &C, &D, &E, &F, &G, &H, &I, &J, &K)) -> (output: Out) {
        let a = convert(r.0);
        let b = convert(r.1);
        let c = convert(r.2);
        let d = convert(r.3);
        let e = convert(r.4);
        let f = convert(r.5);
        let g = convert(r.6);
        let h = convert(r.7);
        let i = convert(r.8);
        let j = convert(r.9);
        let k = convert(r.10);
        self(a, b, c, d, e, f, g, h, i, j, k)
    }
}

impl<
    FN,
    Out,
    A: ToOwned + ?Sized,
    B: ToOwned + ?Sized,
    C: ToOwned + ?Sized,
    D: ToOwned + ?Sized,
    E: ToOwned + ?Sized,
    F: ToOwned + ?Sized,
    G: ToOwned + ?Sized,
    H: ToOwned + ?Sized,
    I: ToOwned + ?Sized,
    J: ToOwned + ?Sized,
    K: ToOwned + ?Sized,
    L: ToOwned + ?Sized,
> Closure<(&A, &B, &C, &D, &E, &F, &G, &H, &I, &J, &K, &L)> for FN where
    FN: FnOnce(
        A::Owned,
        B::Owned,
        C::Owned,
        D::Owned,
        E::Owned,
        F::Owned,
        G::Owned,
        H::Owned,
        I::Owned,
        J::Owned,
        K::Owned,
        L::Owned,
    ) -> Out,
 {
    type Output = Out;

    open spec fn accepts(&self, r: (&A, &B, &C, &D, &E, &F, &G, &H, &I, &J, &K, &L)) -> bool {
        forall|
            a: A::Owned,
            b: B::Owned,
            c: C::Owned,
            d: D::Owned,
            e: E::Owned,
            f: F::Owned,
            g: G::Owned,
            h: H::Owned,
            i: I::Owned,
            j: J::Owned,
            k: K::Owned,
            l: L::Owned,
        |
            #![trigger self.requires((a, b, c, d, e, f, g, h, i, j, k, l))]
            {
                &&& owned_from(r.0, a)
                &&& owned_from(r.1, b)
                &&& owned_from(r.2, c)
                &&& owned_from(r.3, d)
                &&& owned_from(r.4, e)
                &&& owned_from(r.5, f)
                &&& owned_from(r.6, g)
                &&& owned_from(r.7, h)
                &&& owned_from(r.8, i)
                &&& owned_from(r.9, j)
                &&& owned_from(r.10, k)
                &&& owned_from(r.11, l)
            } ==> self.requires((a, b, c, d, e, f, g, h, i, j, k, l))
    }

    open spec fn produces(&self, r: (&A, &B, &C, &D, &E, &F, &G, &H, &I, &J, &K, &L), output: Out) -> bool {
        exists|
            a: A::Owned,
            b: B::Owned,
            c: C::Owned,
            d: D::Owned,
            e: E::Owned,
            f: F::Owned,
            g: G::Owned,
            h: H::Owned,
            i: I::Owned,
            j: J::Owned,
            k: K::Owned,
            l: L::Owned,
        |
            #![trigger self.ensures((a, b, c, d, e, f, g, h, i, j, k, l), output)]
            {
                &&& owned_from(r.0, a)
                &&& owned_from(r.1, b)
                &&& owned_from(r.2, c)
                &&& owned_from(r.3, d)
                &&& owned_from(r.4, e)
                &&& owned_from(r.5, f)
                &&& owned_from(r.6, g)
                &&& owned_from(r.7, h)
                &&& owned_from(r.8, i)
                &&& owned_from(r.9, j)
                &&& owned_from(r.10, k)
                &&& owned_from(r.11, l)
                &&& self.ensures((a, b, c, d, e, f, g, h, i, j, k, l), output)
            }
    }

    fn call(self, r: (&A, &B, &C, &D, &E, &F, &G, &H, &I, &J, &K, &L)) -> (output: Out) {
        let a = convert(r.0);
        let b = convert(r.1);
        let c = convert(r.2);
        let d = convert(r.3);
        let e = convert(r.4);
        let f = convert(r.5);
        let g = convert(r.6);
        let h = convert(r.7);
        let i = convert(r.8);
        let j = convert(r.9);
        let k = convert(r.10);
        let l = convert(r.11);
        self(a, b, c, d, e, f, g, h, i, j, k, l)
    }
}

} // verus!
