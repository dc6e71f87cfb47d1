//! Method-chaining ("pipe") forms of function application, available on every type.
//!
//! `x.pipe(f)` stands for `f(x)`; the other methods hand `f` a borrowed or mutably borrowed
//! view of the value, directly or through `AsRef`, `AsMut`, `Deref`, `DerefMut`, `Borrow` or
//! `BorrowMut`. Each method calls `f` once and returns what it returns.
//!
//! The contracts speak of `f` through its `requires` and `ensures`. A method that converts
//! the value first speaks of the conversion through a view predicate (`as_ref_view`,
//! `deref_view`, ...): `p` is a value that the conversion may hand out for `t`.
//!
//! A `&mut` handed to `f` is a fresh borrow of the caller's place: it starts from the
//! place's current value and its final value is the place's final value. The contracts of
//! the mutable methods say so, which is what makes the edits of `f` visible to the caller.
use core::borrow::{Borrow, BorrowMut};
use core::ops::{Deref, DerefMut};
use vstd::prelude::*;

pub mod laws;

verus! {

/// Relies on `AsRef::as_ref`: the view that the type's own impl hands out.
#[verifier::external_body]
fn as_ref_of<T: ?Sized + AsRef<U>, U: ?Sized>(t: &T) -> &U {
    t.as_ref()
}

/// Relies on `AsMut::as_mut`: the mutable view that the type's own impl hands out.
#[verifier::external_body]
fn as_mut_of<T: ?Sized + AsMut<U>, U: ?Sized>(t: &mut T) -> &mut U {
    t.as_mut()
}

/// Relies on `Borrow::borrow`: the view that the type's own impl hands out.
#[verifier::external_body]
fn borrow_of<T: ?Sized + Borrow<U>, U: ?Sized>(t: &T) -> &U {
    t.borrow()
}

/// Relies on `BorrowMut::borrow_mut`: the mutable view that the type's own impl hands out.
#[verifier::external_body]
fn borrow_mut_of<T: ?Sized + BorrowMut<U>, U: ?Sized>(t: &mut T) -> &mut U {
    t.borrow_mut()
}

/// `p` is a view that `AsRef` may hand out for `t`.
pub closed spec fn as_ref_view<T: ?Sized + AsRef<U>, U: ?Sized>(t: &T, p: &U) -> bool {
    call_ensures(as_ref_of::<T, U>, (t,), p)
}

/// `p` is a mutable view that `AsMut` may hand out for the borrow `t`.
pub closed spec fn as_mut_view<T: ?Sized + AsMut<U>, U: ?Sized>(t: &mut T, p: &mut U) -> bool {
    call_ensures(as_mut_of::<T, U>, (t,), p)
}

/// `p` is a view that `Borrow` may hand out for `t`.
pub closed spec fn borrow_view<T: ?Sized + Borrow<U>, U: ?Sized>(t: &T, p: &U) -> bool {
    call_ensures(borrow_of::<T, U>, (t,), p)
}

/// `p` is a mutable view that `BorrowMut` may hand out for the borrow `t`.
pub closed spec fn borrow_mut_view<T: ?Sized + BorrowMut<U>, U: ?Sized>(
    t: &mut T,
    p: &mut U,
) -> bool {
    call_ensures(borrow_mut_of::<T, U>, (t,), p)
}

/// `p` is what `Deref::deref` may return for `t`.
pub open spec fn deref_view<T: ?Sized + Deref>(t: &T, p: &T::Target) -> bool {
    call_ensures(T::deref, (t,), p)
}

/// `p` is what `DerefMut::deref_mut` may return for the borrow `t`.
pub open spec fn deref_mut_view<T: ?Sized + DerefMut>(t: &mut T, p: &mut T::Target) -> bool {
    call_ensures(T::deref_mut, (t,), p)
}

/// Chaining forms of function application. Every sized type has them.
pub trait Pipe {
    /// Apply `f` to `self`.
    fn pipe<Return, Function>(self, f: Function) -> (r: Return) where
        Self: Sized,
        Function: FnOnce(Self) -> Return,
        requires
            f.requires((self,)),
        ensures
            f.ensures((self,), r),
    {
        f(self)
    }

    /// Apply `f` to `&self`.
    fn pipe_ref<'a, Return, Function>(&'a self, f: Function) -> (r: Return) where
        Function: FnOnce(&'a Self) -> Return,
        requires
            f.requires((self,)),
        ensures
            f.ensures((self,), r),
    {
        f(self)
    }

    /// Apply `f` to `&mut self`.
    fn pipe_mut<'a, Return, Function>(&'a mut self, f: Function) -> (r: Return) where
        Function: FnOnce(&'a mut Self) -> Return,
        requires
            forall|m: &'a mut Self| &*m == &*old(self) ==> #[trigger] f.requires((m,)),
        ensures
            exists|m: &'a mut Self|
                &*m == &*old(self) && &*final(m) == &*final(self) && #[trigger] f.ensures(
                    (m,),
                    r,
                ),
    {
        f(self)
    }

    /// Apply `f` to `&self` converted by `AsRef<Param>`.
    fn pipe_as_ref<'a, Param, Return, Function>(&'a self, f: Function) -> (r: Return) where
        Self: AsRef<Param>,
        Param: ?Sized + 'a,
        Function: FnOnce(&'a Param) -> Return,
        requires
            forall|p: &'a Param| #[trigger] as_ref_view::<Self, Param>(self, p) ==> f.requires((p,)),
        ensures
            exists|p: &'a Param|
                #[trigger] as_ref_view::<Self, Param>(self, p) && #[trigger] f.ensures((p,), r),
    {
        let convert = as_ref_of::<Self, Param>;
        let p = convert(self);
        assert(as_ref_view::<Self, Param>(self, p));
        f(p)
    }

    /// Apply `f` to `&mut self` converted by `AsMut<Param>`.
    fn pipe_as_mut<'a, Param, Return, Function>(&'a mut self, f: Function) -> (r: Return) where
        Self: AsMut<Param>,
        Param: ?Sized + 'a,
        Function: FnOnce(&'a mut Param) -> Return,
        requires
            forall|m: &'a mut Self, p: &'a mut Param, q: &'a mut Param|
                &*m == &*old(self) && #[trigger] as_mut_view::<Self, Param>(m, p) && &*q == &*p
                    ==> #[trigger] f.requires((q,)),
        ensures
            exists|m: &'a mut Self, p: &'a mut Param, q: &'a mut Param|
                &*m == &*old(self) && &*final(m) == &*final(self) && #[trigger] as_mut_view::<
                    Self,
                    Param,
                >(m, p) && &*q == &*p && &*final(q) == &*final(p) && #[trigger] f.ensures((q,), r),
    {
        let ghost last: &Self = &*final(self);
        let convert = as_mut_of::<Self, Param>;
        let p = convert(self);
        proof {
            let m = choose|m: &'a mut Self|
                &*m == &*old(self) && &*final(m) == last && #[trigger] call_ensures(
                    convert,
                    (m,),
                    p,
                );
            assert(as_mut_view::<Self, Param>(m, p));
        }
        f(p)
    }

    /// Apply `f` to what `&self` dereferences to.
    fn pipe_deref<'a, Param, Return, Function>(&'a self, f: Function) -> (r: Return) where
        Self: Deref<Target = Param>,
        Param: ?Sized + 'a,
        Function: FnOnce(&'a Param) -> Return,
        requires
            forall|p: &'a Param| #[trigger] deref_view::<Self>(self, p) ==> f.requires((p,)),
        ensures
            exists|p: &'a Param| #[trigger] deref_view::<Self>(self, p) && #[trigger] f.ensures((p,), r),
    {
        let convert = <Self as Deref>::deref;
        let p = convert(self);
        assert(deref_view::<Self>(self, p));
        f(p)
    }

    /// Apply `f` to what `&mut self` dereferences to.
    fn pipe_deref_mut<'a, Param, Return, Function>(&'a mut self, f: Function) -> (r: Return) where
        Self: DerefMut<Target = Param>,
        Param: ?Sized + 'a,
        Function: FnOnce(&'a mut Param) -> Return,
        requires
            forall|m: &'a mut Self, p: &'a mut Param, q: &'a mut Param|
                &*m == &*old(self) && #[trigger] deref_mut_view::<Self>(m, p) && &*q == &*p
                    ==> #[trigger] f.requires((q,)),
        ensures
            exists|m: &'a mut Self, p: &'a mut Param, q: &'a mut Param|
                &*m == &*old(self) && &*final(m) == &*final(self) && #[trigger] deref_mut_view::<
                    Self,
                >(m, p) && &*q == &*p && &*final(q) == &*final(p) && #[trigger] f.ensures((q,), r),
    {
        let ghost last: &Self = &*final(self);
        let convert = <Self as DerefMut>::deref_mut;
        let p = convert(self);
        proof {
            let m = choose|m: &'a mut Self|
                &*m == &*old(self) && &*final(m) == last && #[trigger] call_ensures(
                    convert,
                    (m,),
                    p,
                );
            assert(deref_mut_view::<Self>(m, p));
        }
        f(p)
    }

    /// Apply `f` to `&self` borrowed as `Param`.
    fn pipe_borrow<'a, Param, Return, Function>(&'a self, f: Function) -> (r: Return) where
        Self: Borrow<Param>,
        Param: ?Sized + 'a,
        Function: FnOnce(&'a Param) -> Return,
        requires
            forall|p: &'a Param| #[trigger] borrow_view::<Self, Param>(self, p) ==> f.requires((p,)),
        ensures
            exists|p: &'a Param|
                #[trigger] borrow_view::<Self, Param>(self, p) && #[trigger] f.ensures((p,), r),
    {
        let convert = borrow_of::<Self, Param>;
        let p = convert(self);
        assert(borrow_view::<Self, Param>(self, p));
        f(p)
    }

    /// Apply `f` to `&mut self` borrowed mutably as `Param`.
    fn pipe_borrow_mut<'a, Param, Return, Function>(&'a mut self, f: Function) -> (r: Return) where
        Self: BorrowMut<Param>,
        Param: ?Sized + 'a,
        Function: FnOnce(&'a mut Param) -> Return,
        requires
            forall|m: &'a mut Self, p: &'a mut Param, q: &'a mut Param|
                &*m == &*old(self) && #[trigger] borrow_mut_view::<Self, Param>(m, p) && &*q == &*p
                    ==> #[trigger] f.requires((q,)),
        ensures
            exists|m: &'a mut Self, p: &'a mut Param, q: &'a mut Param|
                &*m == &*old(self) && &*final(m) == &*final(self) && #[trigger] borrow_mut_view::<
                    Self,
                    Param,
                >(m, p) && &*q == &*p && &*final(q) == &*final(p) && #[trigger] f.ensures((q,), r),
    {
        let ghost last: &Self = &*final(self);
        let convert = borrow_mut_of::<Self, Param>;
        let p = convert(self);
        proof {
            let m = choose|m: &'a mut Self|
                &*m == &*old(self) && &*final(m) == last && #[trigger] call_ensures(
                    convert,
                    (m,),
                    p,
                );
            assert(borrow_mut_view::<Self, Param>(m, p));
        }
        f(p)
    }
}

impl<X> Pipe for X {}

} // verus!
