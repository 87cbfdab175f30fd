use vstd::prelude::*;

use crate::seal::Sealed;

verus! {

/// The kind of shared references, as opposed to exclusive ones.
pub struct SharedRefFamily;

/// The kind of exclusive (mutable) references, as opposed to shared ones.
pub struct MutRefFamily;

/// A kind of reference access. Exactly two types implement it:
/// [`SharedRefFamily`] and [`MutRefFamily`].
pub trait RefMutFamily: Sized + Sealed {
    /// Whether references of this kind are shared.
    const IS_SHARED: bool;
}

impl Sealed for SharedRefFamily {}

impl Sealed for MutRefFamily {}

impl RefMutFamily for SharedRefFamily {
    const IS_SHARED: bool = true;
}

impl RefMutFamily for MutRefFamily {
    const IS_SHARED: bool = false;
}

/// Of the two kinds, exactly the shared one is tagged as shared.
pub proof fn lemma_kind_tags()
    ensures
        SharedRefFamily::IS_SHARED,
        !MutRefFamily::IS_SHARED,
{
}

/// The one access held by a [`SomeRef`].
enum Slot<'a, T> {
    Shared(&'a T),
    Exclusive(&'a mut T),
}

/// A reference to a `T` whose kind of access is given by `M`: a shared
/// reference when `M` is [`SharedRefFamily`], an exclusive one when it is
/// [`MutRefFamily`].
pub struct SomeRef<'a, T, M: RefMutFamily> {
    slot: Slot<'a, T>,
    kind: core::marker::PhantomData<M>,
}

impl<'a, T, M: RefMutFamily> SomeRef<'a, T, M> {
    #[verifier::type_invariant]
    spec fn kind_matches(self) -> bool {
        (self.slot is Shared) == M::IS_SHARED
    }

    /// The value referred to.
    pub open spec fn pointee(self) -> T {
        match self.shared() {
            Some(s) => *s,
            None => *self.exclusive()->0,
        }
    }

    /// The shared reference held, if the access is shared.
    pub closed spec fn shared(self) -> Option<&'a T> {
        match self.slot {
            Slot::Shared(r) => Some(r),
            Slot::Exclusive(_) => None,
        }
    }

    /// The exclusive reference held, if the access is exclusive.
    pub closed spec fn exclusive(self) -> Option<&'a mut T> {
        match self.slot {
            Slot::Shared(_) => None,
            Slot::Exclusive(r) => Some(r),
        }
    }

    /// Whether the access held is shared; this is `M::IS_SHARED`.
    pub fn is_shared(&self) -> (r: bool)
        ensures
            r == M::IS_SHARED,
            r == self.shared() is Some,
            r != self.exclusive() is Some,
    {
        proof {
            use_type_invariant(self);
        }
        match &self.slot {
            Slot::Shared(_) => true,
            Slot::Exclusive(_) => false,
        }
    }

    /// Hands the reference held to `f_ref` if it is shared, or to `f_mut` if
    /// it is exclusive, and returns what that function returns. The other
    /// function is not called.
    pub fn convert<O, Fref, Fmut>(self, f_ref: Fref, f_mut: Fmut) -> (r: O) where
        Fref: FnOnce(&'a T) -> O,
        Fmut: FnOnce(&'a mut T) -> O,

        requires
            self.shared() matches Some(s) ==> f_ref.requires((s,)),
            self.exclusive() matches Some(m) ==> forall|x: &'a mut T|
                *x == *m && *final(x) == *final(m) ==> f_mut.requires((x,)),
        ensures
            self.shared() matches Some(s) ==> f_ref.ensures((s,), r),
            self.exclusive() matches Some(m) ==> exists|x: &'a mut T|
                *x == *m && *final(x) == *final(m) && f_mut.ensures((x,), r),
    {
        match self.slot {
            Slot::Shared(s) => f_ref(s),
            Slot::Exclusive(m) => f_mut(m),
        }
    }

    /// Narrows the reference held to a part of its pointee with `f_ref` if
    /// it is shared, or with `f_mut` if it is exclusive; the kind is kept.
    pub fn map<U, Fref, Fmut>(self, f_ref: Fref, f_mut: Fmut) -> (r: SomeRef<'a, U, M>) where
        Fref: FnOnce(&'a T) -> &'a U,
        Fmut: FnOnce(&'a mut T) -> &'a mut U,

        requires
            self.shared() matches Some(s) ==> f_ref.requires((s,)),
            self.exclusive() matches Some(m) ==> forall|x: &'a mut T|
                *x == *m && *final(x) == *final(m) ==> f_mut.requires((x,)),
        ensures
            self.shared() matches Some(s) ==> r.shared() matches Some(u) && f_ref.ensures(
                (s,),
                u,
            ),
            self.exclusive() matches Some(m) ==> r.exclusive() matches Some(u) && exists|
                x: &'a mut T,
                y: &'a mut U,
            |
                *x == *m && *final(x) == *final(m) && f_mut.ensures((x,), y) && *y == *u
                    && *final(y) == *final(u),
    {
        proof {
            use_type_invariant(&self);
        }
        match self.slot {
            Slot::Shared(s) => SomeRef { slot: Slot::Shared(f_ref(s)), kind: core::marker::PhantomData },
            Slot::Exclusive(m) => SomeRef {
                slot: Slot::Exclusive(f_mut(m)),
                kind: core::marker::PhantomData,
            },
        }
    }
}

impl<'a, T> SomeRef<'a, T, SharedRefFamily> {
    /// Holds a shared reference.
    pub fn from_shared(shared: &'a T) -> (r: Self)
        ensures
            r.shared() == Some(shared),
            r.exclusive() is None,
    {
        SomeRef { slot: Slot::Shared(shared), kind: core::marker::PhantomData }
    }

    /// Gives back the shared reference held.
    pub fn into_shared(self) -> (r: &'a T)
        ensures
            self.shared() == Some(r),
    {
        proof {
            use_type_invariant(&self);
        }
        match self.slot {
            Slot::Shared(r) => r,
            Slot::Exclusive(r) => r,
        }
    }
}

impl<'a, T> SomeRef<'a, T, MutRefFamily> {
    /// Holds an exclusive reference.
    pub fn from_mut(mut_: &'a mut T) -> (r: Self)
        ensures
            r.shared() is None,
            r.exclusive() is Some,
            *r.exclusive()->0 == *old(mut_),
            *final(r.exclusive()->0) == *final(mut_),
    {
        SomeRef { slot: Slot::Exclusive(mut_), kind: core::marker::PhantomData }
    }

    /// Gives back the exclusive reference held.
    pub fn into_mut(self) -> (r: &'a mut T)
        ensures
            self.exclusive() is Some,
            *r == *self.exclusive()->0,
            *final(r) == *final(self.exclusive()->0),
    {
        proof {
            use_type_invariant(&self);
        }
        match self.slot {
            Slot::Exclusive(r) => r,
            Slot::Shared(_) => unreached(),
        }
    }
}

/// A reference of either kind to a `T`: `&T` (kind [`SharedRefFamily`]),
/// `&mut T` (kind [`MutRefFamily`]) or a [`SomeRef`] of kind `M`.
pub trait Ref<'a, T, M: RefMutFamily>: Sized + Sealed {
    /// The value referred to.
    spec fn referent(&self) -> T;

    /// A shared view of the value referred to, whatever the kind.
    fn as_ref(&self) -> (r: &T)
        ensures
            *r == self.referent(),
    ;

    /// The same reference, held as a [`SomeRef`].
    fn into_someref(self) -> (r: SomeRef<'a, T, M>)
        ensures
            r.pointee() == self.referent(),
    ;
}

impl<'a, T, M: RefMutFamily> Sealed for SomeRef<'a, T, M> {}

impl<'a, T> Sealed for &'a T {}

impl<'a, T> Sealed for &'a mut T {}

impl<'a, T, M: RefMutFamily> Ref<'a, T, M> for SomeRef<'a, T, M> {
    open spec fn referent(&self) -> T {
        self.pointee()
    }

    fn as_ref(&self) -> (r: &T) {
        match &self.slot {
            Slot::Shared(s) => *s,
            Slot::Exclusive(m) => &**m,
        }
    }

    fn into_someref(self) -> (r: SomeRef<'a, T, M>)
        ensures
            r == self,
    {
        self
    }
}

impl<'a, T> Ref<'a, T, SharedRefFamily> for &'a T {
    open spec fn referent(&self) -> T {
        **self
    }

    fn as_ref(&self) -> (r: &T) {
        *self
    }

    fn into_someref(self) -> (r: SomeRef<'a, T, SharedRefFamily>)
        ensures
            r.shared() == Some(self),
    {
        SomeRef::from_shared(self)
    }
}

impl<'a, T> Ref<'a, T, MutRefFamily> for &'a mut T {
    open spec fn referent(&self) -> T {
        **self
    }

    fn as_ref(&self) -> (r: &T) {
        &**self
    }

    fn into_someref(self) -> (r: SomeRef<'a, T, MutRefFamily>)
        ensures
            r.exclusive() is Some,
            *r.exclusive()->0 == *old(self),
            *final(r.exclusive()->0) == *final(self),
    {
        SomeRef::from_mut(self)
    }
}

} // verus!
