//! The clone-on-write smart pointer.
use vstd::prelude::*;

use crate::dairy::{Dairy, ToBoxed};

verus! {

/// A clone-on-write smart pointer: either borrowed data that lives for
/// `'a`, or a buffer that it owns.
///
/// The ownership tag is an explicit discriminant, so an owned buffer is
/// owned whatever its length or capacity, an empty one included.
pub enum Cow<'a, T: ?Sized + Dairy + 'a> {
    /// Borrowed data; nothing to free.
    Borrowed(&'a T),
    /// An owned buffer, freed exactly once, with the `Cow`.
    Owned(T::Owned),
}

impl<'a, T: ?Sized + Dairy + 'a> View for Cow<'a, T> {
    type V = Seq<T::Elem>;

    /// The content, whether borrowed or owned.
    open spec fn view(&self) -> Seq<T::Elem> {
        match self {
            Cow::Borrowed(b) => T::content(b),
            Cow::Owned(o) => T::owned_content(o),
        }
    }
}

impl<'a, T: ?Sized + Dairy + 'a> Cow<'a, T> {
    /// `r` is what [`Cow::into_owned`] gives for `self`: the adopted buffer
    /// itself, or a copy of the borrowed data.
    pub open spec fn yields(self, r: T::Owned) -> bool {
        match self {
            Cow::Borrowed(b) => T::copied(T::content(b), T::owned_content(&r)),
            Cow::Owned(o) => r == o,
        }
    }

    /// Wraps borrowed data, without copying it.
    pub fn borrowed(b: &'a T) -> (r: Self)
        ensures
            r == Cow::<'a, T>::Borrowed(b),
    {
        Cow::Borrowed(b)
    }

    /// Adopts an owned buffer.
    pub fn owned(o: T::Owned) -> (r: Self)
        ensures
            r == Cow::<'a, T>::Owned(o),
    {
        Cow::Owned(o)
    }

    /// Whether the data is borrowed.
    pub fn is_borrowed(&self) -> (r: bool)
        ensures
            r == self is Borrowed,
    {
        match self {
            Cow::Borrowed(_) => true,
            Cow::Owned(_) => false,
        }
    }

    /// Whether the data is owned.
    pub fn is_owned(&self) -> (r: bool)
        ensures
            r == self is Owned,
    {
        match self {
            Cow::Borrowed(_) => false,
            Cow::Owned(_) => true,
        }
    }

    /// A reference to the data, valid in both states.
    pub fn make_ref(&self) -> (r: &T)
        ensures
            T::content(r) == self@,
    {
        match self {
            Cow::Borrowed(b) => b,
            Cow::Owned(o) => T::make_ref(o),
        }
    }

    /// Converts into owned data: moves the buffer out when owned, copies
    /// the data once when borrowed.
    pub fn into_owned(self) -> (r: T::Owned)
        ensures
            self.yields(r),
    {
        match self {
            Cow::Borrowed(b) => T::make_owned(b),
            Cow::Owned(o) => o,
        }
    }

    /// Converts into a boxed buffer of exactly the right size, copying the
    /// data first when it is borrowed.
    pub fn into_boxed(self) -> (r: Box<T>)
        where
            T: ToBoxed,
        ensures
            exists|o: T::Owned| self.yields(o) && T::content(&*r) == T::owned_content(&o),
    {
        let o = self.into_owned();
        T::to_boxed(o)
    }

    /// Mutates the data in place through `f`, copying it into a buffer of
    /// its own first when it is borrowed.
    ///
    /// The buffer always has exactly one owner: while `f` runs it is either
    /// inside `self` (owned case) or in a local that `self` takes over only
    /// once `f` has returned (borrowed case). If `f` panics, that one owner
    /// frees it, and `self` is left valid.
    pub fn apply<F: FnOnce(&mut T::Owned)>(&mut self, f: F)
        requires
            forall|o: &mut T::Owned| old(self).yields(*o) ==> #[trigger] f.requires((o,)),
        ensures
            exists|o: &mut T::Owned|
                {
                    &&& old(self).yields(*o)
                    &&& #[trigger] f.ensures((o,), ())
                    &&& *final(self) == Cow::<'a, T>::Owned(*final(o))
                },
    {
        match self {
            Cow::Borrowed(b) => {
                let mut o = T::make_owned(b);
                f(&mut o);
                *self = Cow::Owned(o);
            },
            Cow::Owned(o) => {
                f(o);
            },
        }
    }
}

impl<'a, T: ?Sized + Dairy + 'a> core::ops::Deref for Cow<'a, T> {
    type Target = T;

    fn deref(&self) -> (r: &T)
        ensures
            T::content(r) == self@,
    {
        self.make_ref()
    }
}

impl<'a, T: ?Sized + Dairy + 'a> core::borrow::Borrow<T> for Cow<'a, T> {
    fn borrow(&self) -> (r: &T)
        ensures
            T::content(r) == self@,
    {
        self.make_ref()
    }
}

impl<'a, T: ?Sized + Dairy + 'a> AsRef<T> for Cow<'a, T> {
    fn as_ref(&self) -> (r: &T)
        ensures
            T::content(r) == self@,
    {
        self.make_ref()
    }
}

impl<'a, T: ?Sized + Dairy + 'a> Clone for Cow<'a, T> {
    /// Borrowed: copies the reference. Owned: copies the buffer.
    fn clone(&self) -> (r: Self)
        ensures
            (r is Borrowed) == (self is Borrowed),
            self is Borrowed ==> r == *self,
            self is Owned ==> T::copied(self@, r@),
    {
        match self {
            Cow::Borrowed(b) => Cow::Borrowed(b),
            Cow::Owned(o) => Cow::Owned(T::make_owned(T::make_ref(o))),
        }
    }
}

impl<'a, T: ?Sized + Dairy + 'a> Default for Cow<'a, T> {
    /// An owned, empty buffer.
    fn default() -> (r: Self)
        ensures
            r is Owned,
            r@ == Seq::<T::Elem>::empty(),
    {
        Cow::Owned(T::empty_owned())
    }
}

impl<'a, T: ?Sized + Dairy + 'a> From<Cow<'a, T>> for std::borrow::Cow<'a, T> {
    /// The same state and data, in the standard library's representation.
    fn from(c: Cow<'a, T>) -> (r: std::borrow::Cow<'a, T>) {
        match c {
            Cow::Borrowed(b) => std::borrow::Cow::Borrowed(b),
            Cow::Owned(o) => std::borrow::Cow::Owned(o),
        }
    }
}

impl<'a, T: ?Sized + Dairy + 'a> vstd::std_specs::convert::FromSpecImpl<Cow<'a, T>> for std::borrow::Cow<'a, T> {
    open spec fn obeys_from_spec() -> bool {
        true
    }

    open spec fn from_spec(c: Cow<'a, T>) -> std::borrow::Cow<'a, T> {
        match c {
            Cow::Borrowed(b) => std::borrow::Cow::Borrowed(b),
            Cow::Owned(o) => std::borrow::Cow::Owned(o),
        }
    }
}

impl<'a, T: ?Sized + Dairy + 'a> From<std::borrow::Cow<'a, T>> for Cow<'a, T> {
    /// The same state and data, from the standard library's representation.
    fn from(c: std::borrow::Cow<'a, T>) -> (r: Cow<'a, T>) {
        match c {
            std::borrow::Cow::Borrowed(b) => Cow::Borrowed(b),
            std::borrow::Cow::Owned(o) => Cow::Owned(o),
        }
    }
}

impl<'a, T: ?Sized + Dairy + 'a> vstd::std_specs::convert::FromSpecImpl<std::borrow::Cow<'a, T>> for Cow<'a, T> {
    open spec fn obeys_from_spec() -> bool {
        true
    }

    open spec fn from_spec(c: std::borrow::Cow<'a, T>) -> Cow<'a, T> {
        match c {
            std::borrow::Cow::Borrowed(b) => Cow::Borrowed(b),
            std::borrow::Cow::Owned(o) => Cow::Owned(o),
        }
    }
}

} // verus!
