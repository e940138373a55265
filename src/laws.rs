//! Laws that relate the operations of [`Cow`].
use vstd::prelude::*;

use crate::cow::Cow;
use crate::dairy::Dairy;

verus! {

/// Adopting a buffer with [`Cow::owned`] and taking it back with
/// [`Cow::into_owned`] gives that very buffer back: nothing is copied.
pub proof fn lemma_owned_round_trip<'a, T: ?Sized + Dairy>(
    o: T::Owned,
    c: Cow<'a, T>,
    r: T::Owned,
)
    requires
        c == Cow::<'a, T>::Owned(o),
        c.yields(r),
    ensures
        r == o,
{
}

/// Wrapping borrowed data with [`Cow::borrowed`] and converting it with
/// [`Cow::into_owned`] gives one copy of that data, as
/// [`Dairy::make_owned`] makes it.
pub proof fn lemma_borrowed_round_trip<'a, T: ?Sized + Dairy>(
    b: &'a T,
    c: Cow<'a, T>,
    r: T::Owned,
)
    requires
        c == Cow::<'a, T>::Borrowed(b),
        c.yields(r),
    ensures
        T::copied(T::content(b), T::owned_content(&r)),
{
}

/// For strings the copy is exact: the owned string holds the borrowed
/// characters.
pub proof fn lemma_borrowed_str_round_trip<'a>(b: &'a str, c: Cow<'a, str>, r: String)
    requires
        c == Cow::<'a, str>::Borrowed(b),
        c.yields(r),
    ensures
        r@ == b@,
{
}

/// [`Cow::is_borrowed`] and [`Cow::is_owned`] exclude each other, and one
/// of them always holds.
pub proof fn lemma_borrowed_xor_owned<'a, T: ?Sized + Dairy>(c: Cow<'a, T>)
    ensures
        (c is Borrowed) != (c is Owned),
{
}

} // verus!
