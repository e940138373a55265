//! Operations particular to `Cow<[T]>`.
use vstd::prelude::*;

use crate::cow::Cow;
use crate::dairy::Dairy;
use vstd::std_specs::cmp::PartialEqSpec;

verus! {

/// `dst` is a copy of `src` followed by a copy of `items`.
pub open spec fn appended<T: Clone>(src: Seq<T>, items: Seq<T>, dst: Seq<T>) -> bool {
    &&& dst.len() == src.len() + items.len()
    &&& <[T] as Dairy>::copied(src, dst.subrange(0, src.len() as int))
    &&& <[T] as Dairy>::copied(items, dst.subrange(src.len() as int, dst.len() as int))
}

/// Appends a copy of `items` to `o`.
fn push_clones<T: Clone>(o: &mut Vec<T>, items: &[T])
    ensures
        final(o)@.len() == old(o)@.len() + items@.len(),
        final(o)@.subrange(0, old(o)@.len() as int) == old(o)@,
        <[T] as Dairy>::copied(items@, final(o)@.subrange(old(o)@.len() as int, final(o)@.len() as int)),
{
    let ghost start = o@;
    let mut i: usize = 0;
    while i < items.len()
        invariant
            i <= items@.len(),
            o@.len() == start.len() + i,
            o@.subrange(0, start.len() as int) == start,
            forall|j: int| 0 <= j < i ==> cloned(items@[j], #[trigger] o@[start.len() + j]),
        decreases items@.len() - i,
    {
        o.push(items[i].clone());
        i += 1;
        assert(o@.subrange(0, start.len() as int) =~= start);
    }
    let ghost tail = o@.subrange(start.len() as int, o@.len() as int);
    assert forall|j: int| 0 <= j < items@.len() implies cloned(items@[j], #[trigger] tail[j]) by {
        assert(tail[j] == o@[start.len() + j]);
    }
}

/// Appends a copy of `items` to `cow`.
///
/// Borrowed data is copied into a buffer of its own first, unless there is
/// nothing to append, in which case `cow` stays as it was.
pub fn extend_slice<'a, T: Clone>(cow: &mut Cow<'a, [T]>, items: &[T])
    ensures
        appended(old(cow)@, items@, final(cow)@),
        items@.len() == 0 ==> *final(cow) == *old(cow),
        items@.len() != 0 ==> *final(cow) is Owned,
{
    if items.len() == 0 {
        assert(old(cow)@.subrange(0, old(cow)@.len() as int) =~= old(cow)@);
        assert(old(cow)@.subrange(old(cow)@.len() as int, old(cow)@.len() as int) =~= items@);
        return;
    }
    cow.apply(|o: &mut Vec<T>|
        ensures
            final(o)@.len() == old(o)@.len() + items@.len(),
            final(o)@.subrange(0, old(o)@.len() as int) == old(o)@,
            <[T] as Dairy>::copied(
                items@,
                final(o)@.subrange(old(o)@.len() as int, final(o)@.len() as int),
            ),
        {
            push_clones(o, items);
        });
}

impl<'a, T: Clone> Cow<'a, [T]> {
    /// Owned data holding a copy of `items`.
    pub fn from_elems(items: &[T]) -> (r: Self)
        ensures
            r is Owned,
            <[T] as Dairy>::copied(items@, r@),
    {
        Cow::Owned(<[T] as Dairy>::make_owned(items))
    }
}

impl<'a, T: Clone> From<&'a [T]> for Cow<'a, [T]> {
    fn from(s: &'a [T]) -> (r: Self) {
        Cow::Borrowed(s)
    }
}

impl<'a, T: Clone> vstd::std_specs::convert::FromSpecImpl<&'a [T]> for Cow<'a, [T]> {
    open spec fn obeys_from_spec() -> bool {
        true
    }

    open spec fn from_spec(s: &'a [T]) -> Self {
        Cow::Borrowed(s)
    }
}

impl<'a, T: Clone> From<Vec<T>> for Cow<'a, [T]> {
    fn from(v: Vec<T>) -> (r: Self) {
        Cow::Owned(v)
    }
}

impl<'a, T: Clone> vstd::std_specs::convert::FromSpecImpl<Vec<T>> for Cow<'a, [T]> {
    open spec fn obeys_from_spec() -> bool {
        true
    }

    open spec fn from_spec(v: Vec<T>) -> Self {
        Cow::Owned(v)
    }
}

impl<'a, T: Clone> From<&'a Vec<T>> for Cow<'a, [T]> {
    /// Borrows the vector's elements.
    fn from(v: &'a Vec<T>) -> (r: Self)
        ensures
            r is Borrowed,
            r@ == v@,
    {
        Cow::Borrowed(v.as_slice())
    }
}

impl<'a, T: Clone> vstd::std_specs::convert::FromSpecImpl<&'a Vec<T>> for Cow<'a, [T]> {
    open spec fn obeys_from_spec() -> bool {
        false
    }

    open spec fn from_spec(v: &'a Vec<T>) -> Self {
        arbitrary()
    }
}

impl<'a, T: Clone> From<Box<[T]>> for Cow<'a, [T]> {
    /// Adopts the boxed elements as an owned buffer.
    fn from(b: Box<[T]>) -> (r: Self)
        ensures
            r is Owned,
            r@ == b@,
    {
        Cow::Owned(b.into_vec())
    }
}

impl<'a, T: Clone> vstd::std_specs::convert::FromSpecImpl<Box<[T]>> for Cow<'a, [T]> {
    open spec fn obeys_from_spec() -> bool {
        false
    }

    open spec fn from_spec(b: Box<[T]>) -> Self {
        arbitrary()
    }
}

impl<'a, T: Clone> From<Cow<'a, [T]>> for Vec<T> {
    /// See [`Cow::into_owned`].
    fn from(c: Cow<'a, [T]>) -> (r: Vec<T>)
        ensures
            c.yields(r),
    {
        c.into_owned()
    }
}

impl<'a, T: Clone> vstd::std_specs::convert::FromSpecImpl<Cow<'a, [T]>> for Vec<T> {
    open spec fn obeys_from_spec() -> bool {
        false
    }

    open spec fn from_spec(c: Cow<'a, [T]>) -> Vec<T> {
        arbitrary()
    }
}

impl<'a, T: Clone> From<Cow<'a, [T]>> for Box<[T]> {
    /// See [`Cow::into_boxed`].
    fn from(c: Cow<'a, [T]>) -> (r: Box<[T]>)
        ensures
            <[T] as Dairy>::copied(c@, r@),
    {
        c.into_boxed()
    }
}

impl<'a, T: Clone> vstd::std_specs::convert::FromSpecImpl<Cow<'a, [T]>> for Box<[T]> {
    open spec fn obeys_from_spec() -> bool {
        false
    }

    open spec fn from_spec(c: Cow<'a, [T]>) -> Box<[T]> {
        arbitrary()
    }
}

/// `a` and `b` have the same length, and their elements are pairwise equal
/// by `T`'s `==`.
pub open spec fn elems_eq<T: PartialEq>(a: Seq<T>, b: Seq<T>) -> bool {
    &&& a.len() == b.len()
    &&& forall|i: int| 0 <= i < a.len() ==> (#[trigger] a[i]).eq_spec(&b[i])
}

/// Compares two slices element by element with `T`'s `==`.
pub fn slice_eq<T: PartialEq>(a: &[T], b: &[T]) -> (r: bool)
    ensures
        T::obeys_eq_spec() ==> r == elems_eq(a@, b@),
{
    if a.len() != b.len() {
        return false;
    }
    let mut i: usize = 0;
    while i < a.len()
        invariant
            a@.len() == b@.len(),
            i <= a@.len(),
            T::obeys_eq_spec() ==> forall|j: int| 0 <= j < i ==> (#[trigger] a@[j]).eq_spec(&b@[j]),
        decreases a@.len() - i,
    {
        if !(a[i] == b[i]) {
            return false;
        }
        i += 1;
    }
    true
}

impl<'a, 'b, T: Clone + PartialEq> PartialEq<Cow<'b, [T]>> for Cow<'a, [T]> {
    fn eq(&self, other: &Cow<'b, [T]>) -> (r: bool) {
        slice_eq(self.make_ref(), other.make_ref())
    }
}

impl<'a, 'b, T: Clone + PartialEq> vstd::std_specs::cmp::PartialEqSpecImpl<Cow<'b, [T]>> for Cow<'a, [T]> {
    open spec fn obeys_eq_spec() -> bool {
        T::obeys_eq_spec()
    }

    open spec fn eq_spec(&self, other: &Cow<'b, [T]>) -> bool {
        elems_eq(self@, other@)
    }
}

impl<'a, T: Clone + PartialEq> PartialEq<[T]> for Cow<'a, [T]> {
    fn eq(&self, other: &[T]) -> (r: bool) {
        slice_eq(self.make_ref(), other)
    }
}

impl<'a, T: Clone + PartialEq> vstd::std_specs::cmp::PartialEqSpecImpl<[T]> for Cow<'a, [T]> {
    open spec fn obeys_eq_spec() -> bool {
        T::obeys_eq_spec()
    }

    open spec fn eq_spec(&self, other: &[T]) -> bool {
        elems_eq(self@, other@)
    }
}

impl<'a, T: Clone + PartialEq> PartialEq<Vec<T>> for Cow<'a, [T]> {
    fn eq(&self, other: &Vec<T>) -> (r: bool) {
        slice_eq(self.make_ref(), other.as_slice())
    }
}

impl<'a, T: Clone + PartialEq> vstd::std_specs::cmp::PartialEqSpecImpl<Vec<T>> for Cow<'a, [T]> {
    open spec fn obeys_eq_spec() -> bool {
        T::obeys_eq_spec()
    }

    open spec fn eq_spec(&self, other: &Vec<T>) -> bool {
        elems_eq(self@, other@)
    }
}

} // verus!
