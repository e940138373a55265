//! The element kinds a [`Cow`](crate::Cow) can hold, and how each one
//! passes between its borrowed and its owned form.
use vstd::prelude::*;

use crate::sealed::Sealed;

verus! {

/// An element kind: a borrowed form `Self` and its owned buffer
/// `Self::Owned` (`String` for `str`, `Vec<T>` for `[T]`, `PathBuf` for
/// `Path`), both read as a sequence of `Self::Elem`.
///
/// The set of kinds is closed: only this crate implements it.
pub trait Dairy: ToOwned + Sealed {
    /// What the content is a sequence of.
    type Elem;

    /// The content of a borrowed value.
    spec fn content(b: &Self) -> Seq<Self::Elem>;

    /// The content of an owned buffer.
    spec fn owned_content(o: &Self::Owned) -> Seq<Self::Elem>;

    /// `dst` is what copying `src` one element at a time may give.
    spec fn copied(src: Seq<Self::Elem>, dst: Seq<Self::Elem>) -> bool;

    /// A copy of borrowed data, in a buffer of its own.
    fn make_owned(b: &Self) -> (o: Self::Owned)
        ensures
            Self::copied(Self::content(b), Self::owned_content(&o)),
    ;

    /// A borrowed view of an owned buffer.
    fn make_ref(o: &Self::Owned) -> (b: &Self)
        ensures
            Self::content(b) == Self::owned_content(o),
    ;

    /// A new, empty buffer.
    fn empty_owned() -> (o: Self::Owned)
        ensures
            Self::owned_content(&o) == Seq::<Self::Elem>::empty(),
    ;
}

/// Converts an owned buffer into a boxed one of exactly the right size.
pub trait ToBoxed: Dairy {
    fn to_boxed(o: Self::Owned) -> (r: Box<Self>)
        ensures
            Self::content(&*r) == Self::owned_content(&o),
    ;
}

impl Dairy for str {
    type Elem = char;

    open spec fn content(b: &str) -> Seq<char> {
        b@
    }

    open spec fn owned_content(o: &String) -> Seq<char> {
        o@
    }

    open spec fn copied(src: Seq<char>, dst: Seq<char>) -> bool {
        dst == src
    }

    fn make_owned(b: &str) -> (o: String) {
        b.to_owned()
    }

    fn make_ref(o: &String) -> (b: &str) {
        o.as_str()
    }

    fn empty_owned() -> (o: String) {
        String::new()
    }
}

/// Relies on `String::into_boxed_str`: the box holds the same characters.
#[verifier::external_body]
fn string_into_boxed(o: String) -> (r: Box<str>)
    ensures
        r@ == o@,
{
    o.into_boxed_str()
}

impl ToBoxed for str {
    fn to_boxed(o: String) -> (r: Box<str>) {
        string_into_boxed(o)
    }
}

impl<T: Clone> Dairy for [T] {
    type Elem = T;

    open spec fn content(b: &[T]) -> Seq<T> {
        b@
    }

    open spec fn owned_content(o: &Vec<T>) -> Seq<T> {
        o@
    }

    open spec fn copied(src: Seq<T>, dst: Seq<T>) -> bool {
        &&& dst.len() == src.len()
        &&& forall|i: int| 0 <= i < src.len() ==> cloned(src[i], #[trigger] dst[i])
    }

    fn make_owned(b: &[T]) -> (o: Vec<T>) {
        let mut o: Vec<T> = Vec::with_capacity(b.len());
        let mut i: usize = 0;
        while i < b.len()
            invariant
                i <= b@.len(),
                o@.len() == i,
                forall|j: int| 0 <= j < i ==> cloned(b@[j], #[trigger] o@[j]),
            decreases b@.len() - i,
        {
            o.push(b[i].clone());
            i += 1;
        }
        o
    }

    fn make_ref(o: &Vec<T>) -> (b: &[T]) {
        o.as_slice()
    }

    fn empty_owned() -> (o: Vec<T>) {
        Vec::new()
    }
}

/// Relies on `Vec::into_boxed_slice`: the box holds the same elements.
#[verifier::external_body]
fn vec_into_boxed<T>(o: Vec<T>) -> (r: Box<[T]>)
    ensures
        r@ == o@,
{
    o.into_boxed_slice()
}

impl<T: Clone> ToBoxed for [T] {
    fn to_boxed(o: Vec<T>) -> (r: Box<[T]>) {
        vec_into_boxed(o)
    }
}

} // verus!
