//! The filesystem-path kind: `Cow<Path>`, read as the path's encoded bytes.
use vstd::prelude::*;

use std::path::{Path, PathBuf};

use crate::cow::Cow;
use crate::dairy::{Dairy, ToBoxed};
use crate::string::boxed_into_string;

verus! {

#[verifier::external_type_specification]
#[verifier::external_body]
pub struct ExPath(Path);

#[verifier::external_type_specification]
#[verifier::external_body]
pub struct ExPathBuf(PathBuf);

/// The bytes of a path, as `Path::as_os_str().as_encoded_bytes()` gives them.
pub uninterp spec fn path_bytes(p: &Path) -> Seq<u8>;

/// The bytes of an owned path, as `PathBuf::as_os_str().as_encoded_bytes()`
/// gives them.
pub uninterp spec fn path_buf_bytes(p: &PathBuf) -> Seq<u8>;

/// The bytes of `base` after `PathBuf::push` has joined the path `p` to it.
pub uninterp spec fn path_joined(base: Seq<u8>, p: Seq<u8>) -> Seq<u8>;

/// Relies on `Path::to_path_buf`: an owned copy of the same bytes.
#[verifier::external_body]
fn path_to_buf(p: &Path) -> (r: PathBuf)
    ensures
        path_buf_bytes(&r) == path_bytes(p),
{
    p.to_path_buf()
}

/// Relies on `PathBuf::as_path`: a view of the same bytes.
#[verifier::external_body]
fn path_buf_as_path(o: &PathBuf) -> (r: &Path)
    ensures
        path_bytes(r) == path_buf_bytes(o),
{
    o.as_path()
}

/// Relies on `PathBuf::new`: an empty path.
#[verifier::external_body]
fn path_buf_new() -> (r: PathBuf)
    ensures
        path_buf_bytes(&r) == Seq::<u8>::empty(),
{
    PathBuf::new()
}

/// Relies on `PathBuf::into_boxed_path`: the box holds the same bytes.
#[verifier::external_body]
fn path_buf_into_boxed(o: PathBuf) -> (r: Box<Path>)
    ensures
        path_bytes(&*r) == path_buf_bytes(&o),
{
    o.into_boxed_path()
}

/// Relies on `Box<Path>::into_path_buf`: the buffer holds the same bytes.
#[verifier::external_body]
fn boxed_path_into_buf(b: Box<Path>) -> (r: PathBuf)
    ensures
        path_buf_bytes(&r) == path_bytes(&*b),
{
    b.into_path_buf()
}

/// Relies on `PathBuf::push`: joins `p` to the path.
#[verifier::external_body]
fn path_buf_push(o: &mut PathBuf, p: &Path)
    ensures
        path_buf_bytes(final(o)) == path_joined(path_buf_bytes(old(o)), path_bytes(p)),
{
    o.push(p)
}

/// Relies on `Path::new`: a path over the string's UTF-8 bytes.
#[verifier::external_body]
fn path_of_str(s: &str) -> (r: &Path)
    ensures
        path_bytes(r) == vstd::utf8::encode_utf8(s@),
{
    Path::new(s)
}

/// Relies on `PathBuf::from(String)`: the path takes over the string's
/// UTF-8 bytes.
#[verifier::external_body]
fn path_buf_of_string(s: String) -> (r: PathBuf)
    ensures
        path_buf_bytes(&r) == vstd::utf8::encode_utf8(s@),
{
    PathBuf::from(s)
}

impl Dairy for Path {
    type Elem = u8;

    open spec fn content(b: &Path) -> Seq<u8> {
        path_bytes(b)
    }

    open spec fn owned_content(o: &PathBuf) -> Seq<u8> {
        path_buf_bytes(o)
    }

    open spec fn copied(src: Seq<u8>, dst: Seq<u8>) -> bool {
        dst == src
    }

    fn make_owned(b: &Path) -> (o: PathBuf) {
        path_to_buf(b)
    }

    fn make_ref(o: &PathBuf) -> (b: &Path) {
        path_buf_as_path(o)
    }

    fn empty_owned() -> (o: PathBuf) {
        path_buf_new()
    }
}

impl ToBoxed for Path {
    fn to_boxed(o: PathBuf) -> (r: Box<Path>) {
        path_buf_into_boxed(o)
    }
}

/// The bytes of `base` after joining each of `items` to it in turn.
pub open spec fn join_all(base: Seq<u8>, items: Seq<&Path>) -> Seq<u8>
    decreases items.len(),
{
    if items.len() == 0 {
        base
    } else {
        path_joined(join_all(base, items.drop_last()), path_bytes(items.last()))
    }
}

/// Joins `items` to `base`, one after the other.
fn push_all(o: &mut PathBuf, items: &[&Path])
    ensures
        path_buf_bytes(final(o)) == join_all(path_buf_bytes(old(o)), items@),
{
    let mut i: usize = 0;
    while i < items.len()
        invariant
            i <= items@.len(),
            path_buf_bytes(o) == join_all(path_buf_bytes(old(o)), items@.subrange(0, i as int)),
        decreases items@.len() - i,
    {
        path_buf_push(o, items[i]);
        proof {
            assert(items@.subrange(0, i + 1).drop_last() =~= items@.subrange(0, i as int));
        }
        i += 1;
    }
    assert(items@.subrange(0, i as int) =~= items@);
}

/// Joins `items` to the path in `cow`, one after the other.
///
/// Borrowed data is copied into a buffer of its own first, unless there is
/// nothing to join, in which case `cow` stays as it was.
pub fn extend_path<'a>(cow: &mut Cow<'a, Path>, items: &[&Path])
    ensures
        final(cow)@ == join_all(old(cow)@, items@),
        items@.len() == 0 ==> *final(cow) == *old(cow),
        items@.len() != 0 ==> *final(cow) is Owned,
{
    if items.len() == 0 {
        return;
    }
    cow.apply(|o: &mut PathBuf|
        ensures
            path_buf_bytes(final(o)) == join_all(path_buf_bytes(old(o)), items@),
        {
            push_all(o, items);
        });
}

impl<'a> Cow<'a, Path> {
    /// An owned path made by joining `items`, one after the other, to an
    /// empty path.
    pub fn from_paths(items: &[&Path]) -> (r: Self)
        ensures
            r is Owned,
            r@ == join_all(Seq::empty(), items@),
    {
        let mut o = path_buf_new();
        push_all(&mut o, items);
        Cow::Owned(o)
    }
}

impl<'a> From<&'a Path> for Cow<'a, Path> {
    fn from(p: &'a Path) -> (r: Self) {
        Cow::Borrowed(p)
    }
}

impl<'a> vstd::std_specs::convert::FromSpecImpl<&'a Path> for Cow<'a, Path> {
    open spec fn obeys_from_spec() -> bool {
        true
    }

    open spec fn from_spec(p: &'a Path) -> Self {
        Cow::Borrowed(p)
    }
}

impl<'a> From<PathBuf> for Cow<'a, Path> {
    fn from(p: PathBuf) -> (r: Self) {
        Cow::Owned(p)
    }
}

impl<'a> vstd::std_specs::convert::FromSpecImpl<PathBuf> for Cow<'a, Path> {
    open spec fn obeys_from_spec() -> bool {
        true
    }

    open spec fn from_spec(p: PathBuf) -> Self {
        Cow::Owned(p)
    }
}

impl<'a> From<&'a PathBuf> for Cow<'a, Path> {
    /// Borrows the path's bytes.
    fn from(p: &'a PathBuf) -> (r: Self)
        ensures
            r is Borrowed,
            r@ == path_buf_bytes(p),
    {
        Cow::Borrowed(path_buf_as_path(p))
    }
}

impl<'a> vstd::std_specs::convert::FromSpecImpl<&'a PathBuf> for Cow<'a, Path> {
    open spec fn obeys_from_spec() -> bool {
        false
    }

    open spec fn from_spec(p: &'a PathBuf) -> Self {
        arbitrary()
    }
}

impl<'a> From<Box<Path>> for Cow<'a, Path> {
    /// Adopts the boxed path as an owned buffer.
    fn from(b: Box<Path>) -> (r: Self)
        ensures
            r is Owned,
            r@ == path_bytes(&*b),
    {
        Cow::Owned(boxed_path_into_buf(b))
    }
}

impl<'a> vstd::std_specs::convert::FromSpecImpl<Box<Path>> for Cow<'a, Path> {
    open spec fn obeys_from_spec() -> bool {
        false
    }

    open spec fn from_spec(b: Box<Path>) -> Self {
        arbitrary()
    }
}

impl<'a> From<&'a str> for Cow<'a, Path> {
    /// Borrows the string as a path.
    fn from(s: &'a str) -> (r: Self)
        ensures
            r is Borrowed,
            r@ == vstd::utf8::encode_utf8(s@),
    {
        Cow::Borrowed(path_of_str(s))
    }
}

impl<'a> vstd::std_specs::convert::FromSpecImpl<&'a str> for Cow<'a, Path> {
    open spec fn obeys_from_spec() -> bool {
        false
    }

    open spec fn from_spec(s: &'a str) -> Self {
        arbitrary()
    }
}

impl<'a> From<String> for Cow<'a, Path> {
    /// Adopts the string's buffer as an owned path.
    fn from(s: String) -> (r: Self)
        ensures
            r is Owned,
            r@ == vstd::utf8::encode_utf8(s@),
    {
        Cow::Owned(path_buf_of_string(s))
    }
}

impl<'a> vstd::std_specs::convert::FromSpecImpl<String> for Cow<'a, Path> {
    open spec fn obeys_from_spec() -> bool {
        false
    }

    open spec fn from_spec(s: String) -> Self {
        arbitrary()
    }
}

impl<'a> From<&'a String> for Cow<'a, Path> {
    /// Borrows the string as a path.
    fn from(s: &'a String) -> (r: Self)
        ensures
            r is Borrowed,
            r@ == vstd::utf8::encode_utf8(s@),
    {
        Cow::Borrowed(path_of_str(s.as_str()))
    }
}

impl<'a> vstd::std_specs::convert::FromSpecImpl<&'a String> for Cow<'a, Path> {
    open spec fn obeys_from_spec() -> bool {
        false
    }

    open spec fn from_spec(s: &'a String) -> Self {
        arbitrary()
    }
}

impl<'a> From<Cow<'a, Path>> for PathBuf {
    /// See [`Cow::into_owned`].
    fn from(c: Cow<'a, Path>) -> (r: PathBuf)
        ensures
            path_buf_bytes(&r) == c@,
    {
        c.into_owned()
    }
}

impl<'a> vstd::std_specs::convert::FromSpecImpl<Cow<'a, Path>> for PathBuf {
    open spec fn obeys_from_spec() -> bool {
        false
    }

    open spec fn from_spec(c: Cow<'a, Path>) -> PathBuf {
        arbitrary()
    }
}

impl<'a> From<Cow<'a, Path>> for Box<Path> {
    /// See [`Cow::into_boxed`].
    fn from(c: Cow<'a, Path>) -> (r: Box<Path>)
        ensures
            path_bytes(&*r) == c@,
    {
        c.into_boxed()
    }
}

impl<'a> vstd::std_specs::convert::FromSpecImpl<Cow<'a, Path>> for Box<Path> {
    open spec fn obeys_from_spec() -> bool {
        false
    }

    open spec fn from_spec(c: Cow<'a, Path>) -> Box<Path> {
        arbitrary()
    }
}

impl<'a> From<Box<str>> for Cow<'a, Path> {
    /// Adopts the boxed string as an owned path.
    fn from(s: Box<str>) -> (r: Self)
        ensures
            r is Owned,
            r@ == vstd::utf8::encode_utf8(s@),
    {
        Cow::Owned(path_buf_of_string(boxed_into_string(s)))
    }
}

impl<'a> vstd::std_specs::convert::FromSpecImpl<Box<str>> for Cow<'a, Path> {
    open spec fn obeys_from_spec() -> bool {
        false
    }

    open spec fn from_spec(s: Box<str>) -> Self {
        arbitrary()
    }
}

impl<'a> core::str::FromStr for Cow<'a, Path> {
    type Err = core::convert::Infallible;

    /// An owned path over a copy of `s`; never fails.
    fn from_str(s: &str) -> (r: Result<Self, Self::Err>)
        ensures
            r matches Ok(c) && c is Owned && c@ == vstd::utf8::encode_utf8(s@),
    {
        Ok(Cow::Owned(path_buf_of_string(s.to_owned())))
    }
}

impl<'a> AsRef<Path> for Cow<'a, str> {
    /// The characters, read as a path.
    fn as_ref(&self) -> (r: &Path)
        ensures
            path_bytes(r) == vstd::utf8::encode_utf8(self@),
    {
        path_of_str(self.make_ref())
    }
}

} // verus!
