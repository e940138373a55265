//! Operations particular to `Cow<str>`.
use vstd::prelude::*;

use crate::cow::Cow;

verus! {

/// The characters of `items`, one after the other.
pub open spec fn concat_strs(items: Seq<&str>) -> Seq<char>
    decreases items.len(),
{
    if items.len() == 0 {
        Seq::empty()
    } else {
        concat_strs(items.drop_last()) + items.last()@
    }
}

proof fn lemma_concat_strs_step(items: Seq<&str>, i: int)
    requires
        0 <= i < items.len(),
    ensures
        concat_strs(items.subrange(0, i + 1)) == concat_strs(items.subrange(0, i)) + items[i]@,
{
    assert(items.subrange(0, i + 1).drop_last() =~= items.subrange(0, i));
}

/// Appends `item` to `cow`, copying borrowed data first.
fn append<'a>(cow: &mut Cow<'a, str>, item: &str)
    ensures
        final(cow)@ == old(cow)@ + item@,
        *final(cow) is Owned,
{
    cow.apply(|o: &mut String|
        ensures
            final(o)@ == old(o)@ + item@,
        {
            o.append(item);
        });
}

/// Appends `items` to `cow`, one after the other.
///
/// Borrowed data is copied into a buffer of its own before the first
/// character is appended; when there is nothing to append, `cow` stays as
/// it was.
pub fn extend_str<'a>(cow: &mut Cow<'a, str>, items: &[&str])
    ensures
        final(cow)@ == old(cow)@ + concat_strs(items@),
        concat_strs(items@).len() == 0 ==> *final(cow) == *old(cow),
        concat_strs(items@).len() != 0 ==> *final(cow) is Owned,
{
    let mut i: usize = 0;
    while i < items.len()
        invariant
            i <= items@.len(),
            cow@ == old(cow)@ + concat_strs(items@.subrange(0, i as int)),
            concat_strs(items@.subrange(0, i as int)).len() == 0 ==> *cow == *old(cow),
            concat_strs(items@.subrange(0, i as int)).len() != 0 ==> *cow is Owned,
        decreases items@.len() - i,
    {
        let item: &str = items[i];
        proof {
            lemma_concat_strs_step(items@, i as int);
        }
        if !item.is_empty() {
            append(cow, item);
        } else {
            assert(item@ =~= Seq::<char>::empty());
        }
        i += 1;
    }
    assert(items@.subrange(0, i as int) =~= items@);
}

/// Relies on `String::push`: appends one character.
#[verifier::external_body]
fn push_char(s: &mut String, c: char)
    ensures
        final(s)@ == old(s)@.push(c),
{
    s.push(c)
}

/// Appends `chars` to `cow`.
///
/// Borrowed data is copied into a buffer of its own first, unless there is
/// nothing to append, in which case `cow` stays as it was.
pub fn extend_chars<'a>(cow: &mut Cow<'a, str>, chars: &[char])
    ensures
        final(cow)@ == old(cow)@ + chars@,
        chars@.len() == 0 ==> *final(cow) == *old(cow),
        chars@.len() != 0 ==> *final(cow) is Owned,
{
    if chars.len() == 0 {
        assert(old(cow)@ + chars@ =~= old(cow)@);
        return;
    }
    cow.apply(|o: &mut String|
        ensures
            final(o)@ == old(o)@ + chars@,
        {
            let mut i: usize = 0;
            while i < chars.len()
                invariant
                    i <= chars@.len(),
                    o@ == old(o)@ + chars@.subrange(0, i as int),
                decreases chars@.len() - i,
            {
                push_char(o, chars[i]);
                i += 1;
                assert(o@ =~= old(o)@ + chars@.subrange(0, i as int));
            }
            assert(chars@.subrange(0, i as int) =~= chars@);
        });
}

impl<'a> Cow<'a, str> {
    /// Appends `rhs`.
    ///
    /// Appending nothing leaves `self` as it was, borrowed or owned. Empty
    /// data takes `rhs` by reference, without copying. Otherwise the data is
    /// copied into a buffer of its own if needed, and `rhs` appended to it.
    pub fn push_str(&mut self, rhs: &'a str)
        ensures
            final(self)@ == old(self)@ + rhs@,
            rhs@.len() == 0 ==> *final(self) == *old(self),
            rhs@.len() != 0 && old(self)@.len() == 0 ==> *final(self) == Cow::<'a, str>::Borrowed(rhs),
            rhs@.len() != 0 && old(self)@.len() != 0 ==> *final(self) is Owned,
    {
        if rhs.is_empty() {
            assert(old(self)@ + rhs@ =~= old(self)@);
        } else if self.make_ref().is_empty() {
            assert(old(self)@ + rhs@ =~= rhs@);
            *self = Cow::Borrowed(rhs);
        } else {
            append(self, rhs);
        }
    }

    /// Owned data holding the characters of `items`, one after the other.
    pub fn from_strs(items: &[&str]) -> (r: Self)
        ensures
            r is Owned,
            r@ == concat_strs(items@),
    {
        let mut r: Cow<'a, str> = Cow::Owned(String::new());
        extend_str(&mut r, items);
        r
    }

    /// Owned data holding `chars`.
    pub fn from_chars(chars: &[char]) -> (r: Self)
        ensures
            r is Owned,
            r@ == chars@,
    {
        let mut r: Cow<'a, str> = Cow::Owned(String::new());
        extend_chars(&mut r, chars);
        r
    }
}

impl<'a> core::ops::AddAssign<&'a str> for Cow<'a, str> {
    /// See [`Cow::push_str`].
    fn add_assign(&mut self, rhs: &'a str)
        ensures
            final(self)@ == old(self)@ + rhs@,
            rhs@.len() == 0 ==> *final(self) == *old(self),
            rhs@.len() != 0 && old(self)@.len() == 0 ==> *final(self) == Cow::<'a, str>::Borrowed(rhs),
            rhs@.len() != 0 && old(self)@.len() != 0 ==> *final(self) is Owned,
    {
        self.push_str(rhs)
    }
}

impl<'a> core::ops::AddAssign<Cow<'a, str>> for Cow<'a, str> {
    /// Appends `rhs`: as [`Cow::push_str`], but empty data takes `rhs`
    /// over as it is, borrowed or owned.
    fn add_assign(&mut self, rhs: Cow<'a, str>)
        ensures
            final(self)@ == old(self)@ + rhs@,
            rhs@.len() == 0 ==> *final(self) == *old(self),
            rhs@.len() != 0 && old(self)@.len() == 0 ==> *final(self) == rhs,
            rhs@.len() != 0 && old(self)@.len() != 0 ==> *final(self) is Owned,
    {
        if rhs.make_ref().is_empty() {
            assert(old(self)@ + rhs@ =~= old(self)@);
        } else if self.make_ref().is_empty() {
            assert(old(self)@ + rhs@ =~= rhs@);
            *self = rhs;
        } else {
            append(self, rhs.make_ref());
        }
    }
}

impl<'a> core::ops::Add<&'a str> for Cow<'a, str> {
    type Output = Cow<'a, str>;

    /// See [`Cow::push_str`].
    fn add(self, rhs: &'a str) -> (r: Cow<'a, str>)
        ensures
            r@ == self@ + rhs@,
            rhs@.len() == 0 ==> r == self,
            rhs@.len() != 0 && self@.len() == 0 ==> r == Cow::<'a, str>::Borrowed(rhs),
            rhs@.len() != 0 && self@.len() != 0 ==> r is Owned,
    {
        let mut r = self;
        r.push_str(rhs);
        r
    }
}

impl<'a> vstd::std_specs::ops::AddSpecImpl<&'a str> for Cow<'a, str> {
    open spec fn obeys_add_spec() -> bool {
        false
    }

    open spec fn add_req(self, rhs: &'a str) -> bool {
        true
    }

    open spec fn add_spec(self, rhs: &'a str) -> Cow<'a, str> {
        arbitrary()
    }
}

impl<'a> core::ops::Add<Cow<'a, str>> for Cow<'a, str> {
    type Output = Cow<'a, str>;

    /// See the `+=` that takes a `Cow`.
    fn add(self, rhs: Cow<'a, str>) -> (r: Cow<'a, str>)
        ensures
            r@ == self@ + rhs@,
            rhs@.len() == 0 ==> r == self,
            rhs@.len() != 0 && self@.len() == 0 ==> r == rhs,
            rhs@.len() != 0 && self@.len() != 0 ==> r is Owned,
    {
        let mut r = self;
        core::ops::AddAssign::add_assign(&mut r, rhs);
        r
    }
}

impl<'a> vstd::std_specs::ops::AddSpecImpl<Cow<'a, str>> for Cow<'a, str> {
    open spec fn obeys_add_spec() -> bool {
        false
    }

    open spec fn add_req(self, rhs: Cow<'a, str>) -> bool {
        true
    }

    open spec fn add_spec(self, rhs: Cow<'a, str>) -> Cow<'a, str> {
        arbitrary()
    }
}

impl<'a> AsRef<[u8]> for Cow<'a, str> {
    /// The UTF-8 bytes of the characters.
    fn as_ref(&self) -> (r: &[u8])
        ensures
            <[u8] as View>::view(r) == vstd::utf8::encode_utf8(self@),
    {
        self.make_ref().as_bytes()
    }
}

/// Relies on `Box<str>::into_string`: the string holds the same characters.
#[verifier::external_body]
pub(crate) fn boxed_into_string(b: Box<str>) -> (r: String)
    ensures
        r@ == b@,
{
    b.into_string()
}

impl<'a> From<&'a str> for Cow<'a, str> {
    fn from(s: &'a str) -> (r: Self) {
        Cow::Borrowed(s)
    }
}

impl<'a> vstd::std_specs::convert::FromSpecImpl<&'a str> for Cow<'a, str> {
    open spec fn obeys_from_spec() -> bool {
        true
    }

    open spec fn from_spec(s: &'a str) -> Self {
        Cow::Borrowed(s)
    }
}

impl<'a> From<String> for Cow<'a, str> {
    fn from(s: String) -> (r: Self) {
        Cow::Owned(s)
    }
}

impl<'a> vstd::std_specs::convert::FromSpecImpl<String> for Cow<'a, str> {
    open spec fn obeys_from_spec() -> bool {
        true
    }

    open spec fn from_spec(s: String) -> Self {
        Cow::Owned(s)
    }
}

impl<'a> From<&'a String> for Cow<'a, str> {
    /// Borrows the string's characters.
    fn from(s: &'a String) -> (r: Self)
        ensures
            r is Borrowed,
            r@ == s@,
    {
        Cow::Borrowed(s.as_str())
    }
}

impl<'a> vstd::std_specs::convert::FromSpecImpl<&'a String> for Cow<'a, str> {
    open spec fn obeys_from_spec() -> bool {
        false
    }

    open spec fn from_spec(s: &'a String) -> Self {
        arbitrary()
    }
}

impl<'a> From<Box<str>> for Cow<'a, str> {
    /// Adopts the boxed characters as an owned buffer.
    fn from(s: Box<str>) -> (r: Self)
        ensures
            r is Owned,
            r@ == s@,
    {
        Cow::Owned(boxed_into_string(s))
    }
}

impl<'a> vstd::std_specs::convert::FromSpecImpl<Box<str>> for Cow<'a, str> {
    open spec fn obeys_from_spec() -> bool {
        false
    }

    open spec fn from_spec(s: Box<str>) -> Self {
        arbitrary()
    }
}

impl<'a> From<char> for Cow<'a, str> {
    /// Owned data holding the one character.
    fn from(c: char) -> (r: Self)
        ensures
            r is Owned,
            r@ == seq![c],
    {
        let mut s = String::new();
        push_char(&mut s, c);
        assert(s@ =~= seq![c]);
        Cow::Owned(s)
    }
}

impl<'a> vstd::std_specs::convert::FromSpecImpl<char> for Cow<'a, str> {
    open spec fn obeys_from_spec() -> bool {
        false
    }

    open spec fn from_spec(c: char) -> Self {
        arbitrary()
    }
}

impl<'a> From<Cow<'a, str>> for String {
    /// See [`Cow::into_owned`].
    fn from(c: Cow<'a, str>) -> (r: String)
        ensures
            r@ == c@,
    {
        c.into_owned()
    }
}

impl<'a> vstd::std_specs::convert::FromSpecImpl<Cow<'a, str>> for String {
    open spec fn obeys_from_spec() -> bool {
        false
    }

    open spec fn from_spec(c: Cow<'a, str>) -> String {
        arbitrary()
    }
}

impl<'a> From<Cow<'a, str>> for Box<str> {
    /// See [`Cow::into_boxed`].
    fn from(c: Cow<'a, str>) -> (r: Box<str>)
        ensures
            r@ == c@,
    {
        c.into_boxed()
    }
}

impl<'a> vstd::std_specs::convert::FromSpecImpl<Cow<'a, str>> for Box<str> {
    open spec fn obeys_from_spec() -> bool {
        false
    }

    open spec fn from_spec(c: Cow<'a, str>) -> Box<str> {
        arbitrary()
    }
}

impl<'a> core::str::FromStr for Cow<'a, str> {
    type Err = core::convert::Infallible;

    /// Owned data holding a copy of `s`; never fails.
    fn from_str(s: &str) -> (r: Result<Self, Self::Err>)
        ensures
            r matches Ok(c) && c is Owned && c@ == s@,
    {
        Ok(Cow::Owned(s.to_owned()))
    }
}

/// Whether `a` and `b` hold the same characters, compared byte by byte.
pub fn str_eq(a: &str, b: &str) -> (r: bool)
    ensures
        r == (a@ == b@),
{
    let x: &[u8] = a.as_bytes();
    let y: &[u8] = b.as_bytes();
    proof {
        vstd::utf8::encode_utf8_decode_utf8(a@);
        vstd::utf8::encode_utf8_decode_utf8(b@);
    }
    if x.len() != y.len() {
        return false;
    }
    let mut i: usize = 0;
    while i < x.len()
        invariant
            x@ == vstd::utf8::encode_utf8(a@),
            y@ == vstd::utf8::encode_utf8(b@),
            x@.len() == y@.len(),
            i <= x@.len(),
            forall|j: int| 0 <= j < i ==> x@[j] == y@[j],
        decreases x@.len() - i,
    {
        if x[i] != y[i] {
            return false;
        }
        i += 1;
    }
    assert(x@ =~= y@);
    true
}

impl<'a, 'b> PartialEq<Cow<'b, str>> for Cow<'a, str> {
    fn eq(&self, other: &Cow<'b, str>) -> (r: bool) {
        str_eq(self.make_ref(), other.make_ref())
    }
}

impl<'a, 'b> vstd::std_specs::cmp::PartialEqSpecImpl<Cow<'b, str>> for Cow<'a, str> {
    open spec fn obeys_eq_spec() -> bool {
        true
    }

    open spec fn eq_spec(&self, other: &Cow<'b, str>) -> bool {
        self@ == other@
    }
}

impl<'a> Eq for Cow<'a, str> {
}

impl<'a> PartialEq<str> for Cow<'a, str> {
    fn eq(&self, other: &str) -> (r: bool) {
        str_eq(self.make_ref(), other)
    }
}

impl<'a> vstd::std_specs::cmp::PartialEqSpecImpl<str> for Cow<'a, str> {
    open spec fn obeys_eq_spec() -> bool {
        true
    }

    open spec fn eq_spec(&self, other: &str) -> bool {
        self@ == other@
    }
}

impl<'a, 'b> PartialEq<&'b str> for Cow<'a, str> {
    fn eq(&self, other: &&'b str) -> (r: bool) {
        str_eq(self.make_ref(), *other)
    }
}

impl<'a, 'b> vstd::std_specs::cmp::PartialEqSpecImpl<&'b str> for Cow<'a, str> {
    open spec fn obeys_eq_spec() -> bool {
        true
    }

    open spec fn eq_spec(&self, other: &&'b str) -> bool {
        self@ == other@
    }
}

impl<'a> PartialEq<String> for Cow<'a, str> {
    fn eq(&self, other: &String) -> (r: bool) {
        str_eq(self.make_ref(), other.as_str())
    }
}

impl<'a> vstd::std_specs::cmp::PartialEqSpecImpl<String> for Cow<'a, str> {
    open spec fn obeys_eq_spec() -> bool {
        true
    }

    open spec fn eq_spec(&self, other: &String) -> bool {
        self@ == other@
    }
}

} // verus!
