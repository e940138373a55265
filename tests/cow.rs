use dairy::slice::extend_slice;
use dairy::string::{extend_chars, extend_str};
use dairy::Cow;

#[test]
fn owned_round_trip_moves_the_buffer() {
    let v = String::from("abc");
    let p = v.as_ptr();
    let r = Cow::<str>::owned(v).into_owned();
    assert_eq!(r, "abc");
    assert_eq!(r.as_ptr(), p);
}

#[test]
fn borrowed_round_trip_copies_once() {
    let v = vec![1u32, 2, 3];
    let r = Cow::<[u32]>::borrowed(&v).into_owned();
    assert_eq!(r, v.clone());
    assert_ne!(r.as_ptr(), v.as_ptr());
}

#[test]
fn states_are_exclusive() {
    let b = Cow::<str>::borrowed("x");
    let o = Cow::<str>::owned(String::from("x"));
    assert!(b.is_borrowed() != b.is_owned());
    assert!(o.is_borrowed() != o.is_owned());
}

#[test]
fn borrowed_clone_shares_the_data() {
    let s = "shared";
    let c1 = Cow::<str>::borrowed(s);
    let c2 = c1.clone();
    assert!(c2.is_borrowed());
    assert_eq!(c2.as_ptr(), s.as_ptr());
}

#[test]
fn owned_clone_copies_the_data() {
    let c1 = Cow::<[u8]>::owned(vec![4, 5, 6]);
    let c2 = c1.clone();
    assert!(c2.is_owned());
    assert_eq!(&*c1, &*c2);
    assert_ne!(c1.as_ptr(), c2.as_ptr());
}

#[test]
fn append_promotes_borrowed_to_owned() {
    let mut c = Cow::<str>::borrowed("Hello ");
    c += "World!";
    assert!(c.is_owned());
    assert_eq!(&*c, "Hello World!");
}

#[test]
fn append_nothing_keeps_the_state() {
    let mut b = Cow::<str>::borrowed("Hello");
    b += "";
    assert!(b.is_borrowed());
    assert_eq!(&*b, "Hello");

    let mut o = Cow::<str>::owned(String::from("Hello"));
    o.push_str("");
    assert!(o.is_owned());
    assert_eq!(&*o, "Hello");

    let mut e = Cow::<str>::owned(String::new());
    e.push_str("");
    assert!(e.is_owned());

    let mut x = Cow::<str>::borrowed("abc");
    extend_str(&mut x, &["", ""]);
    assert!(x.is_borrowed());
    extend_chars(&mut x, &[]);
    assert!(x.is_borrowed());

    let mut y = Cow::<[u8]>::borrowed(&[1, 2]);
    extend_slice(&mut y, &[]);
    assert!(y.is_borrowed());
}

#[test]
fn append_to_empty_borrows() {
    let mut c = Cow::<str>::default();
    c.push_str("tail");
    assert!(c.is_borrowed());
    assert_eq!(&*c, "tail");
}

#[test]
fn owned_empty_buffer_is_owned() {
    let c = Cow::<str>::owned(String::new());
    assert!(c.is_owned());
    assert!(!c.is_borrowed());
    let c = Cow::<[u8]>::owned(Vec::with_capacity(0));
    assert!(c.is_owned());
    let c = Cow::<str>::default();
    assert!(c.is_owned());
    assert_eq!(&*c, "");
}

#[test]
fn apply_on_borrowed_copies_then_mutates() {
    let src = [1u8, 2, 3];
    let mut c = Cow::<[u8]>::borrowed(&src);
    c.apply(|v| v.push(4));
    assert!(c.is_owned());
    assert_eq!(&*c, &[1, 2, 3, 4]);
    assert_eq!(src, [1, 2, 3]);
}

#[test]
fn apply_on_owned_mutates_in_place() {
    let mut v = Vec::with_capacity(8);
    v.push(1u8);
    let p = v.as_ptr();
    let mut c = Cow::<[u8]>::owned(v);
    c.apply(|v| v.push(2));
    assert!(c.is_owned());
    assert_eq!(&*c, &[1, 2]);
    assert_eq!(c.as_ptr(), p);
}

#[test]
fn into_boxed_keeps_the_content() {
    let b: Box<str> = Cow::<str>::borrowed("boxed").into_boxed();
    assert_eq!(&*b, "boxed");
    let mut s = String::with_capacity(64);
    s.push_str("boxed");
    let b: Box<str> = Cow::<str>::owned(s).into_boxed();
    assert_eq!(&*b, "boxed");
    let b: Box<[u8]> = Cow::<[u8]>::owned(vec![9, 8]).into_boxed();
    assert_eq!(&*b, &[9, 8]);
    let b: Box<[u8]> = Cow::<[u8]>::borrowed(&[7]).into_boxed();
    assert_eq!(&*b, &[7]);
}

#[test]
fn conversions_keep_the_content() {
    let c = Cow::<str>::from('é');
    assert_eq!(&*c, "é");
    let c = Cow::<str>::from(String::from("boxed").into_boxed_str());
    assert_eq!(&*c, "boxed");
    let s: String = String::from(Cow::<str>::borrowed("into"));
    assert_eq!(s, "into");
    let b: Box<str> = Box::from(Cow::<str>::borrowed("into"));
    assert_eq!(&*b, "into");
}

#[test]
fn extend_appends_in_order() {
    let mut c = Cow::<str>::borrowed("a");
    extend_str(&mut c, &["b", "", "cd"]);
    assert!(c.is_owned());
    assert_eq!(&*c, "abcd");
    extend_chars(&mut c, &['e', 'ß']);
    assert_eq!(&*c, "abcdeß");

    let mut s = Cow::<[u8]>::borrowed(&[1]);
    extend_slice(&mut s, &[2, 3]);
    assert!(s.is_owned());
    assert_eq!(&*s, &[1, 2, 3]);
}

#[test]
fn from_elems_copies() {
    let src = [String::from("a"), String::from("b")];
    let c = Cow::<[String]>::from_elems(&src);
    assert!(c.is_owned());
    assert_eq!(&*c, &src[..]);
}
