use std::borrow::Borrow;

use dairy::string::{extend_chars, extend_str};
use dairy::Cow;

type T<'a> = Cow<'a, str>;

#[test]
fn cow_str_is_borrowed() {
    let c = T::borrowed("Hello World!");
    assert!(c.is_borrowed());
    assert!(!c.is_owned());
}

#[test]
fn cow_str_is_owned() {
    let c = T::owned(String::from("Hello World!"));
    assert!(!c.is_borrowed());
    assert!(c.is_owned());
}

#[test]
fn cow_str_borrowed_into_owned() {
    let c = T::borrowed("Hello World!");
    let s: String = c.into_owned();
    assert_eq!(s, "Hello World!");
}

#[test]
fn cow_str_owned_into_owned() {
    let c = T::owned(String::from("Hello World!"));
    let s: String = c.into_owned();
    assert_eq!(s, "Hello World!");
}

#[test]
fn cow_str_borrowed_ref() {
    let c = T::borrowed("Hello World!");

    // Deref
    let s: &str = &*c;
    assert_eq!(s, "Hello World!");

    // Borrow
    let s: &str = c.borrow();
    assert_eq!(s, "Hello World!");
}

#[test]
fn cow_str_owned_ref() {
    let c = T::owned(String::from("Hello World!"));

    // Deref
    let s: &str = &*c;
    assert_eq!(s, "Hello World!");

    // Borrow
    let s: &str = c.borrow();
    assert_eq!(s, "Hello World!");
}

#[test]
fn cow_str_borrowed_clone() {
    let c1 = T::borrowed("Hello World!");
    let c2 = c1.clone();
    assert!(c1.is_borrowed());
    assert!(c2.is_borrowed());
}

#[test]
fn cow_str_owned_clone() {
    let c1 = T::owned(String::from("Hello World!"));
    let c2 = c1.clone();
    assert!(c1.is_owned());
    assert!(c2.is_owned());
}

#[test]
fn cow_str_from() {
    String::from(T::borrowed("Hello World!"));
    String::from(T::owned(String::from("Hello World!")));

    Box::<str>::from(T::borrowed("Hello World!"));
    Box::<str>::from(T::owned(String::from("Hello World!")));

    assert!(T::from('H').is_owned());
    assert!(T::from("Hello World!").is_borrowed());
    assert!(T::from(String::from("Hello World!")).is_owned());
    assert!(T::from(&String::from("Hello World!")).is_borrowed());
    assert!(T::from(String::from("Hello World!").into_boxed_str()).is_owned());
}

#[test]
fn cow_str_extend() {
    let borrowed: Vec<&str> = vec!["Hel", "lo ", "Wor", "ld!"];
    let owned: Vec<String> = borrowed.iter().copied().map(String::from).collect();
    let chars: Vec<char> = "Hello World!".chars().collect();

    let mut c = T::default();
    extend_str(&mut c, &borrowed);
    assert_eq!(&*c, "Hello World!");

    let cloned: Vec<String> = owned.iter().cloned().collect();
    let items: Vec<&str> = cloned.iter().map(String::as_str).collect();
    let mut c = T::default();
    extend_str(&mut c, &items);
    assert_eq!(&*c, "Hello World!");

    let items: Vec<&str> = owned.iter().map(String::as_str).collect();
    let mut c = T::default();
    extend_str(&mut c, &items);
    assert_eq!(&*c, "Hello World!");

    let cows: Vec<T> = owned.iter().map(T::from).collect();
    let items: Vec<&str> = cows.iter().map(|x| &**x).collect();
    let mut c = T::default();
    extend_str(&mut c, &items);
    assert_eq!(&*c, "Hello World!");

    let boxes: Vec<Box<str>> = owned.iter().cloned().map(String::into_boxed_str).collect();
    let items: Vec<&str> = boxes.iter().map(|x| &**x).collect();
    let mut c = T::default();
    extend_str(&mut c, &items);
    assert_eq!(&*c, "Hello World!");

    let mut c = T::default();
    extend_chars(&mut c, &chars);
    assert_eq!(&*c, "Hello World!");

    let mut c = T::default();
    extend_chars(&mut c, &chars);
    assert_eq!(&*c, "Hello World!");
}

#[test]
fn cow_str_from_iter() {
    let borrowed: Vec<&str> = vec!["Hel", "lo ", "Wor", "ld!"];
    let owned: Vec<String> = borrowed.iter().copied().map(String::from).collect();
    let chars: Vec<char> = "Hello World!".chars().collect();

    let c = T::from_strs(&borrowed);
    assert_eq!(&*c, "Hello World!");

    let cloned: Vec<String> = owned.iter().cloned().collect();
    let items: Vec<&str> = cloned.iter().map(String::as_str).collect();
    let c = T::from_strs(&items);
    assert_eq!(&*c, "Hello World!");

    let items: Vec<&str> = owned.iter().map(String::as_str).collect();
    let c = T::from_strs(&items);
    assert_eq!(&*c, "Hello World!");

    let cows: Vec<T> = owned.iter().map(T::from).collect();
    let items: Vec<&str> = cows.iter().map(|x| &**x).collect();
    let c = T::from_strs(&items);
    assert_eq!(&*c, "Hello World!");

    let boxes: Vec<Box<str>> = owned.iter().cloned().map(String::into_boxed_str).collect();
    let items: Vec<&str> = boxes.iter().map(|x| &**x).collect();
    let c = T::from_strs(&items);
    assert_eq!(&*c, "Hello World!");

    let c = T::from_chars(&chars);
    assert_eq!(&*c, "Hello World!");

    let c = T::from_chars(&chars);
    assert_eq!(&*c, "Hello World!");
}

#[test]
fn cow_str_from_str() {
    let c: T = "Hello World!".parse().unwrap();
    assert!(c.is_owned());
}
