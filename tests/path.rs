use std::borrow::Borrow;
use std::path::{Path, PathBuf};

use dairy::path::extend_path;
use dairy::Cow;

type T<'a> = Cow<'a, Path>;

#[test]
fn cow_path_is_borrowed() {
    let c = T::borrowed(Path::new("/hello/world"));
    assert!(c.is_borrowed());
    assert!(!c.is_owned());
}

#[test]
fn cow_path_is_owned() {
    let c = T::owned(PathBuf::from("/hello/world"));
    assert!(!c.is_borrowed());
    assert!(c.is_owned());
}

#[test]
fn cow_path_borrowed_into_owned() {
    let c = T::borrowed(Path::new("/hello/world"));
    let p: PathBuf = c.into_owned();
    assert_eq!(p, Path::new("/hello/world"));
}

#[test]
fn cow_path_owned_into_owned() {
    let c = T::owned(PathBuf::from("/hello/world"));
    let p: PathBuf = c.into_owned();
    assert_eq!(p, Path::new("/hello/world"));
}

#[test]
fn cow_path_borrowed_ref() {
    let c = T::borrowed(Path::new("/hello/world"));

    // Deref
    let p: &Path = &*c;
    assert_eq!(p, Path::new("/hello/world"));

    // Borrow
    let p: &Path = c.borrow();
    assert_eq!(p, Path::new("/hello/world"));
}

#[test]
fn cow_path_owned_ref() {
    let c = T::owned(PathBuf::from("/hello/world"));

    // Deref
    let p: &Path = &*c;
    assert_eq!(p, Path::new("/hello/world"));

    // Borrow
    let p: &Path = c.borrow();
    assert_eq!(p, Path::new("/hello/world"));
}

#[test]
fn cow_path_borrowed_clone() {
    let c1 = T::borrowed(Path::new("/hello/world"));
    let c2 = c1.clone();
    assert!(c1.is_borrowed());
    assert!(c2.is_borrowed());
}

#[test]
fn cow_path_owned_clone() {
    let c1 = T::owned(PathBuf::from("/hello/world"));
    let c2 = c1.clone();
    assert!(c1.is_owned());
    assert!(c2.is_owned());
}

#[test]
fn path_as_ref_borrowed() {
    let c = T::borrowed(Path::new("/hello/world"));

    let p: &Path = c.as_ref();
    assert_eq!(p, Path::new("/hello/world"));
}

#[test]
fn path_as_ref_owned() {
    let c = T::owned(PathBuf::from("/hello/world"));

    let p: &Path = c.as_ref();
    assert_eq!(p, Path::new("/hello/world"));
}

#[test]
fn path_from_each_source() {
    PathBuf::from(T::borrowed(Path::new("/hello/world")));
    PathBuf::from(T::owned(PathBuf::from("/hello/world")));

    Box::<Path>::from(T::borrowed(Path::new("/hello/world")));
    Box::<Path>::from(T::owned(PathBuf::from("/hello/world")));

    assert!(T::from(Path::new("/hello/world")).is_borrowed());
    assert!(T::from(PathBuf::from("/hello/world")).is_owned());
    assert!(T::from(&PathBuf::from("/hello/world")).is_borrowed());
    assert!(T::from(PathBuf::from("/hello/world").into_boxed_path()).is_owned());

    assert!(T::from("/hello/world").is_borrowed());
    assert!(T::from(String::from("/hello/world")).is_owned());
    assert!(T::from(&String::from("/hello/world")).is_borrowed());
}

#[test]
fn path_conversions_keep_the_path() {
    let p: PathBuf = PathBuf::from(T::borrowed(Path::new("/a/b")));
    assert_eq!(p, Path::new("/a/b"));
    let b: Box<Path> = Box::from(T::owned(PathBuf::from("/a/b")));
    assert_eq!(&*b, Path::new("/a/b"));
    let c = T::from(PathBuf::from("/x").into_boxed_path());
    assert_eq!(&*c, Path::new("/x"));
    let c = T::from(String::from("/y"));
    assert_eq!(&*c, Path::new("/y"));
}

#[test]
fn path_owned_clone_is_a_copy() {
    let c1 = T::owned(PathBuf::from("/hello/world"));
    let c2 = c1.clone();
    assert_eq!(&*c1, &*c2);
    assert!(c2.is_owned());
}

#[test]
fn path_default_is_empty_and_owned() {
    let c = T::default();
    assert!(c.is_owned());
    assert_eq!(&*c, Path::new(""));
}

#[test]
fn extend_path_joins_in_order() {
    let mut c = T::borrowed(Path::new("/hello"));
    extend_path(&mut c, &[Path::new("world"), Path::new("again")]);
    assert!(c.is_owned());
    assert_eq!(&*c, Path::new("/hello/world/again"));

    let mut c = T::borrowed(Path::new("/hello"));
    extend_path(&mut c, &[]);
    assert!(c.is_borrowed());
    assert_eq!(&*c, Path::new("/hello"));
}

#[test]
fn from_paths_joins_from_empty() {
    let c = T::from_paths(&[Path::new("/hello"), Path::new("world")]);
    assert!(c.is_owned());
    assert_eq!(&*c, Path::new("/hello/world"));
}

#[test]
fn path_into_boxed() {
    let b = T::borrowed(Path::new("/boxed")).into_boxed();
    assert_eq!(&*b, Path::new("/boxed"));
}
