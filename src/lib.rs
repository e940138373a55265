//! A clone-on-write smart pointer over a closed set of element kinds.
//!
//! [`Cow`] holds either borrowed data or a buffer that it owns, chosen at
//! run time. It supports string slices (`str`), slices of clonable
//! elements (`[T]`) and filesystem paths (`Path`); [`Dairy`] describes how
//! each kind passes between its borrowed and its owned form, and no other
//! crate can add a kind.
//!
//! The ownership state is an explicit discriminant, so an owned buffer is
//! never mistaken for borrowed data, whatever its capacity. For code that
//! stores lengths and capacities in packed form, [`extent`] offers the two
//! encodings, one word ([`Extent`]) or two ([`Extra`]).
//!
//! Mutation goes through [`Cow::apply`], which copies borrowed data into a
//! buffer of its own first; the buffer has exactly one owner at every
//! point, also while the mutator runs.
pub mod cow;
pub mod dairy;
pub mod extent;
pub mod laws;
pub mod path;
mod sealed;
pub mod slice;
pub mod string;

pub use cow::Cow;
pub use dairy::{Dairy, ToBoxed};
pub use extent::{Extent, Extra, IsOwned};
