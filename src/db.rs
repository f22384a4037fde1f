//! The records that the service keeps in its data store, as plain values.
//! Reading and writing them is left to the data-store layer around the
//! library.

pub mod contact;
pub mod info;
pub mod persona;
pub mod user;
