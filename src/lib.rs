//! A catalog of music folders and their audio tracks, decoded from a JSON
//! manifest into the rows of a relational store and assembled back from them.
use vstd::prelude::*;

pub mod catalog;
pub mod error;
pub mod json;
pub mod laws;
pub mod manifest;
pub mod model;
pub mod rows;
pub mod store;

pub use catalog::read_index_from_sqlite;
pub use error::IndexError;
pub use model::{IndexAudio, IndexFolder};
pub use store::sqlite_path;

verus! {

} // verus!
