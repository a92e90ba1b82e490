//! Verified core of a point-of-sale terminal that keeps a local SQLite store
//! in step with a cloud service.
#![allow(non_snake_case)]

pub mod calendar;
pub mod config;
pub mod duplicate;
pub mod inventory;
pub mod loader;
pub mod lookup;
pub mod model;
pub mod sale;
pub mod sql;
pub mod sync;
pub mod text;

use vstd::prelude::*;

verus! {

} // verus!
