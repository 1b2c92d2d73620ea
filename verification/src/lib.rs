//! Verified core of the JSS authentication toolkit.
use vstd::prelude::*;

pub mod auth;
pub mod client;
pub mod gateway;
pub mod json;
pub mod keyed;
pub mod text;

verus! {

} // verus!
