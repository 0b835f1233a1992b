use vstd::prelude::*;

pub mod config;
pub mod engine;
pub mod message;
pub mod payment;
pub mod store;
pub mod title;

verus! {

} // verus!
