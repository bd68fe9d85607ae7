use vstd::prelude::*;

pub mod bridge;
pub mod command;
pub mod config;
pub mod decimal;
pub mod indicator;
pub mod nova;
pub mod reply;
pub mod store;

verus! {

} // verus!
