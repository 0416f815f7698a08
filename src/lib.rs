use vstd::prelude::*;

pub mod checkpoint;
pub mod codec;
pub mod config;
pub mod gateway;
pub mod period;
pub mod proxy;
pub mod transaction;

verus! {

} // verus!
