use vstd::prelude::*;

pub mod catalogue;
pub mod configuration;
pub mod launch;
pub mod machine;
pub mod menu;

verus! {

} // verus!
