use vstd::prelude::*;

pub mod caps;
pub mod comms;
pub mod fan;
pub mod menu;
pub mod poll;
pub mod power;
pub mod readings;
pub mod stats;
pub mod sysfs;
pub mod device;
pub mod text;

verus! {

} // verus!
