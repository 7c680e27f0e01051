//! Lighting control for a Langtu L98 keyboard: locating its raw HID
//! interface and encoding the lighting command packet.
use vstd::prelude::*;

pub mod descriptor;
pub mod locate;
pub mod packet;

verus! {

} // verus!
