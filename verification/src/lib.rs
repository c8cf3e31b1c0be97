use vstd::prelude::*;

pub mod debug;
pub mod flash;
pub mod line;
pub mod protocol;
pub mod scanner;

verus! {

/// Classification of a USB serial device under the target vendor:
/// product id zero marks a bootloader awaiting firmware, a nonzero
/// product id marks a node already running firmware.
#[derive(Clone, Copy, Debug, PartialEq, Eq, Structural)]
pub enum DeviceClass {
    Bootloader,
    Node,
}

} // verus!
