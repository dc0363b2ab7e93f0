//! Decoding of PCI configuration space capabilities and PCI Express extended
//! configuration space capabilities.
use vstd::prelude::*;

pub mod bits;
pub mod capabilities;
pub mod extended_capabilities;

pub use capabilities::Capabilities;
pub use extended_capabilities::ExtendedCapabilities;

verus! {

/// Offset of the device dependent region in the configuration space.
pub const DDR_OFFSET: usize = 0x40;

/// Offset of the extended configuration space.
pub const ECS_OFFSET: usize = 0x100;

} // verus!
