//! The two bus addresses an AHT10 can answer on.

use vstd::prelude::*;

verus! {

/// Seven-bit bus address of the sensor, selected by its address pin.
#[derive(Clone, Copy, Debug, PartialEq, Eq)]
pub enum Address {
    /// Address pin low.
    Default,
    /// Address pin high.
    Alternative,
}

impl Address {
    /// The address as it appears on the wire.
    pub open spec fn wire(self) -> u8 {
        match self {
            Address::Default => 0x38,
            Address::Alternative => 0x39,
        }
    }

    /// Returns the seven-bit address to put on the bus.
    pub fn bits(self) -> (b: u8)
        ensures
            b == self.wire(),
    {
        match self {
            Address::Default => 0x38,
            Address::Alternative => 0x39,
        }
    }
}

} // verus!
