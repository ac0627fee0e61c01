//! The numbers by which fans and backlight levels are known to the controller. They are the same on
//! every board.
use vstd::prelude::*;

use crate::types::FanIndex;

verus! {

/// The bytes that the backlight register holds for the fixed levels.
#[derive(Clone, Copy, PartialEq, Eq, Debug, Structural)]
pub struct BacklightBytes {
    pub off: u8,
    pub low: u8,
    pub medium: u8,
    pub high: u8,
}

/// The number of each fan and of each fixed backlight level. The number of a fan is the offset of
/// its duty cycle in the memory window.
#[derive(Clone, Copy, PartialEq, Eq, Debug, Structural)]
pub struct Codes {
    pub fan_cpu: u16,
    pub fan_gpu: u16,
    pub backlight: BacklightBytes,
}

impl Codes {
    /// The number of a fan.
    pub open spec fn of_fan(self, fan: FanIndex) -> u16 {
        match fan {
            FanIndex::Cpu => self.fan_cpu,
            FanIndex::Gpu => self.fan_gpu,
        }
    }

    /// The number of a fan.
    pub fn fan(&self, fan: FanIndex) -> (code: u16)
        ensures
            code == self.of_fan(fan),
    {
        match fan {
            FanIndex::Cpu => self.fan_cpu,
            FanIndex::Gpu => self.fan_gpu,
        }
    }
}

/// Each fan has its own number.
pub proof fn law_each_fan_has_its_number(codes: Codes, fan: FanIndex)
    ensures
        fan is Cpu ==> codes.of_fan(fan) == codes.fan_cpu,
        fan is Gpu ==> codes.of_fan(fan) == codes.fan_gpu,
{
}

} // verus!
