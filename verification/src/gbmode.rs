use vstd::prelude::*;

verus! {

/// The hardware that is emulated: a classic Game Boy, a Game Boy Color, or a
/// Game Boy Color running a cartridge made for the classic model.
#[derive(PartialEq, Eq, Structural, Clone, Copy, Debug)]
pub enum GbMode {
    Classic,
    Color,
    ColorAsClassic,
}

/// The CPU clock speed of a Game Boy Color: normal, or twice as fast.
#[derive(PartialEq, Eq, Structural, Clone, Copy, Debug)]
pub enum GbSpeed {
    Single,
    Double,
}

impl GbSpeed {
    /// The clock multiplier: 1 at single speed, 2 at double speed.
    pub fn factor(&self) -> (r: u32)
        ensures
            r == (if *self == GbSpeed::Single { 1u32 } else { 2u32 }),
    {
        match self {
            GbSpeed::Single => 1,
            GbSpeed::Double => 2,
        }
    }
}

} // verus!
