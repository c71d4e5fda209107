//! How the panel maps its memory onto the glass.

use vstd::prelude::*;

verus! {

/// Display orientation: which of rows and columns are mirrored or exchanged.
#[derive(Clone, Copy, Debug, PartialEq, Eq, Structural)]
pub enum Orientation {
    /// Nothing mirrored.
    Portrait,
    /// Columns mirrored, rows and columns exchanged.
    Landscape,
    /// Rows and columns mirrored.
    PortraitSwapped,
    /// Rows mirrored, rows and columns exchanged.
    LandscapeSwapped,
}

impl Orientation {
    /// The value of the memory access control register that selects this
    /// orientation.
    pub open spec fn spec_bits(self) -> u8 {
        match self {
            Orientation::Portrait => 0x00,
            Orientation::Landscape => 0x60,
            Orientation::PortraitSwapped => 0xC0,
            Orientation::LandscapeSwapped => 0xA0,
        }
    }

    /// The value of the memory access control register that selects this
    /// orientation.
    #[verifier::when_used_as_spec(spec_bits)]
    pub fn bits(self) -> (byte: u8)
        ensures
            byte == self.spec_bits(),
    {
        match self {
            Orientation::Portrait => 0b0000_0000,
            Orientation::Landscape => 0b0110_0000,
            Orientation::PortraitSwapped => 0b1100_0000,
            Orientation::LandscapeSwapped => 0b1010_0000,
        }
    }
}

impl Default for Orientation {
    /// A panel starts out unmirrored.
    fn default() -> (orientation: Self)
        ensures
            orientation == Orientation::Portrait,
    {
        Orientation::Portrait
    }
}

/// No two orientations share a register value, so the value on the bus tells
/// which orientation was asked for.
pub proof fn bits_identify_orientation(a: Orientation, b: Orientation)
    requires
        a.spec_bits() == b.spec_bits(),
    ensures
        a == b,
{
}

/// Tearing effect output setting. No command of the driver uses it yet.
#[derive(Clone, Copy, Debug, PartialEq, Eq, Structural)]
pub enum TearingEffect {
    /// Disable output.
    Off,
    /// Output vertical blanking information.
    Vertical,
    /// Output horizontal and vertical blanking information.
    HorizontalAndVertical,
}

} // verus!
