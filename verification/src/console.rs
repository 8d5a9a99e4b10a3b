//! The console's version register: region, refresh standard and hardware
//! revision, read once at initialization and consumed as a plain value.

use vstd::prelude::*;

verus! {

/// An enum for the various region variants of the Mega Drive.
#[derive(Clone, Copy, Debug, PartialEq, Eq, Structural)]
pub enum Region {
    Invalid,
    Japan,
    Europe,
    USA,
}

/// A struct containing version information extracted from the console.
///
/// This can be used to determine region, resolution, frame rate and hardware
/// revision.
#[derive(Clone, Copy, Debug, PartialEq, Eq, Structural)]
pub struct Version(u8);

impl Version {
    /// The raw byte read from the version port.
    pub closed spec fn raw(self) -> u8 {
        self.0
    }

    /// The hardware revision held in the low nibble.
    pub open spec fn spec_hardware_revision(self) -> u8 {
        self.raw() & 0xf
    }

    /// Whether the floppy-drive bit is set.
    pub open spec fn spec_has_fdd(self) -> bool {
        self.raw() & 0x20 != 0
    }

    /// Whether the PAL bit is set.
    pub open spec fn spec_is_pal(self) -> bool {
        self.raw() & 0x40 != 0
    }

    /// Whether the overseas bit is set.
    pub open spec fn spec_is_overseas(self) -> bool {
        self.raw() & 0x80 != 0
    }

    /// The region encoded by the PAL and overseas bits.
    pub open spec fn spec_region(self) -> Region {
        if self.spec_is_pal() {
            if self.spec_is_overseas() {
                Region::Invalid
            } else {
                Region::Europe
            }
        } else {
            if self.spec_is_overseas() {
                Region::USA
            } else {
                Region::Japan
            }
        }
    }

    /// Wrap the byte read from the console's version port.
    pub fn from_raw(raw: u8) -> (r: Version)
        ensures
            r.raw() == raw,
    {
        Version(raw)
    }

    /// Retrieve the hardware revision.
    pub fn hardware_revision(self) -> (r: u8)
        ensures
            r == self.spec_hardware_revision(),
    {
        self.0 & 0xf
    }

    /// Check if a FDD is attached.
    pub fn has_fdd(self) -> (r: bool)
        ensures
            r == self.spec_has_fdd(),
    {
        (self.0 & 0x20) != 0
    }

    /// Returns true if this is a PAL system.
    pub fn is_pal(self) -> (r: bool)
        ensures
            r == self.spec_is_pal(),
    {
        (self.0 & 0x40) != 0
    }

    /// Returns true if this is a NTSC system.
    pub fn is_ntsc(self) -> (r: bool)
        ensures
            r == !self.spec_is_pal(),
    {
        !self.is_pal()
    }

    /// Returns true if this is an 'overseas' model, i.e. not for use in Japan.
    pub fn is_overseas(self) -> (r: bool)
        ensures
            r == self.spec_is_overseas(),
    {
        (self.0 & 0x80) != 0
    }

    /// Return the region variation of this console.
    pub fn region(self) -> (r: Region)
        ensures
            r == self.spec_region(),
    {
        match (self.is_pal(), self.is_overseas()) {
            (false, false) => Region::Japan,
            (false, true) => Region::USA,
            (true, false) => Region::Europe,
            (true, true) => Region::Invalid,
        }
    }
}

} // verus!
