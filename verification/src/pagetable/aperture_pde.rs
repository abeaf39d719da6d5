//! Memory apertures of page table entries and their 2-bit field encodings.

use vstd::prelude::*;
use vstd::std_specs::convert::FromSpecImpl;

verus! {

/// Memory aperture for Page Directory Entries (`PDE`s).
///
/// Note: For `PDE`s, `Invalid` (0) means the entry is not valid.
#[derive(Debug, Clone, Copy, PartialEq, Eq, Structural)]
pub enum AperturePde {
    /// Invalid/unused entry.
    Invalid,
    /// Page table is in video memory.
    VideoMemory,
    /// Page table is in system memory with coherence.
    SystemCoherent,
    /// Page table is in system memory without coherence.
    SystemNonCoherent,
}

impl AperturePde {
    /// The aperture that the 2-bit field value `val` encodes; 0 and values
    /// above 3 read as invalid.
    pub open spec fn from_u8_spec(val: u8) -> AperturePde {
        if val == 1 {
            AperturePde::VideoMemory
        } else if val == 2 {
            AperturePde::SystemCoherent
        } else if val == 3 {
            AperturePde::SystemNonCoherent
        } else {
            AperturePde::Invalid
        }
    }

    /// The field value that encodes this aperture.
    pub open spec fn to_u8_spec(self) -> u8 {
        match self {
            AperturePde::Invalid => 0,
            AperturePde::VideoMemory => 1,
            AperturePde::SystemCoherent => 2,
            AperturePde::SystemNonCoherent => 3,
        }
    }
}

impl Default for AperturePde {
    fn default() -> (r: Self)
        ensures
            r == AperturePde::Invalid,
    {
        AperturePde::Invalid
    }
}

impl From<u8> for AperturePde {
    fn from(val: u8) -> (r: Self) {
        match val {
            1 => Self::VideoMemory,
            2 => Self::SystemCoherent,
            3 => Self::SystemNonCoherent,
            _ => Self::Invalid,
        }
    }
}

impl FromSpecImpl<u8> for AperturePde {
    open spec fn obeys_from_spec() -> bool {
        true
    }

    open spec fn from_spec(val: u8) -> AperturePde {
        AperturePde::from_u8_spec(val)
    }
}

impl From<AperturePde> for u8 {
    fn from(val: AperturePde) -> (r: Self) {
        match val {
            AperturePde::Invalid => 0,
            AperturePde::VideoMemory => 1,
            AperturePde::SystemCoherent => 2,
            AperturePde::SystemNonCoherent => 3,
        }
    }
}

impl FromSpecImpl<AperturePde> for u8 {
    open spec fn obeys_from_spec() -> bool {
        true
    }

    open spec fn from_spec(val: AperturePde) -> u8 {
        val.to_u8_spec()
    }
}

} // verus!
