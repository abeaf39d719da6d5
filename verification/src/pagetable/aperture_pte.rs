//! Memory apertures of page table entries and their 2-bit field encodings.

use vstd::prelude::*;
use vstd::std_specs::convert::FromSpecImpl;

verus! {

/// Memory aperture for Page Table Entries (`PTE`s).
///
/// Determines which memory region the `PTE` points to.
#[derive(Debug, Clone, Copy, PartialEq, Eq, Structural)]
pub enum AperturePte {
    /// Local video memory (VRAM).
    VideoMemory,
    /// Peer GPU's video memory.
    PeerMemory,
    /// System memory with cache coherence.
    SystemCoherent,
    /// System memory without cache coherence.
    SystemNonCoherent,
}

impl AperturePte {
    /// The aperture that the 2-bit field value `val` encodes; values above 3
    /// read as video memory.
    pub open spec fn from_u8_spec(val: u8) -> AperturePte {
        if val == 1 {
            AperturePte::PeerMemory
        } else if val == 2 {
            AperturePte::SystemCoherent
        } else if val == 3 {
            AperturePte::SystemNonCoherent
        } else {
            AperturePte::VideoMemory
        }
    }

    /// The field value that encodes this aperture.
    pub open spec fn to_u8_spec(self) -> u8 {
        match self {
            AperturePte::VideoMemory => 0,
            AperturePte::PeerMemory => 1,
            AperturePte::SystemCoherent => 2,
            AperturePte::SystemNonCoherent => 3,
        }
    }
}

impl Default for AperturePte {
    fn default() -> (r: Self)
        ensures
            r == AperturePte::VideoMemory,
    {
        AperturePte::VideoMemory
    }
}

impl From<u8> for AperturePte {
    fn from(val: u8) -> (r: Self) {
        match val {
            0 => Self::VideoMemory,
            1 => Self::PeerMemory,
            2 => Self::SystemCoherent,
            3 => Self::SystemNonCoherent,
            _ => Self::VideoMemory,
        }
    }
}

impl FromSpecImpl<u8> for AperturePte {
    open spec fn obeys_from_spec() -> bool {
        true
    }

    open spec fn from_spec(val: u8) -> AperturePte {
        AperturePte::from_u8_spec(val)
    }
}

impl From<AperturePte> for u8 {
    fn from(val: AperturePte) -> (r: Self) {
        match val {
            AperturePte::VideoMemory => 0,
            AperturePte::PeerMemory => 1,
            AperturePte::SystemCoherent => 2,
            AperturePte::SystemNonCoherent => 3,
        }
    }
}

impl FromSpecImpl<AperturePte> for u8 {
    open spec fn obeys_from_spec() -> bool {
        true
    }

    open spec fn from_spec(val: AperturePte) -> u8 {
        val.to_u8_spec()
    }
}

} // verus!
