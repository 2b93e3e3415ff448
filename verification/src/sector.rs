//! Sector sizes and sector identifiers.
use vstd::prelude::*;

verus! {

/// Identifier of a miner actor.
pub type ActorID = u64;

/// Number of a sector within one miner.
pub type SectorNumber = u64;

/// One of the sector sizes the network accepts; each variant stands for a
/// number of bytes.
#[derive(Clone, Copy, Debug, PartialEq, Eq, Structural)]
pub enum SectorSize {
    _2KiB,
    _8MiB,
    _512MiB,
    _32GiB,
    _64GiB,
}

impl SectorSize {
    /// The number of bytes that a sector of this size holds.
    pub open spec fn size_in_bytes(self) -> nat {
        match self {
            SectorSize::_2KiB => 2 * 1024,
            SectorSize::_8MiB => 8 * 1024 * 1024,
            SectorSize::_512MiB => 512 * 1024 * 1024,
            SectorSize::_32GiB => 32 * 1024 * 1024 * 1024,
            SectorSize::_64GiB => 2 * (32 * 1024 * 1024 * 1024),
        }
    }

    /// The number of bytes that a sector of this size holds.
    pub fn bytes(&self) -> (n: u64)
        ensures
            n == self.size_in_bytes(),
    {
        match self {
            SectorSize::_2KiB => 2048,
            SectorSize::_8MiB => 8388608,
            SectorSize::_512MiB => 536870912,
            SectorSize::_32GiB => 34359738368,
            SectorSize::_64GiB => 68719476736,
        }
    }

    /// The sector size of `n` bytes, if the network has one.
    pub open spec fn spec_from_bytes(n: u64) -> Option<SectorSize> {
        if n == 2 * 1024 {
            Some(SectorSize::_2KiB)
        } else if n == 8 * 1024 * 1024 {
            Some(SectorSize::_8MiB)
        } else if n == 512 * 1024 * 1024 {
            Some(SectorSize::_512MiB)
        } else if n == 32 * 1024 * 1024 * 1024 {
            Some(SectorSize::_32GiB)
        } else if n == 2 * (32 * 1024 * 1024 * 1024) {
            Some(SectorSize::_64GiB)
        } else {
            None
        }
    }

    /// The sector size of `n` bytes, if the network has one.
    pub fn from_u64(n: u64) -> (res: Option<SectorSize>)
        ensures
            res == Self::spec_from_bytes(n),
    {
        if n == 2048 {
            Some(SectorSize::_2KiB)
        } else if n == 8388608 {
            Some(SectorSize::_8MiB)
        } else if n == 536870912 {
            Some(SectorSize::_512MiB)
        } else if n == 34359738368 {
            Some(SectorSize::_32GiB)
        } else if n == 68719476736 {
            Some(SectorSize::_64GiB)
        } else {
            None
        }
    }
}

/// Reading a size back from its byte count gives the same size.
pub proof fn law_sector_size_round_trip(size: SectorSize)
    ensures
        SectorSize::spec_from_bytes(size.size_in_bytes() as u64) == Some(size),
{
}

/// A byte count that names a sector size is that size's byte count; no two
/// sizes share a byte count.
pub proof fn law_sector_size_from_bytes_exact(n: u64)
    ensures
        match SectorSize::spec_from_bytes(n) {
            Some(size) => size.size_in_bytes() == n,
            None => forall|size: SectorSize| #[trigger] size.size_in_bytes() != n,
        },
{
    assert forall|size: SectorSize| SectorSize::spec_from_bytes(n) is None implies #[trigger] size.size_in_bytes() != n by {
        match size {
            SectorSize::_2KiB => {},
            SectorSize::_8MiB => {},
            SectorSize::_512MiB => {},
            SectorSize::_32GiB => {},
            SectorSize::_64GiB => {},
        }
    }
}

/// Sector ID: the sector number and the actor ID of the miner that holds it.
#[derive(Clone, Debug, PartialEq, Eq, Structural)]
pub struct SectorID {
    pub miner: ActorID,
    pub number: SectorNumber,
}

impl Default for SectorID {
    /// The sector with number 0 of miner 0.
    fn default() -> (id: Self)
        ensures
            id.miner == 0,
            id.number == 0,
    {
        SectorID { miner: 0, number: 0 }
    }
}

} // verus!
