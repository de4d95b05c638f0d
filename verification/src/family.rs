//! Chip-family dispatch: the closed set of supported families, which CAN
//! driver generation each one carries, and the per-family constants (bus bit
//! positions, register-block addresses, filter-bank counts) that the rest of
//! the crate keys on.

use vstd::prelude::*;

verus! {

/// The supported chip families. Exactly one is chosen when a peripheral
/// handle is built; every per-family constant below is total over this set,
/// so an unsupported combination cannot be written down.
#[derive(Clone, Copy, PartialEq, Eq, Structural, Debug)]
pub enum ChipFamily {
    F3,
    F4,
    L4,
    G0,
    G4,
    L5,
    H7,
}

/// Which generation of CAN controller a family carries, and therefore which
/// external driver library its register block is handed to.
#[derive(Clone, Copy, PartialEq, Eq, Structural, Debug)]
pub enum CanKind {
    /// Classic frame-based controller.
    FrameBased,
    /// Flexible-data-rate controller.
    FlexibleData,
}

/// The CAN generation of each family: F3, F4 and L4 carry the classic
/// controller; G0, G4, L5 and H7 carry the flexible-data-rate one.
pub open spec fn spec_can_kind(f: ChipFamily) -> CanKind {
    match f {
        ChipFamily::F3 | ChipFamily::F4 | ChipFamily::L4 => CanKind::FrameBased,
        ChipFamily::G0 | ChipFamily::G4 | ChipFamily::L5 | ChipFamily::H7 => CanKind::FlexibleData,
    }
}

/// Runtime view of [`spec_can_kind`].
pub fn can_kind(f: ChipFamily) -> (r: CanKind)
    ensures
        r == spec_can_kind(f),
{
    match f {
        ChipFamily::F3 | ChipFamily::F4 | ChipFamily::L4 => CanKind::FrameBased,
        _ => CanKind::FlexibleData,
    }
}

/// Bit index of the CAN clock-enable field in the APB1 enable register, per
/// family; the reset field sits at the same index in the APB1 reset register.
pub open spec fn spec_can_bit(f: ChipFamily) -> u32 {
    match f {
        ChipFamily::F3 | ChipFamily::F4 | ChipFamily::L4 | ChipFamily::G4 => 25,
        ChipFamily::G0 => 12,
        ChipFamily::L5 => 9,
        ChipFamily::H7 => 8,
    }
}

/// Runtime view of [`spec_can_bit`].
pub fn can_bit(f: ChipFamily) -> (r: u32)
    ensures
        r == spec_can_bit(f),
        r < 32,
{
    match f {
        ChipFamily::F3 | ChipFamily::F4 | ChipFamily::L4 | ChipFamily::G4 => 25,
        ChipFamily::G0 => 12,
        ChipFamily::L5 => 9,
        ChipFamily::H7 => 8,
    }
}

/// Number of hardware filter banks of the classic controller: 28 on F3 and
/// F4, 14 on L4. Undefined for the flexible-data-rate families, whose driver
/// owns filtering itself.
pub open spec fn spec_filter_banks(f: ChipFamily) -> u8
    recommends
        spec_can_kind(f) == CanKind::FrameBased,
{
    match f {
        ChipFamily::L4 => 14,
        _ => 28,
    }
}

/// The filter-bank count of every frame-based family is 28 or 14, never
/// another value.
pub proof fn lemma_filter_banks_in_range(f: ChipFamily)
    ensures
        spec_filter_banks(f) == 28 || spec_filter_banks(f) == 14,
{
}

/// Base address of the family's CAN register block.
pub open spec fn spec_can_addr(f: ChipFamily) -> usize {
    match f {
        ChipFamily::H7 => 0x4000_a000,
        _ => 0x4000_6400,
    }
}

/// Runtime view of [`spec_can_addr`].
pub fn can_addr(f: ChipFamily) -> (r: usize)
    ensures
        r == spec_can_addr(f),
{
    match f {
        ChipFamily::H7 => 0x4000_a000,
        _ => 0x4000_6400,
    }
}

} // verus!
