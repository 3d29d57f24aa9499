//! Hardfork identifiers, in activation order.

use vstd::prelude::*;

verus! {

/// A protocol-rule version of the chain, named as the execution engine names
/// it. Later variants are later upgrades.
#[allow(non_camel_case_types)]
#[derive(Clone, Copy, Debug, PartialEq, Eq, Structural)]
pub enum SpecId {
    FRONTIER,
    HOMESTEAD,
    TANGERINE,
    SPURIOUS_DRAGON,
    BYZANTIUM,
    PETERSBURG,
    ISTANBUL,
    BERLIN,
    LONDON,
    MERGE,
    SHANGHAI,
    CANCUN,
    PRAGUE,
    OSAKA,
    AMSTERDAM,
}

impl SpecId {
    /// Position of the hardfork in activation order, starting at 0.
    pub open spec fn ordinal(self) -> nat {
        match self {
            SpecId::FRONTIER => 0,
            SpecId::HOMESTEAD => 1,
            SpecId::TANGERINE => 2,
            SpecId::SPURIOUS_DRAGON => 3,
            SpecId::BYZANTIUM => 4,
            SpecId::PETERSBURG => 5,
            SpecId::ISTANBUL => 6,
            SpecId::BERLIN => 7,
            SpecId::LONDON => 8,
            SpecId::MERGE => 9,
            SpecId::SHANGHAI => 10,
            SpecId::CANCUN => 11,
            SpecId::PRAGUE => 12,
            SpecId::OSAKA => 13,
            SpecId::AMSTERDAM => 14,
        }
    }

    /// `self` is at or after `other`.
    pub open spec fn enabled_in(self, other: SpecId) -> bool {
        self.ordinal() >= other.ordinal()
    }

    /// The hardfork's position as a byte.
    pub fn to_u8(self) -> (id: u8)
        ensures
            id == self.ordinal(),
    {
        match self {
            SpecId::FRONTIER => 0,
            SpecId::HOMESTEAD => 1,
            SpecId::TANGERINE => 2,
            SpecId::SPURIOUS_DRAGON => 3,
            SpecId::BYZANTIUM => 4,
            SpecId::PETERSBURG => 5,
            SpecId::ISTANBUL => 6,
            SpecId::BERLIN => 7,
            SpecId::LONDON => 8,
            SpecId::MERGE => 9,
            SpecId::SHANGHAI => 10,
            SpecId::CANCUN => 11,
            SpecId::PRAGUE => 12,
            SpecId::OSAKA => 13,
            SpecId::AMSTERDAM => 14,
        }
    }

    /// Returns `true` if the rules of `other` are in force under `self`,
    /// that is, if `self` is `other` or a later hardfork.
    #[verifier::when_used_as_spec(enabled_in)]
    pub fn is_enabled_in(self, other: SpecId) -> (enabled: bool)
        ensures
            enabled == self.enabled_in(other),
    {
        self.to_u8() >= other.to_u8()
    }
}

} // verus!
