//! The records as the runtime module keeps them: settings packed into bit
//! sets, numbers in the runtime's widths.
use vstd::prelude::*;

verus! {

/// The runtime's balance.
pub type HostBalance = u64;
/// The runtime's block number.
pub type HostBlockNumber = u32;

/// Bit of a collection's settings: items are transferable.
pub const TRANSFERABLE_ITEMS: u64 = 1;
/// Bit of a collection's settings: metadata can be modified.
pub const COLLECTION_UNLOCKED_METADATA: u64 = 2;
/// Bit of a collection's settings: attributes can be modified.
pub const COLLECTION_UNLOCKED_ATTRIBUTES: u64 = 4;
/// Bit of a collection's settings: the maximum supply can be modified.
pub const UNLOCKED_MAX_SUPPLY: u64 = 8;
/// Bit of a collection's settings: holding items requires a deposit.
pub const DEPOSIT_REQUIRED: u64 = 16;

/// Bit of an item's settings: the item is transferable.
pub const TRANSFERABLE: u64 = 1;
/// Bit of an item's settings: metadata can be modified.
pub const ITEM_UNLOCKED_METADATA: u64 = 2;
/// Bit of an item's settings: attributes can be modified.
pub const ITEM_UNLOCKED_ATTRIBUTES: u64 = 4;

/// A collection's settings as a bit set.
#[derive(Debug, Copy, Clone, PartialEq, Eq)]
pub struct CollectionSettings {
    pub bits: u64,
}

/// An item's settings as a bit set.
#[derive(Debug, Copy, Clone, PartialEq, Eq)]
pub struct ItemSettings {
    pub bits: u64,
}

impl CollectionSettings {
    /// Whether the setting `flag` is on.
    pub fn contains(&self, flag: u64) -> (r: bool)
        ensures
            r == (self.bits & flag != 0),
    {
        self.bits & flag != 0
    }
}

impl ItemSettings {
    /// Whether the setting `flag` is on.
    pub fn contains(&self, flag: u64) -> (r: bool)
        ensures
            r == (self.bits & flag != 0),
    {
        self.bits & flag != 0
    }
}

/// Who may mint items of a collection.
#[derive(Debug, Copy, Clone, PartialEq, Eq)]
pub enum MintType {
    Issuer,
    Public,
    HolderOf(u32),
}

/// How items of a collection are minted.
#[derive(Debug, Copy, Clone, PartialEq, Eq)]
pub struct MintSettings {
    pub mint_type: MintType,
    pub price: Option<HostBalance>,
    pub start_block: Option<HostBlockNumber>,
    pub end_block: Option<HostBlockNumber>,
    pub default_item_settings: ItemSettings,
}

/// A collection's configuration as the runtime module takes it.
#[derive(Debug, Copy, Clone, PartialEq, Eq)]
pub struct CollectionConfig {
    pub settings: CollectionSettings,
    pub max_supply: Option<u32>,
    pub mint_settings: MintSettings,
}

} // verus!
