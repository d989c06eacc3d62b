//! The records as the contract side writes them: settings as named booleans,
//! numbers in the contract environment's widths.
use vstd::prelude::*;

verus! {

/// An account of the contract environment: thirty-two raw bytes.
pub type AccountId = [u8; 32];
/// The contract environment's balance.
pub type Balance = u128;
/// The contract environment's block number.
pub type BlockNumber = u32;
/// A collection's identifier.
pub type CollectionId = u32;

/// Who may mint items of a collection.
#[derive(Debug, Copy, Clone, PartialEq, Eq)]
pub enum MintTypeExt {
    /// Only the issuer.
    Issuer,
    /// Anyone.
    Public,
    /// Holders of an item of the given collection.
    HolderOf(CollectionId),
}

/// The account on whose behalf a privileged operation is asked for.
#[derive(Debug, Copy, Clone, PartialEq, Eq)]
pub enum Origin {
    /// The immediate caller of the contract.
    Caller,
    /// The contract's own account.
    Address,
}

impl Default for Origin {
    fn default() -> (r: Self)
        ensures
            r == Origin::Address,
    {
        Origin::Address
    }
}

/// Settings each item gets when it is minted.
#[derive(Debug, Copy, Clone, PartialEq, Eq)]
pub struct ItemSettingsExt {
    /// The item is transferable.
    pub transferable: bool,
    /// The item's metadata can be modified.
    pub unlocked_metadata: bool,
    /// The item's attributes can be modified.
    pub unlocked_attributes: bool,
}

/// A collection's settings.
#[derive(Debug, Copy, Clone, PartialEq, Eq)]
pub struct CollectionSettingsExt {
    /// Items of the collection are transferable.
    pub transferable_items: bool,
    /// The collection's metadata can be modified.
    pub unlocked_metadata: bool,
    /// The collection's attributes can be modified.
    pub unlocked_attributes: bool,
    /// The collection's maximum supply can be modified.
    pub unlocked_max_supply: bool,
    /// A deposit is required to hold the collection's items.
    pub deposit_required: bool,
}

/// How items of a collection are minted.
#[derive(Debug, Copy, Clone, PartialEq, Eq)]
pub struct MintSettingsExt {
    /// Who may mint.
    pub mint_type: MintTypeExt,
    /// An optional price per mint.
    pub price: Option<Balance>,
    /// The block at which minting starts.
    pub start_block: Option<BlockNumber>,
    /// The block at which minting ends.
    pub end_block: Option<BlockNumber>,
    /// Settings each minted item gets.
    pub default_item_settings: ItemSettingsExt,
}

/// A collection's configuration.
#[derive(Debug, Copy, Clone, PartialEq, Eq)]
pub struct CollectionConfigExt {
    /// The collection's settings.
    pub setting: CollectionSettingsExt,
    /// The collection's maximum supply.
    pub max_supply: Option<u32>,
    /// How items are minted.
    pub mint_settings: MintSettingsExt,
}

/// The request to create a collection.
#[derive(Debug, Copy, Clone, PartialEq, Eq)]
pub struct CreateInput {
    /// The collection's admin.
    pub admin: AccountId,
    /// The collection's configuration.
    pub config: CollectionConfigExt,
}

/// A collection's details as the runtime keeps them.
#[derive(Debug, Copy, Clone, PartialEq, Eq)]
pub struct CollectionDetailsExt {
    /// The collection's owner.
    pub owner: AccountId,
    /// The deposit reserved by the owner.
    pub owner_deposit: Balance,
    /// The number of items.
    pub items: u32,
    /// The number of items with metadata.
    pub item_metadatas: u32,
    /// The number of items with a configuration.
    pub item_configs: u32,
    /// The number of attributes.
    pub attributes: u32,
}

} // verus!
