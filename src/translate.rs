//! Translation of a collection configuration from the contract side's record
//! to the runtime module's: named booleans become bits, numbers are cast with
//! saturation, everything else is carried over.
use vstd::prelude::*;
use crate::host::{
    CollectionConfig, CollectionSettings, HostBalance, HostBlockNumber, ItemSettings, MintSettings,
    MintType, COLLECTION_UNLOCKED_ATTRIBUTES, COLLECTION_UNLOCKED_METADATA, DEPOSIT_REQUIRED,
    ITEM_UNLOCKED_ATTRIBUTES, ITEM_UNLOCKED_METADATA, TRANSFERABLE, TRANSFERABLE_ITEMS,
    UNLOCKED_MAX_SUPPLY,
};
use crate::types::{
    Balance, BlockNumber, CollectionConfigExt, CollectionSettingsExt, ItemSettingsExt, MintTypeExt,
};

verus! {

/// `bit` when `on`, else no bit.
pub open spec fn flag(on: bool, bit: u64) -> u64 {
    if on {
        bit
    } else {
        0
    }
}

/// The bit set that stands for a collection's named settings.
pub open spec fn collection_bits(s: CollectionSettingsExt) -> u64 {
    flag(s.transferable_items, TRANSFERABLE_ITEMS) | flag(s.unlocked_metadata, COLLECTION_UNLOCKED_METADATA)
        | flag(s.unlocked_attributes, COLLECTION_UNLOCKED_ATTRIBUTES) | flag(
        s.unlocked_max_supply,
        UNLOCKED_MAX_SUPPLY,
    ) | flag(s.deposit_required, DEPOSIT_REQUIRED)
}

/// The bit set that stands for an item's named settings.
pub open spec fn item_bits(s: ItemSettingsExt) -> u64 {
    flag(s.transferable, TRANSFERABLE) | flag(s.unlocked_metadata, ITEM_UNLOCKED_METADATA) | flag(
        s.unlocked_attributes,
        ITEM_UNLOCKED_ATTRIBUTES,
    )
}

/// `x`, or `max` where `x` is above it.
pub open spec fn saturate(x: int, max: int) -> int {
    if x > max {
        max
    } else {
        x
    }
}

pub open spec fn price_to_host(p: Option<Balance>) -> Option<HostBalance> {
    match p {
        Some(x) => Some(saturate(x as int, HostBalance::MAX as int) as HostBalance),
        None => None,
    }
}

pub open spec fn block_to_host(b: Option<BlockNumber>) -> Option<HostBlockNumber> {
    match b {
        Some(x) => Some(saturate(x as int, HostBlockNumber::MAX as int) as HostBlockNumber),
        None => None,
    }
}

pub open spec fn mint_type_to_host(m: MintTypeExt) -> MintType {
    match m {
        MintTypeExt::Issuer => MintType::Issuer,
        MintTypeExt::Public => MintType::Public,
        MintTypeExt::HolderOf(id) => MintType::HolderOf(id),
    }
}

/// The runtime module's configuration for the contract side's `c`.
pub open spec fn config_to_host(c: CollectionConfigExt) -> CollectionConfig {
    CollectionConfig {
        settings: CollectionSettings { bits: collection_bits(c.setting) },
        max_supply: c.max_supply,
        mint_settings: MintSettings {
            mint_type: mint_type_to_host(c.mint_settings.mint_type),
            price: price_to_host(c.mint_settings.price),
            start_block: block_to_host(c.mint_settings.start_block),
            end_block: block_to_host(c.mint_settings.end_block),
            default_item_settings: ItemSettings {
                bits: item_bits(c.mint_settings.default_item_settings),
            },
        },
    }
}

fn set_if(bits: u64, on: bool, bit: u64) -> (r: u64)
    ensures
        r == bits | flag(on, bit),
{
    if on {
        bits | bit
    } else {
        assert(bits | 0 == bits) by (bit_vector);
        bits
    }
}

/// A balance cast to the runtime's width, saturating.
pub fn saturate_balance(x: Balance) -> (r: HostBalance)
    ensures
        r as int == saturate(x as int, HostBalance::MAX as int),
{
    if x > HostBalance::MAX as Balance {
        HostBalance::MAX
    } else {
        x as HostBalance
    }
}

/// A block number cast to the runtime's width, saturating.
pub fn saturate_block(x: BlockNumber) -> (r: HostBlockNumber)
    ensures
        r as int == saturate(x as int, HostBlockNumber::MAX as int),
{
    x as HostBlockNumber
}

fn opt_block_to_host(b: Option<BlockNumber>) -> (r: Option<HostBlockNumber>)
    ensures
        r == block_to_host(b),
{
    match b {
        Some(x) => Some(saturate_block(x)),
        None => None,
    }
}

impl CollectionConfig {
    /// The runtime module's configuration for the contract side's `c`: each
    /// named boolean sets its bit exactly when it is true, the maximum supply
    /// and the mint type are carried over, prices and blocks are cast with
    /// saturation.
    pub fn from_ext(c: &CollectionConfigExt) -> (r: CollectionConfig)
        ensures
            r == config_to_host(*c),
    {
        let s = &c.setting;
        let mut settings: u64 = 0;
        assert(0u64 | flag(s.transferable_items, TRANSFERABLE_ITEMS) == flag(
            s.transferable_items,
            TRANSFERABLE_ITEMS,
        )) by (bit_vector);
        settings = set_if(settings, s.transferable_items, TRANSFERABLE_ITEMS);
        settings = set_if(settings, s.unlocked_metadata, COLLECTION_UNLOCKED_METADATA);
        settings = set_if(settings, s.unlocked_attributes, COLLECTION_UNLOCKED_ATTRIBUTES);
        settings = set_if(settings, s.unlocked_max_supply, UNLOCKED_MAX_SUPPLY);
        settings = set_if(settings, s.deposit_required, DEPOSIT_REQUIRED);

        let m = &c.mint_settings;
        let d = &m.default_item_settings;
        let mut items: u64 = 0;
        assert(0u64 | flag(d.transferable, TRANSFERABLE) == flag(d.transferable, TRANSFERABLE))
            by (bit_vector);
        items = set_if(items, d.transferable, TRANSFERABLE);
        items = set_if(items, d.unlocked_metadata, ITEM_UNLOCKED_METADATA);
        items = set_if(items, d.unlocked_attributes, ITEM_UNLOCKED_ATTRIBUTES);

        let mint_type = match m.mint_type {
            MintTypeExt::Issuer => MintType::Issuer,
            MintTypeExt::Public => MintType::Public,
            MintTypeExt::HolderOf(id) => MintType::HolderOf(id),
        };
        let price = match m.price {
            Some(x) => Some(saturate_balance(x)),
            None => None,
        };
        CollectionConfig {
            settings: CollectionSettings { bits: settings },
            max_supply: c.max_supply,
            mint_settings: MintSettings {
                mint_type,
                price,
                start_block: opt_block_to_host(m.start_block),
                end_block: opt_block_to_host(m.end_block),
                default_item_settings: ItemSettings { bits: items },
            },
        }
    }
}

proof fn lemma_five_flags(a: bool, b: bool, c: bool, d: bool, e: bool)
    ensures
        ({
            let x = flag(a, 1) | flag(b, 2) | flag(c, 4) | flag(d, 8) | flag(e, 16);
            &&& (x & 1 != 0) == a
            &&& (x & 2 != 0) == b
            &&& (x & 4 != 0) == c
            &&& (x & 8 != 0) == d
            &&& (x & 16 != 0) == e
        }),
{
    let fa = flag(a, 1);
    let fb = flag(b, 2);
    let fc = flag(c, 4);
    let fd = flag(d, 8);
    let fe = flag(e, 16);
    assert(fa == 0 || fa == 1);
    assert(fb == 0 || fb == 2);
    assert(fc == 0 || fc == 4);
    assert(fd == 0 || fd == 8);
    assert(fe == 0 || fe == 16);
    assert(
        (fa == 0 || fa == 1) && (fb == 0 || fb == 2) && (fc == 0 || fc == 4) && (fd == 0 || fd == 8)
            && (fe == 0 || fe == 16) ==> {
            let y = fa | fb | fc | fd | fe;
            &&& (y & 1 != 0) == (fa == 1)
            &&& (y & 2 != 0) == (fb == 2)
            &&& (y & 4 != 0) == (fc == 4)
            &&& (y & 8 != 0) == (fd == 8)
            &&& (y & 16 != 0) == (fe == 16)
        }
    ) by (bit_vector);
}

/// Translation is a projection of named booleans onto bits: in the result,
/// each of the nine settings' bits is set exactly when its named boolean is
/// true, whatever the other settings are.
pub proof fn lemma_settings_bits_match(c: CollectionConfigExt)
    ensures
        ({
            let h = config_to_host(c);
            let s = h.settings.bits;
            let i = h.mint_settings.default_item_settings.bits;
            &&& (s & TRANSFERABLE_ITEMS != 0) == c.setting.transferable_items
            &&& (s & COLLECTION_UNLOCKED_METADATA != 0) == c.setting.unlocked_metadata
            &&& (s & COLLECTION_UNLOCKED_ATTRIBUTES != 0) == c.setting.unlocked_attributes
            &&& (s & UNLOCKED_MAX_SUPPLY != 0) == c.setting.unlocked_max_supply
            &&& (s & DEPOSIT_REQUIRED != 0) == c.setting.deposit_required
            &&& (i & TRANSFERABLE != 0) == c.mint_settings.default_item_settings.transferable
            &&& (i & ITEM_UNLOCKED_METADATA != 0)
                == c.mint_settings.default_item_settings.unlocked_metadata
            &&& (i & ITEM_UNLOCKED_ATTRIBUTES != 0)
                == c.mint_settings.default_item_settings.unlocked_attributes
        }),
{
    let s = c.setting;
    let d = c.mint_settings.default_item_settings;
    lemma_five_flags(
        s.transferable_items,
        s.unlocked_metadata,
        s.unlocked_attributes,
        s.unlocked_max_supply,
        s.deposit_required,
    );
    lemma_five_flags(d.transferable, d.unlocked_metadata, d.unlocked_attributes, false, false);
    assert(flag(d.transferable, 1) | flag(d.unlocked_metadata, 2) | flag(d.unlocked_attributes, 4)
        == flag(d.transferable, 1) | flag(d.unlocked_metadata, 2) | flag(d.unlocked_attributes, 4)
        | flag(false, 8) | flag(false, 16)) by {
        let y = flag(d.transferable, 1) | flag(d.unlocked_metadata, 2) | flag(d.unlocked_attributes, 4);
        assert(y | 0u64 | 0u64 == y) by (bit_vector);
    }
}

/// Translation depends on the configuration alone: equal configurations give
/// equal results.
pub proof fn lemma_translation_deterministic(a: CollectionConfigExt, b: CollectionConfigExt)
    requires
        a == b,
    ensures
        config_to_host(a) == config_to_host(b),
{
}

/// Prices and blocks saturate: a value above the runtime's width becomes that
/// width's maximum, a value within it is kept, and an absent one stays absent.
pub proof fn lemma_numbers_saturate(c: CollectionConfigExt)
    ensures
        ({
            let m = c.mint_settings;
            let h = config_to_host(c).mint_settings;
            &&& m.price is None <==> h.price is None
            &&& m.price matches Some(p) ==> (p > HostBalance::MAX ==> h.price == Some(HostBalance::MAX))
                && (p <= HostBalance::MAX ==> h.price == Some(p as HostBalance))
            &&& m.start_block is None <==> h.start_block is None
            &&& m.start_block matches Some(x) ==> h.start_block == Some(x as HostBlockNumber)
            &&& m.end_block is None <==> h.end_block is None
            &&& m.end_block matches Some(x) ==> h.end_block == Some(x as HostBlockNumber)
        }),
{
}

} // verus!
