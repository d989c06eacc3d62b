use nfts_chain_extension::host::{
    CollectionConfig, MintType, COLLECTION_UNLOCKED_ATTRIBUTES, COLLECTION_UNLOCKED_METADATA,
    DEPOSIT_REQUIRED, ITEM_UNLOCKED_ATTRIBUTES, ITEM_UNLOCKED_METADATA, TRANSFERABLE,
    TRANSFERABLE_ITEMS, UNLOCKED_MAX_SUPPLY,
};
use nfts_chain_extension::translate::{saturate_balance, saturate_block};
use nfts_chain_extension::types::{
    CollectionConfigExt, CollectionSettingsExt, ItemSettingsExt, MintSettingsExt, MintTypeExt,
};

fn config(flags: u32) -> CollectionConfigExt {
    let on = |i: u32| flags & (1 << i) != 0;
    CollectionConfigExt {
        setting: CollectionSettingsExt {
            transferable_items: on(0),
            unlocked_metadata: on(1),
            unlocked_attributes: on(2),
            unlocked_max_supply: on(3),
            deposit_required: on(4),
        },
        max_supply: None,
        mint_settings: MintSettingsExt {
            mint_type: MintTypeExt::Public,
            price: None,
            start_block: None,
            end_block: None,
            default_item_settings: ItemSettingsExt {
                transferable: on(5),
                unlocked_metadata: on(6),
                unlocked_attributes: on(7),
            },
        },
    }
}

#[test]
fn every_named_boolean_sets_exactly_its_bit() {
    for flags in 0u32..512 {
        let c = config(flags);
        let h = CollectionConfig::from_ext(&c);
        let s = h.settings;
        assert_eq!(s.contains(TRANSFERABLE_ITEMS), c.setting.transferable_items);
        assert_eq!(s.contains(COLLECTION_UNLOCKED_METADATA), c.setting.unlocked_metadata);
        assert_eq!(s.contains(COLLECTION_UNLOCKED_ATTRIBUTES), c.setting.unlocked_attributes);
        assert_eq!(s.contains(UNLOCKED_MAX_SUPPLY), c.setting.unlocked_max_supply);
        assert_eq!(s.contains(DEPOSIT_REQUIRED), c.setting.deposit_required);
        let i = h.mint_settings.default_item_settings;
        let d = c.mint_settings.default_item_settings;
        assert_eq!(i.contains(TRANSFERABLE), d.transferable);
        assert_eq!(i.contains(ITEM_UNLOCKED_METADATA), d.unlocked_metadata);
        assert_eq!(i.contains(ITEM_UNLOCKED_ATTRIBUTES), d.unlocked_attributes);
    }
}

#[test]
fn all_settings_on_give_all_bits() {
    let h = CollectionConfig::from_ext(&config(0b1_1111_1111));
    assert_eq!(h.settings.bits, 31);
    assert_eq!(h.mint_settings.default_item_settings.bits, 7);
}

#[test]
fn all_settings_off_give_no_bits() {
    let h = CollectionConfig::from_ext(&config(0));
    assert_eq!(h.settings.bits, 0);
    assert_eq!(h.mint_settings.default_item_settings.bits, 0);
}

#[test]
fn translation_is_deterministic() {
    let c = config(0b1010_0101);
    assert_eq!(CollectionConfig::from_ext(&c), CollectionConfig::from_ext(&c));
}

#[test]
fn price_above_runtime_width_saturates() {
    let mut c = config(0);
    c.mint_settings.price = Some(u128::MAX);
    let h = CollectionConfig::from_ext(&c);
    assert_eq!(h.mint_settings.price, Some(u64::MAX));

    c.mint_settings.price = Some(u64::MAX as u128 + 1);
    assert_eq!(CollectionConfig::from_ext(&c).mint_settings.price, Some(u64::MAX));

    c.mint_settings.price = Some(1_000);
    assert_eq!(CollectionConfig::from_ext(&c).mint_settings.price, Some(1_000));

    c.mint_settings.price = None;
    assert_eq!(CollectionConfig::from_ext(&c).mint_settings.price, None);
}

#[test]
fn saturating_casts() {
    assert_eq!(saturate_balance(u128::MAX), u64::MAX);
    assert_eq!(saturate_balance(u64::MAX as u128), u64::MAX);
    assert_eq!(saturate_balance(7), 7);
    assert_eq!(saturate_block(u32::MAX), u32::MAX);
    assert_eq!(saturate_block(12), 12);
}

#[test]
fn blocks_and_supply_carry_over() {
    let mut c = config(0);
    c.max_supply = Some(10_000);
    c.mint_settings.start_block = Some(5);
    c.mint_settings.end_block = Some(u32::MAX);
    let h = CollectionConfig::from_ext(&c);
    assert_eq!(h.max_supply, Some(10_000));
    assert_eq!(h.mint_settings.start_block, Some(5));
    assert_eq!(h.mint_settings.end_block, Some(u32::MAX));

    c.mint_settings.start_block = None;
    assert_eq!(CollectionConfig::from_ext(&c).mint_settings.start_block, None);
}

#[test]
fn mint_types_translate() {
    let mut c = config(0);
    c.mint_settings.mint_type = MintTypeExt::Issuer;
    assert_eq!(CollectionConfig::from_ext(&c).mint_settings.mint_type, MintType::Issuer);
    c.mint_settings.mint_type = MintTypeExt::Public;
    assert_eq!(CollectionConfig::from_ext(&c).mint_settings.mint_type, MintType::Public);
    c.mint_settings.mint_type = MintTypeExt::HolderOf(42);
    assert_eq!(CollectionConfig::from_ext(&c).mint_settings.mint_type, MintType::HolderOf(42));
}
