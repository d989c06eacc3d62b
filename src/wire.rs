//! The request records on the wire. A record is its fields in order: a
//! boolean is one byte, 0 or 1; an optional value is a byte 0 (absent) or a
//! byte 1 followed by the value; the mint type is a byte 0 (issuer), 1
//! (public) or 2 followed by a collection id; integers are little-endian.
//! Bytes after a record are not read.
use vstd::prelude::*;
use crate::codec::{
    decode_account, decode_bool, decode_u128, decode_u32, decode_u8, encode_account, encode_u128,
    encode_u32, encode_u8, le_value,
};
use crate::types::{
    Balance, CollectionDetailsExt, CollectionConfigExt, CollectionSettingsExt, CreateInput, ItemSettingsExt,
    MintSettingsExt, MintTypeExt,
};

verus! {

#[verifier::opaque]
pub open spec fn parse_bool(b: Seq<u8>) -> Option<(bool, Seq<u8>)> {
    if b.len() >= 1 && b[0] <= 1 {
        Some((b[0] == 1, b.skip(1)))
    } else {
        None
    }
}

#[verifier::opaque]
pub open spec fn parse_u32(b: Seq<u8>) -> Option<(u32, Seq<u8>)> {
    if b.len() >= 4 {
        Some((le_value(b.take(4)) as u32, b.skip(4)))
    } else {
        None
    }
}

#[verifier::opaque]
pub open spec fn parse_u128(b: Seq<u8>) -> Option<(u128, Seq<u8>)> {
    if b.len() >= 16 {
        Some((le_value(b.take(16)) as u128, b.skip(16)))
    } else {
        None
    }
}

#[verifier::opaque]
pub open spec fn parse_option_u32(b: Seq<u8>) -> Option<(Option<u32>, Seq<u8>)> {
    if b.len() >= 1 && b[0] == 0 {
        Some((None, b.skip(1)))
    } else if b.len() >= 1 && b[0] == 1 {
        match parse_u32(b.skip(1)) {
            Some((v, rest)) => Some((Some(v), rest)),
            None => None,
        }
    } else {
        None
    }
}

#[verifier::opaque]
pub open spec fn parse_option_u128(b: Seq<u8>) -> Option<(Option<u128>, Seq<u8>)> {
    if b.len() >= 1 && b[0] == 0 {
        Some((None, b.skip(1)))
    } else if b.len() >= 1 && b[0] == 1 {
        match parse_u128(b.skip(1)) {
            Some((v, rest)) => Some((Some(v), rest)),
            None => None,
        }
    } else {
        None
    }
}

#[verifier::opaque]
pub open spec fn parse_mint_type(b: Seq<u8>) -> Option<(MintTypeExt, Seq<u8>)> {
    if b.len() >= 1 && b[0] == 0 {
        Some((MintTypeExt::Issuer, b.skip(1)))
    } else if b.len() >= 1 && b[0] == 1 {
        Some((MintTypeExt::Public, b.skip(1)))
    } else if b.len() >= 1 && b[0] == 2 {
        match parse_u32(b.skip(1)) {
            Some((id, rest)) => Some((MintTypeExt::HolderOf(id), rest)),
            None => None,
        }
    } else {
        None
    }
}

pub open spec fn parse_collection_settings(b: Seq<u8>) -> Option<(CollectionSettingsExt, Seq<u8>)> {
    match parse_bool(b) {
        None => None,
        Some((t, b1)) => match parse_bool(b1) {
            None => None,
            Some((m, b2)) => match parse_bool(b2) {
                None => None,
                Some((a, b3)) => match parse_bool(b3) {
                    None => None,
                    Some((s, b4)) => match parse_bool(b4) {
                        None => None,
                        Some((d, b5)) => Some(
                            (
                                CollectionSettingsExt {
                                    transferable_items: t,
                                    unlocked_metadata: m,
                                    unlocked_attributes: a,
                                    unlocked_max_supply: s,
                                    deposit_required: d,
                                },
                                b5,
                            ),
                        ),
                    },
                },
            },
        },
    }
}

pub open spec fn parse_item_settings(b: Seq<u8>) -> Option<(ItemSettingsExt, Seq<u8>)> {
    match parse_bool(b) {
        None => None,
        Some((t, b1)) => match parse_bool(b1) {
            None => None,
            Some((m, b2)) => match parse_bool(b2) {
                None => None,
                Some((a, b3)) => Some(
                    (
                        ItemSettingsExt {
                            transferable: t,
                            unlocked_metadata: m,
                            unlocked_attributes: a,
                        },
                        b3,
                    ),
                ),
            },
        },
    }
}

pub open spec fn parse_mint_settings(b: Seq<u8>) -> Option<(MintSettingsExt, Seq<u8>)> {
    match parse_mint_type(b) {
        None => None,
        Some((mint_type, b1)) => match parse_option_u128(b1) {
            None => None,
            Some((price, b2)) => match parse_option_u32(b2) {
                None => None,
                Some((start_block, b3)) => match parse_option_u32(b3) {
                    None => None,
                    Some((end_block, b4)) => match parse_item_settings(b4) {
                        None => None,
                        Some((default_item_settings, b5)) => Some(
                            (
                                MintSettingsExt {
                                    mint_type,
                                    price,
                                    start_block,
                                    end_block,
                                    default_item_settings,
                                },
                                b5,
                            ),
                        ),
                    },
                },
            },
        },
    }
}

pub open spec fn parse_config(b: Seq<u8>) -> Option<(CollectionConfigExt, Seq<u8>)> {
    match parse_collection_settings(b) {
        None => None,
        Some((setting, b1)) => match parse_option_u32(b1) {
            None => None,
            Some((max_supply, b2)) => match parse_mint_settings(b2) {
                None => None,
                Some((mint_settings, b3)) => Some(
                    (CollectionConfigExt { setting, max_supply, mint_settings }, b3),
                ),
            },
        },
    }
}

/// Whether `b` starts with the record of `input`.
pub open spec fn holds_create(b: Seq<u8>, input: CreateInput) -> bool {
    &&& b.len() >= 32
    &&& input.admin@ == b.take(32)
    &&& parse_config(b.skip(32)) matches Some((c, _)) && c == input.config
}

/// Whether `b` starts with a create request at all.
pub open spec fn create_decodes(b: Seq<u8>) -> bool {
    b.len() >= 32 && parse_config(b.skip(32)) is Some
}

/// The fewest bytes a create request takes: the admin, five settings, the
/// tags of the four optional fields and of the mint type, three item
/// settings.
pub const MIN_CREATE_LEN: usize = 45;

fn read_option_u32(b: &[u8]) -> (r: Option<(Option<u32>, &[u8])>)
    ensures
        match parse_option_u32(b@) {
            Some((v, rest)) => r matches Some((w, s)) && w == v && s@ == rest,
            None => r is None,
        },
{
    reveal(parse_option_u32);
    reveal(parse_u32);
    let (tag, rest) = decode_u8(b)?;
    if tag == 0 {
        Some((None, rest))
    } else if tag == 1 {
        let (v, rest) = decode_u32(rest)?;
        Some((Some(v), rest))
    } else {
        None
    }
}

fn read_option_u128(b: &[u8]) -> (r: Option<(Option<Balance>, &[u8])>)
    ensures
        match parse_option_u128(b@) {
            Some((v, rest)) => r matches Some((w, s)) && w == v && s@ == rest,
            None => r is None,
        },
{
    reveal(parse_option_u128);
    reveal(parse_u128);
    let (tag, rest) = decode_u8(b)?;
    if tag == 0 {
        Some((None, rest))
    } else if tag == 1 {
        let (v, rest) = decode_u128(rest)?;
        Some((Some(v), rest))
    } else {
        None
    }
}

fn read_mint_type(b: &[u8]) -> (r: Option<(MintTypeExt, &[u8])>)
    ensures
        match parse_mint_type(b@) {
            Some((v, rest)) => r matches Some((w, s)) && w == v && s@ == rest,
            None => r is None,
        },
{
    reveal(parse_mint_type);
    reveal(parse_u32);
    let (tag, rest) = decode_u8(b)?;
    if tag == 0 {
        Some((MintTypeExt::Issuer, rest))
    } else if tag == 1 {
        Some((MintTypeExt::Public, rest))
    } else if tag == 2 {
        let (id, rest) = decode_u32(rest)?;
        Some((MintTypeExt::HolderOf(id), rest))
    } else {
        None
    }
}

fn read_collection_settings(b: &[u8]) -> (r: Option<(CollectionSettingsExt, &[u8])>)
    ensures
        match parse_collection_settings(b@) {
            Some((v, rest)) => r matches Some((w, s)) && w == v && s@ == rest,
            None => r is None,
        },
{
    reveal(parse_bool);
    let (transferable_items, b) = decode_bool(b)?;
    let (unlocked_metadata, b) = decode_bool(b)?;
    let (unlocked_attributes, b) = decode_bool(b)?;
    let (unlocked_max_supply, b) = decode_bool(b)?;
    let (deposit_required, b) = decode_bool(b)?;
    Some(
        (
            CollectionSettingsExt {
                transferable_items,
                unlocked_metadata,
                unlocked_attributes,
                unlocked_max_supply,
                deposit_required,
            },
            b,
        ),
    )
}

fn read_item_settings(b: &[u8]) -> (r: Option<(ItemSettingsExt, &[u8])>)
    ensures
        match parse_item_settings(b@) {
            Some((v, rest)) => r matches Some((w, s)) && w == v && s@ == rest,
            None => r is None,
        },
{
    reveal(parse_bool);
    let (transferable, b) = decode_bool(b)?;
    let (unlocked_metadata, b) = decode_bool(b)?;
    let (unlocked_attributes, b) = decode_bool(b)?;
    Some((ItemSettingsExt { transferable, unlocked_metadata, unlocked_attributes }, b))
}

fn read_mint_settings(b: &[u8]) -> (r: Option<(MintSettingsExt, &[u8])>)
    ensures
        match parse_mint_settings(b@) {
            Some((v, rest)) => r matches Some((w, s)) && w == v && s@ == rest,
            None => r is None,
        },
{
    let (mint_type, b) = read_mint_type(b)?;
    let (price, b) = read_option_u128(b)?;
    let (start_block, b) = read_option_u32(b)?;
    let (end_block, b) = read_option_u32(b)?;
    let (default_item_settings, b) = read_item_settings(b)?;
    Some((MintSettingsExt { mint_type, price, start_block, end_block, default_item_settings }, b))
}

/// Reads a collection configuration from the front of `b`.
pub fn read_config(b: &[u8]) -> (r: Option<(CollectionConfigExt, &[u8])>)
    ensures
        match parse_config(b@) {
            Some((v, rest)) => r matches Some((w, s)) && w == v && s@ == rest,
            None => r is None,
        },
{
    let (setting, b) = read_collection_settings(b)?;
    let (max_supply, b) = read_option_u32(b)?;
    let (mint_settings, b) = read_mint_settings(b)?;
    Some((CollectionConfigExt { setting, max_supply, mint_settings }, b))
}

/// Reads a create request from the front of `b`: `None` exactly when `b`
/// does not start with one.
pub fn read_create_input(b: &[u8]) -> (r: Option<CreateInput>)
    ensures
        r is Some <==> create_decodes(b@),
        r matches Some(input) ==> holds_create(b@, input),
{
    let (admin, rest) = decode_account(b)?;
    let (config, _) = read_config(rest)?;
    Some(CreateInput { admin, config })
}

/// Reads a collection id from the front of `b`: `None` exactly when `b`
/// holds fewer than four bytes.
pub fn read_collection_id(b: &[u8]) -> (r: Option<u32>)
    ensures
        match parse_u32(b@) {
            Some((v, _)) => r == Some(v),
            None => r is None,
        },
{
    reveal(parse_u32);
    let (id, _) = decode_u32(b)?;
    Some(id)
}

/// A buffer shorter than a request's fewest bytes holds no request.
pub proof fn lemma_short_buffers_do_not_decode(b: Seq<u8>)
    ensures
        b.len() < MIN_CREATE_LEN ==> !create_decodes(b),
        b.len() < 4 ==> parse_u32(b) is None,
{
    reveal(parse_u32);
    if b.len() < MIN_CREATE_LEN && create_decodes(b) {
        lemma_config_len(b.skip(32));
    }
}

/// A configuration takes at least thirteen bytes.
proof fn lemma_config_len(b: Seq<u8>)
    requires
        parse_config(b) is Some,
    ensures
        b.len() >= 13,
{
    reveal(parse_bool);
    reveal(parse_option_u32);
    reveal(parse_u32);
    reveal(parse_mint_type);
    reveal(parse_option_u128);
    reveal(parse_u128);
    let (s, b1) = parse_collection_settings(b).unwrap();
    let (m, b2) = parse_option_u32(b1).unwrap();
    let (t, b3) = parse_mint_type(b2).unwrap();
    let (p, b4) = parse_option_u128(b3).unwrap();
    let (x, b5) = parse_option_u32(b4).unwrap();
    let (y, b6) = parse_option_u32(b5).unwrap();
    let (i, b7) = parse_item_settings(b6).unwrap();
    assert(b1.len() == b.len() - 5);
    assert(b7.len() == b6.len() - 3);
}

/// Whether `b` is the encoding of the collection details `d`: a byte 0 when
/// there are none, else a byte 1, the owner, the deposit and the four counts.
pub open spec fn holds_collection(b: Seq<u8>, d: Option<CollectionDetailsExt>) -> bool {
    match d {
        None => b == seq![0u8],
        Some(x) => {
            &&& b.len() == 65
            &&& b[0] == 1
            &&& b.subrange(1, 33) == x.owner@
            &&& le_value(b.subrange(33, 49)) == x.owner_deposit as nat
            &&& le_value(b.subrange(49, 53)) == x.items as nat
            &&& le_value(b.subrange(53, 57)) == x.item_metadatas as nat
            &&& le_value(b.subrange(57, 61)) == x.item_configs as nat
            &&& le_value(b.subrange(61, 65)) == x.attributes as nat
        },
    }
}

/// The encoding of the collection details `d`.
pub fn encode_collection(d: &Option<CollectionDetailsExt>) -> (r: Vec<u8>)
    ensures
        holds_collection(r@, *d),
{
    let mut out: Vec<u8> = Vec::new();
    match d {
        None => {
            encode_u8(0, &mut out);
            assert(out@ =~= seq![0u8]);
        },
        Some(x) => {
            encode_u8(1, &mut out);
            encode_account(&x.owner, &mut out);
            let ghost o1 = out@;
            assert(o1.len() == 33);
            assert(o1.subrange(1, 33) =~= x.owner@);
            encode_u128(x.owner_deposit, &mut out);
            let ghost o2 = out@;
            encode_u32(x.items, &mut out);
            let ghost o3 = out@;
            encode_u32(x.item_metadatas, &mut out);
            let ghost o4 = out@;
            encode_u32(x.item_configs, &mut out);
            let ghost o5 = out@;
            encode_u32(x.attributes, &mut out);
            let ghost o6 = out@;
            assert(o6[0] == 1) by {
                assert(o6[0] == o5[0] && o5[0] == o4[0] && o4[0] == o3[0] && o3[0] == o2[0]
                    && o2[0] == o1[0]) by {
                    assert(o6.take(61)[0] == o6[0]);
                    assert(o5.take(57)[0] == o5[0]);
                    assert(o4.take(53)[0] == o4[0]);
                    assert(o3.take(49)[0] == o3[0]);
                    assert(o2.take(33)[0] == o2[0]);
                }
            }
            assert(o6.subrange(1, 33) =~= o1.subrange(1, 33));
            assert(o6.subrange(33, 49) =~= o2.skip(33));
            assert(o6.subrange(49, 53) =~= o3.skip(49));
            assert(o6.subrange(53, 57) =~= o4.skip(53));
            assert(o6.subrange(57, 61) =~= o5.skip(57));
            assert(o6.subrange(61, 65) =~= o6.skip(61));
        },
    }
    out
}

/// `new` is `old` followed by some bytes.
pub open spec fn extends(old: Seq<u8>, new: Seq<u8>) -> bool {
    new.len() >= old.len() && new.take(old.len() as int) == old
}

/// The bytes that `new` has after `old`.
pub open spec fn added(old: Seq<u8>, new: Seq<u8>) -> Seq<u8> {
    new.skip(old.len() as int)
}

proof fn lemma_extends_trans(a: Seq<u8>, b: Seq<u8>, c: Seq<u8>)
    requires
        extends(a, b),
        extends(b, c),
    ensures
        extends(a, c),
        added(a, c) == added(a, b) + added(b, c),
{
    assert(c.take(a.len() as int) =~= b.take(a.len() as int));
    assert(added(a, c) =~= added(a, b) + added(b, c));
}

fn write_bool(v: bool, out: &mut Vec<u8>)
    ensures
        extends(old(out)@, final(out)@),
        forall|tail: Seq<u8>| #[trigger] parse_bool(added(old(out)@, final(out)@) + tail) == Some((v, tail)),
{
    reveal(parse_bool);
    crate::codec::encode_bool(v, out);
    let ghost piece = added(old(out)@, out@);
    assert(piece =~= seq![if v { 1u8 } else { 0u8 }]);
    assert forall|tail: Seq<u8>| #[trigger] parse_bool(piece + tail) == Some((v, tail)) by {
        assert((piece + tail).skip(1) =~= tail);
    }
    assert(out@.take(old(out)@.len() as int) =~= old(out)@);
}

fn write_u32(v: u32, out: &mut Vec<u8>)
    ensures
        extends(old(out)@, final(out)@),
        forall|tail: Seq<u8>| #[trigger] parse_u32(added(old(out)@, final(out)@) + tail) == Some((v, tail)),
{
    reveal(parse_u32);
    encode_u32(v, out);
    let ghost piece = added(old(out)@, out@);
    assert forall|tail: Seq<u8>| #[trigger] parse_u32(piece + tail) == Some((v, tail)) by {
        assert((piece + tail).take(4) =~= piece);
        assert((piece + tail).skip(4) =~= tail);
    }
}

fn write_option_u32(v: Option<u32>, out: &mut Vec<u8>)
    ensures
        extends(old(out)@, final(out)@),
        forall|tail: Seq<u8>| #[trigger] parse_option_u32(added(old(out)@, final(out)@) + tail) == Some((v, tail)),
{
    reveal(parse_option_u32);
    let ghost o0 = out@;
    match v {
        None => {
            encode_u8(0, out);
            let ghost piece = added(o0, out@);
            assert(piece =~= seq![0u8]);
            assert forall|tail: Seq<u8>| #[trigger] parse_option_u32(piece + tail) == Some((v, tail)) by {
                assert((piece + tail).skip(1) =~= tail);
            }
            assert(out@.take(o0.len() as int) =~= o0);
        },
        Some(x) => {
            encode_u8(1, out);
            let ghost o1 = out@;
            assert(o1.take(o0.len() as int) =~= o0);
            write_u32(x, out);
            proof {
                lemma_extends_trans(o0, o1, out@);
                let seg1 = added(o0, o1);
                let seg2 = added(o1, out@);
                assert(seg1 =~= seq![1u8]);
                assert forall|tail: Seq<u8>| #[trigger] parse_option_u32(seg1 + seg2 + tail) == Some((v, tail)) by {
                    assert((seg1 + seg2 + tail).skip(1) =~= seg2 + tail);
                    assert(parse_u32(seg2 + tail) == Some((x, tail)));
                }
            }
        },
    }
}

fn write_option_u128(v: Option<Balance>, out: &mut Vec<u8>)
    ensures
        extends(old(out)@, final(out)@),
        forall|tail: Seq<u8>| #[trigger] parse_option_u128(added(old(out)@, final(out)@) + tail) == Some((v, tail)),
{
    reveal(parse_option_u128);
    reveal(parse_u128);
    let ghost o0 = out@;
    match v {
        None => {
            encode_u8(0, out);
            let ghost piece = added(o0, out@);
            assert(piece =~= seq![0u8]);
            assert forall|tail: Seq<u8>| #[trigger] parse_option_u128(piece + tail) == Some((v, tail)) by {
                assert((piece + tail).skip(1) =~= tail);
            }
            assert(out@.take(o0.len() as int) =~= o0);
        },
        Some(x) => {
            encode_u8(1, out);
            let ghost o1 = out@;
            assert(o1.take(o0.len() as int) =~= o0);
            encode_u128(x, out);
            proof {
                lemma_extends_trans(o0, o1, out@);
                let seg1 = added(o0, o1);
                let seg2 = added(o1, out@);
                assert(seg1 =~= seq![1u8]);
                assert forall|tail: Seq<u8>| #[trigger] parse_option_u128(seg1 + seg2 + tail) == Some((v, tail)) by {
                    assert((seg1 + seg2 + tail).skip(1) =~= seg2 + tail);
                    assert((seg2 + tail).take(16) =~= seg2);
                    assert((seg2 + tail).skip(16) =~= tail);
                }
            }
        },
    }
}

fn write_mint_type(v: MintTypeExt, out: &mut Vec<u8>)
    ensures
        extends(old(out)@, final(out)@),
        forall|tail: Seq<u8>| #[trigger] parse_mint_type(added(old(out)@, final(out)@) + tail) == Some((v, tail)),
{
    reveal(parse_mint_type);
    let ghost o0 = out@;
    match v {
        MintTypeExt::HolderOf(id) => {
            encode_u8(2, out);
            let ghost o1 = out@;
            assert(o1.take(o0.len() as int) =~= o0);
            write_u32(id, out);
            proof {
                lemma_extends_trans(o0, o1, out@);
                let seg1 = added(o0, o1);
                let seg2 = added(o1, out@);
                assert(seg1 =~= seq![2u8]);
                assert forall|tail: Seq<u8>| #[trigger] parse_mint_type(seg1 + seg2 + tail) == Some((v, tail)) by {
                    assert((seg1 + seg2 + tail).skip(1) =~= seg2 + tail);
                    assert(parse_u32(seg2 + tail) == Some((id, tail)));
                }
            }
        },
        _ => {
            let tag: u8 = match v {
                MintTypeExt::Issuer => 0,
                _ => 1,
            };
            encode_u8(tag, out);
            let ghost piece = added(o0, out@);
            assert(piece =~= seq![tag]);
            assert forall|tail: Seq<u8>| #[trigger] parse_mint_type(piece + tail) == Some((v, tail)) by {
                assert((piece + tail).skip(1) =~= tail);
            }
            assert(out@.take(o0.len() as int) =~= o0);
        },
    }
}

proof fn lemma_write_collection_settings_parses(
    seg1: Seq<u8>,
    seg2: Seq<u8>,
    seg3: Seq<u8>,
    seg4: Seq<u8>,
    seg5: Seq<u8>,
    tail: Seq<u8>,
    v: CollectionSettingsExt,
)
    requires
        parse_bool(seg1 + (seg2 + seg3 + seg4 + seg5 + tail)) == Some((v.transferable_items, seg2 + seg3 + seg4 + seg5 + tail)),
        parse_bool(seg2 + (seg3 + seg4 + seg5 + tail)) == Some((v.unlocked_metadata, seg3 + seg4 + seg5 + tail)),
        parse_bool(seg3 + (seg4 + seg5 + tail)) == Some((v.unlocked_attributes, seg4 + seg5 + tail)),
        parse_bool(seg4 + (seg5 + tail)) == Some((v.unlocked_max_supply, seg5 + tail)),
        parse_bool(seg5 + tail) == Some((v.deposit_required, tail)),
    ensures
        parse_collection_settings(seg1 + seg2 + seg3 + seg4 + seg5 + tail) == Some((v, tail)),
{
    assert(seg1 + seg2 + seg3 + seg4 + seg5 + tail =~= seg1 + (seg2 + seg3 + seg4 + seg5 + tail));
    assert(seg2 + seg3 + seg4 + seg5 + tail =~= seg2 + (seg3 + seg4 + seg5 + tail));
    assert(seg3 + seg4 + seg5 + tail =~= seg3 + (seg4 + seg5 + tail));
    assert(seg4 + seg5 + tail =~= seg4 + (seg5 + tail));
}

fn write_collection_settings(v: &CollectionSettingsExt, out: &mut Vec<u8>)
    ensures
        extends(old(out)@, final(out)@),
        forall|tail: Seq<u8>| #[trigger] parse_collection_settings(added(old(out)@, final(out)@) + tail) == Some((*v, tail)),
{
    let ghost o0 = out@;
    write_bool(v.transferable_items, out);
    let ghost o1 = out@;
    write_bool(v.unlocked_metadata, out);
    let ghost o2 = out@;
    write_bool(v.unlocked_attributes, out);
    let ghost o3 = out@;
    write_bool(v.unlocked_max_supply, out);
    let ghost o4 = out@;
    write_bool(v.deposit_required, out);
    let ghost o5 = out@;
    proof {
        lemma_extends_trans(o0, o1, o2);
        lemma_extends_trans(o0, o2, o3);
        lemma_extends_trans(o0, o3, o4);
        lemma_extends_trans(o0, o4, o5);
        let seg1 = added(o0, o1);
        let seg2 = added(o1, o2);
        let seg3 = added(o2, o3);
        let seg4 = added(o3, o4);
        let seg5 = added(o4, o5);
        assert(added(o0, o5) == seg1 + seg2 + seg3 + seg4 + seg5);
        assert forall|tail: Seq<u8>| #[trigger] parse_collection_settings(seg1 + seg2 + seg3 + seg4 + seg5 + tail) == Some((*v, tail)) by {
            lemma_write_collection_settings_parses(seg1, seg2, seg3, seg4, seg5, tail, *v);
        }
    }
}

proof fn lemma_write_item_settings_parses(
    seg1: Seq<u8>,
    seg2: Seq<u8>,
    seg3: Seq<u8>,
    tail: Seq<u8>,
    v: ItemSettingsExt,
)
    requires
        parse_bool(seg1 + (seg2 + seg3 + tail)) == Some((v.transferable, seg2 + seg3 + tail)),
        parse_bool(seg2 + (seg3 + tail)) == Some((v.unlocked_metadata, seg3 + tail)),
        parse_bool(seg3 + tail) == Some((v.unlocked_attributes, tail)),
    ensures
        parse_item_settings(seg1 + seg2 + seg3 + tail) == Some((v, tail)),
{
    assert(seg1 + seg2 + seg3 + tail =~= seg1 + (seg2 + seg3 + tail));
    assert(seg2 + seg3 + tail =~= seg2 + (seg3 + tail));
}

fn write_item_settings(v: &ItemSettingsExt, out: &mut Vec<u8>)
    ensures
        extends(old(out)@, final(out)@),
        forall|tail: Seq<u8>| #[trigger] parse_item_settings(added(old(out)@, final(out)@) + tail) == Some((*v, tail)),
{
    let ghost o0 = out@;
    write_bool(v.transferable, out);
    let ghost o1 = out@;
    write_bool(v.unlocked_metadata, out);
    let ghost o2 = out@;
    write_bool(v.unlocked_attributes, out);
    let ghost o3 = out@;
    proof {
        lemma_extends_trans(o0, o1, o2);
        lemma_extends_trans(o0, o2, o3);
        let seg1 = added(o0, o1);
        let seg2 = added(o1, o2);
        let seg3 = added(o2, o3);
        assert(added(o0, o3) == seg1 + seg2 + seg3);
        assert forall|tail: Seq<u8>| #[trigger] parse_item_settings(seg1 + seg2 + seg3 + tail) == Some((*v, tail)) by {
            lemma_write_item_settings_parses(seg1, seg2, seg3, tail, *v);
        }
    }
}

proof fn lemma_write_mint_settings_parses(
    seg1: Seq<u8>,
    seg2: Seq<u8>,
    seg3: Seq<u8>,
    seg4: Seq<u8>,
    seg5: Seq<u8>,
    tail: Seq<u8>,
    v: MintSettingsExt,
)
    requires
        parse_mint_type(seg1 + (seg2 + seg3 + seg4 + seg5 + tail)) == Some((v.mint_type, seg2 + seg3 + seg4 + seg5 + tail)),
        parse_option_u128(seg2 + (seg3 + seg4 + seg5 + tail)) == Some((v.price, seg3 + seg4 + seg5 + tail)),
        parse_option_u32(seg3 + (seg4 + seg5 + tail)) == Some((v.start_block, seg4 + seg5 + tail)),
        parse_option_u32(seg4 + (seg5 + tail)) == Some((v.end_block, seg5 + tail)),
        parse_item_settings(seg5 + tail) == Some((v.default_item_settings, tail)),
    ensures
        parse_mint_settings(seg1 + seg2 + seg3 + seg4 + seg5 + tail) == Some((v, tail)),
{
    assert(seg4 + seg5 + tail =~= seg4 + (seg5 + tail));
    assert(seg3 + seg4 + seg5 + tail =~= seg3 + (seg4 + seg5 + tail));
    assert(seg2 + seg3 + seg4 + seg5 + tail =~= seg2 + (seg3 + seg4 + seg5 + tail));
    assert(seg1 + seg2 + seg3 + seg4 + seg5 + tail =~= seg1 + (seg2 + seg3 + seg4 + seg5 + tail));
}

fn write_mint_settings(v: &MintSettingsExt, out: &mut Vec<u8>)
    ensures
        extends(old(out)@, final(out)@),
        forall|tail: Seq<u8>| #[trigger] parse_mint_settings(added(old(out)@, final(out)@) + tail) == Some((*v, tail)),
{
    let ghost o0 = out@;
    write_mint_type(v.mint_type, out);
    let ghost o1 = out@;
    write_option_u128(v.price, out);
    let ghost o2 = out@;
    write_option_u32(v.start_block, out);
    let ghost o3 = out@;
    write_option_u32(v.end_block, out);
    let ghost o4 = out@;
    write_item_settings(&v.default_item_settings, out);
    let ghost o5 = out@;
    proof {
        lemma_extends_trans(o0, o1, o2);
        lemma_extends_trans(o0, o2, o3);
        lemma_extends_trans(o0, o3, o4);
        lemma_extends_trans(o0, o4, o5);
        let seg1 = added(o0, o1);
        let seg2 = added(o1, o2);
        let seg3 = added(o2, o3);
        let seg4 = added(o3, o4);
        let seg5 = added(o4, o5);
        assert(added(o0, o5) == seg1 + seg2 + seg3 + seg4 + seg5);
        assert forall|tail: Seq<u8>| #[trigger] parse_mint_settings(seg1 + seg2 + seg3 + seg4 + seg5 + tail) == Some((*v, tail)) by {
            lemma_write_mint_settings_parses(seg1, seg2, seg3, seg4, seg5, tail, *v);
        }
    }
}

proof fn lemma_write_config_parses(
    seg1: Seq<u8>,
    seg2: Seq<u8>,
    seg3: Seq<u8>,
    tail: Seq<u8>,
    v: CollectionConfigExt,
)
    requires
        parse_collection_settings(seg1 + (seg2 + seg3 + tail)) == Some((v.setting, seg2 + seg3 + tail)),
        parse_option_u32(seg2 + (seg3 + tail)) == Some((v.max_supply, seg3 + tail)),
        parse_mint_settings(seg3 + tail) == Some((v.mint_settings, tail)),
    ensures
        parse_config(seg1 + seg2 + seg3 + tail) == Some((v, tail)),
{
    assert(seg1 + seg2 + seg3 + tail =~= seg1 + (seg2 + seg3 + tail));
    assert(seg2 + seg3 + tail =~= seg2 + (seg3 + tail));
}

/// Appends the encoding of the configuration `v` to `out`; decoding the
/// appended bytes, followed by anything, gives `v` back.
pub fn write_config(v: &CollectionConfigExt, out: &mut Vec<u8>)
    ensures
        extends(old(out)@, final(out)@),
        forall|tail: Seq<u8>| #[trigger] parse_config(added(old(out)@, final(out)@) + tail) == Some((*v, tail)),
{
    let ghost o0 = out@;
    write_collection_settings(&v.setting, out);
    let ghost o1 = out@;
    write_option_u32(v.max_supply, out);
    let ghost o2 = out@;
    write_mint_settings(&v.mint_settings, out);
    let ghost o3 = out@;
    proof {
        lemma_extends_trans(o0, o1, o2);
        lemma_extends_trans(o0, o2, o3);
        let seg1 = added(o0, o1);
        let seg2 = added(o1, o2);
        let seg3 = added(o2, o3);
        assert(added(o0, o3) == seg1 + seg2 + seg3);
        assert forall|tail: Seq<u8>| #[trigger] parse_config(seg1 + seg2 + seg3 + tail) == Some((*v, tail)) by {
            lemma_write_config_parses(seg1, seg2, seg3, tail, *v);
        }
    }
}

/// Whether `b` is exactly the record of `input`.
pub open spec fn is_create_record(b: Seq<u8>, input: CreateInput) -> bool {
    &&& b.len() >= 32
    &&& input.admin@ == b.take(32)
    &&& parse_config(b.skip(32)) == Some((input.config, Seq::<u8>::empty()))
}

/// The record of the create request `input`: its admin, then its
/// configuration; reading it back gives `input`.
pub fn encode_create_input(input: &CreateInput) -> (r: Vec<u8>)
    ensures
        is_create_record(r@, *input),
        holds_create(r@, *input),
{
    let mut out: Vec<u8> = Vec::new();
    encode_account(&input.admin, &mut out);
    let ghost o1 = out@;
    assert(o1 =~= input.admin@);
    write_config(&input.config, &mut out);
    proof {
        let piece = added(o1, out@);
        assert(out@.take(32) =~= o1);
        assert(out@.skip(32) =~= piece);
        assert(piece + Seq::<u8>::empty() =~= piece);
        assert(parse_config(piece + Seq::<u8>::empty()) == Some((input.config, Seq::<u8>::empty())));
    }
    out
}

/// Reads the collection details that `b` starts with: a byte 0 for none, a
/// byte 1 and sixty-four bytes of details; anything else holds no answer.
pub fn decode_collection(b: &[u8]) -> (r: Option<Option<CollectionDetailsExt>>)
    ensures
        r is Some <==> (b@.len() >= 1 && (b@[0] == 0 || (b@[0] == 1 && b@.len() >= 65))),
        b@.len() >= 1 && b@[0] == 0 ==> r == Some(None::<CollectionDetailsExt>),
        b@.len() >= 1 && b@[0] == 1 ==> (r matches Some(d) ==> d is Some),
        r matches Some(d) ==> holds_collection(b@.take(if d is None { 1int } else { 65int }), d),
{
    let (tag, rest) = decode_u8(b)?;
    if tag == 0 {
        assert(b@.take(1) =~= seq![0u8]);
        Some(None)
    } else if tag == 1 {
        if b.len() < 65 {
            return None;
        }
        let (owner, r1) = decode_account(rest)?;
        let (owner_deposit, r2) = decode_u128(r1)?;
        let (items, r3) = decode_u32(r2)?;
        let (item_metadatas, r4) = decode_u32(r3)?;
        let (item_configs, r5) = decode_u32(r4)?;
        let (attributes, _) = decode_u32(r5)?;
        let d = CollectionDetailsExt {
            owner,
            owner_deposit,
            items,
            item_metadatas,
            item_configs,
            attributes,
        };
        let ghost t = b@.take(65);
        assert(t.subrange(1, 33) =~= rest@.take(32));
        assert(t.subrange(33, 49) =~= r1@.take(16));
        assert(t.subrange(49, 53) =~= r2@.take(4));
        assert(t.subrange(53, 57) =~= r3@.take(4));
        assert(t.subrange(57, 61) =~= r4@.take(4));
        assert(t.subrange(61, 65) =~= r5@.take(4));
        Some(Some(d))
    } else {
        None
    }
}

} // verus!
