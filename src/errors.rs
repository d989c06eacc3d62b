//! The closed set of failure codes that crosses the boundary, and the
//! mapping from the runtime module's failures onto it.
use vstd::prelude::*;
use sp_runtime::{DispatchError, ModuleError};

verus! {

#[verifier::external_type_specification]
#[verifier::external_body]
pub struct ExDispatchError(DispatchError);

/// The status code of a call that succeeded.
pub const SUCCESS_CODE: u32 = 0;

/// Why a call of the extension failed. Each reason has a fixed numeric code
/// (see [`NftsError::code`]); codes are never reassigned, new reasons are
/// appended.
#[derive(Debug, Copy, Clone, PartialEq, Eq)]
pub enum NftsError {
    /// The signing account has no permission to do the operation.
    NoPermission,
    /// The given collection is unknown.
    UnknownCollection,
    /// The item ID has already been used for an item.
    AlreadyExists,
    /// The approval had a deadline that expired, so the approval isn't valid anymore.
    ApprovalExpired,
    /// The owner turned out to be different to what was expected.
    WrongOwner,
    /// The witness data given does not match the current state of the chain.
    BadWitness,
    /// Collection ID is already taken.
    CollectionIdInUse,
    /// Items within that collection are non-transferable.
    ItemsNonTransferable,
    /// The provided account is not a delegate.
    NotDelegate,
    /// The delegate turned out to be different to what was expected.
    WrongDelegate,
    /// No approval exists that would allow the transfer.
    Unapproved,
    /// The named owner has not signed ownership acceptance of the collection.
    Unaccepted,
    /// The item is locked (non-transferable).
    ItemLocked,
    /// Item's attributes are locked.
    LockedItemAttributes,
    /// Collection's attributes are locked.
    LockedCollectionAttributes,
    /// Item's metadata is locked.
    LockedItemMetadata,
    /// Collection's metadata is locked.
    LockedCollectionMetadata,
    /// All items have been minted.
    MaxSupplyReached,
    /// The max supply is locked and can't be changed.
    MaxSupplyLocked,
    /// The provided max supply is less than the number of items a collection already has.
    MaxSupplyTooSmall,
    /// The given item ID is unknown.
    UnknownItem,
    /// Swap doesn't exist.
    UnknownSwap,
    /// The given item has no metadata set.
    MetadataNotFound,
    /// The provided attribute can't be found.
    AttributeNotFound,
    /// Item is not for sale.
    NotForSale,
    /// The provided bid is too low.
    BidTooLow,
    /// The item has reached its approval limit.
    ReachedApprovalLimit,
    /// The deadline has already expired.
    DeadlineExpired,
    /// The duration provided should be less than or equal to `MaxDeadlineDuration`.
    WrongDuration,
    /// The method is disabled by system settings.
    MethodDisabled,
    /// The provided setting can't be set.
    WrongSetting,
    /// Item's config already exists and should be equal to the provided one.
    InconsistentItemConfig,
    /// Config for a collection or an item can't be found.
    NoConfig,
    /// Some roles were not cleared.
    RolesNotCleared,
    /// Mint has not started yet.
    MintNotStarted,
    /// Mint has already ended.
    MintEnded,
    /// The provided Item was already used for claiming.
    AlreadyClaimed,
    /// The provided data is incorrect.
    IncorrectData,
    /// The extrinsic was sent by the wrong origin.
    WrongOrigin,
    /// The provided signature is incorrect.
    WrongSignature,
    /// The provided metadata might be too long.
    IncorrectMetadata,
    /// Can't set more attributes per one call.
    MaxAttributesLimitReached,
    /// The provided namespace isn't supported in this call.
    WrongNamespace,
    /// Can't delete non-empty collections.
    CollectionNotEmpty,
    /// The caller of the contract was asked for as the origin of the operation.
    OriginCannotBeCaller,
    /// A failure of the runtime module that has no code of its own.
    UnknownError,
}

/// A failure reported by the runtime while it performed an operation.
#[derive(Debug, Clone, PartialEq, Eq)]
pub enum HostError {
    /// A failure of a runtime module, with the name of its reason where the
    /// runtime gave one.
    Module { message: Option<String> },
    /// A failure below the modules: the call did not reach a module's logic.
    Other,
}

/// A failure of the call itself, as opposed to a failure code in its answer.
#[derive(Debug, Copy, Clone, PartialEq, Eq)]
pub enum BoundaryFault {
    /// The function identifier names no operation.
    UnsupportedOperation,
    /// The input buffer does not hold the operation's request.
    UndecodableInput,
    /// The output buffer does not hold the answer the operation gives.
    UndecodableOutput,
    /// The status code names no failure.
    UnknownStatusCode,
    /// The runtime failed below its modules.
    NotModuleError,
    /// What the runtime reported is not what the call asked it for.
    MismatchedOutcome,
    /// The runtime could not charge the operation's cost.
    OutOfGas,
}

/// The numeric code of `e`.
pub open spec fn code_of(e: NftsError) -> u32 {
    match e {
        NftsError::NoPermission => 2,
        NftsError::UnknownCollection => 3,
        NftsError::AlreadyExists => 4,
        NftsError::ApprovalExpired => 5,
        NftsError::WrongOwner => 6,
        NftsError::BadWitness => 7,
        NftsError::CollectionIdInUse => 8,
        NftsError::ItemsNonTransferable => 9,
        NftsError::NotDelegate => 10,
        NftsError::WrongDelegate => 11,
        NftsError::Unapproved => 12,
        NftsError::Unaccepted => 13,
        NftsError::ItemLocked => 14,
        NftsError::LockedItemAttributes => 15,
        NftsError::LockedCollectionAttributes => 16,
        NftsError::LockedItemMetadata => 17,
        NftsError::LockedCollectionMetadata => 18,
        NftsError::MaxSupplyReached => 19,
        NftsError::MaxSupplyLocked => 20,
        NftsError::MaxSupplyTooSmall => 21,
        NftsError::UnknownItem => 22,
        NftsError::UnknownSwap => 23,
        NftsError::MetadataNotFound => 24,
        NftsError::AttributeNotFound => 25,
        NftsError::NotForSale => 26,
        NftsError::BidTooLow => 27,
        NftsError::ReachedApprovalLimit => 28,
        NftsError::DeadlineExpired => 29,
        NftsError::WrongDuration => 30,
        NftsError::MethodDisabled => 31,
        NftsError::WrongSetting => 32,
        NftsError::InconsistentItemConfig => 33,
        NftsError::NoConfig => 34,
        NftsError::RolesNotCleared => 35,
        NftsError::MintNotStarted => 36,
        NftsError::MintEnded => 37,
        NftsError::AlreadyClaimed => 38,
        NftsError::IncorrectData => 39,
        NftsError::WrongOrigin => 40,
        NftsError::WrongSignature => 41,
        NftsError::IncorrectMetadata => 42,
        NftsError::MaxAttributesLimitReached => 43,
        NftsError::WrongNamespace => 44,
        NftsError::CollectionNotEmpty => 45,
        NftsError::OriginCannotBeCaller => 46,
        NftsError::UnknownError => 99,
    }
}

/// The failure whose code is `c`, if any.
pub open spec fn error_with_code(c: u32) -> Option<NftsError> {
    if c == 2 {
        Some(NftsError::NoPermission)
    } else if c == 3 {
        Some(NftsError::UnknownCollection)
    } else if c == 4 {
        Some(NftsError::AlreadyExists)
    } else if c == 5 {
        Some(NftsError::ApprovalExpired)
    } else if c == 6 {
        Some(NftsError::WrongOwner)
    } else if c == 7 {
        Some(NftsError::BadWitness)
    } else if c == 8 {
        Some(NftsError::CollectionIdInUse)
    } else if c == 9 {
        Some(NftsError::ItemsNonTransferable)
    } else if c == 10 {
        Some(NftsError::NotDelegate)
    } else if c == 11 {
        Some(NftsError::WrongDelegate)
    } else if c == 12 {
        Some(NftsError::Unapproved)
    } else if c == 13 {
        Some(NftsError::Unaccepted)
    } else if c == 14 {
        Some(NftsError::ItemLocked)
    } else if c == 15 {
        Some(NftsError::LockedItemAttributes)
    } else if c == 16 {
        Some(NftsError::LockedCollectionAttributes)
    } else if c == 17 {
        Some(NftsError::LockedItemMetadata)
    } else if c == 18 {
        Some(NftsError::LockedCollectionMetadata)
    } else if c == 19 {
        Some(NftsError::MaxSupplyReached)
    } else if c == 20 {
        Some(NftsError::MaxSupplyLocked)
    } else if c == 21 {
        Some(NftsError::MaxSupplyTooSmall)
    } else if c == 22 {
        Some(NftsError::UnknownItem)
    } else if c == 23 {
        Some(NftsError::UnknownSwap)
    } else if c == 24 {
        Some(NftsError::MetadataNotFound)
    } else if c == 25 {
        Some(NftsError::AttributeNotFound)
    } else if c == 26 {
        Some(NftsError::NotForSale)
    } else if c == 27 {
        Some(NftsError::BidTooLow)
    } else if c == 28 {
        Some(NftsError::ReachedApprovalLimit)
    } else if c == 29 {
        Some(NftsError::DeadlineExpired)
    } else if c == 30 {
        Some(NftsError::WrongDuration)
    } else if c == 31 {
        Some(NftsError::MethodDisabled)
    } else if c == 32 {
        Some(NftsError::WrongSetting)
    } else if c == 33 {
        Some(NftsError::InconsistentItemConfig)
    } else if c == 34 {
        Some(NftsError::NoConfig)
    } else if c == 35 {
        Some(NftsError::RolesNotCleared)
    } else if c == 36 {
        Some(NftsError::MintNotStarted)
    } else if c == 37 {
        Some(NftsError::MintEnded)
    } else if c == 38 {
        Some(NftsError::AlreadyClaimed)
    } else if c == 39 {
        Some(NftsError::IncorrectData)
    } else if c == 40 {
        Some(NftsError::WrongOrigin)
    } else if c == 41 {
        Some(NftsError::WrongSignature)
    } else if c == 42 {
        Some(NftsError::IncorrectMetadata)
    } else if c == 43 {
        Some(NftsError::MaxAttributesLimitReached)
    } else if c == 44 {
        Some(NftsError::WrongNamespace)
    } else if c == 45 {
        Some(NftsError::CollectionNotEmpty)
    } else if c == 46 {
        Some(NftsError::OriginCannotBeCaller)
    } else if c == 99 {
        Some(NftsError::UnknownError)
    } else {
        None
    }
}

/// The reason name under which the runtime module reports `e`; the two codes
/// that the runtime module has no reason for have no name.
pub open spec fn reason_name(e: NftsError) -> Option<Seq<char>> {
    match e {
        NftsError::NoPermission => Some("NoPermission"@),
        NftsError::UnknownCollection => Some("UnknownCollection"@),
        NftsError::AlreadyExists => Some("AlreadyExists"@),
        NftsError::ApprovalExpired => Some("ApprovalExpired"@),
        NftsError::WrongOwner => Some("WrongOwner"@),
        NftsError::BadWitness => Some("BadWitness"@),
        NftsError::CollectionIdInUse => Some("CollectionIdInUse"@),
        NftsError::ItemsNonTransferable => Some("ItemsNonTransferable"@),
        NftsError::NotDelegate => Some("NotDelegate"@),
        NftsError::WrongDelegate => Some("WrongDelegate"@),
        NftsError::Unapproved => Some("Unapproved"@),
        NftsError::Unaccepted => Some("Unaccepted"@),
        NftsError::ItemLocked => Some("ItemLocked"@),
        NftsError::LockedItemAttributes => Some("LockedItemAttributes"@),
        NftsError::LockedCollectionAttributes => Some("LockedCollectionAttributes"@),
        NftsError::LockedItemMetadata => Some("LockedItemMetadata"@),
        NftsError::LockedCollectionMetadata => Some("LockedCollectionMetadata"@),
        NftsError::MaxSupplyReached => Some("MaxSupplyReached"@),
        NftsError::MaxSupplyLocked => Some("MaxSupplyLocked"@),
        NftsError::MaxSupplyTooSmall => Some("MaxSupplyTooSmall"@),
        NftsError::UnknownItem => Some("UnknownItem"@),
        NftsError::UnknownSwap => Some("UnknownSwap"@),
        NftsError::MetadataNotFound => Some("MetadataNotFound"@),
        NftsError::AttributeNotFound => Some("AttributeNotFound"@),
        NftsError::NotForSale => Some("NotForSale"@),
        NftsError::BidTooLow => Some("BidTooLow"@),
        NftsError::ReachedApprovalLimit => Some("ReachedApprovalLimit"@),
        NftsError::DeadlineExpired => Some("DeadlineExpired"@),
        NftsError::WrongDuration => Some("WrongDuration"@),
        NftsError::MethodDisabled => Some("MethodDisabled"@),
        NftsError::WrongSetting => Some("WrongSetting"@),
        NftsError::InconsistentItemConfig => Some("InconsistentItemConfig"@),
        NftsError::NoConfig => Some("NoConfig"@),
        NftsError::RolesNotCleared => Some("RolesNotCleared"@),
        NftsError::MintNotStarted => Some("MintNotStarted"@),
        NftsError::MintEnded => Some("MintEnded"@),
        NftsError::AlreadyClaimed => Some("AlreadyClaimed"@),
        NftsError::IncorrectData => Some("IncorrectData"@),
        NftsError::WrongOrigin => Some("WrongOrigin"@),
        NftsError::WrongSignature => Some("WrongSignature"@),
        NftsError::IncorrectMetadata => Some("IncorrectMetadata"@),
        NftsError::MaxAttributesLimitReached => Some("MaxAttributesLimitReached"@),
        NftsError::WrongNamespace => Some("WrongNamespace"@),
        NftsError::CollectionNotEmpty => Some("CollectionNotEmpty"@),
        NftsError::OriginCannotBeCaller => None,
        NftsError::UnknownError => None,
    }
}

/// The failure that the reason name `s` stands for, if it is a known one.
pub open spec fn error_named(s: Seq<char>) -> Option<NftsError> {
    if s == "NoPermission"@ {
        Some(NftsError::NoPermission)
    } else if s == "UnknownCollection"@ {
        Some(NftsError::UnknownCollection)
    } else if s == "AlreadyExists"@ {
        Some(NftsError::AlreadyExists)
    } else if s == "ApprovalExpired"@ {
        Some(NftsError::ApprovalExpired)
    } else if s == "WrongOwner"@ {
        Some(NftsError::WrongOwner)
    } else if s == "BadWitness"@ {
        Some(NftsError::BadWitness)
    } else if s == "CollectionIdInUse"@ {
        Some(NftsError::CollectionIdInUse)
    } else if s == "ItemsNonTransferable"@ {
        Some(NftsError::ItemsNonTransferable)
    } else if s == "NotDelegate"@ {
        Some(NftsError::NotDelegate)
    } else if s == "WrongDelegate"@ {
        Some(NftsError::WrongDelegate)
    } else if s == "Unapproved"@ {
        Some(NftsError::Unapproved)
    } else if s == "Unaccepted"@ {
        Some(NftsError::Unaccepted)
    } else if s == "ItemLocked"@ {
        Some(NftsError::ItemLocked)
    } else if s == "LockedItemAttributes"@ {
        Some(NftsError::LockedItemAttributes)
    } else if s == "LockedCollectionAttributes"@ {
        Some(NftsError::LockedCollectionAttributes)
    } else if s == "LockedItemMetadata"@ {
        Some(NftsError::LockedItemMetadata)
    } else if s == "LockedCollectionMetadata"@ {
        Some(NftsError::LockedCollectionMetadata)
    } else if s == "MaxSupplyReached"@ {
        Some(NftsError::MaxSupplyReached)
    } else if s == "MaxSupplyLocked"@ {
        Some(NftsError::MaxSupplyLocked)
    } else if s == "MaxSupplyTooSmall"@ {
        Some(NftsError::MaxSupplyTooSmall)
    } else if s == "UnknownItem"@ {
        Some(NftsError::UnknownItem)
    } else if s == "UnknownSwap"@ {
        Some(NftsError::UnknownSwap)
    } else if s == "MetadataNotFound"@ {
        Some(NftsError::MetadataNotFound)
    } else if s == "AttributeNotFound"@ {
        Some(NftsError::AttributeNotFound)
    } else if s == "NotForSale"@ {
        Some(NftsError::NotForSale)
    } else if s == "BidTooLow"@ {
        Some(NftsError::BidTooLow)
    } else if s == "ReachedApprovalLimit"@ {
        Some(NftsError::ReachedApprovalLimit)
    } else if s == "DeadlineExpired"@ {
        Some(NftsError::DeadlineExpired)
    } else if s == "WrongDuration"@ {
        Some(NftsError::WrongDuration)
    } else if s == "MethodDisabled"@ {
        Some(NftsError::MethodDisabled)
    } else if s == "WrongSetting"@ {
        Some(NftsError::WrongSetting)
    } else if s == "InconsistentItemConfig"@ {
        Some(NftsError::InconsistentItemConfig)
    } else if s == "NoConfig"@ {
        Some(NftsError::NoConfig)
    } else if s == "RolesNotCleared"@ {
        Some(NftsError::RolesNotCleared)
    } else if s == "MintNotStarted"@ {
        Some(NftsError::MintNotStarted)
    } else if s == "MintEnded"@ {
        Some(NftsError::MintEnded)
    } else if s == "AlreadyClaimed"@ {
        Some(NftsError::AlreadyClaimed)
    } else if s == "IncorrectData"@ {
        Some(NftsError::IncorrectData)
    } else if s == "WrongOrigin"@ {
        Some(NftsError::WrongOrigin)
    } else if s == "WrongSignature"@ {
        Some(NftsError::WrongSignature)
    } else if s == "IncorrectMetadata"@ {
        Some(NftsError::IncorrectMetadata)
    } else if s == "MaxAttributesLimitReached"@ {
        Some(NftsError::MaxAttributesLimitReached)
    } else if s == "WrongNamespace"@ {
        Some(NftsError::WrongNamespace)
    } else if s == "CollectionNotEmpty"@ {
        Some(NftsError::CollectionNotEmpty)
    } else {
        None
    }
}

/// The code that a failure of the runtime module is reported as.
pub open spec fn module_error_code(message: Option<Seq<char>>) -> NftsError {
    match message {
        Some(m) => match error_named(m) {
            Some(e) => e,
            None => NftsError::UnknownError,
        },
        None => NftsError::UnknownError,
    }
}

/// Whether `a` and `b` hold the same characters.
fn same_text(a: &str, b: &str) -> (r: bool)
    ensures
        r == (a@ == b@),
{
    let n = a.unicode_len();
    if n != b.unicode_len() {
        return false;
    }
    let mut i: usize = 0;
    while i < n
        invariant
            n == a@.len(),
            n == b@.len(),
            i <= n,
            forall|j: int| 0 <= j < i ==> a@[j] == b@[j],
        decreases n - i,
    {
        if a.get_char(i) != b.get_char(i) {
            return false;
        }
        i = i + 1;
    }
    assert(a@ =~= b@);
    true
}

/// The failure that the reason name `s` stands for, if it is a known one.
fn lookup_reason(s: &str) -> (r: Option<NftsError>)
    ensures
        r == error_named(s@),
{
    if same_text(s, "NoPermission") {
        Some(NftsError::NoPermission)
    } else if same_text(s, "UnknownCollection") {
        Some(NftsError::UnknownCollection)
    } else if same_text(s, "AlreadyExists") {
        Some(NftsError::AlreadyExists)
    } else if same_text(s, "ApprovalExpired") {
        Some(NftsError::ApprovalExpired)
    } else if same_text(s, "WrongOwner") {
        Some(NftsError::WrongOwner)
    } else if same_text(s, "BadWitness") {
        Some(NftsError::BadWitness)
    } else if same_text(s, "CollectionIdInUse") {
        Some(NftsError::CollectionIdInUse)
    } else if same_text(s, "ItemsNonTransferable") {
        Some(NftsError::ItemsNonTransferable)
    } else if same_text(s, "NotDelegate") {
        Some(NftsError::NotDelegate)
    } else if same_text(s, "WrongDelegate") {
        Some(NftsError::WrongDelegate)
    } else if same_text(s, "Unapproved") {
        Some(NftsError::Unapproved)
    } else if same_text(s, "Unaccepted") {
        Some(NftsError::Unaccepted)
    } else if same_text(s, "ItemLocked") {
        Some(NftsError::ItemLocked)
    } else if same_text(s, "LockedItemAttributes") {
        Some(NftsError::LockedItemAttributes)
    } else if same_text(s, "LockedCollectionAttributes") {
        Some(NftsError::LockedCollectionAttributes)
    } else if same_text(s, "LockedItemMetadata") {
        Some(NftsError::LockedItemMetadata)
    } else if same_text(s, "LockedCollectionMetadata") {
        Some(NftsError::LockedCollectionMetadata)
    } else if same_text(s, "MaxSupplyReached") {
        Some(NftsError::MaxSupplyReached)
    } else if same_text(s, "MaxSupplyLocked") {
        Some(NftsError::MaxSupplyLocked)
    } else if same_text(s, "MaxSupplyTooSmall") {
        Some(NftsError::MaxSupplyTooSmall)
    } else if same_text(s, "UnknownItem") {
        Some(NftsError::UnknownItem)
    } else if same_text(s, "UnknownSwap") {
        Some(NftsError::UnknownSwap)
    } else if same_text(s, "MetadataNotFound") {
        Some(NftsError::MetadataNotFound)
    } else if same_text(s, "AttributeNotFound") {
        Some(NftsError::AttributeNotFound)
    } else if same_text(s, "NotForSale") {
        Some(NftsError::NotForSale)
    } else if same_text(s, "BidTooLow") {
        Some(NftsError::BidTooLow)
    } else if same_text(s, "ReachedApprovalLimit") {
        Some(NftsError::ReachedApprovalLimit)
    } else if same_text(s, "DeadlineExpired") {
        Some(NftsError::DeadlineExpired)
    } else if same_text(s, "WrongDuration") {
        Some(NftsError::WrongDuration)
    } else if same_text(s, "MethodDisabled") {
        Some(NftsError::MethodDisabled)
    } else if same_text(s, "WrongSetting") {
        Some(NftsError::WrongSetting)
    } else if same_text(s, "InconsistentItemConfig") {
        Some(NftsError::InconsistentItemConfig)
    } else if same_text(s, "NoConfig") {
        Some(NftsError::NoConfig)
    } else if same_text(s, "RolesNotCleared") {
        Some(NftsError::RolesNotCleared)
    } else if same_text(s, "MintNotStarted") {
        Some(NftsError::MintNotStarted)
    } else if same_text(s, "MintEnded") {
        Some(NftsError::MintEnded)
    } else if same_text(s, "AlreadyClaimed") {
        Some(NftsError::AlreadyClaimed)
    } else if same_text(s, "IncorrectData") {
        Some(NftsError::IncorrectData)
    } else if same_text(s, "WrongOrigin") {
        Some(NftsError::WrongOrigin)
    } else if same_text(s, "WrongSignature") {
        Some(NftsError::WrongSignature)
    } else if same_text(s, "IncorrectMetadata") {
        Some(NftsError::IncorrectMetadata)
    } else if same_text(s, "MaxAttributesLimitReached") {
        Some(NftsError::MaxAttributesLimitReached)
    } else if same_text(s, "WrongNamespace") {
        Some(NftsError::WrongNamespace)
    } else if same_text(s, "CollectionNotEmpty") {
        Some(NftsError::CollectionNotEmpty)
    } else {
        None
    }
}

impl NftsError {
    /// The numeric code of this failure.
    pub fn code(&self) -> (r: u32)
        ensures
            r == code_of(*self),
    {
        match self {
            NftsError::NoPermission => 2,
            NftsError::UnknownCollection => 3,
            NftsError::AlreadyExists => 4,
            NftsError::ApprovalExpired => 5,
            NftsError::WrongOwner => 6,
            NftsError::BadWitness => 7,
            NftsError::CollectionIdInUse => 8,
            NftsError::ItemsNonTransferable => 9,
            NftsError::NotDelegate => 10,
            NftsError::WrongDelegate => 11,
            NftsError::Unapproved => 12,
            NftsError::Unaccepted => 13,
            NftsError::ItemLocked => 14,
            NftsError::LockedItemAttributes => 15,
            NftsError::LockedCollectionAttributes => 16,
            NftsError::LockedItemMetadata => 17,
            NftsError::LockedCollectionMetadata => 18,
            NftsError::MaxSupplyReached => 19,
            NftsError::MaxSupplyLocked => 20,
            NftsError::MaxSupplyTooSmall => 21,
            NftsError::UnknownItem => 22,
            NftsError::UnknownSwap => 23,
            NftsError::MetadataNotFound => 24,
            NftsError::AttributeNotFound => 25,
            NftsError::NotForSale => 26,
            NftsError::BidTooLow => 27,
            NftsError::ReachedApprovalLimit => 28,
            NftsError::DeadlineExpired => 29,
            NftsError::WrongDuration => 30,
            NftsError::MethodDisabled => 31,
            NftsError::WrongSetting => 32,
            NftsError::InconsistentItemConfig => 33,
            NftsError::NoConfig => 34,
            NftsError::RolesNotCleared => 35,
            NftsError::MintNotStarted => 36,
            NftsError::MintEnded => 37,
            NftsError::AlreadyClaimed => 38,
            NftsError::IncorrectData => 39,
            NftsError::WrongOrigin => 40,
            NftsError::WrongSignature => 41,
            NftsError::IncorrectMetadata => 42,
            NftsError::MaxAttributesLimitReached => 43,
            NftsError::WrongNamespace => 44,
            NftsError::CollectionNotEmpty => 45,
            NftsError::OriginCannotBeCaller => 46,
            NftsError::UnknownError => 99,
        }
    }

    /// The failure whose code is `c`, if any.
    pub fn from_code(c: u32) -> (r: Option<NftsError>)
        ensures
            r == error_with_code(c),
    {
        if c == 2 {
            Some(NftsError::NoPermission)
        } else if c == 3 {
            Some(NftsError::UnknownCollection)
        } else if c == 4 {
            Some(NftsError::AlreadyExists)
        } else if c == 5 {
            Some(NftsError::ApprovalExpired)
        } else if c == 6 {
            Some(NftsError::WrongOwner)
        } else if c == 7 {
            Some(NftsError::BadWitness)
        } else if c == 8 {
            Some(NftsError::CollectionIdInUse)
        } else if c == 9 {
            Some(NftsError::ItemsNonTransferable)
        } else if c == 10 {
            Some(NftsError::NotDelegate)
        } else if c == 11 {
            Some(NftsError::WrongDelegate)
        } else if c == 12 {
            Some(NftsError::Unapproved)
        } else if c == 13 {
            Some(NftsError::Unaccepted)
        } else if c == 14 {
            Some(NftsError::ItemLocked)
        } else if c == 15 {
            Some(NftsError::LockedItemAttributes)
        } else if c == 16 {
            Some(NftsError::LockedCollectionAttributes)
        } else if c == 17 {
            Some(NftsError::LockedItemMetadata)
        } else if c == 18 {
            Some(NftsError::LockedCollectionMetadata)
        } else if c == 19 {
            Some(NftsError::MaxSupplyReached)
        } else if c == 20 {
            Some(NftsError::MaxSupplyLocked)
        } else if c == 21 {
            Some(NftsError::MaxSupplyTooSmall)
        } else if c == 22 {
            Some(NftsError::UnknownItem)
        } else if c == 23 {
            Some(NftsError::UnknownSwap)
        } else if c == 24 {
            Some(NftsError::MetadataNotFound)
        } else if c == 25 {
            Some(NftsError::AttributeNotFound)
        } else if c == 26 {
            Some(NftsError::NotForSale)
        } else if c == 27 {
            Some(NftsError::BidTooLow)
        } else if c == 28 {
            Some(NftsError::ReachedApprovalLimit)
        } else if c == 29 {
            Some(NftsError::DeadlineExpired)
        } else if c == 30 {
            Some(NftsError::WrongDuration)
        } else if c == 31 {
            Some(NftsError::MethodDisabled)
        } else if c == 32 {
            Some(NftsError::WrongSetting)
        } else if c == 33 {
            Some(NftsError::InconsistentItemConfig)
        } else if c == 34 {
            Some(NftsError::NoConfig)
        } else if c == 35 {
            Some(NftsError::RolesNotCleared)
        } else if c == 36 {
            Some(NftsError::MintNotStarted)
        } else if c == 37 {
            Some(NftsError::MintEnded)
        } else if c == 38 {
            Some(NftsError::AlreadyClaimed)
        } else if c == 39 {
            Some(NftsError::IncorrectData)
        } else if c == 40 {
            Some(NftsError::WrongOrigin)
        } else if c == 41 {
            Some(NftsError::WrongSignature)
        } else if c == 42 {
            Some(NftsError::IncorrectMetadata)
        } else if c == 43 {
            Some(NftsError::MaxAttributesLimitReached)
        } else if c == 44 {
            Some(NftsError::WrongNamespace)
        } else if c == 45 {
            Some(NftsError::CollectionNotEmpty)
        } else if c == 46 {
            Some(NftsError::OriginCannotBeCaller)
        } else if c == 99 {
            Some(NftsError::UnknownError)
        } else {
            None
        }
    }

    /// The failure code for a failure of the runtime: a module failure whose
    /// reason is a known name maps to the failure of that name, any other
    /// module failure to `UnknownError`; a failure below the modules is no
    /// failure code at all and is passed on as a fault of the call.
    pub fn from_host_error(e: &HostError) -> (r: Result<NftsError, BoundaryFault>)
        ensures
            match e {
                HostError::Module { message } => r == Ok::<NftsError, BoundaryFault>(
                    module_error_code(
                        match message {
                            Some(m) => Some(m@),
                            None => None,
                        },
                    ),
                ),
                HostError::Other => r == Err::<NftsError, BoundaryFault>(
                    BoundaryFault::NotModuleError,
                ),
            },
    {
        match e {
            HostError::Module { message } => match message {
                Some(m) => match lookup_reason(m.as_str()) {
                    Some(found) => Ok(found),
                    None => Ok(NftsError::UnknownError),
                },
                None => Ok(NftsError::UnknownError),
            },
            HostError::Other => Err(BoundaryFault::NotModuleError),
        }
    }
}

/// Every reason name that the runtime module reports is mapped to the failure
/// of that name.
#[verifier::rlimit(100)]
pub proof fn lemma_known_reason_maps_to_its_failure(e: NftsError)
    requires
        reason_name(e) is Some,
    ensures
        module_error_code(reason_name(e)) == e,
{
    reveal_strlit("NoPermission");
    reveal_strlit("UnknownCollection");
    reveal_strlit("AlreadyExists");
    reveal_strlit("ApprovalExpired");
    reveal_strlit("WrongOwner");
    reveal_strlit("BadWitness");
    reveal_strlit("CollectionIdInUse");
    reveal_strlit("ItemsNonTransferable");
    reveal_strlit("NotDelegate");
    reveal_strlit("WrongDelegate");
    reveal_strlit("Unapproved");
    reveal_strlit("Unaccepted");
    reveal_strlit("ItemLocked");
    reveal_strlit("LockedItemAttributes");
    reveal_strlit("LockedCollectionAttributes");
    reveal_strlit("LockedItemMetadata");
    reveal_strlit("LockedCollectionMetadata");
    reveal_strlit("MaxSupplyReached");
    reveal_strlit("MaxSupplyLocked");
    reveal_strlit("MaxSupplyTooSmall");
    reveal_strlit("UnknownItem");
    reveal_strlit("UnknownSwap");
    reveal_strlit("MetadataNotFound");
    reveal_strlit("AttributeNotFound");
    reveal_strlit("NotForSale");
    reveal_strlit("BidTooLow");
    reveal_strlit("ReachedApprovalLimit");
    reveal_strlit("DeadlineExpired");
    reveal_strlit("WrongDuration");
    reveal_strlit("MethodDisabled");
    reveal_strlit("WrongSetting");
    reveal_strlit("InconsistentItemConfig");
    reveal_strlit("NoConfig");
    reveal_strlit("RolesNotCleared");
    reveal_strlit("MintNotStarted");
    reveal_strlit("MintEnded");
    reveal_strlit("AlreadyClaimed");
    reveal_strlit("IncorrectData");
    reveal_strlit("WrongOrigin");
    reveal_strlit("WrongSignature");
    reveal_strlit("IncorrectMetadata");
    reveal_strlit("MaxAttributesLimitReached");
    reveal_strlit("WrongNamespace");
    reveal_strlit("CollectionNotEmpty");
    assert("NoPermission"@.len() == 12);
    assert("UnknownCollection"@.len() == 17);
    assert("AlreadyExists"@.len() == 13);
    assert("ApprovalExpired"@.len() == 15);
    assert("WrongOwner"@.len() == 10);
    assert("BadWitness"@.len() == 10);
    assert("CollectionIdInUse"@.len() == 17);
    assert("ItemsNonTransferable"@.len() == 20);
    assert("NotDelegate"@.len() == 11);
    assert("WrongDelegate"@.len() == 13);
    assert("Unapproved"@.len() == 10);
    assert("Unaccepted"@.len() == 10);
    assert("ItemLocked"@.len() == 10);
    assert("LockedItemAttributes"@.len() == 20);
    assert("LockedCollectionAttributes"@.len() == 26);
    assert("LockedItemMetadata"@.len() == 18);
    assert("LockedCollectionMetadata"@.len() == 24);
    assert("MaxSupplyReached"@.len() == 16);
    assert("MaxSupplyLocked"@.len() == 15);
    assert("MaxSupplyTooSmall"@.len() == 17);
    assert("UnknownItem"@.len() == 11);
    assert("UnknownSwap"@.len() == 11);
    assert("MetadataNotFound"@.len() == 16);
    assert("AttributeNotFound"@.len() == 17);
    assert("NotForSale"@.len() == 10);
    assert("BidTooLow"@.len() == 9);
    assert("ReachedApprovalLimit"@.len() == 20);
    assert("DeadlineExpired"@.len() == 15);
    assert("WrongDuration"@.len() == 13);
    assert("MethodDisabled"@.len() == 14);
    assert("WrongSetting"@.len() == 12);
    assert("InconsistentItemConfig"@.len() == 22);
    assert("NoConfig"@.len() == 8);
    assert("RolesNotCleared"@.len() == 15);
    assert("MintNotStarted"@.len() == 14);
    assert("MintEnded"@.len() == 9);
    assert("AlreadyClaimed"@.len() == 14);
    assert("IncorrectData"@.len() == 13);
    assert("WrongOrigin"@.len() == 11);
    assert("WrongSignature"@.len() == 14);
    assert("IncorrectMetadata"@.len() == 17);
    assert("MaxAttributesLimitReached"@.len() == 25);
    assert("WrongNamespace"@.len() == 14);
    assert("CollectionNotEmpty"@.len() == 18);
    match e {
        NftsError::NoPermission => {},
        NftsError::UnknownCollection => {},
        NftsError::AlreadyExists => {},
        NftsError::ApprovalExpired => {},
        NftsError::WrongOwner => {},
        NftsError::BadWitness => {
            assert("BadWitness"@[0] != "WrongOwner"@[0]);
        },
        NftsError::CollectionIdInUse => {
            assert("CollectionIdInUse"@[0] != "UnknownCollection"@[0]);
        },
        NftsError::ItemsNonTransferable => {},
        NftsError::NotDelegate => {},
        NftsError::WrongDelegate => {
            assert("WrongDelegate"@[0] != "AlreadyExists"@[0]);
        },
        NftsError::Unapproved => {
            assert("Unapproved"@[0] != "WrongOwner"@[0]);
            assert("Unapproved"@[0] != "BadWitness"@[0]);
        },
        NftsError::Unaccepted => {
            assert("Unaccepted"@[0] != "WrongOwner"@[0]);
            assert("Unaccepted"@[0] != "BadWitness"@[0]);
            assert("Unaccepted"@[3] != "Unapproved"@[3]);
        },
        NftsError::ItemLocked => {
            assert("ItemLocked"@[0] != "WrongOwner"@[0]);
            assert("ItemLocked"@[0] != "BadWitness"@[0]);
            assert("ItemLocked"@[0] != "Unapproved"@[0]);
            assert("ItemLocked"@[0] != "Unaccepted"@[0]);
        },
        NftsError::LockedItemAttributes => {
            assert("LockedItemAttributes"@[0] != "ItemsNonTransferable"@[0]);
        },
        NftsError::LockedCollectionAttributes => {},
        NftsError::LockedItemMetadata => {},
        NftsError::LockedCollectionMetadata => {},
        NftsError::MaxSupplyReached => {},
        NftsError::MaxSupplyLocked => {
            assert("MaxSupplyLocked"@[0] != "ApprovalExpired"@[0]);
        },
        NftsError::MaxSupplyTooSmall => {
            assert("MaxSupplyTooSmall"@[0] != "UnknownCollection"@[0]);
            assert("MaxSupplyTooSmall"@[0] != "CollectionIdInUse"@[0]);
        },
        NftsError::UnknownItem => {
            assert("UnknownItem"@[0] != "NotDelegate"@[0]);
        },
        NftsError::UnknownSwap => {
            assert("UnknownSwap"@[0] != "NotDelegate"@[0]);
            assert("UnknownSwap"@[7] != "UnknownItem"@[7]);
        },
        NftsError::MetadataNotFound => {
            assert("MetadataNotFound"@[1] != "MaxSupplyReached"@[1]);
        },
        NftsError::AttributeNotFound => {
            assert("AttributeNotFound"@[0] != "UnknownCollection"@[0]);
            assert("AttributeNotFound"@[0] != "CollectionIdInUse"@[0]);
            assert("AttributeNotFound"@[0] != "MaxSupplyTooSmall"@[0]);
        },
        NftsError::NotForSale => {
            assert("NotForSale"@[0] != "WrongOwner"@[0]);
            assert("NotForSale"@[0] != "BadWitness"@[0]);
            assert("NotForSale"@[0] != "Unapproved"@[0]);
            assert("NotForSale"@[0] != "Unaccepted"@[0]);
            assert("NotForSale"@[0] != "ItemLocked"@[0]);
        },
        NftsError::BidTooLow => {},
        NftsError::ReachedApprovalLimit => {
            assert("ReachedApprovalLimit"@[0] != "ItemsNonTransferable"@[0]);
            assert("ReachedApprovalLimit"@[0] != "LockedItemAttributes"@[0]);
        },
        NftsError::DeadlineExpired => {
            assert("DeadlineExpired"@[0] != "ApprovalExpired"@[0]);
            assert("DeadlineExpired"@[0] != "MaxSupplyLocked"@[0]);
        },
        NftsError::WrongDuration => {
            assert("WrongDuration"@[0] != "AlreadyExists"@[0]);
            assert("WrongDuration"@[6] != "WrongDelegate"@[6]);
        },
        NftsError::MethodDisabled => {},
        NftsError::WrongSetting => {
            assert("WrongSetting"@[0] != "NoPermission"@[0]);
        },
        NftsError::InconsistentItemConfig => {},
        NftsError::NoConfig => {},
        NftsError::RolesNotCleared => {
            assert("RolesNotCleared"@[0] != "ApprovalExpired"@[0]);
            assert("RolesNotCleared"@[0] != "MaxSupplyLocked"@[0]);
            assert("RolesNotCleared"@[0] != "DeadlineExpired"@[0]);
        },
        NftsError::MintNotStarted => {
            assert("MintNotStarted"@[1] != "MethodDisabled"@[1]);
        },
        NftsError::MintEnded => {
            assert("MintEnded"@[0] != "BidTooLow"@[0]);
        },
        NftsError::AlreadyClaimed => {
            assert("AlreadyClaimed"@[0] != "MethodDisabled"@[0]);
            assert("AlreadyClaimed"@[0] != "MintNotStarted"@[0]);
        },
        NftsError::IncorrectData => {
            assert("IncorrectData"@[0] != "AlreadyExists"@[0]);
            assert("IncorrectData"@[0] != "WrongDelegate"@[0]);
            assert("IncorrectData"@[0] != "WrongDuration"@[0]);
        },
        NftsError::WrongOrigin => {
            assert("WrongOrigin"@[0] != "NotDelegate"@[0]);
            assert("WrongOrigin"@[0] != "UnknownItem"@[0]);
            assert("WrongOrigin"@[0] != "UnknownSwap"@[0]);
        },
        NftsError::WrongSignature => {
            assert("WrongSignature"@[0] != "MethodDisabled"@[0]);
            assert("WrongSignature"@[0] != "MintNotStarted"@[0]);
            assert("WrongSignature"@[0] != "AlreadyClaimed"@[0]);
        },
        NftsError::IncorrectMetadata => {
            assert("IncorrectMetadata"@[0] != "UnknownCollection"@[0]);
            assert("IncorrectMetadata"@[0] != "CollectionIdInUse"@[0]);
            assert("IncorrectMetadata"@[0] != "MaxSupplyTooSmall"@[0]);
            assert("IncorrectMetadata"@[0] != "AttributeNotFound"@[0]);
        },
        NftsError::MaxAttributesLimitReached => {},
        NftsError::WrongNamespace => {
            assert("WrongNamespace"@[0] != "MethodDisabled"@[0]);
            assert("WrongNamespace"@[0] != "MintNotStarted"@[0]);
            assert("WrongNamespace"@[0] != "AlreadyClaimed"@[0]);
            assert("WrongNamespace"@[5] != "WrongSignature"@[5]);
        },
        NftsError::CollectionNotEmpty => {
            assert("CollectionNotEmpty"@[0] != "LockedItemMetadata"@[0]);
        },
        _ => {},
    }
}

/// A reason name that no failure has, and a failure without a reason, are
/// mapped to `UnknownError`.
pub proof fn lemma_other_reasons_map_to_unknown(message: Option<Seq<char>>)
    requires
        message is None || forall|e: NftsError| reason_name(e) != message,
    ensures
        module_error_code(message) == NftsError::UnknownError,
{
    if let Some(m) = message {
        if let Some(x) = error_named(m) {
            assert(reason_name(x) == message);
        }
    }
}

/// Codes are one to one: each failure is read back from its code, and no
/// failure has the success code.
pub proof fn lemma_codes_distinct(e: NftsError)
    ensures
        error_with_code(code_of(e)) == Some(e),
        code_of(e) != SUCCESS_CODE,
{
}

impl NftsError {
    /// The outcome that a status code reports: `Ok` for the success code, the
    /// failure for a failure's code; a code that names nothing is a fault.
    pub fn from_status_code(status_code: u32) -> (r: Result<Result<(), NftsError>, BoundaryFault>)
        ensures
            status_code == SUCCESS_CODE ==> r == Ok::<Result<(), NftsError>, BoundaryFault>(Ok(())),
            status_code != SUCCESS_CODE ==> match error_with_code(status_code) {
                Some(e) => r == Ok::<Result<(), NftsError>, BoundaryFault>(Err(e)),
                None => r == Err::<Result<(), NftsError>, BoundaryFault>(
                    BoundaryFault::UnknownStatusCode,
                ),
            },
    {
        if status_code == SUCCESS_CODE {
            Ok(Ok(()))
        } else {
            match NftsError::from_code(status_code) {
                Some(e) => Ok(Err(e)),
                None => Err(BoundaryFault::UnknownStatusCode),
            }
        }
    }
}

/// The runtime failure that the runtime's report `e` stands for.
pub uninterp spec fn host_error_view(e: DispatchError) -> HostError;

/// Relies on the variants of `sp_runtime::DispatchError`: a `Module` failure
/// carries its `ModuleError`, whose `message` is the reason name where the
/// runtime kept one; every other variant is a failure below the modules. The
/// result depends on `e` alone.
#[verifier::external_body]
fn host_error_of(e: &DispatchError) -> (r: HostError)
    ensures
        r == host_error_view(*e),
{
    match e {
        DispatchError::Module(ModuleError { message, .. }) => HostError::Module {
            message: message.map(|m| m.to_string()),
        },
        _ => HostError::Other,
    }
}

impl NftsError {
    /// The failure code for a failure of the runtime as it reports it: the
    /// failure named by a module failure's reason, `UnknownError` for a module
    /// failure without a known reason, and a fault for any other failure.
    pub fn try_from_dispatch_error(e: &DispatchError) -> (r: Result<NftsError, BoundaryFault>)
        ensures
            match host_error_view(*e) {
                HostError::Module { message } => r == Ok::<NftsError, BoundaryFault>(
                    module_error_code(
                        match message {
                            Some(m) => Some(m@),
                            None => None,
                        },
                    ),
                ),
                HostError::Other => r == Err::<NftsError, BoundaryFault>(
                    BoundaryFault::NotModuleError,
                ),
            },
    {
        let h = host_error_of(e);
        NftsError::from_host_error(&h)
    }
}

} // verus!
