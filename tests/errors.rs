use nfts_chain_extension::errors::{BoundaryFault, HostError, NftsError, SUCCESS_CODE};
use nfts_chain_extension::extension::NftsExtension;
use sp_runtime::DispatchError;

fn known() -> Vec<(&'static str, NftsError, u32)> {
    vec![
        ("NoPermission", NftsError::NoPermission, 2),
        ("UnknownCollection", NftsError::UnknownCollection, 3),
        ("AlreadyExists", NftsError::AlreadyExists, 4),
        ("ApprovalExpired", NftsError::ApprovalExpired, 5),
        ("WrongOwner", NftsError::WrongOwner, 6),
        ("BadWitness", NftsError::BadWitness, 7),
        ("CollectionIdInUse", NftsError::CollectionIdInUse, 8),
        ("ItemsNonTransferable", NftsError::ItemsNonTransferable, 9),
        ("NotDelegate", NftsError::NotDelegate, 10),
        ("WrongDelegate", NftsError::WrongDelegate, 11),
        ("Unapproved", NftsError::Unapproved, 12),
        ("Unaccepted", NftsError::Unaccepted, 13),
        ("ItemLocked", NftsError::ItemLocked, 14),
        ("LockedItemAttributes", NftsError::LockedItemAttributes, 15),
        ("LockedCollectionAttributes", NftsError::LockedCollectionAttributes, 16),
        ("LockedItemMetadata", NftsError::LockedItemMetadata, 17),
        ("LockedCollectionMetadata", NftsError::LockedCollectionMetadata, 18),
        ("MaxSupplyReached", NftsError::MaxSupplyReached, 19),
        ("MaxSupplyLocked", NftsError::MaxSupplyLocked, 20),
        ("MaxSupplyTooSmall", NftsError::MaxSupplyTooSmall, 21),
        ("UnknownItem", NftsError::UnknownItem, 22),
        ("UnknownSwap", NftsError::UnknownSwap, 23),
        ("MetadataNotFound", NftsError::MetadataNotFound, 24),
        ("AttributeNotFound", NftsError::AttributeNotFound, 25),
        ("NotForSale", NftsError::NotForSale, 26),
        ("BidTooLow", NftsError::BidTooLow, 27),
        ("ReachedApprovalLimit", NftsError::ReachedApprovalLimit, 28),
        ("DeadlineExpired", NftsError::DeadlineExpired, 29),
        ("WrongDuration", NftsError::WrongDuration, 30),
        ("MethodDisabled", NftsError::MethodDisabled, 31),
        ("WrongSetting", NftsError::WrongSetting, 32),
        ("InconsistentItemConfig", NftsError::InconsistentItemConfig, 33),
        ("NoConfig", NftsError::NoConfig, 34),
        ("RolesNotCleared", NftsError::RolesNotCleared, 35),
        ("MintNotStarted", NftsError::MintNotStarted, 36),
        ("MintEnded", NftsError::MintEnded, 37),
        ("AlreadyClaimed", NftsError::AlreadyClaimed, 38),
        ("IncorrectData", NftsError::IncorrectData, 39),
        ("WrongOrigin", NftsError::WrongOrigin, 40),
        ("WrongSignature", NftsError::WrongSignature, 41),
        ("IncorrectMetadata", NftsError::IncorrectMetadata, 42),
        ("MaxAttributesLimitReached", NftsError::MaxAttributesLimitReached, 43),
        ("WrongNamespace", NftsError::WrongNamespace, 44),
        ("CollectionNotEmpty", NftsError::CollectionNotEmpty, 45),
    ]
}

fn module(message: &str) -> HostError {
    HostError::Module { message: Some(message.to_string()) }
}

#[test]
fn every_known_reason_maps_to_its_code() {
    for (name, error, code) in known() {
        assert_eq!(NftsError::from_host_error(&module(name)), Ok(error));
        assert_eq!(error.code(), code);
    }
}

#[test]
fn unknown_reason_maps_to_unknown_error() {
    assert_eq!(NftsError::from_host_error(&module("SomethingElse")), Ok(NftsError::UnknownError));
    assert_eq!(NftsError::from_host_error(&module("")), Ok(NftsError::UnknownError));
    assert_eq!(NftsError::from_host_error(&module("nopermission")), Ok(NftsError::UnknownError));
    assert_eq!(NftsError::from_host_error(&module("NoPermission ")), Ok(NftsError::UnknownError));
    assert_eq!(NftsError::from_host_error(&module("OriginCannotBeCaller")), Ok(NftsError::UnknownError));
}

#[test]
fn missing_reason_maps_to_unknown_error() {
    let e = HostError::Module { message: None };
    assert_eq!(NftsError::from_host_error(&e), Ok(NftsError::UnknownError));
}

#[test]
fn failure_below_modules_is_a_fault() {
    assert_eq!(NftsError::from_host_error(&HostError::Other), Err(BoundaryFault::NotModuleError));
}

#[test]
fn fixed_code_values() {
    assert_eq!(SUCCESS_CODE, 0);
    assert_eq!(NftsError::NoPermission.code(), 2);
    assert_eq!(NftsError::CollectionNotEmpty.code(), 45);
    assert_eq!(NftsError::OriginCannotBeCaller.code(), 46);
    assert_eq!(NftsError::UnknownError.code(), 99);
}

#[test]
fn codes_read_back() {
    for (_, error, code) in known() {
        assert_eq!(NftsError::from_code(code), Some(error));
        assert_eq!(NftsError::from_status_code(code), Ok(Err(error)));
    }
    assert_eq!(NftsError::from_code(99), Some(NftsError::UnknownError));
    assert_eq!(NftsError::from_code(1), None);
    assert_eq!(NftsError::from_code(0), None);
    assert_eq!(NftsError::from_code(47), None);
}

#[test]
fn status_codes_under_the_typed_policy() {
    assert_eq!(NftsExtension::create_result_from(0), Ok(Ok(())));
    assert_eq!(NftsExtension::create_result_from(46), Ok(Err(NftsError::OriginCannotBeCaller)));
    assert_eq!(NftsExtension::create_result_from(3), Ok(Err(NftsError::UnknownCollection)));
    assert_eq!(NftsExtension::create_result_from(1), Err(BoundaryFault::UnknownStatusCode));
    assert_eq!(NftsExtension::create_result_from(500), Err(BoundaryFault::UnknownStatusCode));
}

fn dispatch_module(message: Option<&'static str>) -> DispatchError {
    DispatchError::Module(sp_runtime::ModuleError { index: 7, error: [1, 0, 0, 0], message })
}

#[test]
fn dispatch_module_errors_map_by_reason() {
    for (name, error, _) in known() {
        let leaked: &'static str = Box::leak(name.to_string().into_boxed_str());
        assert_eq!(NftsError::try_from_dispatch_error(&dispatch_module(Some(leaked))), Ok(error));
    }
    assert_eq!(
        NftsError::try_from_dispatch_error(&dispatch_module(Some("NotAReason"))),
        Ok(NftsError::UnknownError)
    );
    assert_eq!(NftsError::try_from_dispatch_error(&dispatch_module(None)), Ok(NftsError::UnknownError));
}

#[test]
fn dispatch_errors_below_modules_are_faults() {
    for e in [
        DispatchError::Other("NoPermission"),
        DispatchError::BadOrigin,
        DispatchError::CannotLookup,
        DispatchError::Exhausted,
    ] {
        assert_eq!(NftsError::try_from_dispatch_error(&e), Err(BoundaryFault::NotModuleError));
    }
}
