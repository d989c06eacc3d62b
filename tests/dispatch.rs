use std::collections::HashMap;

use nfts_chain_extension::dispatch::{
    complete_call, plan_call, Cost, HostCall, HostOutcome, NftsFunc, Response, Step,
};
use nfts_chain_extension::errors::{BoundaryFault, HostError, NftsError, SUCCESS_CODE};
use nfts_chain_extension::extension::NftsExtension;
use nfts_chain_extension::host::{CollectionConfig, MintType};
use nfts_chain_extension::types::{
    CollectionConfigExt, CollectionDetailsExt, CollectionSettingsExt, CreateInput,
    ItemSettingsExt, MintSettingsExt, MintTypeExt, Origin,
};

const CONTRACT: [u8; 32] = [7u8; 32];

/// A runtime with collections in memory.
struct Runtime {
    collections: HashMap<u32, CollectionDetailsExt>,
    configs: HashMap<u32, CollectionConfig>,
    next_id: u32,
    charged: Vec<Cost>,
    invoked: usize,
    fail_with: Option<HostError>,
}

impl Runtime {
    fn new() -> Self {
        Runtime {
            collections: HashMap::new(),
            configs: HashMap::new(),
            next_id: 0,
            charged: Vec::new(),
            invoked: 0,
            fail_with: None,
        }
    }

    fn perform(&mut self, call: HostCall) -> HostOutcome {
        self.invoked += 1;
        match call {
            HostCall::CreateCollection { owner, admin: _, config } => {
                if let Some(e) = self.fail_with.clone() {
                    return HostOutcome::Created(Err(e));
                }
                let id = self.next_id;
                self.next_id += 1;
                self.collections.insert(
                    id,
                    CollectionDetailsExt {
                        owner,
                        owner_deposit: 0,
                        items: 0,
                        item_metadatas: 0,
                        item_configs: 0,
                        attributes: 0,
                    },
                );
                self.configs.insert(id, config);
                HostOutcome::Created(Ok(()))
            }
            HostCall::ReadCollection { id } => {
                HostOutcome::Collection(self.collections.get(&id).copied())
            }
            HostCall::ReadApprovalsLimit => HostOutcome::Count(20),
            HostCall::ReadAttributeDepositBase => HostOutcome::Amount(1_000),
            HostCall::ReadCollectionDeposit => HostOutcome::Amount(u128::MAX),
            HostCall::ReadDepositPerByte => HostOutcome::Amount(3),
        }
    }

    fn call(&mut self, func_id: u32, input: &[u8], origin: Origin) -> Result<Response, BoundaryFault> {
        let plan = plan_call(func_id, input, origin, CONTRACT)?;
        self.charged.push(plan.cost);
        match plan.step {
            Step::Reply(status) => Ok(Response { status, output: Vec::new() }),
            Step::Invoke(call) => {
                let outcome = self.perform(call);
                complete_call(&call, &outcome)
            }
        }
    }
}

fn default_config() -> CollectionConfigExt {
    CollectionConfigExt {
        setting: CollectionSettingsExt {
            transferable_items: false,
            unlocked_metadata: false,
            unlocked_attributes: false,
            unlocked_max_supply: false,
            deposit_required: false,
        },
        max_supply: None,
        mint_settings: MintSettingsExt {
            mint_type: MintTypeExt::Public,
            price: None,
            start_block: None,
            end_block: None,
            default_item_settings: ItemSettingsExt {
                transferable: false,
                unlocked_metadata: false,
                unlocked_attributes: false,
            },
        },
    }
}

fn create_request() -> Vec<u8> {
    NftsExtension::create(&CreateInput { admin: [0u8; 32], config: default_config() }).input
}

#[test]
fn create_then_collection_is_visible() {
    let mut rt = Runtime::new();
    let call = NftsExtension::create(&CreateInput { admin: [0u8; 32], config: default_config() });
    assert_eq!(call.func_id, 1);
    let resp = rt.call(call.func_id, &call.input, Origin::Address).unwrap();
    assert_eq!(resp.status, SUCCESS_CODE);
    assert!(resp.output.is_empty());
    assert_eq!(NftsExtension::create_result_from(resp.status), Ok(Ok(())));
    assert_eq!(rt.charged, vec![Cost::CreateCollection]);

    let query = NftsExtension::get_collection(0);
    let resp = rt.call(query.func_id, &query.input, Origin::Address).unwrap();
    assert_eq!(resp.status, SUCCESS_CODE);
    let details = NftsExtension::collection_from(&resp.output).unwrap().unwrap();
    assert_eq!(details.owner, CONTRACT);
    assert_eq!(details.items, 0);
    assert_eq!(rt.configs[&0].settings.bits, 0);
    assert_eq!(rt.configs[&0].mint_settings.mint_type, MintType::Public);
}

#[test]
fn collection_never_created_is_absent() {
    let mut rt = Runtime::new();
    let query = NftsExtension::get_collection(5);
    let resp = rt.call(query.func_id, &query.input, Origin::Address).unwrap();
    assert_eq!(resp.status, SUCCESS_CODE);
    assert_eq!(resp.output, vec![0u8]);
    assert_eq!(NftsExtension::collection_from(&resp.output), Ok(None));
    assert_eq!(rt.charged, vec![Cost::StorageRead]);
}

#[test]
fn unmapped_function_id_is_a_fault() {
    let mut rt = Runtime::new();
    assert_eq!(rt.call(999, &create_request(), Origin::Address), Err(BoundaryFault::UnsupportedOperation));
    assert_eq!(rt.call(0, &[], Origin::Address), Err(BoundaryFault::UnsupportedOperation));
    assert_eq!(rt.call(3, &[], Origin::Address), Err(BoundaryFault::UnsupportedOperation));
    assert!(rt.charged.is_empty());
    assert_eq!(rt.invoked, 0);
}

#[test]
fn caller_origin_is_refused_without_invoking() {
    let mut rt = Runtime::new();
    let resp = rt.call(1, &create_request(), Origin::Caller).unwrap();
    assert_eq!(resp.status, NftsError::OriginCannotBeCaller.code());
    assert_eq!(
        NftsExtension::create_result_from(resp.status),
        Ok(Err(NftsError::OriginCannotBeCaller))
    );
    assert_eq!(rt.invoked, 0);
    assert!(rt.collections.is_empty());
    assert_eq!(rt.next_id, 0);
}

#[test]
fn default_origin_is_address() {
    assert_eq!(Origin::default(), Origin::Address);
}

#[test]
fn malformed_create_input_is_a_fault() {
    let mut rt = Runtime::new();
    let good = create_request();
    assert_eq!(good.len(), 45);
    for n in 0..good.len() {
        assert_eq!(rt.call(1, &good[..n], Origin::Address), Err(BoundaryFault::UndecodableInput));
    }
    let mut bad_bool = good.clone();
    bad_bool[32] = 2;
    assert_eq!(rt.call(1, &bad_bool, Origin::Address), Err(BoundaryFault::UndecodableInput));
    let mut bad_tag = good.clone();
    bad_tag[38] = 3;
    assert_eq!(rt.call(1, &bad_tag, Origin::Address), Err(BoundaryFault::UndecodableInput));
    assert_eq!(rt.invoked, 0);
    assert!(rt.charged.is_empty());
}

#[test]
fn malformed_collection_id_is_a_fault() {
    let mut rt = Runtime::new();
    for n in 0..4usize {
        let input = vec![1u8; n];
        assert_eq!(rt.call(2, &input, Origin::Address), Err(BoundaryFault::UndecodableInput));
    }
    assert_eq!(rt.invoked, 0);
}

#[test]
fn trailing_bytes_are_not_read() {
    let mut rt = Runtime::new();
    let mut input = create_request();
    input.extend_from_slice(&[9, 9, 9]);
    assert_eq!(rt.call(1, &input, Origin::Address).unwrap().status, SUCCESS_CODE);
}

#[test]
fn create_failure_reports_its_code() {
    let mut rt = Runtime::new();
    rt.fail_with = Some(HostError::Module { message: Some("CollectionIdInUse".to_string()) });
    let resp = rt.call(1, &create_request(), Origin::Address).unwrap();
    assert_eq!(resp.status, 8);
    assert_eq!(NftsExtension::create_result_from(resp.status), Ok(Err(NftsError::CollectionIdInUse)));
    assert_eq!(rt.charged, vec![Cost::CreateCollection]);

    rt.fail_with = Some(HostError::Module { message: Some("Whatever".to_string()) });
    assert_eq!(rt.call(1, &create_request(), Origin::Address).unwrap().status, 99);

    rt.fail_with = Some(HostError::Other);
    assert_eq!(rt.call(1, &create_request(), Origin::Address), Err(BoundaryFault::NotModuleError));
    assert_eq!(rt.charged.len(), 3);
}

#[test]
fn constants_are_answered() {
    let mut rt = Runtime::new();
    let c = NftsExtension::get_approvals_limit();
    assert_eq!(c.func_id, 100);
    let resp = rt.call(c.func_id, &c.input, Origin::Address).unwrap();
    assert_eq!(resp.output, vec![20, 0, 0, 0]);
    assert_eq!(NftsExtension::approvals_limit_from(&resp.output), Ok(20));

    let c = NftsExtension::get_attribute_deposit_base();
    assert_eq!(c.func_id, 101);
    let resp = rt.call(c.func_id, &c.input, Origin::Address).unwrap();
    assert_eq!(NftsExtension::balance_from(&resp.output), Ok(1_000));

    let c = NftsExtension::get_collection_deposit();
    assert_eq!(c.func_id, 102);
    let resp = rt.call(c.func_id, &c.input, Origin::Address).unwrap();
    assert_eq!(resp.output, vec![255u8; 16]);
    assert_eq!(NftsExtension::balance_from(&resp.output), Ok(u128::MAX));

    let c = NftsExtension::get_deposit_per_byte();
    assert_eq!(c.func_id, 103);
    let resp = rt.call(c.func_id, &c.input, Origin::Address).unwrap();
    assert_eq!(NftsExtension::balance_from(&resp.output), Ok(3));
    assert_eq!(rt.charged, vec![Cost::ConstantRead; 4]);
}

#[test]
fn unreadable_answers_are_faults() {
    assert_eq!(NftsExtension::approvals_limit_from(&[1, 2, 3]), Err(BoundaryFault::UndecodableOutput));
    assert_eq!(NftsExtension::balance_from(&[0u8; 15]), Err(BoundaryFault::UndecodableOutput));
    assert_eq!(NftsExtension::collection_from(&[]), Err(BoundaryFault::UndecodableOutput));
    assert_eq!(NftsExtension::collection_from(&[2]), Err(BoundaryFault::UndecodableOutput));
    assert_eq!(NftsExtension::collection_from(&[1, 0, 0]), Err(BoundaryFault::UndecodableOutput));
}

#[test]
fn collection_id_is_little_endian() {
    let c = NftsExtension::get_collection(0x0403_0201);
    assert_eq!(c.func_id, 2);
    assert_eq!(c.input, vec![1, 2, 3, 4]);
}

#[test]
fn collection_details_encoding() {
    let d = CollectionDetailsExt {
        owner: [5u8; 32],
        owner_deposit: 0x0102,
        items: 3,
        item_metadatas: 4,
        item_configs: 5,
        attributes: 6,
    };
    let resp = complete_call(&HostCall::ReadCollection { id: 0 }, &HostOutcome::Collection(Some(d))).unwrap();
    assert_eq!(resp.output.len(), 65);
    assert_eq!(resp.output[0], 1);
    assert_eq!(&resp.output[1..33], &[5u8; 32]);
    assert_eq!(&resp.output[33..35], &[2, 1]);
    assert_eq!(&resp.output[49..53], &[3, 0, 0, 0]);
    assert_eq!(&resp.output[61..65], &[6, 0, 0, 0]);
    assert_eq!(NftsExtension::collection_from(&resp.output), Ok(Some(d)));
}

#[test]
fn create_request_round_trips_through_the_router() {
    let mut config = default_config();
    config.setting.deposit_required = true;
    config.max_supply = Some(10_000);
    config.mint_settings.mint_type = MintTypeExt::HolderOf(9);
    config.mint_settings.price = Some(u128::MAX);
    config.mint_settings.start_block = Some(1);
    config.mint_settings.end_block = Some(2);
    config.mint_settings.default_item_settings.unlocked_attributes = true;
    let input = CreateInput { admin: [3u8; 32], config };
    let call = NftsExtension::create(&input);
    assert_eq!(call.input.len(), 45 + 4 + 4 + 16 + 4 + 4);
    let plan = plan_call(call.func_id, &call.input, Origin::Address, CONTRACT).unwrap();
    assert_eq!(plan.cost, Cost::CreateCollection);
    assert_eq!(
        plan.step,
        Step::Invoke(HostCall::CreateCollection {
            owner: CONTRACT,
            admin: [3u8; 32],
            config: CollectionConfig::from_ext(&config),
        })
    );
}

#[test]
fn function_ids_are_fixed() {
    assert_eq!(NftsFunc::Create.id(), 1);
    assert_eq!(NftsFunc::GetCollection.id(), 2);
    assert_eq!(NftsFunc::GetApprovalsLimit.id(), 100);
    assert_eq!(NftsFunc::GetAttributeDepositBase.id(), 101);
    assert_eq!(NftsFunc::GetCollectionDeposit.id(), 102);
    assert_eq!(NftsFunc::GetDepositPerByte.id(), 103);
    assert_eq!(NftsFunc::from_id(102), Ok(NftsFunc::GetCollectionDeposit));
    assert_eq!(NftsFunc::from_id(999), Err(BoundaryFault::UnsupportedOperation));
}

#[test]
fn outcome_of_another_kind_is_a_fault() {
    assert_eq!(
        complete_call(&HostCall::ReadApprovalsLimit, &HostOutcome::Amount(5)),
        Err(BoundaryFault::MismatchedOutcome)
    );
    assert_eq!(
        complete_call(&HostCall::ReadCollection { id: 1 }, &HostOutcome::Count(5)),
        Err(BoundaryFault::MismatchedOutcome)
    );
    assert_eq!(
        complete_call(&HostCall::ReadDepositPerByte, &HostOutcome::Created(Ok(()))),
        Err(BoundaryFault::MismatchedOutcome)
    );
    assert_eq!(
        complete_call(&HostCall::ReadDepositPerByte, &HostOutcome::Amount(5)).unwrap().output.len(),
        16
    );
}

#[test]
fn absent_collection_answer_reads_as_none() {
    assert_eq!(NftsExtension::collection_from(&[0]), Ok(None));
    assert_eq!(NftsExtension::collection_from(&[0, 1, 2]), Ok(None));
}
