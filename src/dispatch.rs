//! The runtime side of the bridge: a call arrives as a function identifier and
//! an input buffer, and is answered with a status code and an output buffer.
//!
//! The router is a pair of decisions around the runtime's own work. First
//! [`plan_call`] resolves the identifier, decodes the request, decides the
//! cost to charge and what the runtime must do. The runtime charges the cost,
//! does it, and hands what came of it to [`complete_call`], which decides the
//! answer.
use vstd::prelude::*;
use crate::errors::{BoundaryFault, HostError, NftsError, SUCCESS_CODE, code_of, module_error_code};
use crate::host::CollectionConfig;
use crate::translate::config_to_host;
use crate::types::{AccountId, Balance, CollectionDetailsExt, CreateInput, Origin};
use crate::wire::{
    create_decodes, encode_collection, holds_collection, holds_create, is_create_record,
    lemma_short_buffers_do_not_decode, parse_u32, read_collection_id, read_create_input,
    MIN_CREATE_LEN,
};
use crate::codec::{encode_u128, encode_u32, le_value};

verus! {

/// The operations of the extension.
#[derive(Debug, Copy, Clone, PartialEq, Eq)]
pub enum NftsFunc {
    Create,
    GetCollection,
    GetApprovalsLimit,
    GetAttributeDepositBase,
    GetCollectionDeposit,
    GetDepositPerByte,
}

/// The operation that function identifier `id` names, if any.
pub open spec fn func_with_id(id: u32) -> Option<NftsFunc> {
    if id == 1 {
        Some(NftsFunc::Create)
    } else if id == 2 {
        Some(NftsFunc::GetCollection)
    } else if id == 100 {
        Some(NftsFunc::GetApprovalsLimit)
    } else if id == 101 {
        Some(NftsFunc::GetAttributeDepositBase)
    } else if id == 102 {
        Some(NftsFunc::GetCollectionDeposit)
    } else if id == 103 {
        Some(NftsFunc::GetDepositPerByte)
    } else {
        None
    }
}

/// The function identifier of `f`.
pub open spec fn id_of(f: NftsFunc) -> u32 {
    match f {
        NftsFunc::Create => 1,
        NftsFunc::GetCollection => 2,
        NftsFunc::GetApprovalsLimit => 100,
        NftsFunc::GetAttributeDepositBase => 101,
        NftsFunc::GetCollectionDeposit => 102,
        NftsFunc::GetDepositPerByte => 103,
    }
}

impl NftsFunc {
    /// The operation that `id` names, or `UnsupportedOperation`.
    pub fn from_id(id: u32) -> (r: Result<NftsFunc, BoundaryFault>)
        ensures
            match func_with_id(id) {
                Some(f) => r == Ok::<NftsFunc, BoundaryFault>(f),
                None => r == Err::<NftsFunc, BoundaryFault>(BoundaryFault::UnsupportedOperation),
            },
    {
        if id == 1 {
            Ok(NftsFunc::Create)
        } else if id == 2 {
            Ok(NftsFunc::GetCollection)
        } else if id == 100 {
            Ok(NftsFunc::GetApprovalsLimit)
        } else if id == 101 {
            Ok(NftsFunc::GetAttributeDepositBase)
        } else if id == 102 {
            Ok(NftsFunc::GetCollectionDeposit)
        } else if id == 103 {
            Ok(NftsFunc::GetDepositPerByte)
        } else {
            Err(BoundaryFault::UnsupportedOperation)
        }
    }

    /// This operation's function identifier.
    pub fn id(&self) -> (r: u32)
        ensures
            r == id_of(*self),
    {
        match self {
            NftsFunc::Create => 1,
            NftsFunc::GetCollection => 2,
            NftsFunc::GetApprovalsLimit => 100,
            NftsFunc::GetAttributeDepositBase => 101,
            NftsFunc::GetCollectionDeposit => 102,
            NftsFunc::GetDepositPerByte => 103,
        }
    }
}

/// The cost that the runtime charges before it does anything else.
#[derive(Debug, Copy, Clone, PartialEq, Eq)]
pub enum Cost {
    /// The runtime module's declared weight of creating a collection.
    CreateCollection,
    /// One read of the runtime's storage.
    StorageRead,
    /// Reading a constant of the runtime's configuration.
    ConstantRead,
}

/// What the runtime is asked to do.
#[derive(Debug, Copy, Clone, PartialEq, Eq)]
pub enum HostCall {
    /// Create a collection, signed by `owner`, with `admin` as its admin.
    CreateCollection { owner: AccountId, admin: AccountId, config: CollectionConfig },
    /// Read the details of collection `id`.
    ReadCollection { id: u32 },
    ReadApprovalsLimit,
    ReadAttributeDepositBase,
    ReadCollectionDeposit,
    ReadDepositPerByte,
}

/// What follows the charge.
#[derive(Debug, Copy, Clone, PartialEq, Eq)]
pub enum Step {
    /// Perform the call and hand its outcome to `complete_call`.
    Invoke(HostCall),
    /// Answer with this status code and an empty output; nothing is invoked.
    Reply(u32),
}

/// The decision on a call that was resolved and decoded.
#[derive(Debug, Copy, Clone, PartialEq, Eq)]
pub struct Plan {
    pub cost: Cost,
    pub step: Step,
}

/// What came of the runtime's work.
#[derive(Debug, PartialEq, Eq)]
pub enum HostOutcome {
    /// The outcome of creating a collection.
    Created(Result<(), HostError>),
    /// A collection's details, or none.
    Collection(Option<CollectionDetailsExt>),
    /// The approvals limit.
    Count(u32),
    /// A deposit.
    Amount(Balance),
}

/// The answer to a call: its status code and its output buffer.
#[derive(Debug, Clone, PartialEq, Eq)]
pub struct Response {
    pub status: u32,
    pub output: Vec<u8>,
}

/// The plan for a create request: it is refused with `OriginCannotBeCaller`
/// when the caller is asked for as origin; otherwise the collection is created
/// signed by the contract's own account.
pub open spec fn create_plan(input: CreateInput, origin: Origin, contract: AccountId) -> Plan {
    Plan {
        cost: Cost::CreateCollection,
        step: match origin {
            Origin::Caller => Step::Reply(code_of(NftsError::OriginCannotBeCaller)),
            Origin::Address => Step::Invoke(
                HostCall::CreateCollection {
                    owner: contract,
                    admin: input.admin,
                    config: config_to_host(input.config),
                },
            ),
        },
    }
}

/// Whether the input buffer `b` holds a request of operation `f`. An
/// operation without a request reads nothing.
pub open spec fn request_decodes(f: NftsFunc, b: Seq<u8>) -> bool {
    match f {
        NftsFunc::Create => create_decodes(b),
        NftsFunc::GetCollection => parse_u32(b) is Some,
        _ => true,
    }
}

/// The plan for a call of `f` whose input buffer `b` holds a request.
pub open spec fn plan_of(f: NftsFunc, b: Seq<u8>, origin: Origin, contract: AccountId, p: Plan) -> bool {
    match f {
        NftsFunc::Create => exists|input: CreateInput|
            holds_create(b, input) && p == create_plan(input, origin, contract),
        NftsFunc::GetCollection => p == Plan {
            cost: Cost::StorageRead,
            step: Step::Invoke(HostCall::ReadCollection { id: parse_u32(b).unwrap().0 }),
        },
        NftsFunc::GetApprovalsLimit => p == Plan {
            cost: Cost::ConstantRead,
            step: Step::Invoke(HostCall::ReadApprovalsLimit),
        },
        NftsFunc::GetAttributeDepositBase => p == Plan {
            cost: Cost::ConstantRead,
            step: Step::Invoke(HostCall::ReadAttributeDepositBase),
        },
        NftsFunc::GetCollectionDeposit => p == Plan {
            cost: Cost::ConstantRead,
            step: Step::Invoke(HostCall::ReadCollectionDeposit),
        },
        NftsFunc::GetDepositPerByte => p == Plan {
            cost: Cost::ConstantRead,
            step: Step::Invoke(HostCall::ReadDepositPerByte),
        },
    }
}

/// Resolves function identifier `func_id`, decodes its request from `input`,
/// and decides the cost and what the runtime does next. An unknown identifier
/// and an input that holds no request are faults of the call. On a create
/// request, the origin is resolved before anything is invoked: the caller is
/// refused, the contract's own account signs.
pub fn plan_call(func_id: u32, input: &[u8], origin: Origin, contract: AccountId) -> (r: Result<
    Plan,
    BoundaryFault,
>)
    ensures
        match func_with_id(func_id) {
            None => r == Err::<Plan, BoundaryFault>(BoundaryFault::UnsupportedOperation),
            Some(f) => if request_decodes(f, input@) {
                r matches Ok(p) && plan_of(f, input@, origin, contract, p)
            } else {
                r == Err::<Plan, BoundaryFault>(BoundaryFault::UndecodableInput)
            },
        },
{
    let func = NftsFunc::from_id(func_id)?;
    match func {
        NftsFunc::Create => {
            let request = match read_create_input(input) {
                Some(request) => request,
                None => return Err(BoundaryFault::UndecodableInput),
            };
            let step = match origin {
                Origin::Caller => Step::Reply(NftsError::OriginCannotBeCaller.code()),
                Origin::Address => Step::Invoke(
                    HostCall::CreateCollection {
                        owner: contract,
                        admin: request.admin,
                        config: CollectionConfig::from_ext(&request.config),
                    },
                ),
            };
            let p = Plan { cost: Cost::CreateCollection, step };
            assert(holds_create(input@, request) && p == create_plan(request, origin, contract));
            Ok(p)
        },
        NftsFunc::GetCollection => match read_collection_id(input) {
            Some(id) => Ok(
                Plan { cost: Cost::StorageRead, step: Step::Invoke(HostCall::ReadCollection { id }) },
            ),
            None => Err(BoundaryFault::UndecodableInput),
        },
        NftsFunc::GetApprovalsLimit => Ok(
            Plan { cost: Cost::ConstantRead, step: Step::Invoke(HostCall::ReadApprovalsLimit) },
        ),
        NftsFunc::GetAttributeDepositBase => Ok(
            Plan { cost: Cost::ConstantRead, step: Step::Invoke(HostCall::ReadAttributeDepositBase) },
        ),
        NftsFunc::GetCollectionDeposit => Ok(
            Plan { cost: Cost::ConstantRead, step: Step::Invoke(HostCall::ReadCollectionDeposit) },
        ),
        NftsFunc::GetDepositPerByte => Ok(
            Plan { cost: Cost::ConstantRead, step: Step::Invoke(HostCall::ReadDepositPerByte) },
        ),
    }
}

/// Whether `outcome` is the kind of report that `call` asks for.
pub open spec fn outcome_answers(call: HostCall, outcome: HostOutcome) -> bool {
    match call {
        HostCall::CreateCollection { .. } => outcome is Created,
        HostCall::ReadCollection { .. } => outcome is Collection,
        HostCall::ReadApprovalsLimit => outcome is Count,
        _ => outcome is Amount,
    }
}

fn answers(call: &HostCall, outcome: &HostOutcome) -> (r: bool)
    ensures
        r == outcome_answers(*call, *outcome),
{
    match call {
        HostCall::CreateCollection { .. } => matches!(outcome, HostOutcome::Created(_)),
        HostCall::ReadCollection { .. } => matches!(outcome, HostOutcome::Collection(_)),
        HostCall::ReadApprovalsLimit => matches!(outcome, HostOutcome::Count(_)),
        _ => matches!(outcome, HostOutcome::Amount(_)),
    }
}

/// The answer to what came of the runtime's work. A finished creation answers
/// `Success`; a failed one answers its failure's code, and a failure below the
/// modules is a fault of the call. A read answers `Success` with the value
/// encoded in the output. A report of another kind than `call` asked for is
/// a fault of the call.
pub fn complete_call(call: &HostCall, outcome: &HostOutcome) -> (r: Result<Response, BoundaryFault>)
    ensures
        !outcome_answers(*call, *outcome) ==> r == Err::<Response, BoundaryFault>(
            BoundaryFault::MismatchedOutcome,
        ),
        outcome_answers(*call, *outcome) ==> match outcome {
            HostOutcome::Created(Ok(())) => r matches Ok(resp) && resp.status == SUCCESS_CODE
                && resp.output@.len() == 0,
            HostOutcome::Created(Err(HostError::Module { message })) => r matches Ok(resp)
                && resp.status == code_of(
                module_error_code(
                    match message {
                        Some(m) => Some(m@),
                        None => None,
                    },
                ),
            ) && resp.output@.len() == 0,
            HostOutcome::Created(Err(HostError::Other)) => r == Err::<Response, BoundaryFault>(
                BoundaryFault::NotModuleError,
            ),
            HostOutcome::Collection(d) => r matches Ok(resp) && resp.status == SUCCESS_CODE
                && holds_collection(resp.output@, *d),
            HostOutcome::Count(n) => r matches Ok(resp) && resp.status == SUCCESS_CODE
                && resp.output@.len() == 4 && le_value(resp.output@) == *n as nat,
            HostOutcome::Amount(a) => r matches Ok(resp) && resp.status == SUCCESS_CODE
                && resp.output@.len() == 16 && le_value(resp.output@) == *a as nat,
        },
{
    if !answers(call, outcome) {
        return Err(BoundaryFault::MismatchedOutcome);
    }
    match outcome {
        HostOutcome::Created(Ok(())) => Ok(Response { status: SUCCESS_CODE, output: Vec::new() }),
        HostOutcome::Created(Err(e)) => {
            let mapped = NftsError::from_host_error(e)?;
            Ok(Response { status: mapped.code(), output: Vec::new() })
        },
        HostOutcome::Collection(d) => {
            let output = encode_collection(d);
            Ok(Response { status: SUCCESS_CODE, output })
        },
        HostOutcome::Count(n) => {
            let mut output: Vec<u8> = Vec::new();
            encode_u32(*n, &mut output);
            assert(output@.skip(0) =~= output@);
            Ok(Response { status: SUCCESS_CODE, output })
        },
        HostOutcome::Amount(a) => {
            let mut output: Vec<u8> = Vec::new();
            encode_u128(*a, &mut output);
            assert(output@.skip(0) =~= output@);
            Ok(Response { status: SUCCESS_CODE, output })
        },
    }
}

/// A buffer too short for its operation's request never decodes: a create
/// input under its fewest bytes and a collection id under four bytes make the
/// call a fault, never a failure code.
pub proof fn lemma_undersized_input_never_decodes(f: NftsFunc, b: Seq<u8>)
    requires
        (f == NftsFunc::Create && b.len() < MIN_CREATE_LEN) || (f == NftsFunc::GetCollection
            && b.len() < 4),
    ensures
        !request_decodes(f, b),
{
    lemma_short_buffers_do_not_decode(b);
}

/// A create request with the caller as origin is refused with
/// `OriginCannotBeCaller`, and nothing is invoked, whatever the request holds.
pub proof fn lemma_caller_origin_refused(b: Seq<u8>, contract: AccountId, p: Plan)
    requires
        plan_of(NftsFunc::Create, b, Origin::Caller, contract, p),
    ensures
        p.step == Step::Reply(code_of(NftsError::OriginCannotBeCaller)),
        !(p.step is Invoke),
{
}

/// The record that the contract side encodes for a create request is decoded
/// by the router as that same request.
pub proof fn lemma_create_record_round_trip(b: Seq<u8>, input: CreateInput)
    requires
        is_create_record(b, input),
    ensures
        request_decodes(NftsFunc::Create, b),
        holds_create(b, input),
{
}

/// Function identifiers and operations are one to one.
pub proof fn lemma_func_ids_distinct(f: NftsFunc)
    ensures
        func_with_id(id_of(f)) == Some(f),
{
}

/// The record that the contract side encodes for a create request reaches
/// the runtime as that very request: whatever plan the router makes for it is
/// the plan for that request.
pub proof fn lemma_create_request_reaches_runtime(
    b: Seq<u8>,
    input: CreateInput,
    origin: Origin,
    contract: AccountId,
    p: Plan,
)
    requires
        is_create_record(b, input),
        plan_of(NftsFunc::Create, b, origin, contract, p),
    ensures
        p == create_plan(input, origin, contract),
{
    broadcast use vstd::array::axiom_array_ext_equal;

    let other = choose|i: CreateInput| holds_create(b, i) && p == create_plan(i, origin, contract);
    assert(other.admin =~= input.admin);
    assert(other == input);
}

} // verus!
