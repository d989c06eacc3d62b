//! The contract side of the bridge: each operation is addressed by its
//! function identifier with its request encoded, and its answer is read back
//! under the operation's policy. Queries read their output and disregard the
//! status code; a create reports its status code as a typed outcome. An
//! answer that cannot be read is a fault, never a failure code.
use vstd::prelude::*;
use crate::codec::{decode_u128, decode_u32, le_value};
use crate::dispatch::{NftsFunc, id_of};
use crate::errors::{BoundaryFault, NftsError, SUCCESS_CODE, error_with_code};
use crate::types::{Balance, CollectionDetailsExt, CollectionId, CreateInput};
use crate::wire::{decode_collection, encode_create_input, holds_collection, is_create_record};

verus! {

/// A call of the extension: the function identifier and the input buffer.
#[derive(Debug, Clone, PartialEq, Eq)]
pub struct ExtensionCall {
    pub func_id: u32,
    pub input: Vec<u8>,
}

/// The extension's operations as the contract side calls them.
pub struct NftsExtension;

impl NftsExtension {
    /// The call that asks for the approvals limit.
    pub fn get_approvals_limit() -> (r: ExtensionCall)
        ensures
            r.func_id == id_of(NftsFunc::GetApprovalsLimit),
            r.input@.len() == 0,
    {
        ExtensionCall { func_id: NftsFunc::GetApprovalsLimit.id(), input: Vec::new() }
    }

    /// The call that asks for the attribute deposit base.
    pub fn get_attribute_deposit_base() -> (r: ExtensionCall)
        ensures
            r.func_id == id_of(NftsFunc::GetAttributeDepositBase),
            r.input@.len() == 0,
    {
        ExtensionCall { func_id: NftsFunc::GetAttributeDepositBase.id(), input: Vec::new() }
    }

    /// The call that asks for the collection deposit.
    pub fn get_collection_deposit() -> (r: ExtensionCall)
        ensures
            r.func_id == id_of(NftsFunc::GetCollectionDeposit),
            r.input@.len() == 0,
    {
        ExtensionCall { func_id: NftsFunc::GetCollectionDeposit.id(), input: Vec::new() }
    }

    /// The call that asks for the deposit per byte.
    pub fn get_deposit_per_byte() -> (r: ExtensionCall)
        ensures
            r.func_id == id_of(NftsFunc::GetDepositPerByte),
            r.input@.len() == 0,
    {
        ExtensionCall { func_id: NftsFunc::GetDepositPerByte.id(), input: Vec::new() }
    }

    /// The call that asks for the details of collection `id`.
    pub fn get_collection(id: CollectionId) -> (r: ExtensionCall)
        ensures
            r.func_id == id_of(NftsFunc::GetCollection),
            r.input@.len() == 4,
            le_value(r.input@) == id as nat,
    {
        let mut input: Vec<u8> = Vec::new();
        crate::codec::encode_u32(id, &mut input);
        assert(input@.skip(0) =~= input@);
        ExtensionCall { func_id: NftsFunc::GetCollection.id(), input }
    }

    /// The call that asks for a collection to be created.
    pub fn create(input: &CreateInput) -> (r: ExtensionCall)
        ensures
            r.func_id == id_of(NftsFunc::Create),
            is_create_record(r.input@, *input),
    {
        ExtensionCall { func_id: NftsFunc::Create.id(), input: encode_create_input(input) }
    }

    /// The approvals limit that the output `output` holds.
    pub fn approvals_limit_from(output: &[u8]) -> (r: Result<u32, BoundaryFault>)
        ensures
            output@.len() >= 4 ==> (r matches Ok(v) && v as nat == le_value(output@.take(4))),
            output@.len() < 4 ==> r == Err::<u32, BoundaryFault>(BoundaryFault::UndecodableOutput),
    {
        match decode_u32(output) {
            Some((v, _)) => Ok(v),
            None => Err(BoundaryFault::UndecodableOutput),
        }
    }

    /// The deposit that the output `output` holds.
    pub fn balance_from(output: &[u8]) -> (r: Result<Balance, BoundaryFault>)
        ensures
            output@.len() >= 16 ==> (r matches Ok(v) && v as nat == le_value(output@.take(16))),
            output@.len() < 16 ==> r == Err::<Balance, BoundaryFault>(
                BoundaryFault::UndecodableOutput,
            ),
    {
        match decode_u128(output) {
            Some((v, _)) => Ok(v),
            None => Err(BoundaryFault::UndecodableOutput),
        }
    }

    /// The collection details, or none, that the output `output` holds.
    pub fn collection_from(output: &[u8]) -> (r: Result<Option<CollectionDetailsExt>, BoundaryFault>)
        ensures
            r is Ok <==> (output@.len() >= 1 && (output@[0] == 0 || (output@[0] == 1
                && output@.len() >= 65))),
            output@.len() >= 1 && output@[0] == 0 ==> r == Ok::<
                Option<CollectionDetailsExt>,
                BoundaryFault,
            >(None),
            output@.len() >= 1 && output@[0] == 1 ==> (r matches Ok(d) ==> d is Some),
            r matches Ok(d) ==> holds_collection(
                output@.take(if d is None { 1int } else { 65int }),
                d,
            ),
            r is Err ==> r == Err::<Option<CollectionDetailsExt>, BoundaryFault>(
                BoundaryFault::UndecodableOutput,
            ),
    {
        match decode_collection(output) {
            Some(d) => Ok(d),
            None => Err(BoundaryFault::UndecodableOutput),
        }
    }

    /// The outcome of a create call with status code `status_code`.
    pub fn create_result_from(status_code: u32) -> (r: Result<Result<(), NftsError>, BoundaryFault>)
        ensures
            status_code == SUCCESS_CODE ==> r == Ok::<Result<(), NftsError>, BoundaryFault>(Ok(())),
            status_code != SUCCESS_CODE ==> match error_with_code(status_code) {
                Some(e) => r == Ok::<Result<(), NftsError>, BoundaryFault>(Err(e)),
                None => r == Err::<Result<(), NftsError>, BoundaryFault>(
                    BoundaryFault::UnknownStatusCode,
                ),
            },
    {
        NftsError::from_status_code(status_code)
    }
}

} // verus!
