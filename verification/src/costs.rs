//! The weight of each contract-callable host function.
use crate::weight::{weight_add, weight_scale, Weight};
use vstd::prelude::*;

verus! {

/// Describes the weight of each contract-callable function, as fixed by the cost schedule.
#[derive(Clone, Copy, PartialEq, Eq, Structural, Debug)]
pub struct HostFnWeights {
    pub gas: Weight,
    pub return_per_byte: Weight,
    pub input_per_byte: Weight,
    pub caller: Weight,
    pub is_contract: Weight,
    pub code_hash: Weight,
    pub own_code_hash: Weight,
    pub caller_is_origin: Weight,
    pub caller_is_root: Weight,
    pub address: Weight,
    pub gas_left: Weight,
    pub balance: Weight,
    pub value_transferred: Weight,
    pub minimum_balance: Weight,
    pub block_number: Weight,
    pub now: Weight,
    pub weight_to_fee: Weight,
    pub input: Weight,
    pub return_: Weight,
    pub terminate: Weight,
    pub random: Weight,
    pub deposit_event: Weight,
    pub deposit_event_per_topic: Weight,
    pub deposit_event_per_byte: Weight,
    pub debug_message: Weight,
    pub set_storage: Weight,
    pub set_storage_per_new_byte: Weight,
    pub set_storage_per_old_byte: Weight,
    pub clear_storage: Weight,
    pub clear_storage_per_byte: Weight,
    pub contains_storage: Weight,
    pub contains_storage_per_byte: Weight,
    pub get_storage: Weight,
    pub get_storage_per_byte: Weight,
    pub take_storage: Weight,
    pub take_storage_per_byte: Weight,
    pub transfer: Weight,
    pub call: Weight,
    pub delegate_call: Weight,
    pub call_transfer_surcharge: Weight,
    pub call_per_cloned_byte: Weight,
    pub instantiate: Weight,
    pub instantiate_per_input_byte: Weight,
    pub instantiate_per_salt_byte: Weight,
    pub instantiate_transfer_surcharge: Weight,
    pub hash_sha2_256: Weight,
    pub hash_sha2_256_per_byte: Weight,
    pub hash_keccak_256: Weight,
    pub hash_keccak_256_per_byte: Weight,
    pub hash_blake2_256: Weight,
    pub hash_blake2_256_per_byte: Weight,
    pub hash_blake2_128: Weight,
    pub hash_blake2_128_per_byte: Weight,
    pub ecdsa_recover: Weight,
    pub sr25519_verify: Weight,
    pub sr25519_verify_per_byte: Weight,
    pub set_code_hash: Weight,
    pub ecdsa_to_eth_address: Weight,
    pub reentrance_count: Weight,
    pub account_reentrance_count: Weight,
    pub instantiation_nonce: Weight,
}

/// What a contract-callable function costs, before the schedule turns it into a weight.
#[derive(Clone, Copy, PartialEq, Eq, Structural, Debug)]
pub enum RuntimeCosts {
    /// Charge the gas meter with the cost of a metering block. The charged costs are the supplied cost of the block plus the overhead of the metering itself.
    MeteringBlock(u64),
    /// Weight charged for copying data from the sandbox.
    CopyFromContract(u32),
    /// Weight charged for copying data to the sandbox.
    CopyToContract(u32),
    /// Weight of calling `seal_caller`.
    Caller,
    /// Weight of calling `seal_is_contract`.
    IsContract,
    /// Weight of calling `seal_code_hash`.
    CodeHash,
    /// Weight of calling `seal_own_code_hash`.
    OwnCodeHash,
    /// Weight of calling `seal_caller_is_origin`.
    CallerIsOrigin,
    /// Weight of calling `caller_is_root`.
    CallerIsRoot,
    /// Weight of calling `seal_address`.
    Address,
    /// Weight of calling `seal_gas_left`.
    GasLeft,
    /// Weight of calling `seal_balance`.
    Balance,
    /// Weight of calling `seal_value_transferred`.
    ValueTransferred,
    /// Weight of calling `seal_minimum_balance`.
    MinimumBalance,
    /// Weight of calling `seal_block_number`.
    BlockNumber,
    /// Weight of calling `seal_now`.
    Now,
    /// Weight of calling `seal_weight_to_fee`.
    WeightToFee,
    /// Weight of calling `seal_input` without the weight of copying the input.
    InputBase,
    /// Weight of calling `seal_return` for the given output size.
    Return(u32),
    /// Weight of calling `seal_terminate`.
    Terminate,
    /// Weight of calling `seal_random`. It includes the weight for copying the subject.
    Random,
    /// Weight of calling `seal_deposit_event` with the given number of topics and event size.
    DepositEvent { num_topic: u32, len: u32 },
    /// Weight of calling `seal_debug_message` per byte of passed message.
    DebugMessage(u32),
    /// Weight of calling `seal_set_storage` for the given storage item sizes.
    SetStorage { old_bytes: u32, new_bytes: u32 },
    /// Weight of calling `seal_clear_storage` per cleared byte.
    ClearStorage(u32),
    /// Weight of calling `seal_contains_storage` per byte of the checked item.
    ContainsStorage(u32),
    /// Weight of calling `seal_get_storage` with the specified size in storage.
    GetStorage(u32),
    /// Weight of calling `seal_take_storage` for the given size.
    TakeStorage(u32),
    /// Weight of calling `seal_transfer`.
    Transfer,
    /// Base weight of calling `seal_call`.
    CallBase,
    /// Weight of calling `seal_delegate_call` for the given input size.
    DelegateCallBase,
    /// Weight of the transfer performed during a call.
    CallSurchargeTransfer,
    /// Weight per byte that is cloned by supplying the `CLONE_INPUT` flag.
    CallInputCloned(u32),
    /// Weight of calling `seal_instantiate` for the given input length and salt.
    InstantiateBase { input_data_len: u32, salt_len: u32 },
    /// Weight of the transfer performed during an instantiate.
    InstantiateSurchargeTransfer,
    /// Weight of calling `seal_hash_sha_256` for the given input size.
    HashSha256(u32),
    /// Weight of calling `seal_hash_keccak_256` for the given input size.
    HashKeccak256(u32),
    /// Weight of calling `seal_hash_blake2_256` for the given input size.
    HashBlake256(u32),
    /// Weight of calling `seal_hash_blake2_128` for the given input size.
    HashBlake128(u32),
    /// Weight of calling `seal_ecdsa_recover`.
    EcdsaRecovery,
    /// Weight of calling `seal_sr25519_verify` for the given input size.
    Sr25519Verify(u32),
    /// Weight charged by a chain extension through `seal_call_chain_extension`.
    ChainExtension(Weight),
    /// Weight charged for calling into the runtime.
    CallRuntime(Weight),
    /// Weight of calling `seal_set_code_hash`
    SetCodeHash,
    /// Weight of calling `ecdsa_to_eth_address`
    EcdsaToEthAddress,
    /// Weight of calling `reentrance_count`
    ReentrantCount,
    /// Weight of calling `account_reentrance_count`
    AccountEntranceCount,
    /// Weight of calling `instantiation_nonce`
    InstantationNonce,
}

/// The weight that the schedule `s` assigns to `costs`.
pub open spec fn costs_weight(costs: RuntimeCosts, s: HostFnWeights) -> Weight {
    match costs {
        RuntimeCosts::MeteringBlock(amount) => weight_add(s.gas, Weight { ref_time: amount, proof_size: 0 }),
        RuntimeCosts::CopyFromContract(len) => weight_scale(s.return_per_byte, len as u64),
        RuntimeCosts::CopyToContract(len) => weight_scale(s.input_per_byte, len as u64),
        RuntimeCosts::Caller => s.caller,
        RuntimeCosts::IsContract => s.is_contract,
        RuntimeCosts::CodeHash => s.code_hash,
        RuntimeCosts::OwnCodeHash => s.own_code_hash,
        RuntimeCosts::CallerIsOrigin => s.caller_is_origin,
        RuntimeCosts::CallerIsRoot => s.caller_is_root,
        RuntimeCosts::Address => s.address,
        RuntimeCosts::GasLeft => s.gas_left,
        RuntimeCosts::Balance => s.balance,
        RuntimeCosts::ValueTransferred => s.value_transferred,
        RuntimeCosts::MinimumBalance => s.minimum_balance,
        RuntimeCosts::BlockNumber => s.block_number,
        RuntimeCosts::Now => s.now,
        RuntimeCosts::WeightToFee => s.weight_to_fee,
        RuntimeCosts::InputBase => s.input,
        RuntimeCosts::Return(len) => weight_add(s.return_, weight_scale(s.return_per_byte, len as u64)),
        RuntimeCosts::Terminate => s.terminate,
        RuntimeCosts::Random => s.random,
        RuntimeCosts::DepositEvent { num_topic, len } => weight_add(weight_add(s.deposit_event, weight_scale(s.deposit_event_per_topic, num_topic as u64)), weight_scale(s.deposit_event_per_byte, len as u64)),
        RuntimeCosts::DebugMessage(len) => weight_add(s.debug_message, weight_scale(s.deposit_event_per_byte, len as u64)),
        RuntimeCosts::SetStorage { old_bytes, new_bytes } => weight_add(weight_add(s.set_storage, weight_scale(s.set_storage_per_new_byte, new_bytes as u64)), weight_scale(s.set_storage_per_old_byte, old_bytes as u64)),
        RuntimeCosts::ClearStorage(len) => weight_add(s.clear_storage, weight_scale(s.clear_storage_per_byte, len as u64)),
        RuntimeCosts::ContainsStorage(len) => weight_add(s.contains_storage, weight_scale(s.contains_storage_per_byte, len as u64)),
        RuntimeCosts::GetStorage(len) => weight_add(s.get_storage, weight_scale(s.get_storage_per_byte, len as u64)),
        RuntimeCosts::TakeStorage(len) => weight_add(s.take_storage, weight_scale(s.take_storage_per_byte, len as u64)),
        RuntimeCosts::Transfer => s.transfer,
        RuntimeCosts::CallBase => s.call,
        RuntimeCosts::DelegateCallBase => s.delegate_call,
        RuntimeCosts::CallSurchargeTransfer => s.call_transfer_surcharge,
        RuntimeCosts::CallInputCloned(len) => weight_scale(s.call_per_cloned_byte, len as u64),
        RuntimeCosts::InstantiateBase { input_data_len, salt_len } => weight_add(weight_add(s.instantiate, weight_scale(s.instantiate_per_input_byte, input_data_len as u64)), weight_scale(s.instantiate_per_salt_byte, salt_len as u64)),
        RuntimeCosts::InstantiateSurchargeTransfer => s.instantiate_transfer_surcharge,
        RuntimeCosts::HashSha256(len) => weight_add(s.hash_sha2_256, weight_scale(s.hash_sha2_256_per_byte, len as u64)),
        RuntimeCosts::HashKeccak256(len) => weight_add(s.hash_keccak_256, weight_scale(s.hash_keccak_256_per_byte, len as u64)),
        RuntimeCosts::HashBlake256(len) => weight_add(s.hash_blake2_256, weight_scale(s.hash_blake2_256_per_byte, len as u64)),
        RuntimeCosts::HashBlake128(len) => weight_add(s.hash_blake2_128, weight_scale(s.hash_blake2_128_per_byte, len as u64)),
        RuntimeCosts::EcdsaRecovery => s.ecdsa_recover,
        RuntimeCosts::Sr25519Verify(len) => weight_add(s.sr25519_verify, weight_scale(s.sr25519_verify_per_byte, len as u64)),
        RuntimeCosts::ChainExtension(weight) => weight,
        RuntimeCosts::CallRuntime(weight) => weight,
        RuntimeCosts::SetCodeHash => s.set_code_hash,
        RuntimeCosts::EcdsaToEthAddress => s.ecdsa_to_eth_address,
        RuntimeCosts::ReentrantCount => s.reentrance_count,
        RuntimeCosts::AccountEntranceCount => s.account_reentrance_count,
        RuntimeCosts::InstantationNonce => s.instantiation_nonce,
    }
}

/// A weight to be charged from the gas meter.
#[derive(Clone, Copy, PartialEq, Eq, Structural, Debug)]
pub struct RuntimeToken {
    pub weight: Weight,
}

impl RuntimeToken {
    /// The weight this token charges.
    pub fn weight(&self) -> (r: Weight)
        ensures
            r == self.weight,
    {
        self.weight
    }
}

impl RuntimeCosts {
    /// Turns the costs into a token by means of the cost schedule `s`.
    pub fn token(&self, s: &HostFnWeights) -> (r: RuntimeToken)
        ensures
            r.weight == costs_weight(*self, *s),
    {
        let weight = match *self {
            RuntimeCosts::MeteringBlock(amount) => s.gas.saturating_add(Weight::from_parts(amount, 0)),
            RuntimeCosts::CopyFromContract(len) => s.return_per_byte.saturating_mul(len as u64),
            RuntimeCosts::CopyToContract(len) => s.input_per_byte.saturating_mul(len as u64),
            RuntimeCosts::Caller => s.caller,
            RuntimeCosts::IsContract => s.is_contract,
            RuntimeCosts::CodeHash => s.code_hash,
            RuntimeCosts::OwnCodeHash => s.own_code_hash,
            RuntimeCosts::CallerIsOrigin => s.caller_is_origin,
            RuntimeCosts::CallerIsRoot => s.caller_is_root,
            RuntimeCosts::Address => s.address,
            RuntimeCosts::GasLeft => s.gas_left,
            RuntimeCosts::Balance => s.balance,
            RuntimeCosts::ValueTransferred => s.value_transferred,
            RuntimeCosts::MinimumBalance => s.minimum_balance,
            RuntimeCosts::BlockNumber => s.block_number,
            RuntimeCosts::Now => s.now,
            RuntimeCosts::WeightToFee => s.weight_to_fee,
            RuntimeCosts::InputBase => s.input,
            RuntimeCosts::Return(len) => s.return_.saturating_add(s.return_per_byte.saturating_mul(len as u64)),
            RuntimeCosts::Terminate => s.terminate,
            RuntimeCosts::Random => s.random,
            RuntimeCosts::DepositEvent { num_topic, len } => s.deposit_event.saturating_add(s.deposit_event_per_topic.saturating_mul(num_topic as u64)).saturating_add(s.deposit_event_per_byte.saturating_mul(len as u64)),
            RuntimeCosts::DebugMessage(len) => s.debug_message.saturating_add(s.deposit_event_per_byte.saturating_mul(len as u64)),
            RuntimeCosts::SetStorage { old_bytes, new_bytes } => s.set_storage.saturating_add(s.set_storage_per_new_byte.saturating_mul(new_bytes as u64)).saturating_add(s.set_storage_per_old_byte.saturating_mul(old_bytes as u64)),
            RuntimeCosts::ClearStorage(len) => s.clear_storage.saturating_add(s.clear_storage_per_byte.saturating_mul(len as u64)),
            RuntimeCosts::ContainsStorage(len) => s.contains_storage.saturating_add(s.contains_storage_per_byte.saturating_mul(len as u64)),
            RuntimeCosts::GetStorage(len) => s.get_storage.saturating_add(s.get_storage_per_byte.saturating_mul(len as u64)),
            RuntimeCosts::TakeStorage(len) => s.take_storage.saturating_add(s.take_storage_per_byte.saturating_mul(len as u64)),
            RuntimeCosts::Transfer => s.transfer,
            RuntimeCosts::CallBase => s.call,
            RuntimeCosts::DelegateCallBase => s.delegate_call,
            RuntimeCosts::CallSurchargeTransfer => s.call_transfer_surcharge,
            RuntimeCosts::CallInputCloned(len) => s.call_per_cloned_byte.saturating_mul(len as u64),
            RuntimeCosts::InstantiateBase { input_data_len, salt_len } => s.instantiate.saturating_add(s.instantiate_per_input_byte.saturating_mul(input_data_len as u64)).saturating_add(s.instantiate_per_salt_byte.saturating_mul(salt_len as u64)),
            RuntimeCosts::InstantiateSurchargeTransfer => s.instantiate_transfer_surcharge,
            RuntimeCosts::HashSha256(len) => s.hash_sha2_256.saturating_add(s.hash_sha2_256_per_byte.saturating_mul(len as u64)),
            RuntimeCosts::HashKeccak256(len) => s.hash_keccak_256.saturating_add(s.hash_keccak_256_per_byte.saturating_mul(len as u64)),
            RuntimeCosts::HashBlake256(len) => s.hash_blake2_256.saturating_add(s.hash_blake2_256_per_byte.saturating_mul(len as u64)),
            RuntimeCosts::HashBlake128(len) => s.hash_blake2_128.saturating_add(s.hash_blake2_128_per_byte.saturating_mul(len as u64)),
            RuntimeCosts::EcdsaRecovery => s.ecdsa_recover,
            RuntimeCosts::Sr25519Verify(len) => s.sr25519_verify.saturating_add(s.sr25519_verify_per_byte.saturating_mul(len as u64)),
            RuntimeCosts::ChainExtension(weight) => weight,
            RuntimeCosts::CallRuntime(weight) => weight,
            RuntimeCosts::SetCodeHash => s.set_code_hash,
            RuntimeCosts::EcdsaToEthAddress => s.ecdsa_to_eth_address,
            RuntimeCosts::ReentrantCount => s.reentrance_count,
            RuntimeCosts::AccountEntranceCount => s.account_reentrance_count,
            RuntimeCosts::InstantationNonce => s.instantiation_nonce,
        };
        RuntimeToken { weight }
    }
}

/// The kind of call that should be performed.
#[derive(Clone, Copy, PartialEq, Eq, Structural, Debug)]
pub enum CallType {
    /// Execute another instantiated contract.
    Call { callee_ptr: u32, value_ptr: u32, deposit_ptr: u32, weight: Weight },
    /// Execute deployed code in the context (storage, account ID, value) of the caller contract.
    DelegateCall { code_hash_ptr: u32 },
}

impl CallType {
    /// The base costs of performing this kind of call.
    pub fn cost(&self) -> (r: RuntimeCosts)
        ensures
            self is Call ==> r == RuntimeCosts::CallBase,
            self is DelegateCall ==> r == RuntimeCosts::DelegateCallBase,
    {
        match self {
            CallType::Call { .. } => RuntimeCosts::CallBase,
            CallType::DelegateCall { .. } => RuntimeCosts::DelegateCallBase,
        }
    }
}

/// The costs of writing out data of constant size that does not depend on user input: they
/// were charged at the entry of the host function already, so nothing more is charged.
pub fn already_charged(len: u32) -> (r: Option<RuntimeCosts>)
    ensures
        r is None,
{
    None
}

} // verus!
