//! The host functions that the runtime offers to contracts as imports, and which of them are
//! linked under the interface switches of the chain.
use vstd::prelude::*;

verus! {

/// Whether the deprecated interfaces are exposed to contracts.
#[derive(Clone, Copy, PartialEq, Eq, Structural, Debug)]
pub enum AllowDeprecatedInterface {
    /// No deprecated interfaces are exposed.
    No,
    /// Deprecated interfaces are exposed.
    Yes,
}

/// Whether the unstable interfaces are exposed to contracts.
#[derive(Clone, Copy, PartialEq, Eq, Structural, Debug)]
pub enum AllowUnstableInterface {
    /// No unstable interfaces are exposed.
    No,
    /// Unstable interfaces are exposed.
    Yes,
}

/// A host function as a contract imports it: its module and name, whether its interface is
/// stable, and whether it is deprecated.
#[derive(Clone, Copy, Debug)]
pub struct HostFnImport {
    pub module: &'static str,
    pub name: &'static str,
    pub stable: bool,
    pub deprecated: bool,
}

/// Every host function the runtime defines, in the order in which they are linked.
pub open spec fn host_fn_table() -> Seq<HostFnImport> {
    seq![
        HostFnImport { module: "seal0", name: "gas", stable: true, deprecated: false },
        HostFnImport { module: "seal0", name: "set_storage", stable: true, deprecated: false },
        HostFnImport { module: "seal1", name: "set_storage", stable: true, deprecated: false },
        HostFnImport { module: "seal2", name: "set_storage", stable: true, deprecated: false },
        HostFnImport { module: "seal0", name: "clear_storage", stable: true, deprecated: false },
        HostFnImport { module: "seal1", name: "clear_storage", stable: true, deprecated: false },
        HostFnImport { module: "seal0", name: "get_storage", stable: true, deprecated: false },
        HostFnImport { module: "seal1", name: "get_storage", stable: true, deprecated: false },
        HostFnImport { module: "seal0", name: "contains_storage", stable: true, deprecated: false },
        HostFnImport { module: "seal1", name: "contains_storage", stable: true, deprecated: false },
        HostFnImport { module: "seal0", name: "take_storage", stable: true, deprecated: false },
        HostFnImport { module: "seal0", name: "transfer", stable: true, deprecated: false },
        HostFnImport { module: "seal0", name: "call", stable: true, deprecated: false },
        HostFnImport { module: "seal1", name: "call", stable: true, deprecated: false },
        HostFnImport { module: "seal2", name: "call", stable: false, deprecated: false },
        HostFnImport { module: "seal0", name: "delegate_call", stable: true, deprecated: false },
        HostFnImport { module: "seal0", name: "instantiate", stable: true, deprecated: false },
        HostFnImport { module: "seal1", name: "instantiate", stable: true, deprecated: false },
        HostFnImport { module: "seal2", name: "instantiate", stable: false, deprecated: false },
        HostFnImport { module: "seal0", name: "terminate", stable: true, deprecated: false },
        HostFnImport { module: "seal1", name: "terminate", stable: true, deprecated: false },
        HostFnImport { module: "seal0", name: "input", stable: true, deprecated: false },
        HostFnImport { module: "seal0", name: "seal_return", stable: true, deprecated: false },
        HostFnImport { module: "seal0", name: "caller", stable: true, deprecated: false },
        HostFnImport { module: "seal0", name: "is_contract", stable: true, deprecated: false },
        HostFnImport { module: "seal0", name: "code_hash", stable: true, deprecated: false },
        HostFnImport { module: "seal0", name: "own_code_hash", stable: true, deprecated: false },
        HostFnImport { module: "seal0", name: "caller_is_origin", stable: true, deprecated: false },
        HostFnImport { module: "seal0", name: "caller_is_root", stable: false, deprecated: false },
        HostFnImport { module: "seal0", name: "address", stable: true, deprecated: false },
        HostFnImport { module: "seal0", name: "weight_to_fee", stable: true, deprecated: false },
        HostFnImport { module: "seal1", name: "weight_to_fee", stable: false, deprecated: false },
        HostFnImport { module: "seal0", name: "gas_left", stable: true, deprecated: false },
        HostFnImport { module: "seal1", name: "gas_left", stable: false, deprecated: false },
        HostFnImport { module: "seal0", name: "balance", stable: true, deprecated: false },
        HostFnImport { module: "seal0", name: "value_transferred", stable: true, deprecated: false },
        HostFnImport { module: "seal0", name: "random", stable: true, deprecated: true },
        HostFnImport { module: "seal1", name: "random", stable: true, deprecated: true },
        HostFnImport { module: "seal0", name: "now", stable: true, deprecated: false },
        HostFnImport { module: "seal0", name: "minimum_balance", stable: true, deprecated: false },
        HostFnImport { module: "seal0", name: "tombstone_deposit", stable: true, deprecated: true },
        HostFnImport { module: "seal0", name: "restore_to", stable: true, deprecated: true },
        HostFnImport { module: "seal1", name: "restore_to", stable: true, deprecated: true },
        HostFnImport { module: "seal0", name: "set_rent_allowance", stable: true, deprecated: true },
        HostFnImport { module: "seal1", name: "set_rent_allowance", stable: true, deprecated: true },
        HostFnImport { module: "seal0", name: "rent_allowance", stable: true, deprecated: true },
        HostFnImport { module: "seal0", name: "deposit_event", stable: true, deprecated: false },
        HostFnImport { module: "seal0", name: "block_number", stable: true, deprecated: false },
        HostFnImport { module: "seal0", name: "hash_sha2_256", stable: true, deprecated: false },
        HostFnImport { module: "seal0", name: "hash_keccak_256", stable: true, deprecated: false },
        HostFnImport { module: "seal0", name: "hash_blake2_256", stable: true, deprecated: false },
        HostFnImport { module: "seal0", name: "hash_blake2_128", stable: true, deprecated: false },
        HostFnImport { module: "seal0", name: "call_chain_extension", stable: true, deprecated: false },
        HostFnImport { module: "seal0", name: "debug_message", stable: true, deprecated: false },
        HostFnImport { module: "seal0", name: "call_runtime", stable: true, deprecated: false },
        HostFnImport { module: "seal0", name: "ecdsa_recover", stable: true, deprecated: false },
        HostFnImport { module: "seal0", name: "sr25519_verify", stable: false, deprecated: false },
        HostFnImport { module: "seal0", name: "set_code_hash", stable: true, deprecated: false },
        HostFnImport { module: "seal0", name: "ecdsa_to_eth_address", stable: true, deprecated: false },
        HostFnImport { module: "seal0", name: "reentrance_count", stable: false, deprecated: false },
        HostFnImport { module: "seal0", name: "account_reentrance_count", stable: false, deprecated: false },
        HostFnImport { module: "seal0", name: "instantiation_nonce", stable: false, deprecated: false },
        HostFnImport { module: "seal0", name: "seal_set_storage", stable: true, deprecated: false },
        HostFnImport { module: "seal1", name: "seal_set_storage", stable: true, deprecated: false },
        HostFnImport { module: "seal2", name: "seal_set_storage", stable: true, deprecated: false },
        HostFnImport { module: "seal0", name: "seal_clear_storage", stable: true, deprecated: false },
        HostFnImport { module: "seal1", name: "seal_clear_storage", stable: true, deprecated: false },
        HostFnImport { module: "seal0", name: "seal_get_storage", stable: true, deprecated: false },
        HostFnImport { module: "seal1", name: "seal_get_storage", stable: true, deprecated: false },
        HostFnImport { module: "seal0", name: "seal_contains_storage", stable: true, deprecated: false },
        HostFnImport { module: "seal1", name: "seal_contains_storage", stable: true, deprecated: false },
        HostFnImport { module: "seal0", name: "seal_take_storage", stable: true, deprecated: false },
        HostFnImport { module: "seal0", name: "seal_transfer", stable: true, deprecated: false },
        HostFnImport { module: "seal0", name: "seal_call", stable: true, deprecated: false },
        HostFnImport { module: "seal1", name: "seal_call", stable: true, deprecated: false },
        HostFnImport { module: "seal0", name: "seal_delegate_call", stable: true, deprecated: false },
        HostFnImport { module: "seal0", name: "seal_instantiate", stable: true, deprecated: false },
        HostFnImport { module: "seal1", name: "seal_instantiate", stable: true, deprecated: false },
        HostFnImport { module: "seal0", name: "seal_terminate", stable: true, deprecated: false },
        HostFnImport { module: "seal1", name: "seal_terminate", stable: true, deprecated: false },
        HostFnImport { module: "seal0", name: "seal_input", stable: true, deprecated: false },
        HostFnImport { module: "seal0", name: "seal_caller", stable: true, deprecated: false },
        HostFnImport { module: "seal0", name: "seal_is_contract", stable: true, deprecated: false },
        HostFnImport { module: "seal0", name: "seal_code_hash", stable: true, deprecated: false },
        HostFnImport { module: "seal0", name: "seal_own_code_hash", stable: true, deprecated: false },
        HostFnImport { module: "seal0", name: "seal_caller_is_origin", stable: true, deprecated: false },
        HostFnImport { module: "seal0", name: "seal_address", stable: true, deprecated: false },
        HostFnImport { module: "seal0", name: "seal_weight_to_fee", stable: true, deprecated: false },
        HostFnImport { module: "seal0", name: "seal_gas_left", stable: true, deprecated: false },
        HostFnImport { module: "seal0", name: "seal_balance", stable: true, deprecated: false },
        HostFnImport { module: "seal0", name: "seal_value_transferred", stable: true, deprecated: false },
        HostFnImport { module: "seal0", name: "seal_random", stable: true, deprecated: true },
        HostFnImport { module: "seal1", name: "seal_random", stable: true, deprecated: true },
        HostFnImport { module: "seal0", name: "seal_now", stable: true, deprecated: false },
        HostFnImport { module: "seal0", name: "seal_minimum_balance", stable: true, deprecated: false },
        HostFnImport { module: "seal0", name: "seal_tombstone_deposit", stable: true, deprecated: true },
        HostFnImport { module: "seal0", name: "seal_restore_to", stable: true, deprecated: true },
        HostFnImport { module: "seal1", name: "seal_restore_to", stable: true, deprecated: true },
        HostFnImport { module: "seal0", name: "seal_set_rent_allowance", stable: true, deprecated: true },
        HostFnImport { module: "seal1", name: "seal_set_rent_allowance", stable: true, deprecated: true },
        HostFnImport { module: "seal0", name: "seal_rent_allowance", stable: true, deprecated: true },
        HostFnImport { module: "seal0", name: "seal_deposit_event", stable: true, deprecated: false },
        HostFnImport { module: "seal0", name: "seal_block_number", stable: true, deprecated: false },
        HostFnImport { module: "seal0", name: "seal_hash_sha2_256", stable: true, deprecated: false },
        HostFnImport { module: "seal0", name: "seal_hash_keccak_256", stable: true, deprecated: false },
        HostFnImport { module: "seal0", name: "seal_hash_blake2_256", stable: true, deprecated: false },
        HostFnImport { module: "seal0", name: "seal_hash_blake2_128", stable: true, deprecated: false },
        HostFnImport { module: "seal0", name: "seal_call_chain_extension", stable: true, deprecated: false },
        HostFnImport { module: "seal0", name: "seal_debug_message", stable: true, deprecated: false },
        HostFnImport { module: "seal0", name: "seal_ecdsa_recover", stable: true, deprecated: false },
        HostFnImport { module: "seal0", name: "seal_set_code_hash", stable: true, deprecated: false },
        HostFnImport { module: "seal0", name: "seal_ecdsa_to_eth_address", stable: true, deprecated: false },
    ]
}

/// Whether the host function `name` of `module` belongs to the unstable interface: it is
/// still subject to change, and production chains do not expose it.
pub open spec fn unstable_import(module: &str, name: &str) -> bool {
    (module == "seal2" && name == "call")
        || (module == "seal2" && name == "instantiate")
        || (module == "seal0" && name == "caller_is_root")
        || (module == "seal1" && name == "weight_to_fee")
        || (module == "seal1" && name == "gas_left")
        || (module == "seal0" && name == "sr25519_verify")
        || (module == "seal0" && name == "reentrance_count")
        || (module == "seal0" && name == "account_reentrance_count")
        || (module == "seal0" && name == "instantiation_nonce")
}

/// Whether the host function `name` of `module` is deprecated: it only remains so that old
/// contracts can still be instantiated where the chain exposes deprecated interfaces.
pub open spec fn deprecated_import(module: &str, name: &str) -> bool {
    (module == "seal0" && name == "random")
        || (module == "seal1" && name == "random")
        || (module == "seal0" && name == "tombstone_deposit")
        || (module == "seal0" && name == "restore_to")
        || (module == "seal1" && name == "restore_to")
        || (module == "seal0" && name == "set_rent_allowance")
        || (module == "seal1" && name == "set_rent_allowance")
        || (module == "seal0" && name == "rent_allowance")
        || (module == "seal0" && name == "seal_random")
        || (module == "seal1" && name == "seal_random")
        || (module == "seal0" && name == "seal_tombstone_deposit")
        || (module == "seal0" && name == "seal_restore_to")
        || (module == "seal1" && name == "seal_restore_to")
        || (module == "seal0" && name == "seal_set_rent_allowance")
        || (module == "seal1" && name == "seal_set_rent_allowance")
        || (module == "seal0" && name == "seal_rent_allowance")
}

/// Whether `i` is linked when unstable interfaces are exposed or not (`allow_unstable`) and
/// deprecated ones are exposed or not (`allow_deprecated`).
pub open spec fn import_linked(i: HostFnImport, allow_unstable: bool, allow_deprecated: bool) -> bool {
    (i.stable || allow_unstable) && (!i.deprecated || allow_deprecated)
}

/// The imports of `s` that are linked, in their order.
pub open spec fn linked(s: Seq<HostFnImport>, allow_unstable: bool, allow_deprecated: bool) -> Seq<HostFnImport>
    decreases s.len(),
{
    if s.len() == 0 {
        Seq::empty()
    } else {
        let rest = linked(s.drop_last(), allow_unstable, allow_deprecated);
        if import_linked(s.last(), allow_unstable, allow_deprecated) {
            rest.push(s.last())
        } else {
            rest
        }
    }
}

/// The host functions that the runtime defines for contracts.
pub struct Env;

impl Env {
    /// Every host function the runtime defines, in the order in which they are linked.
    pub fn host_fn_imports() -> (r: Vec<HostFnImport>)
        ensures
            r@ == host_fn_table(),
    {
        let r = vec![
            HostFnImport { module: "seal0", name: "gas", stable: true, deprecated: false },
            HostFnImport { module: "seal0", name: "set_storage", stable: true, deprecated: false },
            HostFnImport { module: "seal1", name: "set_storage", stable: true, deprecated: false },
            HostFnImport { module: "seal2", name: "set_storage", stable: true, deprecated: false },
            HostFnImport { module: "seal0", name: "clear_storage", stable: true, deprecated: false },
            HostFnImport { module: "seal1", name: "clear_storage", stable: true, deprecated: false },
            HostFnImport { module: "seal0", name: "get_storage", stable: true, deprecated: false },
            HostFnImport { module: "seal1", name: "get_storage", stable: true, deprecated: false },
            HostFnImport { module: "seal0", name: "contains_storage", stable: true, deprecated: false },
            HostFnImport { module: "seal1", name: "contains_storage", stable: true, deprecated: false },
            HostFnImport { module: "seal0", name: "take_storage", stable: true, deprecated: false },
            HostFnImport { module: "seal0", name: "transfer", stable: true, deprecated: false },
            HostFnImport { module: "seal0", name: "call", stable: true, deprecated: false },
            HostFnImport { module: "seal1", name: "call", stable: true, deprecated: false },
            HostFnImport { module: "seal2", name: "call", stable: false, deprecated: false },
            HostFnImport { module: "seal0", name: "delegate_call", stable: true, deprecated: false },
            HostFnImport { module: "seal0", name: "instantiate", stable: true, deprecated: false },
            HostFnImport { module: "seal1", name: "instantiate", stable: true, deprecated: false },
            HostFnImport { module: "seal2", name: "instantiate", stable: false, deprecated: false },
            HostFnImport { module: "seal0", name: "terminate", stable: true, deprecated: false },
            HostFnImport { module: "seal1", name: "terminate", stable: true, deprecated: false },
            HostFnImport { module: "seal0", name: "input", stable: true, deprecated: false },
            HostFnImport { module: "seal0", name: "seal_return", stable: true, deprecated: false },
            HostFnImport { module: "seal0", name: "caller", stable: true, deprecated: false },
            HostFnImport { module: "seal0", name: "is_contract", stable: true, deprecated: false },
            HostFnImport { module: "seal0", name: "code_hash", stable: true, deprecated: false },
            HostFnImport { module: "seal0", name: "own_code_hash", stable: true, deprecated: false },
            HostFnImport { module: "seal0", name: "caller_is_origin", stable: true, deprecated: false },
            HostFnImport { module: "seal0", name: "caller_is_root", stable: false, deprecated: false },
            HostFnImport { module: "seal0", name: "address", stable: true, deprecated: false },
            HostFnImport { module: "seal0", name: "weight_to_fee", stable: true, deprecated: false },
            HostFnImport { module: "seal1", name: "weight_to_fee", stable: false, deprecated: false },
            HostFnImport { module: "seal0", name: "gas_left", stable: true, deprecated: false },
            HostFnImport { module: "seal1", name: "gas_left", stable: false, deprecated: false },
            HostFnImport { module: "seal0", name: "balance", stable: true, deprecated: false },
            HostFnImport { module: "seal0", name: "value_transferred", stable: true, deprecated: false },
            HostFnImport { module: "seal0", name: "random", stable: true, deprecated: true },
            HostFnImport { module: "seal1", name: "random", stable: true, deprecated: true },
            HostFnImport { module: "seal0", name: "now", stable: true, deprecated: false },
            HostFnImport { module: "seal0", name: "minimum_balance", stable: true, deprecated: false },
            HostFnImport { module: "seal0", name: "tombstone_deposit", stable: true, deprecated: true },
            HostFnImport { module: "seal0", name: "restore_to", stable: true, deprecated: true },
            HostFnImport { module: "seal1", name: "restore_to", stable: true, deprecated: true },
            HostFnImport { module: "seal0", name: "set_rent_allowance", stable: true, deprecated: true },
            HostFnImport { module: "seal1", name: "set_rent_allowance", stable: true, deprecated: true },
            HostFnImport { module: "seal0", name: "rent_allowance", stable: true, deprecated: true },
            HostFnImport { module: "seal0", name: "deposit_event", stable: true, deprecated: false },
            HostFnImport { module: "seal0", name: "block_number", stable: true, deprecated: false },
            HostFnImport { module: "seal0", name: "hash_sha2_256", stable: true, deprecated: false },
            HostFnImport { module: "seal0", name: "hash_keccak_256", stable: true, deprecated: false },
            HostFnImport { module: "seal0", name: "hash_blake2_256", stable: true, deprecated: false },
            HostFnImport { module: "seal0", name: "hash_blake2_128", stable: true, deprecated: false },
            HostFnImport { module: "seal0", name: "call_chain_extension", stable: true, deprecated: false },
            HostFnImport { module: "seal0", name: "debug_message", stable: true, deprecated: false },
            HostFnImport { module: "seal0", name: "call_runtime", stable: true, deprecated: false },
            HostFnImport { module: "seal0", name: "ecdsa_recover", stable: true, deprecated: false },
            HostFnImport { module: "seal0", name: "sr25519_verify", stable: false, deprecated: false },
            HostFnImport { module: "seal0", name: "set_code_hash", stable: true, deprecated: false },
            HostFnImport { module: "seal0", name: "ecdsa_to_eth_address", stable: true, deprecated: false },
            HostFnImport { module: "seal0", name: "reentrance_count", stable: false, deprecated: false },
            HostFnImport { module: "seal0", name: "account_reentrance_count", stable: false, deprecated: false },
            HostFnImport { module: "seal0", name: "instantiation_nonce", stable: false, deprecated: false },
            HostFnImport { module: "seal0", name: "seal_set_storage", stable: true, deprecated: false },
            HostFnImport { module: "seal1", name: "seal_set_storage", stable: true, deprecated: false },
            HostFnImport { module: "seal2", name: "seal_set_storage", stable: true, deprecated: false },
            HostFnImport { module: "seal0", name: "seal_clear_storage", stable: true, deprecated: false },
            HostFnImport { module: "seal1", name: "seal_clear_storage", stable: true, deprecated: false },
            HostFnImport { module: "seal0", name: "seal_get_storage", stable: true, deprecated: false },
            HostFnImport { module: "seal1", name: "seal_get_storage", stable: true, deprecated: false },
            HostFnImport { module: "seal0", name: "seal_contains_storage", stable: true, deprecated: false },
            HostFnImport { module: "seal1", name: "seal_contains_storage", stable: true, deprecated: false },
            HostFnImport { module: "seal0", name: "seal_take_storage", stable: true, deprecated: false },
            HostFnImport { module: "seal0", name: "seal_transfer", stable: true, deprecated: false },
            HostFnImport { module: "seal0", name: "seal_call", stable: true, deprecated: false },
            HostFnImport { module: "seal1", name: "seal_call", stable: true, deprecated: false },
            HostFnImport { module: "seal0", name: "seal_delegate_call", stable: true, deprecated: false },
            HostFnImport { module: "seal0", name: "seal_instantiate", stable: true, deprecated: false },
            HostFnImport { module: "seal1", name: "seal_instantiate", stable: true, deprecated: false },
            HostFnImport { module: "seal0", name: "seal_terminate", stable: true, deprecated: false },
            HostFnImport { module: "seal1", name: "seal_terminate", stable: true, deprecated: false },
            HostFnImport { module: "seal0", name: "seal_input", stable: true, deprecated: false },
            HostFnImport { module: "seal0", name: "seal_caller", stable: true, deprecated: false },
            HostFnImport { module: "seal0", name: "seal_is_contract", stable: true, deprecated: false },
            HostFnImport { module: "seal0", name: "seal_code_hash", stable: true, deprecated: false },
            HostFnImport { module: "seal0", name: "seal_own_code_hash", stable: true, deprecated: false },
            HostFnImport { module: "seal0", name: "seal_caller_is_origin", stable: true, deprecated: false },
            HostFnImport { module: "seal0", name: "seal_address", stable: true, deprecated: false },
            HostFnImport { module: "seal0", name: "seal_weight_to_fee", stable: true, deprecated: false },
            HostFnImport { module: "seal0", name: "seal_gas_left", stable: true, deprecated: false },
            HostFnImport { module: "seal0", name: "seal_balance", stable: true, deprecated: false },
            HostFnImport { module: "seal0", name: "seal_value_transferred", stable: true, deprecated: false },
            HostFnImport { module: "seal0", name: "seal_random", stable: true, deprecated: true },
            HostFnImport { module: "seal1", name: "seal_random", stable: true, deprecated: true },
            HostFnImport { module: "seal0", name: "seal_now", stable: true, deprecated: false },
            HostFnImport { module: "seal0", name: "seal_minimum_balance", stable: true, deprecated: false },
            HostFnImport { module: "seal0", name: "seal_tombstone_deposit", stable: true, deprecated: true },
            HostFnImport { module: "seal0", name: "seal_restore_to", stable: true, deprecated: true },
            HostFnImport { module: "seal1", name: "seal_restore_to", stable: true, deprecated: true },
            HostFnImport { module: "seal0", name: "seal_set_rent_allowance", stable: true, deprecated: true },
            HostFnImport { module: "seal1", name: "seal_set_rent_allowance", stable: true, deprecated: true },
            HostFnImport { module: "seal0", name: "seal_rent_allowance", stable: true, deprecated: true },
            HostFnImport { module: "seal0", name: "seal_deposit_event", stable: true, deprecated: false },
            HostFnImport { module: "seal0", name: "seal_block_number", stable: true, deprecated: false },
            HostFnImport { module: "seal0", name: "seal_hash_sha2_256", stable: true, deprecated: false },
            HostFnImport { module: "seal0", name: "seal_hash_keccak_256", stable: true, deprecated: false },
            HostFnImport { module: "seal0", name: "seal_hash_blake2_256", stable: true, deprecated: false },
            HostFnImport { module: "seal0", name: "seal_hash_blake2_128", stable: true, deprecated: false },
            HostFnImport { module: "seal0", name: "seal_call_chain_extension", stable: true, deprecated: false },
            HostFnImport { module: "seal0", name: "seal_debug_message", stable: true, deprecated: false },
            HostFnImport { module: "seal0", name: "seal_ecdsa_recover", stable: true, deprecated: false },
            HostFnImport { module: "seal0", name: "seal_set_code_hash", stable: true, deprecated: false },
            HostFnImport { module: "seal0", name: "seal_ecdsa_to_eth_address", stable: true, deprecated: false },
        ];
        assert(r@ =~= host_fn_table());
        r
    }

    /// Whether `import` is linked under the given interface switches: unstable functions only
    /// where unstable interfaces are allowed, deprecated ones only where deprecated interfaces
    /// are allowed.
    pub fn is_linked(
        import: &HostFnImport,
        allow_unstable: AllowUnstableInterface,
        allow_deprecated: AllowDeprecatedInterface,
    ) -> (r: bool)
        ensures
            r == import_linked(
                *import,
                allow_unstable == AllowUnstableInterface::Yes,
                allow_deprecated == AllowDeprecatedInterface::Yes,
            ),
    {
        let unstable_allowed = match allow_unstable {
            AllowUnstableInterface::Yes => true,
            AllowUnstableInterface::No => false,
        };
        let deprecated_allowed = match allow_deprecated {
            AllowDeprecatedInterface::Yes => true,
            AllowDeprecatedInterface::No => false,
        };
        (import.stable || unstable_allowed) && (!import.deprecated || deprecated_allowed)
    }

    /// The host functions to link into a contract's instance under the given interface
    /// switches, in the order in which they are defined.
    pub fn linked_imports(
        allow_unstable: AllowUnstableInterface,
        allow_deprecated: AllowDeprecatedInterface,
    ) -> (r: Vec<HostFnImport>)
        ensures
            r@ == linked(
                host_fn_table(),
                allow_unstable == AllowUnstableInterface::Yes,
                allow_deprecated == AllowDeprecatedInterface::Yes,
            ),
    {
        let all = Self::host_fn_imports();
        let ghost au = allow_unstable == AllowUnstableInterface::Yes;
        let ghost ad = allow_deprecated == AllowDeprecatedInterface::Yes;
        let mut out: Vec<HostFnImport> = Vec::new();
        let mut i: usize = 0;
        while i < all.len()
            invariant
                all@ == host_fn_table(),
                i <= all@.len(),
                au == (allow_unstable == AllowUnstableInterface::Yes),
                ad == (allow_deprecated == AllowDeprecatedInterface::Yes),
                out@ == linked(all@.take(i as int), au, ad),
            decreases all@.len() - i,
        {
            let import = all[i];
            assert(all@.take(i as int + 1).drop_last() =~= all@.take(i as int));
            if Self::is_linked(&import, allow_unstable, allow_deprecated) {
                out.push(import);
            }
            i = i + 1;
        }
        assert(all@.take(all@.len() as int) =~= all@);
        out
    }
}

} // verus!
