//! The dispatchable calls of the contracts module: their names, indices and weights, and the
//! checks the module makes of its configuration.
use crate::errors::{DispatchError, Error};
use crate::exec_result::{ErrorOrigin, ExecError, ExecReturnValue, REVERT_BIT};
use crate::weight::{weight_add, Weight};
use vstd::prelude::*;

verus! {

/// Whether code may use instructions that are not deterministic.
#[derive(Clone, Copy, PartialEq, Eq, Structural, Debug)]
pub enum Determinism {
    /// The code must be deterministic.
    Enforced,
    /// Indeterministic code is allowed where the call is not part of on-chain execution.
    Relaxed,
}

/// Contains one variant per dispatchable that can be called by an extrinsic.
#[derive(Clone, Debug)]
#[allow(non_camel_case_types)]
pub enum Call {
    /// Calls a contract, with a one-dimensional gas limit.
    call_old_weight {
        dest: Vec<u8>,
        value: u128,
        gas_limit: u64,
        storage_deposit_limit: Option<u128>,
        data: Vec<u8>,
    },
    /// Uploads and instantiates code, with a one-dimensional gas limit.
    instantiate_with_code_old_weight {
        value: u128,
        gas_limit: u64,
        storage_deposit_limit: Option<u128>,
        code: Vec<u8>,
        data: Vec<u8>,
        salt: Vec<u8>,
    },
    /// Instantiates uploaded code, with a one-dimensional gas limit.
    instantiate_old_weight {
        value: u128,
        gas_limit: u64,
        storage_deposit_limit: Option<u128>,
        code_hash: Vec<u8>,
        data: Vec<u8>,
        salt: Vec<u8>,
    },
    /// Uploads code without instantiating it.
    upload_code { code: Vec<u8>, storage_deposit_limit: Option<u128>, determinism: Determinism },
    /// Removes code that no contract uses.
    remove_code { code_hash: Vec<u8> },
    /// Replaces the code of a contract.
    set_code { dest: Vec<u8>, code_hash: Vec<u8> },
    /// Calls a contract.
    call { dest: Vec<u8>, value: u128, gas_limit: Weight, storage_deposit_limit: Option<u128>, data: Vec<u8> },
    /// Uploads and instantiates code.
    instantiate_with_code {
        value: u128,
        gas_limit: Weight,
        storage_deposit_limit: Option<u128>,
        code: Vec<u8>,
        data: Vec<u8>,
        salt: Vec<u8>,
    },
    /// Instantiates uploaded code.
    instantiate {
        value: u128,
        gas_limit: Weight,
        storage_deposit_limit: Option<u128>,
        code_hash: Vec<u8>,
        data: Vec<u8>,
        salt: Vec<u8>,
    },
}

/// The origin of a call into a contract: the root, or a signed account.
#[derive(Clone, Debug)]
pub enum Origin {
    /// The root origin.
    Root,
    /// A signed account.
    Signed(Vec<u8>),
}

/// The events emitted by the contracts module. Accounts and hashes are given by their bytes.
#[derive(Clone, Debug)]
pub enum Event {
    /// Contract deployed by address at the specified address.
    Instantiated { deployer: Vec<u8>, contract: Vec<u8> },
    /// Contract has been removed, which only `seal_terminate` does.
    Terminated {
        /// The contract that was terminated.
        contract: Vec<u8>,
        /// The account that received the contract's remaining balance.
        beneficiary: Vec<u8>,
    },
    /// Code with the specified hash has been stored.
    CodeStored { code_hash: Vec<u8> },
    /// A custom event emitted by the contract.
    ContractEmitted {
        /// The contract that emitted the event.
        contract: Vec<u8>,
        /// Data supplied by the contract; decoding it needs the contract's metadata.
        data: Vec<u8>,
    },
    /// A code with the specified hash was removed.
    CodeRemoved { code_hash: Vec<u8> },
    /// A contract's code was updated.
    ContractCodeUpdated {
        /// The contract that has been updated.
        contract: Vec<u8>,
        /// New code hash that was set for the contract.
        new_code_hash: Vec<u8>,
        /// Previous code hash of the contract.
        old_code_hash: Vec<u8>,
    },
    /// A contract was called either by a plain account or another contract; emitted for
    /// successful calls only.
    Called {
        /// The caller of the `contract`.
        caller: Origin,
        /// The contract that was called.
        contract: Vec<u8>,
    },
    /// A contract delegate called a code hash; emitted for successful calls only.
    DelegateCalled {
        /// The contract in whose context the `code_hash` is executed.
        contract: Vec<u8>,
        /// The code hash that was delegate called.
        code_hash: Vec<u8>,
    },
}

/// The position of each dispatchable in the module's list of calls.
pub open spec fn call_index(c: Call) -> u8 {
    match c {
        Call::call_old_weight { .. } => 0,
        Call::instantiate_with_code_old_weight { .. } => 1,
        Call::instantiate_old_weight { .. } => 2,
        Call::upload_code { .. } => 3,
        Call::remove_code { .. } => 4,
        Call::set_code { .. } => 5,
        Call::call { .. } => 6,
        Call::instantiate_with_code { .. } => 7,
        Call::instantiate { .. } => 8,
    }
}

/// The names of the dispatchables, in the order of their indices.
pub open spec fn call_names() -> Seq<Seq<char>> {
    seq![
        "call_old_weight"@,
        "instantiate_with_code_old_weight"@,
        "instantiate_old_weight"@,
        "upload_code"@,
        "remove_code"@,
        "set_code"@,
        "call"@,
        "instantiate_with_code"@,
        "instantiate"@,
    ]
}

/// The benchmarked weight function that weighs a dispatchable, with its arguments.
#[derive(Clone, Copy, PartialEq, Eq, Structural, Debug)]
pub enum BaseWeight {
    /// `WeightInfo::call()`.
    Call,
    /// `WeightInfo::instantiate_with_code(code_len, data_len, salt_len)`.
    InstantiateWithCode { code_len: u32, data_len: u32, salt_len: u32 },
    /// `WeightInfo::instantiate(data_len, salt_len)`.
    Instantiate { data_len: u32, salt_len: u32 },
    /// `WeightInfo::upload_code(code_len)`.
    UploadCode { code_len: u32 },
    /// `WeightInfo::remove_code()`.
    RemoveCode,
    /// `WeightInfo::set_code()`.
    SetCode,
}

/// The class of a dispatch.
#[derive(Clone, Copy, PartialEq, Eq, Structural, Debug)]
pub enum DispatchClass {
    /// A normal dispatch.
    Normal,
    /// An operational dispatch.
    Operational,
    /// A mandatory dispatch.
    Mandatory,
}

/// Whether a dispatch pays a fee.
#[derive(Clone, Copy, PartialEq, Eq, Structural, Debug)]
pub enum Pays {
    /// The dispatch pays a fee.
    Yes,
    /// The dispatch pays no fee.
    No,
}

/// The weight, class and fee of a dispatch.
#[derive(Clone, Copy, PartialEq, Eq, Structural, Debug)]
pub struct DispatchInfo {
    pub weight: Weight,
    pub class: DispatchClass,
    pub pays_fee: Pays,
}

impl Call {
    /// Creates a call with the variant `call_old_weight`.
    pub fn new_call_variant_call_old_weight(
        dest: Vec<u8>,
        value: u128,
        gas_limit: u64,
        storage_deposit_limit: Option<u128>,
        data: Vec<u8>,
    ) -> (r: Call)
        ensures
            r == (Call::call_old_weight { dest, value, gas_limit, storage_deposit_limit, data }),
    {
        Call::call_old_weight { dest, value, gas_limit, storage_deposit_limit, data }
    }

    /// Creates a call with the variant `instantiate_with_code_old_weight`.
    pub fn new_call_variant_instantiate_with_code_old_weight(
        value: u128,
        gas_limit: u64,
        storage_deposit_limit: Option<u128>,
        code: Vec<u8>,
        data: Vec<u8>,
        salt: Vec<u8>,
    ) -> (r: Call)
        ensures
            r == (Call::instantiate_with_code_old_weight { value, gas_limit, storage_deposit_limit, code, data, salt }),
    {
        Call::instantiate_with_code_old_weight { value, gas_limit, storage_deposit_limit, code, data, salt }
    }

    /// Creates a call with the variant `instantiate_old_weight`.
    pub fn new_call_variant_instantiate_old_weight(
        value: u128,
        gas_limit: u64,
        storage_deposit_limit: Option<u128>,
        code_hash: Vec<u8>,
        data: Vec<u8>,
        salt: Vec<u8>,
    ) -> (r: Call)
        ensures
            r == (Call::instantiate_old_weight { value, gas_limit, storage_deposit_limit, code_hash, data, salt }),
    {
        Call::instantiate_old_weight { value, gas_limit, storage_deposit_limit, code_hash, data, salt }
    }

    /// Creates a call with the variant `upload_code`.
    pub fn new_call_variant_upload_code(code: Vec<u8>, storage_deposit_limit: Option<u128>, determinism: Determinism) -> (r: Call)
        ensures
            r == (Call::upload_code { code, storage_deposit_limit, determinism }),
    {
        Call::upload_code { code, storage_deposit_limit, determinism }
    }

    /// Creates a call with the variant `remove_code`.
    pub fn new_call_variant_remove_code(code_hash: Vec<u8>) -> (r: Call)
        ensures
            r == (Call::remove_code { code_hash }),
    {
        Call::remove_code { code_hash }
    }

    /// Creates a call with the variant `set_code`.
    pub fn new_call_variant_set_code(dest: Vec<u8>, code_hash: Vec<u8>) -> (r: Call)
        ensures
            r == (Call::set_code { dest, code_hash }),
    {
        Call::set_code { dest, code_hash }
    }

    /// Creates a call with the variant `call`.
    pub fn new_call_variant_call(
        dest: Vec<u8>,
        value: u128,
        gas_limit: Weight,
        storage_deposit_limit: Option<u128>,
        data: Vec<u8>,
    ) -> (r: Call)
        ensures
            r == (Call::call { dest, value, gas_limit, storage_deposit_limit, data }),
    {
        Call::call { dest, value, gas_limit, storage_deposit_limit, data }
    }

    /// Creates a call with the variant `instantiate_with_code`.
    pub fn new_call_variant_instantiate_with_code(
        value: u128,
        gas_limit: Weight,
        storage_deposit_limit: Option<u128>,
        code: Vec<u8>,
        data: Vec<u8>,
        salt: Vec<u8>,
    ) -> (r: Call)
        ensures
            r == (Call::instantiate_with_code { value, gas_limit, storage_deposit_limit, code, data, salt }),
    {
        Call::instantiate_with_code { value, gas_limit, storage_deposit_limit, code, data, salt }
    }

    /// Creates a call with the variant `instantiate`.
    pub fn new_call_variant_instantiate(
        value: u128,
        gas_limit: Weight,
        storage_deposit_limit: Option<u128>,
        code_hash: Vec<u8>,
        data: Vec<u8>,
        salt: Vec<u8>,
    ) -> (r: Call)
        ensures
            r == (Call::instantiate { value, gas_limit, storage_deposit_limit, code_hash, data, salt }),
    {
        Call::instantiate { value, gas_limit, storage_deposit_limit, code_hash, data, salt }
    }

    /// The name of the dispatchable.
    pub fn get_call_name(&self) -> (r: &'static str)
        ensures
            r@ == call_names()[call_index(*self) as int],
    {
        match self {
            Call::call_old_weight { .. } => "call_old_weight",
            Call::instantiate_with_code_old_weight { .. } => "instantiate_with_code_old_weight",
            Call::instantiate_old_weight { .. } => "instantiate_old_weight",
            Call::upload_code { .. } => "upload_code",
            Call::remove_code { .. } => "remove_code",
            Call::set_code { .. } => "set_code",
            Call::call { .. } => "call",
            Call::instantiate_with_code { .. } => "instantiate_with_code",
            Call::instantiate { .. } => "instantiate",
        }
    }

    /// The names of all dispatchables, in the order of their indices.
    pub fn get_call_names() -> (r: Vec<&'static str>)
        ensures
            r@.len() == call_names().len(),
            forall|i: int| 0 <= i < r@.len() ==> #[trigger] r@[i]@ == call_names()[i],
    {
        let r = vec![
            "call_old_weight",
            "instantiate_with_code_old_weight",
            "instantiate_old_weight",
            "upload_code",
            "remove_code",
            "set_code",
            "call",
            "instantiate_with_code",
            "instantiate",
        ];
        assert(forall|i: int| 0 <= i < r@.len() ==> #[trigger] r@[i]@ == call_names()[i]) by {
            assert(r@[0]@ == call_names()[0]);
            assert(r@[1]@ == call_names()[1]);
            assert(r@[2]@ == call_names()[2]);
            assert(r@[3]@ == call_names()[3]);
            assert(r@[4]@ == call_names()[4]);
            assert(r@[5]@ == call_names()[5]);
            assert(r@[6]@ == call_names()[6]);
            assert(r@[7]@ == call_names()[7]);
            assert(r@[8]@ == call_names()[8]);
        }
        r
    }

    /// The index of the dispatchable.
    pub fn get_call_index(&self) -> (r: u8)
        ensures
            r == call_index(*self),
    {
        match self {
            Call::call_old_weight { .. } => 0,
            Call::instantiate_with_code_old_weight { .. } => 1,
            Call::instantiate_old_weight { .. } => 2,
            Call::upload_code { .. } => 3,
            Call::remove_code { .. } => 4,
            Call::set_code { .. } => 5,
            Call::call { .. } => 6,
            Call::instantiate_with_code { .. } => 7,
            Call::instantiate { .. } => 8,
        }
    }

    /// The indices of all dispatchables.
    pub fn get_call_indices() -> (r: Vec<u8>)
        ensures
            r@ == seq![0u8, 1u8, 2u8, 3u8, 4u8, 5u8, 6u8, 7u8, 8u8],
    {
        let r = vec![0u8, 1u8, 2u8, 3u8, 4u8, 5u8, 6u8, 7u8, 8u8];
        assert(r@ =~= seq![0u8, 1u8, 2u8, 3u8, 4u8, 5u8, 6u8, 7u8, 8u8]);
        r
    }

    /// Which benchmarked weight function weighs the dispatchable, and with which lengths.
    pub fn base_weight(&self) -> (r: BaseWeight)
        ensures
            r == (match *self {
                Call::call_old_weight { .. } => BaseWeight::Call,
                Call::call { .. } => BaseWeight::Call,
                Call::instantiate_with_code_old_weight { code, data, salt, .. } => BaseWeight::InstantiateWithCode {
                    code_len: code@.len() as u32, data_len: data@.len() as u32, salt_len: salt@.len() as u32 },
                Call::instantiate_with_code { code, data, salt, .. } => BaseWeight::InstantiateWithCode {
                    code_len: code@.len() as u32, data_len: data@.len() as u32, salt_len: salt@.len() as u32 },
                Call::instantiate_old_weight { data, salt, .. } => BaseWeight::Instantiate {
                    data_len: data@.len() as u32, salt_len: salt@.len() as u32 },
                Call::instantiate { data, salt, .. } => BaseWeight::Instantiate {
                    data_len: data@.len() as u32, salt_len: salt@.len() as u32 },
                Call::upload_code { code, .. } => BaseWeight::UploadCode { code_len: code@.len() as u32 },
                Call::remove_code { .. } => BaseWeight::RemoveCode,
                Call::set_code { .. } => BaseWeight::SetCode,
            }),
    {
        match self {
            Call::call_old_weight { .. } => BaseWeight::Call,
            Call::call { .. } => BaseWeight::Call,
            Call::instantiate_with_code_old_weight { code, data, salt, .. } => BaseWeight::InstantiateWithCode {
                code_len: code.len() as u32, data_len: data.len() as u32, salt_len: salt.len() as u32 },
            Call::instantiate_with_code { code, data, salt, .. } => BaseWeight::InstantiateWithCode {
                code_len: code.len() as u32, data_len: data.len() as u32, salt_len: salt.len() as u32 },
            Call::instantiate_old_weight { data, salt, .. } => BaseWeight::Instantiate {
                data_len: data.len() as u32, salt_len: salt.len() as u32 },
            Call::instantiate { data, salt, .. } => BaseWeight::Instantiate {
                data_len: data.len() as u32, salt_len: salt.len() as u32 },
            Call::upload_code { code, .. } => BaseWeight::UploadCode { code_len: code.len() as u32 },
            Call::remove_code { .. } => BaseWeight::RemoveCode,
            Call::set_code { .. } => BaseWeight::SetCode,
        }
    }

    /// The weight, class and fee of the dispatchable, given the weight `base` that its
    /// benchmarked weight function (see `base_weight`) gives, and the two-dimensional limit
    /// `compat_limit` that a one-dimensional gas limit stands for. Calls and instantiations
    /// add their gas limit to the base weight; every dispatchable is of class `Normal` and
    /// pays a fee.
    pub fn get_dispatch_info(&self, base: Weight, compat_limit: Weight) -> (r: DispatchInfo)
        ensures
            r.class == DispatchClass::Normal,
            r.pays_fee == Pays::Yes,
            r.weight == (match *self {
                Call::call_old_weight { .. } => weight_add(base, compat_limit),
                Call::instantiate_with_code_old_weight { .. } => weight_add(base, compat_limit),
                Call::instantiate_old_weight { .. } => weight_add(base, compat_limit),
                Call::call { gas_limit, .. } => weight_add(base, gas_limit),
                Call::instantiate_with_code { gas_limit, .. } => weight_add(base, gas_limit),
                Call::instantiate { gas_limit, .. } => weight_add(base, gas_limit),
                _ => base,
            }),
    {
        let weight = match self {
            Call::call_old_weight { .. } => base.saturating_add(compat_limit),
            Call::instantiate_with_code_old_weight { .. } => base.saturating_add(compat_limit),
            Call::instantiate_old_weight { .. } => base.saturating_add(compat_limit),
            Call::call { gas_limit, .. } => base.saturating_add(*gas_limit),
            Call::instantiate_with_code { gas_limit, .. } => base.saturating_add(*gas_limit),
            Call::instantiate { gas_limit, .. } => base.saturating_add(*gas_limit),
            _ => base,
        };
        DispatchInfo { weight, class: DispatchClass::Normal, pays_fee: Pays::Yes }
    }
}

/// The outcome of a `call` or an instantiation dispatchable: a contract that ran to
/// completion but reverted its changes is reported as `ContractReverted`.
pub fn reverted_into_error(result: Result<ExecReturnValue, ExecError>) -> (r: Result<ExecReturnValue, ExecError>)
    ensures
        match result {
            Ok(v) => if v.flags.bits & REVERT_BIT == REVERT_BIT {
                r == Err::<ExecReturnValue, ExecError>(ExecError {
                    error: DispatchError::Module(Error::ContractReverted),
                    origin: ErrorOrigin::Caller,
                })
            } else {
                r matches Ok(w) && w.flags == v.flags && w.data@ == v.data@
            },
            Err(e) => r == Err::<ExecReturnValue, ExecError>(e),
        },
{
    match result {
        Ok(retval) => if retval.did_revert() {
            Err(ExecError::from_dispatch_error(Error::ContractReverted.into_dispatch_error()))
        } else {
            Ok(retval)
        },
        Err(e) => Err(e),
    }
}

/// The documentation of the module, which holds none.
pub fn pallet_documentation_metadata() -> (r: Vec<&'static str>)
    ensures
        r@.len() == 0,
{
    Vec::new()
}

/// A configuration that the module refuses to run with.
#[derive(Clone, Copy, PartialEq, Eq, Structural, Debug)]
pub enum IntegrityError {
    /// `MaxCodeLen` is not below the code length that the runtime memory allows at the given
    /// call depth.
    MaxCodeLenTooLarge { max_call_depth: u32, code_len_limit: u32, max_code_len: u32 },
    /// `MaxDebugBufferLen` is not above the minimum debug buffer size.
    DebugBufferTooSmall { max_debug_buffer_len: u32 },
}

/// The stack size a contract may use.
pub const MAX_STACK_SIZE: u32 = 1024 * 1024;

/// The minimum size of the debug buffer.
pub const MIN_DEBUG_BUF_SIZE: u32 = 256;

/// `a - b`, clamped at zero.
pub open spec fn sat_sub32(a: u32, b: u32) -> u32 {
    if a < b { 0 } else { (a - b) as u32 }
}

/// The largest code length for which the runtime memory holds a full call stack: half the
/// runtime memory shared by `max_call_depth` frames, each less the heap and stack, and 18 ×
/// 4 bytes of memory per byte of code.
pub open spec fn code_len_limit(max_runtime_mem: u32, max_call_depth: u32, max_heap_size: u32) -> u32 {
    (sat_sub32(sat_sub32((max_runtime_mem / 2 / max_call_depth) as u32, max_heap_size), MAX_STACK_SIZE) / 72) as u32
}

/// What checking the configuration finds: the code length limit must leave room in the
/// runtime memory for a full call stack of `call_stack_size + 1` frames, and the debug buffer
/// must exceed its minimum size.
pub open spec fn integrity_outcome(
    max_runtime_mem: u32,
    max_heap_size: u32,
    call_stack_size: u32,
    max_code_len: u32,
    max_debug_buffer_len: u32,
) -> Result<(), IntegrityError> {
    let depth = (call_stack_size + 1) as u32;
    let limit = code_len_limit(max_runtime_mem, depth, max_heap_size);
    if !(max_code_len < limit) {
        Err(IntegrityError::MaxCodeLenTooLarge { max_call_depth: depth, code_len_limit: limit, max_code_len })
    } else if !(max_debug_buffer_len > MIN_DEBUG_BUF_SIZE) {
        Err(IntegrityError::DebugBufferTooSmall { max_debug_buffer_len })
    } else {
        Ok(())
    }
}

/// Checks the configuration and reports the first thing wrong with it. A call stack of
/// `u32::MAX` frames is too big to check.
pub fn integrity_check(
    max_runtime_mem: u32,
    max_heap_size: u32,
    call_stack_size: u32,
    max_code_len: u32,
    max_debug_buffer_len: u32,
) -> (r: Result<(), IntegrityError>)
    requires
        call_stack_size < u32::MAX,
    ensures
        r == integrity_outcome(max_runtime_mem, max_heap_size, call_stack_size, max_code_len, max_debug_buffer_len),
{
    let max_call_depth = call_stack_size + 1;
    let code_len_limit = (max_runtime_mem / 2 / max_call_depth)
        .saturating_sub(max_heap_size)
        .saturating_sub(MAX_STACK_SIZE) / (18 * 4);
    if !(max_code_len < code_len_limit) {
        return Err(IntegrityError::MaxCodeLenTooLarge { max_call_depth, code_len_limit, max_code_len });
    }
    if !(max_debug_buffer_len > MIN_DEBUG_BUF_SIZE) {
        return Err(IntegrityError::DebugBufferTooSmall { max_debug_buffer_len });
    }
    Ok(())
}

/// The module's integrity test, for a configuration that passes it: the call stack size fits
/// a `u32` with one frame more, and `integrity_check` finds nothing wrong. A configuration
/// that fails is refused by the test; `integrity_check` says why.
pub fn integrity_test(
    max_runtime_mem: u32,
    max_heap_size: u32,
    call_stack_size: u32,
    max_code_len: u32,
    max_debug_buffer_len: u32,
)
    requires
        call_stack_size < u32::MAX,
        integrity_outcome(max_runtime_mem, max_heap_size, call_stack_size, max_code_len, max_debug_buffer_len) is Ok,
{
    let checked = integrity_check(max_runtime_mem, max_heap_size, call_stack_size, max_code_len, max_debug_buffer_len);
    assert(checked is Ok);
}

} // verus!
