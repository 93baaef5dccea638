//! Host functions by which a contract calls, instantiates and terminates contracts.
use crate::call_flags::{known_bits, CallFlags, ALLOW_REENTRY_BIT, CLONE_INPUT_BIT, FORWARD_INPUT_BIT, TAIL_CALL_BIT};
use crate::codec::{le_u32, le_value};
use crate::costs::{CallType, RuntimeCosts};
use crate::errors::{DispatchError, Error};
use crate::exec_result::{ExecError, ExecReturnValue, ReturnCode, ReturnData, TrapReason, REVERT_BIT};
use crate::host::{exec_return_code, read_result, supervisor};
use crate::memory::{chunk, disjoint, fits, SENTINEL};
use crate::runtime::{after_charge, can_charge, out_of_bounds, output_outcome, OutputCharge, Runtime};
use crate::weight::Weight;
use vstd::prelude::*;

verus! {

/// The length in bytes of an account id.
pub const ACCOUNT_ID_LEN: u32 = 32;

/// The length in bytes of a code hash.
pub const CODE_HASH_LEN: u32 = 32;

/// What reading a value of fixed size `n` from `ptr` on gives.
pub open spec fn fixed_result(mem: Seq<u8>, ptr: u32, n: u32) -> Result<Seq<u8>, DispatchError> {
    if fits(mem.len() as int, ptr as int, n as int) { Ok(chunk(mem, ptr as int, n as int)) } else { Err(out_of_bounds()) }
}

/// What reading a balance from `ptr` on gives.
pub open spec fn balance_result(mem: Seq<u8>, ptr: u32) -> Result<u128, DispatchError> {
    if fits(mem.len() as int, ptr as int, 16) {
        Ok(le_value(chunk(mem, ptr as int, 16)) as u128)
    } else {
        Err(out_of_bounds())
    }
}

/// What reading a deposit limit from `ptr` on gives: zero when `ptr` is `SENTINEL`.
pub open spec fn deposit_result(mem: Seq<u8>, ptr: u32) -> Result<u128, DispatchError> {
    if ptr == SENTINEL { Ok(0) } else { balance_result(mem, ptr) }
}

/// The flag `bit` is set in `flags`.
pub open spec fn has_flag(flags: CallFlags, bit: u32) -> bool {
    flags.bits & bit == bit
}

/// The input a call passes on, and the runtime left after obtaining it: a copy of the
/// current input (charged per byte) with `CLONE_INPUT`, the current input itself, which is
/// then gone, with `FORWARD_INPUT`, and otherwise the bytes read from the sandbox memory
/// (charged per byte).
pub open spec fn call_input(rt: Runtime, mem: Seq<u8>, flags: CallFlags, ptr: u32, len: u32) -> (Result<Seq<u8>, DispatchError>, Runtime) {
    if has_flag(flags, CLONE_INPUT_BIT) {
        match rt.input_data {
            None => (Err(DispatchError::Module(Error::InputForwarded)), rt),
            Some(input) => {
                let c = RuntimeCosts::CallInputCloned(input@.len() as u32);
                if can_charge(rt, c) { (Ok(input@), after_charge(rt, c)) } else { (Err(DispatchError::Module(Error::OutOfGas)), rt) }
            },
        }
    } else if has_flag(flags, FORWARD_INPUT_BIT) {
        match rt.input_data {
            None => (Err(DispatchError::Module(Error::InputForwarded)), rt),
            Some(input) => (Ok(input@), Runtime { input_data: None, ..rt }),
        }
    } else {
        let c = RuntimeCosts::CopyFromContract(len);
        if can_charge(rt, c) {
            let rt2 = after_charge(rt, c);
            (read_result(rt2, mem, ptr, len), rt2)
        } else {
            (Err(DispatchError::Module(Error::OutOfGas)), rt)
        }
    }
}

/// A call that the contract asks the execution stack to perform.
#[derive(Clone, Debug)]
pub enum CallRequest {
    /// Call the contract at `callee`.
    Call {
        callee: Vec<u8>,
        value: u128,
        deposit_limit: u128,
        weight: Weight,
        input: Vec<u8>,
        allow_reentry: bool,
    },
    /// Run the code at `code_hash` in the context of the calling contract.
    DelegateCall { code_hash: Vec<u8>, input: Vec<u8> },
}

/// A call request, with byte sequences in place of buffers.
pub enum CallRequestView {
    Call { callee: Seq<u8>, value: u128, deposit_limit: u128, weight: Weight, input: Seq<u8>, allow_reentry: bool },
    DelegateCall { code_hash: Seq<u8>, input: Seq<u8> },
}

impl CallRequest {
    /// The request, with byte sequences in place of buffers.
    pub open spec fn view(self) -> CallRequestView {
        match self {
            CallRequest::Call { callee, value, deposit_limit, weight, input, allow_reentry } =>
                CallRequestView::Call { callee: callee@, value, deposit_limit, weight, input: input@, allow_reentry },
            CallRequest::DelegateCall { code_hash, input } => CallRequestView::DelegateCall { code_hash: code_hash@, input: input@ },
        }
    }
}

/// The request of a call with `input`, and the runtime left, once the callee (or code hash),
/// deposit limit and value are read: a transferring call is charged its surcharge, and a
/// delegate call may not allow reentry.
pub open spec fn call_target(rt: Runtime, mem: Seq<u8>, flags: CallFlags, call_type: CallType, input: Seq<u8>) -> (Result<CallRequestView, DispatchError>, Runtime) {
    match call_type {
        CallType::Call { callee_ptr, value_ptr, deposit_ptr, weight } => match fixed_result(mem, callee_ptr, ACCOUNT_ID_LEN) {
            Err(e) => (Err(e), rt),
            Ok(callee) => match deposit_result(mem, deposit_ptr) {
                Err(e) => (Err(e), rt),
                Ok(deposit_limit) => match balance_result(mem, value_ptr) {
                    Err(e) => (Err(e), rt),
                    Ok(value) => {
                        let req = CallRequestView::Call {
                            callee,
                            value,
                            deposit_limit,
                            weight,
                            input,
                            allow_reentry: has_flag(flags, ALLOW_REENTRY_BIT),
                        };
                        if value > 0 {
                            if can_charge(rt, RuntimeCosts::CallSurchargeTransfer) {
                                (Ok(req), after_charge(rt, RuntimeCosts::CallSurchargeTransfer))
                            } else {
                                (Err(DispatchError::Module(Error::OutOfGas)), rt)
                            }
                        } else {
                            (Ok(req), rt)
                        }
                    },
                },
            },
        },
        CallType::DelegateCall { code_hash_ptr } => if has_flag(flags, ALLOW_REENTRY_BIT) {
            (Err(DispatchError::Module(Error::InvalidCallFlags)), rt)
        } else {
            match fixed_result(mem, code_hash_ptr, CODE_HASH_LEN) {
                Err(e) => (Err(e), rt),
                Ok(code_hash) => (Ok(CallRequestView::DelegateCall { code_hash, input }), rt),
            }
        },
    }
}

/// What `seal_call` and `seal_delegate_call` ask of the execution stack, and the runtime
/// they leave: the base costs of the call type are charged first, then the input is obtained
/// and the target read.
pub open spec fn call_request(rt: Runtime, mem: Seq<u8>, flags: CallFlags, call_type: CallType, ptr: u32, len: u32) -> (Result<CallRequestView, DispatchError>, Runtime) {
    let base = match call_type {
        CallType::Call { .. } => RuntimeCosts::CallBase,
        CallType::DelegateCall { .. } => RuntimeCosts::DelegateCallBase,
    };
    if !can_charge(rt, base) {
        (Err(DispatchError::Module(Error::OutOfGas)), rt)
    } else {
        let (input, rt2) = call_input(after_charge(rt, base), mem, flags, ptr, len);
        match input {
            Err(e) => (Err(e), rt2),
            Ok(input) => call_target(rt2, mem, flags, call_type, input),
        }
    }
}

/// An instantiation that the contract asks the execution stack to perform.
#[derive(Clone, Debug)]
pub struct InstantiateRequest {
    pub weight: Weight,
    pub deposit_limit: u128,
    pub code_hash: Vec<u8>,
    pub value: u128,
    pub input_data: Vec<u8>,
    pub salt: Vec<u8>,
}

/// What an instantiation asks, with byte sequences in place of buffers.
pub struct InstantiateRequestView {
    pub weight: Weight,
    pub deposit_limit: u128,
    pub code_hash: Seq<u8>,
    pub value: u128,
    pub input_data: Seq<u8>,
    pub salt: Seq<u8>,
}

impl InstantiateRequest {
    /// The request, with byte sequences in place of buffers.
    pub open spec fn view(self) -> InstantiateRequestView {
        InstantiateRequestView {
            weight: self.weight,
            deposit_limit: self.deposit_limit,
            code_hash: self.code_hash@,
            value: self.value,
            input_data: self.input_data@,
            salt: self.salt@,
        }
    }
}

/// What `seal_instantiate` asks of the execution stack, and the runtime it leaves: the base
/// costs for the input and salt lengths are charged first, then the deposit limit and value
/// are read (a transferring instantiation is charged its surcharge), then the code hash, the
/// input and the salt.
pub open spec fn instantiate_request(
    rt: Runtime,
    mem: Seq<u8>,
    code_hash_ptr: u32,
    weight: Weight,
    deposit_ptr: u32,
    value_ptr: u32,
    input_data_ptr: u32,
    input_data_len: u32,
    salt_ptr: u32,
    salt_len: u32,
) -> (Result<InstantiateRequestView, DispatchError>, Runtime) {
    let base = RuntimeCosts::InstantiateBase { input_data_len, salt_len };
    if !can_charge(rt, base) {
        (Err(DispatchError::Module(Error::OutOfGas)), rt)
    } else {
        let rt2 = after_charge(rt, base);
        match deposit_result(mem, deposit_ptr) {
            Err(e) => (Err(e), rt2),
            Ok(deposit_limit) => match balance_result(mem, value_ptr) {
                Err(e) => (Err(e), rt2),
                Ok(value) => {
                    let charged = if value > 0 {
                        if can_charge(rt2, RuntimeCosts::InstantiateSurchargeTransfer) {
                            Some(after_charge(rt2, RuntimeCosts::InstantiateSurchargeTransfer))
                        } else {
                            None
                        }
                    } else {
                        Some(rt2)
                    };
                    match charged {
                        None => (Err(DispatchError::Module(Error::OutOfGas)), rt2),
                        Some(rt3) => match fixed_result(mem, code_hash_ptr, CODE_HASH_LEN) {
                            Err(e) => (Err(e), rt3),
                            Ok(code_hash) => match read_result(rt3, mem, input_data_ptr, input_data_len) {
                                Err(e) => (Err(e), rt3),
                                Ok(input_data) => match read_result(rt3, mem, salt_ptr, salt_len) {
                                    Err(e) => (Err(e), rt3),
                                    Ok(salt) => (Ok(InstantiateRequestView { weight, deposit_limit, code_hash, value, input_data, salt }), rt3),
                                },
                            },
                        },
                    }
                },
            },
        }
    }
}

/// What `seal_call` answers once the execution stack performed the call, and the runtime and
/// memory it leaves: a successful tail call hands its output on to the caller's caller; the
/// output of a completed call is written to the output buffer (charged per byte, skipped for
/// `SENTINEL`); then the outcome becomes a return code.
pub open spec fn call_answer(
    rt: Runtime,
    mem: Seq<u8>,
    flags: CallFlags,
    output_ptr: u32,
    output_len_ptr: u32,
    outcome: Result<ExecReturnValue, ExecError>,
) -> (Result<ReturnCode, TrapReason>, Runtime, Seq<u8>) {
    match outcome {
        Ok(v) => if has_flag(flags, TAIL_CALL_BIT) {
            (Err(TrapReason::Return(ReturnData { flags: v.flags.bits, data: v.data })), rt, mem)
        } else {
            let (w, rt2, mem2) = output_outcome(rt, mem, output_ptr, output_len_ptr, v.data@, true, OutputCharge::CopyToContract);
            match w {
                Err(e) => (Err(supervisor(e)), rt2, mem2),
                Ok(_) => match exec_return_code(outcome) {
                    Ok(c) => (Ok(c), rt2, mem2),
                    Err(e) => (Err(supervisor(e)), rt2, mem2),
                },
            }
        },
        Err(_) => match exec_return_code(outcome) {
            Ok(c) => (Ok(c), rt, mem),
            Err(e) => (Err(supervisor(e)), rt, mem),
        },
    }
}

/// What `seal_instantiate` answers once the execution stack performed the instantiation, and
/// the runtime and memory it leaves: unless the new contract reverted, its address is written
/// to the address buffer; its output is written to the output buffer (charged per byte); both
/// writes are skipped for `SENTINEL`; then the outcome becomes a return code.
pub open spec fn instantiate_answer(
    rt: Runtime,
    mem: Seq<u8>,
    address_ptr: u32,
    address_len_ptr: u32,
    output_ptr: u32,
    output_len_ptr: u32,
    outcome: Result<(Seq<u8>, ExecReturnValue), ExecError>,
) -> (Result<ReturnCode, TrapReason>, Runtime, Seq<u8>) {
    let code = match outcome {
        Ok((_, v)) => exec_return_code(Ok(v)),
        Err(e) => exec_return_code(Err(e)),
    };
    let finish = |rt3: Runtime, mem3: Seq<u8>| match code {
        Ok(c) => (Ok::<ReturnCode, TrapReason>(c), rt3, mem3),
        Err(e) => (Err(supervisor(e)), rt3, mem3),
    };
    match outcome {
        Err(_) => finish(rt, mem),
        Ok((address, v)) => {
            let (w1, rt1, mem1) = if v.flags.bits & REVERT_BIT == REVERT_BIT {
                (Ok(()), rt, mem)
            } else {
                output_outcome(rt, mem, address_ptr, address_len_ptr, address, true, OutputCharge::AlreadyCharged)
            };
            match w1 {
                Err(e) => (Err(supervisor(e)), rt1, mem1),
                Ok(_) => {
                    let (w2, rt2, mem2) = output_outcome(rt1, mem1, output_ptr, output_len_ptr, v.data@, true, OutputCharge::CopyToContract);
                    match w2 {
                        Err(e) => (Err(supervisor(e)), rt2, mem2),
                        Ok(_) => finish(rt2, mem2),
                    }
                },
            }
        },
    }
}

/// The flags that a contract passes to `seal_call` (from its version 1 on) and to
/// `seal_delegate_call`: refused with `InvalidCallFlags` where a bit names no flag.
pub fn contract_call_flags(raw: u32) -> (r: Result<CallFlags, DispatchError>)
    ensures
        known_bits(raw) ==> r == Ok::<CallFlags, DispatchError>(CallFlags { bits: raw }),
        !known_bits(raw) ==> r == Err::<CallFlags, DispatchError>(DispatchError::Module(Error::InvalidCallFlags)),
{
    match CallFlags::from_bits(raw) {
        Some(f) => Ok(f),
        None => Err(Error::InvalidCallFlags.into_dispatch_error()),
    }
}

/// The call that versions 0 and 1 of `seal_call` make: they take a gas limit of reference
/// time alone and no deposit limit.
pub fn legacy_call_type(callee_ptr: u32, value_ptr: u32, gas: u64) -> (r: CallType)
    ensures
        r == (CallType::Call { callee_ptr, value_ptr, deposit_ptr: SENTINEL, weight: Weight { ref_time: gas, proof_size: 0 } }),
{
    CallType::Call { callee_ptr, value_ptr, deposit_ptr: SENTINEL, weight: Weight::from_parts(gas, 0) }
}

impl Runtime {
    /// Obtains the input of a call as `flags` say.
    fn call_input_data(&mut self, memory: &Vec<u8>, flags: CallFlags, input_data_ptr: u32, input_data_len: u32) -> (r: Result<Vec<u8>, DispatchError>)
        ensures
            ({
                let (res, rt) = call_input(*old(self), memory@, flags, input_data_ptr, input_data_len);
                &&& *final(self) == rt
                &&& match res {
                    Ok(v) => r matches Ok(w) && w@ == v,
                    Err(e) => r == Err::<Vec<u8>, DispatchError>(e),
                }
            }),
    {
        if flags.contains(CallFlags::clone_input()) {
            let input = match &self.input_data {
                Some(input) => input.clone(),
                None => return Err(Error::InputForwarded.into_dispatch_error()),
            };
            match self.charge_gas(RuntimeCosts::CallInputCloned(input.len() as u32)) {
                Ok(_) => {},
                Err(e) => return Err(e),
            }
            Ok(input)
        } else if flags.contains(CallFlags::forward_input()) {
            match self.input_data.take() {
                Some(input) => Ok(input),
                None => Err(Error::InputForwarded.into_dispatch_error()),
            }
        } else {
            match self.charge_gas(RuntimeCosts::CopyFromContract(input_data_len)) {
                Ok(_) => {},
                Err(e) => return Err(e),
            }
            self.read_sandbox_memory(memory, input_data_ptr, input_data_len)
        }
    }

    /// `seal_call` and `seal_delegate_call`, up to the call: charges the base costs, obtains
    /// the input as `flags` say, reads the callee (or code hash), deposit limit and value, and
    /// charges the transfer surcharge when a value is sent. The execution stack then performs
    /// the returned request.
    pub fn call(
        &mut self,
        memory: &Vec<u8>,
        flags: CallFlags,
        call_type: CallType,
        input_data_ptr: u32,
        input_data_len: u32,
    ) -> (r: Result<CallRequest, TrapReason>)
        ensures
            ({
                let (res, rt) = call_request(*old(self), memory@, flags, call_type, input_data_ptr, input_data_len);
                &&& *final(self) == rt
                &&& match res {
                    Ok(v) => r matches Ok(req) && req.view() == v,
                    Err(e) => r matches Err(t) && t == supervisor(e),
                }
            }),
            r matches Ok(CallRequest::Call { callee, value, deposit_limit, weight, input, allow_reentry }) ==> {
                &&& call_type matches CallType::Call { callee_ptr, value_ptr, deposit_ptr, weight: w }
                    && callee@ == chunk(memory@, callee_ptr as int, 32)
                    && value as int == le_value(chunk(memory@, value_ptr as int, 16))
                    && (deposit_ptr == SENTINEL ==> deposit_limit == 0)
                    && (deposit_ptr != SENTINEL ==> deposit_limit as int == le_value(chunk(memory@, deposit_ptr as int, 16)))
                    && weight == w
                &&& allow_reentry == has_flag(flags, ALLOW_REENTRY_BIT)
            },
            r matches Ok(CallRequest::DelegateCall { code_hash, input }) ==> {
                &&& call_type matches CallType::DelegateCall { code_hash_ptr } && code_hash@ == chunk(memory@, code_hash_ptr as int, 32)
                &&& !has_flag(flags, ALLOW_REENTRY_BIT)
            },
            r matches Ok(req) ==> {
                let input = match req { CallRequest::Call { input, .. } => input@, CallRequest::DelegateCall { input, .. } => input@ };
                &&& has_flag(flags, CLONE_INPUT_BIT) ==> (old(self).input_data matches Some(i) && input == i@
                    && final(self).input_data == old(self).input_data)
                &&& !has_flag(flags, CLONE_INPUT_BIT) && has_flag(flags, FORWARD_INPUT_BIT) ==> (old(self).input_data matches Some(i)
                    && input == i@ && final(self).input_data is None)
                &&& !has_flag(flags, CLONE_INPUT_BIT) && !has_flag(flags, FORWARD_INPUT_BIT) ==> input
                    == chunk(memory@, input_data_ptr as int, input_data_len as int)
            },
    {
        match self.charge_gas(call_type.cost()) {
            Ok(_) => {},
            Err(e) => return Err(TrapReason::SupervisorError(e)),
        }
        let input_data = match self.call_input_data(memory, flags, input_data_ptr, input_data_len) {
            Ok(v) => v,
            Err(e) => return Err(TrapReason::SupervisorError(e)),
        };
        match call_type {
            CallType::Call { callee_ptr, value_ptr, deposit_ptr, weight } => {
                let callee = match self.read_sandbox_memory_as(memory, callee_ptr, ACCOUNT_ID_LEN) {
                    Ok(v) => v,
                    Err(e) => return Err(TrapReason::SupervisorError(e)),
                };
                let deposit_limit: u128 = if deposit_ptr == SENTINEL {
                    0
                } else {
                    match self.read_sandbox_memory_as_balance(memory, deposit_ptr) {
                        Ok(v) => v,
                        Err(e) => return Err(TrapReason::SupervisorError(e)),
                    }
                };
                let value = match self.read_sandbox_memory_as_balance(memory, value_ptr) {
                    Ok(v) => v,
                    Err(e) => return Err(TrapReason::SupervisorError(e)),
                };
                if value > 0 {
                    match self.charge_gas(RuntimeCosts::CallSurchargeTransfer) {
                        Ok(_) => {},
                        Err(e) => return Err(TrapReason::SupervisorError(e)),
                    }
                }
                Ok(CallRequest::Call {
                    callee,
                    value,
                    deposit_limit,
                    weight,
                    input: input_data,
                    allow_reentry: flags.contains(CallFlags::allow_reentry()),
                })
            },
            CallType::DelegateCall { code_hash_ptr } => {
                if flags.contains(CallFlags::allow_reentry()) {
                    return Err(TrapReason::SupervisorError(Error::InvalidCallFlags.into_dispatch_error()));
                }
                let code_hash = match self.read_sandbox_memory_as(memory, code_hash_ptr, CODE_HASH_LEN) {
                    Ok(v) => v,
                    Err(e) => return Err(TrapReason::SupervisorError(e)),
                };
                Ok(CallRequest::DelegateCall { code_hash, input: input_data })
            },
        }
    }
    /// `seal_call` and `seal_delegate_call`, after the call: see `call_answer`.
    pub fn call_done(
        &mut self,
        memory: &mut Vec<u8>,
        flags: CallFlags,
        output_ptr: u32,
        output_len_ptr: u32,
        call_outcome: Result<ExecReturnValue, ExecError>,
    ) -> (r: Result<ReturnCode, TrapReason>)
        requires
            call_outcome matches Ok(v) ==> v.data@.len() <= u32::MAX,
        ensures
            (r, *final(self), final(memory)@) == call_answer(*old(self), old(memory)@, flags, output_ptr, output_len_ptr, call_outcome),
            call_outcome matches Ok(v) ==> (!has_flag(flags, TAIL_CALL_BIT) && output_ptr != SENTINEL && r is Ok
                && disjoint(output_ptr as int, v.data@.len() as int, output_len_ptr as int, 4) ==> {
                &&& chunk(final(memory)@, output_ptr as int, v.data@.len() as int) == v.data@
                &&& le_u32(chunk(final(memory)@, output_len_ptr as int, 4)) == v.data@.len()
                &&& r == Ok::<ReturnCode, TrapReason>(if v.flags.bits & REVERT_BIT == REVERT_BIT {
                    ReturnCode::CalleeReverted
                } else {
                    ReturnCode::Success
                })
            }),
            call_outcome matches Ok(v) ==> (has_flag(flags, TAIL_CALL_BIT) ==> (r matches Err(TrapReason::Return(d))
                && d.flags == v.flags.bits && d.data@ == v.data@ && final(memory)@ == old(memory)@)),
            call_outcome is Err ==> final(memory)@ == old(memory)@,
    {
        if flags.contains(CallFlags::tail_call()) {
            if let Ok(return_value) = call_outcome {
                return Err(TrapReason::Return(ReturnData { flags: return_value.flags.bits(), data: return_value.data }));
            }
        }
        if let Ok(output) = &call_outcome {
            let ghost rt0 = *self;
            let ghost mem0 = memory@;
            match self.write_sandbox_output(memory, output_ptr, output_len_ptr, output.data.as_slice(), true, OutputCharge::CopyToContract) {
                Ok(()) => {
                    proof {
                        if output_ptr != SENTINEL && disjoint(output_ptr as int, output.data@.len() as int, output_len_ptr as int, 4) {
                            crate::laws::output_read_back(rt0, mem0, output_ptr, output_len_ptr, output.data@, true, OutputCharge::CopyToContract);
                        }
                    }
                },
                Err(e) => return Err(TrapReason::SupervisorError(e)),
            }
        }
        match Runtime::exec_into_return_code(call_outcome) {
            Ok(c) => Ok(c),
            Err(e) => Err(TrapReason::SupervisorError(e)),
        }
    }

    /// `seal_instantiate`, up to the instantiation: see `instantiate_request`. The execution
    /// stack then performs the returned request.
    pub fn instantiate(
        &mut self,
        memory: &Vec<u8>,
        code_hash_ptr: u32,
        weight: Weight,
        deposit_ptr: u32,
        value_ptr: u32,
        input_data_ptr: u32,
        input_data_len: u32,
        salt_ptr: u32,
        salt_len: u32,
    ) -> (r: Result<InstantiateRequest, TrapReason>)
        ensures
            ({
                let (res, rt) = instantiate_request(*old(self), memory@, code_hash_ptr, weight, deposit_ptr, value_ptr,
                    input_data_ptr, input_data_len, salt_ptr, salt_len);
                &&& *final(self) == rt
                &&& match res {
                    Ok(v) => r matches Ok(req) && req.view() == v,
                    Err(e) => r matches Err(t) && t == supervisor(e),
                }
            }),
            r matches Ok(req) ==> {
                &&& req.weight == weight
                &&& deposit_ptr == SENTINEL ==> req.deposit_limit == 0
                &&& deposit_ptr != SENTINEL ==> req.deposit_limit as int == le_value(chunk(memory@, deposit_ptr as int, 16))
                &&& req.value as int == le_value(chunk(memory@, value_ptr as int, 16))
                &&& req.code_hash@ == chunk(memory@, code_hash_ptr as int, 32)
                &&& req.input_data@ == chunk(memory@, input_data_ptr as int, input_data_len as int)
                &&& req.salt@ == chunk(memory@, salt_ptr as int, salt_len as int)
            },
    {
        match self.charge_gas(RuntimeCosts::InstantiateBase { input_data_len, salt_len }) {
            Ok(_) => {},
            Err(e) => return Err(TrapReason::SupervisorError(e)),
        }
        let deposit_limit: u128 = if deposit_ptr == SENTINEL {
            0
        } else {
            match self.read_sandbox_memory_as_balance(memory, deposit_ptr) {
                Ok(v) => v,
                Err(e) => return Err(TrapReason::SupervisorError(e)),
            }
        };
        let value = match self.read_sandbox_memory_as_balance(memory, value_ptr) {
            Ok(v) => v,
            Err(e) => return Err(TrapReason::SupervisorError(e)),
        };
        if value > 0 {
            match self.charge_gas(RuntimeCosts::InstantiateSurchargeTransfer) {
                Ok(_) => {},
                Err(e) => return Err(TrapReason::SupervisorError(e)),
            }
        }
        let code_hash = match self.read_sandbox_memory_as(memory, code_hash_ptr, CODE_HASH_LEN) {
            Ok(v) => v,
            Err(e) => return Err(TrapReason::SupervisorError(e)),
        };
        let input_data = match self.read_sandbox_memory(memory, input_data_ptr, input_data_len) {
            Ok(v) => v,
            Err(e) => return Err(TrapReason::SupervisorError(e)),
        };
        let salt = match self.read_sandbox_memory(memory, salt_ptr, salt_len) {
            Ok(v) => v,
            Err(e) => return Err(TrapReason::SupervisorError(e)),
        };
        Ok(InstantiateRequest { weight, deposit_limit, code_hash, value, input_data, salt })
    }

    /// `seal_instantiate`, after the instantiation: see `instantiate_answer`. The address is
    /// handed over as the bytes it encodes to.
    pub fn instantiate_done(
        &mut self,
        memory: &mut Vec<u8>,
        address_ptr: u32,
        address_len_ptr: u32,
        output_ptr: u32,
        output_len_ptr: u32,
        instantiate_outcome: Result<(Vec<u8>, ExecReturnValue), ExecError>,
    ) -> (r: Result<ReturnCode, TrapReason>)
        requires
            instantiate_outcome matches Ok((a, v)) ==> a@.len() <= u32::MAX && v.data@.len() <= u32::MAX,
        ensures
            (r, *final(self), final(memory)@) == instantiate_answer(*old(self), old(memory)@, address_ptr, address_len_ptr,
                output_ptr, output_len_ptr, match instantiate_outcome {
                    Ok((a, v)) => Ok((a@, v)),
                    Err(e) => Err(e),
                }),
            instantiate_outcome matches Ok((a, v)) ==> (r is Ok ==> r == Ok::<ReturnCode, TrapReason>(
                if v.flags.bits & REVERT_BIT == REVERT_BIT { ReturnCode::CalleeReverted } else { ReturnCode::Success })),
            instantiate_outcome matches Ok((a, v)) ==> (r is Ok && output_ptr != SENTINEL
                && disjoint(output_ptr as int, v.data@.len() as int, output_len_ptr as int, 4) ==> {
                &&& chunk(final(memory)@, output_ptr as int, v.data@.len() as int) == v.data@
                &&& le_u32(chunk(final(memory)@, output_len_ptr as int, 4)) == v.data@.len()
            }),
            instantiate_outcome matches Ok((a, v)) ==> (r is Ok && address_ptr != SENTINEL
                && fits(old(memory)@.len() as int, address_ptr as int, a@.len() as int)
                && fits(old(memory)@.len() as int, address_len_ptr as int, 4)
                && disjoint(address_ptr as int, a@.len() as int, address_len_ptr as int, 4)
                && disjoint(address_ptr as int, a@.len() as int, output_ptr as int, v.data@.len() as int)
                && disjoint(address_ptr as int, a@.len() as int, output_len_ptr as int, 4)
                && disjoint(address_len_ptr as int, 4, output_ptr as int, v.data@.len() as int)
                && disjoint(address_len_ptr as int, 4, output_len_ptr as int, 4) ==> {
                &&& v.flags.bits & REVERT_BIT != REVERT_BIT ==> chunk(final(memory)@, address_ptr as int, a@.len() as int) == a@
                    && le_u32(chunk(final(memory)@, address_len_ptr as int, 4)) == a@.len()
                &&& v.flags.bits & REVERT_BIT == REVERT_BIT ==> chunk(final(memory)@, address_ptr as int, a@.len() as int)
                    == chunk(old(memory)@, address_ptr as int, a@.len() as int)
                    && chunk(final(memory)@, address_len_ptr as int, 4) == chunk(old(memory)@, address_len_ptr as int, 4)
            }),
            instantiate_outcome is Err ==> final(memory)@ == old(memory)@,
    {
        let ghost mem0 = memory@;
        let result = match instantiate_outcome {
            Ok((address, output)) => {
                let ghost rt0 = *self;
                let ghost len_a = address@.len() as int;
                let ghost len_v = output.data@.len() as int;
                if !output.flags.contains_revert() {
                    match self.write_sandbox_output(memory, address_ptr, address_len_ptr, address.as_slice(), true, OutputCharge::AlreadyCharged) {
                        Ok(()) => {
                            proof {
                                if address_ptr != SENTINEL && disjoint(address_ptr as int, len_a, address_len_ptr as int, 4) {
                                    crate::laws::output_read_back(rt0, mem0, address_ptr, address_len_ptr, address@, true, OutputCharge::AlreadyCharged);
                                }
                            }
                        },
                        Err(e) => return Err(TrapReason::SupervisorError(e)),
                    }
                }
                let ghost rt1 = *self;
                let ghost mem1 = memory@;
                match self.write_sandbox_output(memory, output_ptr, output_len_ptr, output.data.as_slice(), true, OutputCharge::CopyToContract) {
                    Ok(()) => {
                        proof {
                            if output_ptr != SENTINEL && disjoint(output_ptr as int, len_v, output_len_ptr as int, 4) {
                                crate::laws::output_read_back(rt1, mem1, output_ptr, output_len_ptr, output.data@, true, OutputCharge::CopyToContract);
                            }
                            if address_ptr != SENTINEL
                                && disjoint(address_ptr as int, len_a, address_len_ptr as int, 4)
                                && disjoint(address_ptr as int, len_a, output_ptr as int, len_v)
                                && disjoint(address_ptr as int, len_a, output_len_ptr as int, 4)
                                && disjoint(address_len_ptr as int, 4, output_ptr as int, len_v)
                                && disjoint(address_len_ptr as int, 4, output_len_ptr as int, 4)
                                && fits(mem0.len() as int, address_ptr as int, len_a)
                                && fits(mem0.len() as int, address_len_ptr as int, 4) {
                                assert(mem1.len() == mem0.len());
                                crate::laws::output_preserves_disjoint(rt1, mem1, output_ptr, output_len_ptr, output.data@, true,
                                    OutputCharge::CopyToContract, address_ptr as int, len_a);
                                crate::laws::output_preserves_disjoint(rt1, mem1, output_ptr, output_len_ptr, output.data@, true,
                                    OutputCharge::CopyToContract, address_len_ptr as int, 4);
                            }
                        }
                    },
                    Err(e) => return Err(TrapReason::SupervisorError(e)),
                }
                Ok(output)
            },
            Err(e) => Err(e),
        };
        match Runtime::exec_into_return_code(result) {
            Ok(c) => Ok(c),
            Err(e) => Err(TrapReason::SupervisorError(e)),
        }
    }

    /// `seal_terminate`, up to the termination: charges its costs and reads the beneficiary
    /// account id, which the execution stack then pays out to.
    pub fn terminate(&mut self, memory: &Vec<u8>, beneficiary_ptr: u32) -> (r: Result<Vec<u8>, TrapReason>)
        ensures
            !can_charge(*old(self), RuntimeCosts::Terminate) ==> (r matches Err(t) && t == supervisor(DispatchError::Module(Error::OutOfGas)))
                && *final(self) == *old(self),
            can_charge(*old(self), RuntimeCosts::Terminate) ==> *final(self) == after_charge(*old(self), RuntimeCosts::Terminate)
                && match fixed_result(memory@, beneficiary_ptr, ACCOUNT_ID_LEN) {
                    Ok(b) => r matches Ok(v) && v@ == b,
                    Err(e) => r matches Err(t) && t == supervisor(e),
                },
    {
        match self.charge_gas(RuntimeCosts::Terminate) {
            Ok(_) => {},
            Err(e) => return Err(TrapReason::SupervisorError(e)),
        }
        match self.read_sandbox_memory_as(memory, beneficiary_ptr, ACCOUNT_ID_LEN) {
            Ok(v) => Ok(v),
            Err(e) => Err(TrapReason::SupervisorError(e)),
        }
    }

    /// `seal_terminate`, after the termination: the trap that ends the execution, or the
    /// error of the execution stack.
    pub fn terminate_done(outcome: Result<(), DispatchError>) -> (r: TrapReason)
        ensures
            match outcome {
                Ok(_) => r == TrapReason::Termination,
                Err(e) => r == supervisor(e),
            },
    {
        match outcome {
            Ok(()) => TrapReason::Termination,
            Err(e) => TrapReason::SupervisorError(e),
        }
    }
}

} // verus!
