//! Host functions that contracts call: return codes, hashing and contract storage.
use crate::costs::RuntimeCosts;
use crate::errors::{DispatchError, Error};
use crate::exec_result::{
    ErrorOrigin, ExecError, ExecReturnValue, ReturnCode, ReturnData, ReturnFlags, TrapReason, REVERT_BIT,
};
use crate::gas::{ChargedAmount, GasMeter};
use crate::hashing::{digest_len, digest_of, HashFunction};
use crate::memory::{chunk, fits, splice, SENTINEL};
use crate::runtime::{after_charge, can_charge, out_of_bounds, Runtime};
use crate::weight::{weight_add, weight_sub};
use vstd::prelude::*;

verus! {

/// What reading `len` bytes from `ptr` on gives: the bytes, or `OutOfBounds` when `len`
/// exceeds the memory limit or the range leaves the sandbox memory.
pub open spec fn read_result(rt: Runtime, mem: Seq<u8>, ptr: u32, len: u32) -> Result<Seq<u8>, DispatchError> {
    if len <= rt.schedule.limits.max_memory_size && fits(mem.len() as int, ptr as int, len as int) {
        Ok(chunk(mem, ptr as int, len as int))
    } else {
        Err(out_of_bounds())
    }
}

/// The return code to which an error of a called contract maps, if any.
pub open spec fn error_return_code(e: DispatchError) -> Option<ReturnCode> {
    if e == DispatchError::Module(Error::TransferFailed) {
        Some(ReturnCode::TransferFailed)
    } else if e == DispatchError::Module(Error::CodeNotFound) {
        Some(ReturnCode::CodeNotFound)
    } else if e == DispatchError::Module(Error::ContractNotFound) {
        Some(ReturnCode::NotCallable)
    } else {
        None
    }
}

/// The return code that reports an execution that ran to completion.
pub open spec fn completed_return_code(v: ExecReturnValue) -> ReturnCode {
    if v.flags.bits & REVERT_BIT == REVERT_BIT { ReturnCode::CalleeReverted } else { ReturnCode::Success }
}

/// What `exec_into_return_code` gives for the result of an execution.
pub open spec fn exec_return_code(from: Result<ExecReturnValue, ExecError>) -> Result<ReturnCode, DispatchError> {
    match from {
        Ok(v) => Ok(completed_return_code(v)),
        Err(e) => if e.origin == ErrorOrigin::Callee {
            Ok(ReturnCode::CalleeTrapped)
        } else {
            match error_return_code(e.error) {
                Some(c) => Ok(c),
                None => Err(e.error),
            }
        },
    }
}

/// How the sandboxed code of a contract finished.
#[derive(Clone, Debug)]
pub enum SandboxOutcome {
    /// The code ran to its end.
    Finished,
    /// The code trapped; the reason is present when a host function caused the trap.
    Trapped(Option<TrapReason>),
    /// The code could not be run at all.
    Rejected,
}

/// The flags of a storage key that is not of fixed size.
#[derive(Clone, Copy, PartialEq, Eq, Structural, Debug)]
pub enum KeyType {
    /// Legacy fixed size key of 32 bytes.
    Fix,
    /// Variable sized key used in transparent hashing, no longer than the maximum storage key
    /// length.
    Var(u32),
}

/// A key of contract storage.
#[derive(Clone, Debug)]
pub enum Key {
    /// A key of 32 bytes.
    Fix(Vec<u8>),
    /// A key of variable length.
    Var(Vec<u8>),
}

impl KeyType {
    /// The key type of a storage host function: the versions that take a key length read a
    /// variable key of that length, the others a fixed key.
    pub fn from_key_len(key_len: Option<u32>) -> (r: KeyType)
        ensures
            r == (match key_len { Some(len) => KeyType::Var(len), None => KeyType::Fix }),
    {
        match key_len {
            Some(len) => KeyType::Var(len),
            None => KeyType::Fix,
        }
    }
}

impl Key {
    /// The bytes of the key.
    pub open spec fn bytes(&self) -> Seq<u8> {
        match self {
            Key::Fix(b) => b@,
            Key::Var(b) => b@,
        }
    }
}

/// The length in bytes of a key of type `t`.
pub open spec fn key_len(t: KeyType) -> u32 {
    match t {
        KeyType::Fix => 32,
        KeyType::Var(len) => len,
    }
}

/// What decoding a key of type `t` from `ptr` on gives: its bytes, `DecodingFailed` for a
/// variable key longer than allowed, or the error of reading it.
pub open spec fn key_result(rt: Runtime, mem: Seq<u8>, t: KeyType, ptr: u32) -> Result<Seq<u8>, DispatchError> {
    match t {
        KeyType::Fix => read_result(rt, mem, ptr, 32),
        KeyType::Var(len) => if len > rt.max_storage_key_len {
            Err(DispatchError::Module(Error::DecodingFailed))
        } else {
            read_result(rt, mem, ptr, len)
        },
    }
}

/// The outcome of writing to contract storage, as the storage reports it.
#[derive(Clone, Debug)]
pub enum WriteOutcome {
    /// No value existed at the key.
    New,
    /// A value of the given length existed at the key and was overwritten.
    Overwritten(u32),
    /// The value that existed at the key was taken out.
    Taken(Vec<u8>),
}

/// The length of the value that existed before a write, `0` where there was none.
pub open spec fn old_len(o: WriteOutcome) -> u32 {
    match o {
        WriteOutcome::New => 0,
        WriteOutcome::Overwritten(len) => len,
        WriteOutcome::Taken(v) => v@.len() as u32,
    }
}

/// The length of the value that existed before a write, `SENTINEL` where there was none.
pub open spec fn old_len_with_sentinel(o: WriteOutcome) -> u32 {
    match o {
        WriteOutcome::New => SENTINEL,
        WriteOutcome::Overwritten(len) => len,
        WriteOutcome::Taken(v) => v@.len() as u32,
    }
}

impl WriteOutcome {
    /// The length of the value that existed before, `0` where there was none.
    pub fn old_len(&self) -> (r: u32)
        requires
            self is Taken ==> self->Taken_0@.len() <= u32::MAX,
        ensures
            r == old_len(*self),
    {
        match self {
            WriteOutcome::New => 0,
            WriteOutcome::Overwritten(len) => *len,
            WriteOutcome::Taken(v) => v.len() as u32,
        }
    }

    /// The length of the value that existed before, `SENTINEL` where there was none.
    pub fn old_len_with_sentinel(&self) -> (r: u32)
        requires
            self is Taken ==> self->Taken_0@.len() <= u32::MAX,
        ensures
            r == old_len_with_sentinel(*self),
    {
        match self {
            WriteOutcome::New => SENTINEL,
            WriteOutcome::Overwritten(len) => *len,
            WriteOutcome::Taken(v) => v.len() as u32,
        }
    }
}

/// A write to contract storage that a host function asks the storage to perform.
#[derive(Clone, Debug)]
pub struct StorageRequest {
    /// The key to write at.
    pub key: Key,
    /// The value to write; `None` removes the value.
    pub value: Option<Vec<u8>>,
    /// Whether the value that existed is asked back.
    pub take: bool,
    /// What was charged for the write before its size was known.
    pub charged: ChargedAmount,
}

/// A read of contract storage that a host function asks the storage to perform.
#[derive(Clone, Debug)]
pub struct StorageQuery {
    /// The key to read at.
    pub key: Key,
    /// What was charged for the read before its size was known.
    pub charged: ChargedAmount,
}

/// The trap by which a dispatch error stops a contract.
pub open spec fn supervisor(e: DispatchError) -> TrapReason {
    TrapReason::SupervisorError(e)
}

impl Runtime {
    /// Reads `input_len` bytes from `input_ptr` on, hashes them with `hash_fn` and writes the
    /// digest from `output_ptr` on. The input and output ranges may overlap.
    pub fn compute_hash_on_intermediate_buffer(
        &self,
        memory: &mut Vec<u8>,
        hash_fn: HashFunction,
        input_ptr: u32,
        input_len: u32,
        output_ptr: u32,
    ) -> (r: Result<(), DispatchError>)
        ensures
            match read_result(*self, old(memory)@, input_ptr, input_len) {
                Err(e) => r == Err::<(), DispatchError>(e) && final(memory)@ == old(memory)@,
                Ok(input) => {
                    let digest = digest_of(hash_fn, input);
                    if fits(old(memory)@.len() as int, output_ptr as int, digest_len(hash_fn) as int) {
                        r == Ok::<(), DispatchError>(()) && final(memory)@ == splice(old(memory)@, output_ptr as int, digest)
                    } else {
                        r == Err::<(), DispatchError>(out_of_bounds()) && final(memory)@ == old(memory)@
                    }
                },
            },
    {
        let input = match self.read_sandbox_memory(memory, input_ptr, input_len) {
            Ok(v) => v,
            Err(e) => return Err(e),
        };
        let hash = hash_fn.hash(input.as_slice());
        match self.write_sandbox_memory(memory, output_ptr, hash.as_slice()) {
            Ok(()) => Ok(()),
            Err(e) => Err(e),
        }
    }

    /// Fallible conversion of a `DispatchError` to a `ReturnCode`: failed transfers, missing
    /// code and missing contracts have codes, other errors are handed back.
    pub fn err_into_return_code(from: DispatchError) -> (r: Result<ReturnCode, DispatchError>)
        ensures
            r == (match error_return_code(from) {
                Some(c) => Ok::<ReturnCode, DispatchError>(c),
                None => Err(from),
            }),
    {
        let transfer_failed = Error::TransferFailed.into_dispatch_error();
        let no_code = Error::CodeNotFound.into_dispatch_error();
        let not_found = Error::ContractNotFound.into_dispatch_error();
        if from == transfer_failed {
            Ok(ReturnCode::TransferFailed)
        } else if from == no_code {
            Ok(ReturnCode::CodeNotFound)
        } else if from == not_found {
            Ok(ReturnCode::NotCallable)
        } else {
            Err(from)
        }
    }

    /// Fallible conversion of the result of an execution to a `ReturnCode`: any error of the
    /// callee is `CalleeTrapped`, errors of the caller go through `err_into_return_code`.
    pub fn exec_into_return_code(from: Result<ExecReturnValue, ExecError>) -> (r: Result<ReturnCode, DispatchError>)
        ensures
            r == exec_return_code(from),
    {
        let err = match from {
            Ok(retval) => return Ok(ReturnCode::from_exec_return_value(&retval)),
            Err(err) => err,
        };
        match err.origin {
            ErrorOrigin::Callee => Ok(ReturnCode::CalleeTrapped),
            ErrorOrigin::Caller => Self::err_into_return_code(err.error),
        }
    }

    /// Converts how the sandbox finished into the outcome of the execution.
    ///
    /// A trap without a reason is `ContractTrapped`; a `seal_return` with flags other than
    /// the revert flag is `InvalidCallFlags`; code that could not run is `CodeRejected`.
    pub fn to_execution_result(self, sandbox_result: SandboxOutcome) -> (r: Result<ExecReturnValue, ExecError>)
        ensures
            match sandbox_result {
                SandboxOutcome::Finished => r matches Ok(v) && v.flags.bits == 0 && v.data@.len() == 0,
                SandboxOutcome::Rejected => r == Err::<ExecReturnValue, ExecError>(
                    ExecError { error: DispatchError::Module(Error::CodeRejected), origin: ErrorOrigin::Caller },
                ),
                SandboxOutcome::Trapped(None) => r == Err::<ExecReturnValue, ExecError>(
                    ExecError { error: DispatchError::Module(Error::ContractTrapped), origin: ErrorOrigin::Caller },
                ),
                SandboxOutcome::Trapped(Some(TrapReason::Termination)) =>
                    r matches Ok(v) && v.flags.bits == 0 && v.data@.len() == 0,
                SandboxOutcome::Trapped(Some(TrapReason::SupervisorError(e))) => r == Err::<ExecReturnValue, ExecError>(
                    ExecError { error: e, origin: ErrorOrigin::Caller },
                ),
                SandboxOutcome::Trapped(Some(TrapReason::Return(d))) => if d.flags & !REVERT_BIT == 0 {
                    r matches Ok(v) && v.flags.bits == d.flags && v.data@ == d.data@
                } else {
                    r == Err::<ExecReturnValue, ExecError>(
                        ExecError { error: DispatchError::Module(Error::InvalidCallFlags), origin: ErrorOrigin::Caller },
                    )
                },
            },
    {
        match sandbox_result {
            SandboxOutcome::Finished => Ok(ExecReturnValue { flags: ReturnFlags::empty(), data: Vec::new() }),
            SandboxOutcome::Trapped(reason) => {
                let reason = match reason {
                    Some(reason) => reason,
                    None => return Err(ExecError::from_dispatch_error(Error::ContractTrapped.into_dispatch_error())),
                };
                match reason {
                    TrapReason::Return(ReturnData { flags, data }) => {
                        let flags = match ReturnFlags::from_bits(flags) {
                            Some(f) => f,
                            None => return Err(ExecError::from_dispatch_error(Error::InvalidCallFlags.into_dispatch_error())),
                        };
                        Ok(ExecReturnValue { flags, data })
                    },
                    TrapReason::Termination => Ok(ExecReturnValue { flags: ReturnFlags::empty(), data: Vec::new() }),
                    TrapReason::SupervisorError(error) => Err(ExecError::from_dispatch_error(error)),
                }
            },
            SandboxOutcome::Rejected => Err(ExecError::from_dispatch_error(Error::CodeRejected.into_dispatch_error())),
        }
    }

    /// Reads a storage key of type `key_type` from `key_ptr` on.
    pub fn decode_key(&self, memory: &Vec<u8>, key_type: KeyType, key_ptr: u32) -> (r: Result<Key, TrapReason>)
        ensures
            match key_result(*self, memory@, key_type, key_ptr) {
                Ok(bytes) => r matches Ok(k) && k.bytes() == bytes && (k is Fix <==> key_type is Fix),
                Err(e) => r == Err::<Key, TrapReason>(supervisor(e)),
            },
    {
        match key_type {
            KeyType::Fix => {
                match self.read_sandbox_memory(memory, key_ptr, 32) {
                    Ok(key) => Ok(Key::Fix(key)),
                    Err(e) => Err(TrapReason::SupervisorError(e)),
                }
            },
            KeyType::Var(len) => {
                if !(len <= self.max_storage_key_len) {
                    return Err(TrapReason::SupervisorError(Error::DecodingFailed.into_dispatch_error()));
                }
                match self.read_sandbox_memory(memory, key_ptr, len) {
                    Ok(key) => Ok(Key::Var(key)),
                    Err(e) => Err(TrapReason::SupervisorError(e)),
                }
            },
        }
    }
}

/// What a host function that charges `costs` on entry and then reads a storage key of type
/// `t` from `ptr` on gives before it turns to the storage: the key's bytes or the trap, and
/// the runtime it leaves.
pub open spec fn keyed_entry(
    rt: Runtime,
    mem: Seq<u8>,
    costs: RuntimeCosts,
    t: KeyType,
    ptr: u32,
) -> (Result<Seq<u8>, TrapReason>, Runtime) {
    if !can_charge(rt, costs) {
        (Err(supervisor(DispatchError::Module(Error::OutOfGas))), rt)
    } else {
        let rt2 = after_charge(rt, costs);
        match key_result(rt2, mem, t, ptr) {
            Ok(k) => (Ok(k), rt2),
            Err(e) => (Err(supervisor(e)), rt2),
        }
    }
}

impl Runtime {
    /// Charges `costs` and reads a storage key: the shared entry of the storage host functions.
    fn charge_and_decode_key(&mut self, memory: &Vec<u8>, costs: RuntimeCosts, key_type: KeyType, key_ptr: u32) -> (r: Result<(Key, ChargedAmount), TrapReason>)
        ensures
            ({
                let (res, rt) = keyed_entry(*old(self), memory@, costs, key_type, key_ptr);
                &&& *final(self) == rt
                &&& match res {
                    Ok(kb) => r matches Ok((k, c)) && k.bytes() == kb && (k is Fix <==> key_type is Fix)
                        && c.amount == old(self).weight_of(costs),
                    Err(t) => r matches Err(t2) && t2 == t,
                }
            }),
    {
        let charged = match self.charge_gas(costs) {
            Ok(c) => c,
            Err(e) => return Err(TrapReason::SupervisorError(e)),
        };
        match self.decode_key(memory, key_type, key_ptr) {
            Ok(key) => Ok((key, charged)),
            Err(t) => Err(t),
        }
    }

    /// `seal_set_storage`, up to the write: charges for a value of `value_len` bytes replacing
    /// one of the maximum size, refuses values larger than the maximum with `ValueTooLarge`,
    /// then reads the key and the value. The storage then performs the returned request.
    pub fn set_storage(
        &mut self,
        memory: &Vec<u8>,
        key_type: KeyType,
        key_ptr: u32,
        value_ptr: u32,
        value_len: u32,
    ) -> (r: Result<StorageRequest, TrapReason>)
        ensures
            ({
                let costs = RuntimeCosts::SetStorage { new_bytes: value_len, old_bytes: old(self).max_value_size };
                if !can_charge(*old(self), costs) {
                    r matches Err(t) && t == supervisor(DispatchError::Module(Error::OutOfGas)) && *final(self) == *old(self)
                } else {
                    let rt2 = after_charge(*old(self), costs);
                    &&& *final(self) == rt2
                    &&& if value_len > old(self).max_value_size {
                        r matches Err(t) && t == supervisor(DispatchError::Module(Error::ValueTooLarge))
                    } else {
                        match key_result(rt2, memory@, key_type, key_ptr) {
                            Err(e) => r matches Err(t) && t == supervisor(e),
                            Ok(kb) => match read_result(rt2, memory@, value_ptr, value_len) {
                                Err(e) => r matches Err(t) && t == supervisor(e),
                                Ok(v) => r matches Ok(req) && req.key.bytes() == kb
                                    && (req.key is Fix <==> key_type is Fix)
                                    && req.value is Some && req.value->0@ == v && !req.take
                                    && req.charged.amount == old(self).weight_of(costs),
                            },
                        }
                    }
                }
            }),
    {
        let max_size = self.max_value_size;
        let charged = match self.charge_gas(RuntimeCosts::SetStorage { new_bytes: value_len, old_bytes: max_size }) {
            Ok(c) => c,
            Err(e) => return Err(TrapReason::SupervisorError(e)),
        };
        if value_len > max_size {
            return Err(TrapReason::SupervisorError(Error::ValueTooLarge.into_dispatch_error()));
        }
        let key = match self.decode_key(memory, key_type, key_ptr) {
            Ok(k) => k,
            Err(t) => return Err(t),
        };
        let value = match self.read_sandbox_memory(memory, value_ptr, value_len) {
            Ok(v) => v,
            Err(e) => return Err(TrapReason::SupervisorError(e)),
        };
        Ok(StorageRequest { key, value: Some(value), take: false, charged })
    }

    /// `seal_set_storage`, after the write: refunds what was charged beyond the size of the
    /// value that was replaced, and answers that size, `SENTINEL` where there was none. An
    /// error of the storage stops the contract.
    pub fn set_storage_done(
        &mut self,
        charged: ChargedAmount,
        value_len: u32,
        outcome: Result<WriteOutcome, DispatchError>,
    ) -> (r: Result<u32, TrapReason>)
        requires
            outcome matches Ok(WriteOutcome::Taken(v)) ==> v@.len() <= u32::MAX,
        ensures
            match outcome {
                Err(e) => r matches Err(t) && t == supervisor(e) && *final(self) == *old(self),
                Ok(o) => r == Ok::<u32, TrapReason>(old_len_with_sentinel(o)) && final(self).gas_meter.gas_left == weight_add(
                    old(self).gas_meter.gas_left,
                    weight_sub(charged.amount, old(self).weight_of(RuntimeCosts::SetStorage { new_bytes: value_len, old_bytes: old_len(o) })),
                ) && *final(self) == (Runtime { gas_meter: final(self).gas_meter, ..*old(self) }),
            },
    {
        let write_outcome = match outcome {
            Ok(o) => o,
            Err(e) => return Err(TrapReason::SupervisorError(e)),
        };
        self.adjust_gas(charged, RuntimeCosts::SetStorage { new_bytes: value_len, old_bytes: write_outcome.old_len() });
        Ok(write_outcome.old_len_with_sentinel())
    }

    /// `seal_clear_storage`, up to the removal: charges for a value of the maximum size and
    /// reads the key. The storage then performs the returned request.
    pub fn clear_storage(&mut self, memory: &Vec<u8>, key_type: KeyType, key_ptr: u32) -> (r: Result<StorageRequest, TrapReason>)
        ensures
            ({
                let (res, rt) = keyed_entry(*old(self), memory@, RuntimeCosts::ClearStorage(old(self).max_value_size), key_type, key_ptr);
                &&& *final(self) == rt
                &&& match res {
                    Ok(kb) => r matches Ok(req) && req.key.bytes() == kb && (req.key is Fix <==> key_type is Fix)
                        && req.value is None && !req.take
                        && req.charged.amount == old(self).weight_of(RuntimeCosts::ClearStorage(old(self).max_value_size)),
                    Err(t) => r matches Err(t2) && t2 == t,
                }
            }),
    {
        let costs = RuntimeCosts::ClearStorage(self.max_value_size);
        match self.charge_and_decode_key(memory, costs, key_type, key_ptr) {
            Ok((key, charged)) => Ok(StorageRequest { key, value: None, take: false, charged }),
            Err(t) => Err(t),
        }
    }

    /// `seal_clear_storage`, after the removal: refunds what was charged beyond the size of
    /// the removed value and answers that size, `SENTINEL` where there was none.
    pub fn clear_storage_done(&mut self, charged: ChargedAmount, outcome: Result<WriteOutcome, DispatchError>) -> (r: Result<u32, TrapReason>)
        requires
            outcome matches Ok(WriteOutcome::Taken(v)) ==> v@.len() <= u32::MAX,
        ensures
            match outcome {
                Err(e) => r matches Err(t) && t == supervisor(e) && *final(self) == *old(self),
                Ok(o) => r == Ok::<u32, TrapReason>(old_len_with_sentinel(o)) && final(self).gas_meter.gas_left == weight_add(
                    old(self).gas_meter.gas_left,
                    weight_sub(charged.amount, old(self).weight_of(RuntimeCosts::ClearStorage(old_len(o)))),
                ) && *final(self) == (Runtime { gas_meter: final(self).gas_meter, ..*old(self) }),
            },
    {
        let o = match outcome {
            Ok(o) => o,
            Err(e) => return Err(TrapReason::SupervisorError(e)),
        };
        self.adjust_gas(charged, RuntimeCosts::ClearStorage(o.old_len()));
        Ok(o.old_len_with_sentinel())
    }

    /// `seal_get_storage`, up to the read: charges for a value of the maximum size and reads
    /// the key. The storage then answers the returned query.
    pub fn get_storage(&mut self, memory: &Vec<u8>, key_type: KeyType, key_ptr: u32) -> (r: Result<StorageQuery, TrapReason>)
        ensures
            ({
                let (res, rt) = keyed_entry(*old(self), memory@, RuntimeCosts::GetStorage(old(self).max_value_size), key_type, key_ptr);
                &&& *final(self) == rt
                &&& match res {
                    Ok(kb) => r matches Ok(q) && q.key.bytes() == kb && (q.key is Fix <==> key_type is Fix)
                        && q.charged.amount == old(self).weight_of(RuntimeCosts::GetStorage(old(self).max_value_size)),
                    Err(t) => r matches Err(t2) && t2 == t,
                }
            }),
    {
        let costs = RuntimeCosts::GetStorage(self.max_value_size);
        match self.charge_and_decode_key(memory, costs, key_type, key_ptr) {
            Ok((key, charged)) => Ok(StorageQuery { key, charged }),
            Err(t) => Err(t),
        }
    }

    /// `seal_get_storage`, after the read: for a value found, refunds what was charged beyond
    /// its size and writes it to the output buffer (`Success`); for none, refunds down to an
    /// empty value (`KeyNotFound`).
    pub fn get_storage_done(
        &mut self,
        memory: &mut Vec<u8>,
        charged: ChargedAmount,
        out_ptr: u32,
        out_len_ptr: u32,
        outcome: Option<Vec<u8>>,
    ) -> (r: Result<ReturnCode, TrapReason>)
        requires
            outcome matches Some(v) ==> v@.len() <= u32::MAX,
        ensures
            match outcome {
                None => r == Ok::<ReturnCode, TrapReason>(ReturnCode::KeyNotFound) && final(memory)@ == old(memory)@
                    && *final(self) == (Runtime {
                        gas_meter: GasMeter { gas_left: weight_add(old(self).gas_meter.gas_left,
                            weight_sub(charged.amount, old(self).weight_of(RuntimeCosts::GetStorage(0)))) },
                        ..*old(self)
                    }),
                Some(value) => {
                    let rt2 = Runtime {
                        gas_meter: GasMeter { gas_left: weight_add(old(self).gas_meter.gas_left,
                            weight_sub(charged.amount, old(self).weight_of(RuntimeCosts::GetStorage(value@.len() as u32)))) },
                        ..*old(self)
                    };
                    let (w, rt3, mem3) = crate::runtime::output_outcome(rt2, old(memory)@, out_ptr, out_len_ptr, value@, false, crate::runtime::OutputCharge::AlreadyCharged);
                    &&& *final(self) == rt3
                    &&& final(memory)@ == mem3
                    &&& match w {
                        Ok(_) => r == Ok::<ReturnCode, TrapReason>(ReturnCode::Success),
                        Err(e) => r matches Err(t) && t == supervisor(e),
                    }
                },
            },
    {
        match outcome {
            Some(value) => {
                self.adjust_gas(charged, RuntimeCosts::GetStorage(value.len() as u32));
                match self.write_sandbox_output(memory, out_ptr, out_len_ptr, value.as_slice(), false, crate::runtime::OutputCharge::AlreadyCharged) {
                    Ok(()) => Ok(ReturnCode::Success),
                    Err(e) => Err(TrapReason::SupervisorError(e)),
                }
            },
            None => {
                self.adjust_gas(charged, RuntimeCosts::GetStorage(0));
                Ok(ReturnCode::KeyNotFound)
            },
        }
    }

    /// `seal_contains_storage`, up to the lookup: charges for a value of the maximum size and
    /// reads the key. The storage then answers the size of the value at the key.
    pub fn contains_storage(&mut self, memory: &Vec<u8>, key_type: KeyType, key_ptr: u32) -> (r: Result<StorageQuery, TrapReason>)
        ensures
            ({
                let (res, rt) = keyed_entry(*old(self), memory@, RuntimeCosts::ContainsStorage(old(self).max_value_size), key_type, key_ptr);
                &&& *final(self) == rt
                &&& match res {
                    Ok(kb) => r matches Ok(q) && q.key.bytes() == kb && (q.key is Fix <==> key_type is Fix)
                        && q.charged.amount == old(self).weight_of(RuntimeCosts::ContainsStorage(old(self).max_value_size)),
                    Err(t) => r matches Err(t2) && t2 == t,
                }
            }),
    {
        let costs = RuntimeCosts::ContainsStorage(self.max_value_size);
        match self.charge_and_decode_key(memory, costs, key_type, key_ptr) {
            Ok((key, charged)) => Ok(StorageQuery { key, charged }),
            Err(t) => Err(t),
        }
    }

    /// `seal_contains_storage`, after the lookup: refunds down to the costs of checking a
    /// value of that size (`0` where there is none) and answers that size, `SENTINEL` where there is
    /// no value.
    pub fn contains_storage_done(&mut self, charged: ChargedAmount, outcome: Option<u32>) -> (r: u32)
        ensures
            r == (match outcome { Some(len) => len, None => SENTINEL }),
            *final(self) == (Runtime {
                gas_meter: GasMeter { gas_left: weight_add(old(self).gas_meter.gas_left,
                    weight_sub(charged.amount, old(self).weight_of(RuntimeCosts::ContainsStorage(
                        match outcome { Some(len) => len, None => 0 },
                    )))) },
                ..*old(self)
            }),
    {
        let len = match outcome {
            Some(len) => len,
            None => 0,
        };
        self.adjust_gas(charged, RuntimeCosts::ContainsStorage(len));
        match outcome {
            Some(len) => len,
            None => SENTINEL,
        }
    }

    /// `seal_take_storage`, up to the removal: charges for a value of the maximum size and
    /// reads the variable-sized key of `key_len` bytes. The storage then removes the value and
    /// hands it back.
    pub fn take_storage(&mut self, memory: &Vec<u8>, key_ptr: u32, key_len: u32) -> (r: Result<StorageRequest, TrapReason>)
        ensures
            ({
                let (res, rt) = keyed_entry(*old(self), memory@, RuntimeCosts::TakeStorage(old(self).max_value_size), KeyType::Var(key_len), key_ptr);
                &&& *final(self) == rt
                &&& match res {
                    Ok(kb) => r matches Ok(req) && req.key.bytes() == kb && req.key is Var
                        && req.value is None && req.take
                        && req.charged.amount == old(self).weight_of(RuntimeCosts::TakeStorage(old(self).max_value_size)),
                    Err(t) => r matches Err(t2) && t2 == t,
                }
            }),
    {
        let costs = RuntimeCosts::TakeStorage(self.max_value_size);
        match self.charge_and_decode_key(memory, costs, KeyType::Var(key_len), key_ptr) {
            Ok((key, charged)) => Ok(StorageRequest { key, value: None, take: true, charged }),
            Err(t) => Err(t),
        }
    }

    /// `seal_take_storage`, after the removal: for a value taken, refunds what was charged
    /// beyond its size and writes it to the output buffer (`Success`); otherwise refunds down
    /// to an empty value (`KeyNotFound`). An error of the storage stops the contract.
    pub fn take_storage_done(
        &mut self,
        memory: &mut Vec<u8>,
        charged: ChargedAmount,
        out_ptr: u32,
        out_len_ptr: u32,
        outcome: Result<WriteOutcome, DispatchError>,
    ) -> (r: Result<ReturnCode, TrapReason>)
        requires
            outcome matches Ok(WriteOutcome::Taken(v)) ==> v@.len() <= u32::MAX,
        ensures
            match outcome {
                Err(e) => r matches Err(t) && t == supervisor(e) && *final(self) == *old(self) && final(memory)@ == old(memory)@,
                Ok(WriteOutcome::Taken(value)) => {
                    let rt2 = Runtime {
                        gas_meter: GasMeter { gas_left: weight_add(old(self).gas_meter.gas_left,
                            weight_sub(charged.amount, old(self).weight_of(RuntimeCosts::TakeStorage(value@.len() as u32)))) },
                        ..*old(self)
                    };
                    let (w, rt3, mem3) = crate::runtime::output_outcome(rt2, old(memory)@, out_ptr, out_len_ptr, value@, false, crate::runtime::OutputCharge::AlreadyCharged);
                    &&& *final(self) == rt3
                    &&& final(memory)@ == mem3
                    &&& match w {
                        Ok(_) => r == Ok::<ReturnCode, TrapReason>(ReturnCode::Success),
                        Err(e) => r matches Err(t) && t == supervisor(e),
                    }
                },
                Ok(_) => r == Ok::<ReturnCode, TrapReason>(ReturnCode::KeyNotFound) && final(memory)@ == old(memory)@
                    && *final(self) == (Runtime {
                        gas_meter: GasMeter { gas_left: weight_add(old(self).gas_meter.gas_left,
                            weight_sub(charged.amount, old(self).weight_of(RuntimeCosts::TakeStorage(0)))) },
                        ..*old(self)
                    }),
            },
    {
        match outcome {
            Err(e) => Err(TrapReason::SupervisorError(e)),
            Ok(WriteOutcome::Taken(value)) => {
                self.adjust_gas(charged, RuntimeCosts::TakeStorage(value.len() as u32));
                match self.write_sandbox_output(memory, out_ptr, out_len_ptr, value.as_slice(), false, crate::runtime::OutputCharge::AlreadyCharged) {
                    Ok(()) => Ok(ReturnCode::Success),
                    Err(e) => Err(TrapReason::SupervisorError(e)),
                }
            },
            Ok(_) => {
                self.adjust_gas(charged, RuntimeCosts::TakeStorage(0));
                Ok(ReturnCode::KeyNotFound)
            },
        }
    }
}

} // verus!
