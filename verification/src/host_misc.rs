//! The remaining host functions: metering, input and output, events, hashing, randomness,
//! signatures, transfers and calls into the runtime.
use crate::codec::{decoded_hash_list, encode_u128, encode_u64, u128_le_bytes, u64_le_bytes};
use crate::costs::RuntimeCosts;
use crate::errors::{DispatchError, Error};
use crate::exec_result::{ReturnCode, ReturnData, TrapReason};
use crate::gas::ChargedAmount;
use crate::hashing::{digest_len, digest_of, HashFunction};
use crate::host::{error_return_code, read_result, supervisor};
use crate::host_call::{balance_result, fixed_result, ACCOUNT_ID_LEN, CODE_HASH_LEN};
use crate::memory::{chunk, fits, splice};
use crate::runtime::{after_charge, can_charge, out_of_bounds, output_outcome, OutputCharge, Runtime};
use crate::weight::{weight_add, weight_sub, Weight};
use vstd::prelude::*;

verus! {

/// The length in bytes of an event topic.
pub const TOPIC_LEN: u32 = 32;

/// The trap of running out of gas.
pub open spec fn out_of_gas() -> TrapReason {
    supervisor(DispatchError::Module(Error::OutOfGas))
}

/// The topics of an event read from the `len` bytes from `ptr` on: none for `len == 0`,
/// otherwise the decoded list of 32-byte hashes.
pub open spec fn topics_result(mem: Seq<u8>, ptr: u32, len: u32) -> Result<Seq<Seq<u8>>, DispatchError> {
    if len == 0 {
        Ok(Seq::empty())
    } else if !fits(mem.len() as int, ptr as int, len as int) {
        Err(out_of_bounds())
    } else {
        match decoded_hash_list(chunk(mem, ptr as int, len as int)) {
            Some(t) => Ok(t),
            None => Err(DispatchError::Module(Error::DecodingFailed)),
        }
    }
}

/// A value sent by `seal_transfer`.
#[derive(Clone, Debug)]
pub struct TransferRequest {
    pub to: Vec<u8>,
    pub value: u128,
}

/// An event that `seal_deposit_event` asks to emit.
#[derive(Clone, Debug)]
pub struct EventRequest {
    pub topics: Vec<Vec<u8>>,
    pub data: Vec<u8>,
}

impl Runtime {
    /// Charges `costs`, trapping with `OutOfGas` when the gas left does not cover them: the
    /// whole of `seal_gas`, `seal_caller_is_origin` and the other host functions that only
    /// report a value of the execution stack.
    pub fn charge(&mut self, costs: RuntimeCosts) -> (r: Result<(), TrapReason>)
        ensures
            can_charge(*old(self), costs) ==> r is Ok && *final(self) == after_charge(*old(self), costs),
            !can_charge(*old(self), costs) ==> (r matches Err(t) && t == out_of_gas()) && *final(self) == *old(self),
    {
        match self.charge_gas(costs) {
            Ok(_) => Ok(()),
            Err(e) => Err(TrapReason::SupervisorError(e)),
        }
    }

    /// Charges `costs` and writes `encoded` (a value of constant size, paid for by `costs`)
    /// to the output buffer: `seal_address`, `seal_balance`, `seal_now` and the like.
    pub fn charged_output(
        &mut self,
        memory: &mut Vec<u8>,
        costs: RuntimeCosts,
        out_ptr: u32,
        out_len_ptr: u32,
        encoded: &[u8],
    ) -> (r: Result<(), TrapReason>)
        requires
            encoded@.len() <= u32::MAX,
        ensures
            !can_charge(*old(self), costs) ==> (r matches Err(t) && t == out_of_gas()) && *final(self) == *old(self)
                && final(memory)@ == old(memory)@,
            can_charge(*old(self), costs) ==> {
                let (w, rt, mem) = output_outcome(after_charge(*old(self), costs), old(memory)@, out_ptr, out_len_ptr, encoded@, false, OutputCharge::AlreadyCharged);
                &&& *final(self) == rt
                &&& final(memory)@ == mem
                &&& match w {
                    Ok(_) => r is Ok,
                    Err(e) => r matches Err(t) && t == supervisor(e),
                }
            },
    {
        match self.charge_gas(costs) {
            Ok(_) => {},
            Err(e) => return Err(TrapReason::SupervisorError(e)),
        }
        match self.write_sandbox_output(memory, out_ptr, out_len_ptr, encoded, false, OutputCharge::AlreadyCharged) {
            Ok(()) => Ok(()),
            Err(e) => Err(TrapReason::SupervisorError(e)),
        }
    }

    /// Charges `costs` and reads a value of fixed size `size` (an account id, a code hash)
    /// from `ptr` on: the entry of `seal_is_contract`, `seal_code_hash`, `seal_set_code_hash`
    /// and `account_reentrance_count`.
    pub fn charged_read(&mut self, memory: &Vec<u8>, costs: RuntimeCosts, ptr: u32, size: u32) -> (r: Result<Vec<u8>, TrapReason>)
        ensures
            !can_charge(*old(self), costs) ==> (r matches Err(t) && t == out_of_gas()) && *final(self) == *old(self),
            can_charge(*old(self), costs) ==> *final(self) == after_charge(*old(self), costs) && match fixed_result(memory@, ptr, size) {
                Ok(b) => r matches Ok(v) && v@ == b,
                Err(e) => r matches Err(t) && t == supervisor(e),
            },
    {
        match self.charge_gas(costs) {
            Ok(_) => {},
            Err(e) => return Err(TrapReason::SupervisorError(e)),
        }
        match self.read_sandbox_memory_as(memory, ptr, size) {
            Ok(v) => Ok(v),
            Err(e) => Err(TrapReason::SupervisorError(e)),
        }
    }

    /// `seal_input`: writes the input of the call to the output buffer, charged per byte;
    /// fails with `InputForwarded` when a forwarding call consumed it.
    pub fn input(&mut self, memory: &mut Vec<u8>, out_ptr: u32, out_len_ptr: u32) -> (r: Result<(), TrapReason>)
        requires
            old(self).input_data matches Some(i) ==> i@.len() <= u32::MAX,
        ensures
            !can_charge(*old(self), RuntimeCosts::InputBase) ==> (r matches Err(t) && t == out_of_gas())
                && *final(self) == *old(self) && final(memory)@ == old(memory)@,
            can_charge(*old(self), RuntimeCosts::InputBase) ==> {
                let rt = after_charge(*old(self), RuntimeCosts::InputBase);
                match old(self).input_data {
                    None => (r matches Err(t) && t == supervisor(DispatchError::Module(Error::InputForwarded)))
                        && *final(self) == rt && final(memory)@ == old(memory)@,
                    Some(input) => {
                        let (w, rt2, mem) = output_outcome(rt, old(memory)@, out_ptr, out_len_ptr, input@, false, OutputCharge::CopyToContract);
                        &&& final(memory)@ == mem
                        &&& match w {
                            Ok(_) => r is Ok && *final(self) == rt2,
                            Err(e) => (r matches Err(t) && t == supervisor(e)) && *final(self) == Runtime { input_data: None, ..rt2 },
                        }
                    },
                }
            },
    {
        match self.charge_gas(RuntimeCosts::InputBase) {
            Ok(_) => {},
            Err(e) => return Err(TrapReason::SupervisorError(e)),
        }
        if let Some(input) = self.input_data.take() {
            match self.write_sandbox_output(memory, out_ptr, out_len_ptr, input.as_slice(), false, OutputCharge::CopyToContract) {
                Ok(()) => {},
                Err(e) => return Err(TrapReason::SupervisorError(e)),
            }
            self.input_data = Some(input);
            Ok(())
        } else {
            Err(TrapReason::SupervisorError(Error::InputForwarded.into_dispatch_error()))
        }
    }

    /// `seal_return`: charges for `data_len` bytes and ends the execution with the flags and
    /// the data read from `data_ptr` on.
    pub fn seal_return(&mut self, memory: &Vec<u8>, flags: u32, data_ptr: u32, data_len: u32) -> (r: TrapReason)
        ensures
            !can_charge(*old(self), RuntimeCosts::Return(data_len)) ==> r == out_of_gas() && *final(self) == *old(self),
            can_charge(*old(self), RuntimeCosts::Return(data_len)) ==> {
                let rt = after_charge(*old(self), RuntimeCosts::Return(data_len));
                &&& *final(self) == rt
                &&& match read_result(rt, memory@, data_ptr, data_len) {
                    Ok(d) => r matches TrapReason::Return(rd) && rd.flags == flags && rd.data@ == d,
                    Err(e) => r == supervisor(e),
                }
            },
    {
        match self.charge_gas(RuntimeCosts::Return(data_len)) {
            Ok(_) => {},
            Err(e) => return TrapReason::SupervisorError(e),
        }
        match self.read_sandbox_memory(memory, data_ptr, data_len) {
            Ok(data) => TrapReason::Return(ReturnData { flags, data }),
            Err(e) => TrapReason::SupervisorError(e),
        }
    }

    /// `seal_gas_left`: charges its costs and writes the reference time left, after that
    /// charge, to the output buffer.
    pub fn gas_left(&mut self, memory: &mut Vec<u8>, out_ptr: u32, out_len_ptr: u32) -> (r: Result<(), TrapReason>)
        ensures
            !can_charge(*old(self), RuntimeCosts::GasLeft) ==> (r matches Err(t) && t == out_of_gas()) && *final(self) == *old(self)
                && final(memory)@ == old(memory)@,
            can_charge(*old(self), RuntimeCosts::GasLeft) ==> {
                let rt = after_charge(*old(self), RuntimeCosts::GasLeft);
                let (w, rt2, mem) = output_outcome(rt, old(memory)@, out_ptr, out_len_ptr,
                    u64_le_bytes(rt.gas_meter.gas_left.ref_time), false, OutputCharge::AlreadyCharged);
                &&& *final(self) == rt2
                &&& final(memory)@ == mem
                &&& match w {
                    Ok(_) => r is Ok,
                    Err(e) => r matches Err(t) && t == supervisor(e),
                }
            },
    {
        match self.charge_gas(RuntimeCosts::GasLeft) {
            Ok(_) => {},
            Err(e) => return Err(TrapReason::SupervisorError(e)),
        }
        let gas_left = encode_u64(self.gas_meter.gas_left().ref_time);
        match self.write_sandbox_output(memory, out_ptr, out_len_ptr, gas_left.as_slice(), false, OutputCharge::AlreadyCharged) {
            Ok(()) => Ok(()),
            Err(e) => Err(TrapReason::SupervisorError(e)),
        }
    }

    /// `seal_tombstone_deposit`, kept for old contracts: charges like `seal_balance` and
    /// writes a zero balance to the output buffer.
    pub fn tombstone_deposit(&mut self, memory: &mut Vec<u8>, out_ptr: u32, out_len_ptr: u32) -> (r: Result<(), TrapReason>)
        ensures
            !can_charge(*old(self), RuntimeCosts::Balance) ==> (r matches Err(t) && t == out_of_gas()) && *final(self) == *old(self)
                && final(memory)@ == old(memory)@,
            can_charge(*old(self), RuntimeCosts::Balance) ==> {
                let (w, rt, mem) = output_outcome(after_charge(*old(self), RuntimeCosts::Balance), old(memory)@, out_ptr,
                    out_len_ptr, u128_le_bytes(0), false, OutputCharge::AlreadyCharged);
                &&& *final(self) == rt
                &&& final(memory)@ == mem
                &&& match w {
                    Ok(_) => r is Ok,
                    Err(e) => r matches Err(t) && t == supervisor(e),
                }
            },
    {
        let deposit = encode_u128(0);
        self.charged_output(memory, RuntimeCosts::Balance, out_ptr, out_len_ptr, deposit.as_slice())
    }

    /// `seal_rent_allowance`, kept for old contracts: charges like `seal_balance` and writes
    /// the largest balance to the output buffer.
    pub fn rent_allowance(&mut self, memory: &mut Vec<u8>, out_ptr: u32, out_len_ptr: u32) -> (r: Result<(), TrapReason>)
        ensures
            !can_charge(*old(self), RuntimeCosts::Balance) ==> (r matches Err(t) && t == out_of_gas()) && *final(self) == *old(self)
                && final(memory)@ == old(memory)@,
            can_charge(*old(self), RuntimeCosts::Balance) ==> {
                let (w, rt, mem) = output_outcome(after_charge(*old(self), RuntimeCosts::Balance), old(memory)@, out_ptr,
                    out_len_ptr, u128_le_bytes(u128::MAX), false, OutputCharge::AlreadyCharged);
                &&& *final(self) == rt
                &&& final(memory)@ == mem
                &&& match w {
                    Ok(_) => r is Ok,
                    Err(e) => r matches Err(t) && t == supervisor(e),
                }
            },
    {
        let allowance = encode_u128(u128::MAX);
        self.charged_output(memory, RuntimeCosts::Balance, out_ptr, out_len_ptr, allowance.as_slice())
    }

    /// `seal_restore_to` and `seal_set_rent_allowance`, kept for old contracts: they do
    /// nothing but charge the costs of an empty debug message.
    pub fn removed_host_function(&mut self) -> (r: Result<(), TrapReason>)
        ensures
            can_charge(*old(self), RuntimeCosts::DebugMessage(0)) ==> r is Ok
                && *final(self) == after_charge(*old(self), RuntimeCosts::DebugMessage(0)),
            !can_charge(*old(self), RuntimeCosts::DebugMessage(0)) ==> (r matches Err(t) && t == out_of_gas())
                && *final(self) == *old(self),
    {
        self.charge(RuntimeCosts::DebugMessage(0))
    }

    /// `seal_random`, up to the draw: charges its costs, refuses subjects longer than the
    /// schedule allows with `RandomSubjectTooLong`, and reads the subject.
    pub fn random(&mut self, memory: &Vec<u8>, subject_ptr: u32, subject_len: u32) -> (r: Result<Vec<u8>, TrapReason>)
        ensures
            !can_charge(*old(self), RuntimeCosts::Random) ==> (r matches Err(t) && t == out_of_gas()) && *final(self) == *old(self),
            can_charge(*old(self), RuntimeCosts::Random) ==> {
                let rt = after_charge(*old(self), RuntimeCosts::Random);
                &&& *final(self) == rt
                &&& if subject_len > old(self).schedule.limits.subject_len {
                    r matches Err(t) && t == supervisor(DispatchError::Module(Error::RandomSubjectTooLong))
                } else {
                    match read_result(rt, memory@, subject_ptr, subject_len) {
                        Ok(s) => r matches Ok(v) && v@ == s,
                        Err(e) => r matches Err(t) && t == supervisor(e),
                    }
                }
            },
    {
        match self.charge_gas(RuntimeCosts::Random) {
            Ok(_) => {},
            Err(e) => return Err(TrapReason::SupervisorError(e)),
        }
        if subject_len > self.schedule.limits.subject_len {
            return Err(TrapReason::SupervisorError(Error::RandomSubjectTooLong.into_dispatch_error()));
        }
        match self.read_sandbox_memory(memory, subject_ptr, subject_len) {
            Ok(v) => Ok(v),
            Err(e) => Err(TrapReason::SupervisorError(e)),
        }
    }

    /// `seal_deposit_event`, up to the emission: charges for `topics_len / 32` topics and
    /// `data_len` bytes, refuses data larger than a storage value with `ValueTooLarge`, reads
    /// the topics (none for `topics_len == 0`) and refuses more than the schedule allows with
    /// `TooManyTopics`, then reads the data.
    pub fn deposit_event(&mut self, memory: &Vec<u8>, topics_ptr: u32, topics_len: u32, data_ptr: u32, data_len: u32) -> (r: Result<EventRequest, TrapReason>)
        ensures
            ({
                let costs = RuntimeCosts::DepositEvent { num_topic: topics_len / TOPIC_LEN, len: data_len };
                if !can_charge(*old(self), costs) {
                    (r matches Err(t) && t == out_of_gas()) && *final(self) == *old(self)
                } else {
                    let rt = after_charge(*old(self), costs);
                    &&& *final(self) == rt
                    &&& if data_len > old(self).max_value_size {
                        r matches Err(t) && t == supervisor(DispatchError::Module(Error::ValueTooLarge))
                    } else {
                        match topics_result(memory@, topics_ptr, topics_len) {
                            Err(e) => r matches Err(t) && t == supervisor(e),
                            Ok(topics) => if topics.len() > old(self).schedule.limits.event_topics {
                                r matches Err(t) && t == supervisor(DispatchError::Module(Error::TooManyTopics))
                            } else {
                                match read_result(rt, memory@, data_ptr, data_len) {
                                    Err(e) => r matches Err(t) && t == supervisor(e),
                                    Ok(d) => r matches Ok(ev) && ev.data@ == d && ev.topics@.len() == topics.len()
                                        && forall|i: int| 0 <= i < topics.len() ==> #[trigger] ev.topics@[i]@ == topics[i],
                                }
                            },
                        }
                    }
                }
            }),
    {
        let num_topic = topics_len / TOPIC_LEN;
        match self.charge_gas(RuntimeCosts::DepositEvent { num_topic, len: data_len }) {
            Ok(_) => {},
            Err(e) => return Err(TrapReason::SupervisorError(e)),
        }
        if data_len > self.max_value_size {
            return Err(TrapReason::SupervisorError(Error::ValueTooLarge.into_dispatch_error()));
        }
        let topics: Vec<Vec<u8>> = if topics_len == 0 {
            Vec::new()
        } else {
            match self.read_sandbox_memory_as_unbounded(memory, topics_ptr, topics_len) {
                Ok(t) => t,
                Err(e) => return Err(TrapReason::SupervisorError(e)),
            }
        };
        if topics.len() > self.schedule.limits.event_topics as usize {
            return Err(TrapReason::SupervisorError(Error::TooManyTopics.into_dispatch_error()));
        }
        let data = match self.read_sandbox_memory(memory, data_ptr, data_len) {
            Ok(v) => v,
            Err(e) => return Err(TrapReason::SupervisorError(e)),
        };
        Ok(EventRequest { topics, data })
    }

    /// `seal_hash_*`: charges for `input_len` bytes of the hash function, then hashes the
    /// input in memory and writes the digest from `output_ptr` on.
    pub fn hash(&mut self, memory: &mut Vec<u8>, hash_fn: HashFunction, input_ptr: u32, input_len: u32, output_ptr: u32) -> (r: Result<(), TrapReason>)
        ensures
            ({
                let costs = match hash_fn {
                    HashFunction::Sha2_256 => RuntimeCosts::HashSha256(input_len),
                    HashFunction::Keccak256 => RuntimeCosts::HashKeccak256(input_len),
                    HashFunction::Blake2_256 => RuntimeCosts::HashBlake256(input_len),
                    HashFunction::Blake2_128 => RuntimeCosts::HashBlake128(input_len),
                };
                if !can_charge(*old(self), costs) {
                    (r matches Err(t) && t == out_of_gas()) && *final(self) == *old(self) && final(memory)@ == old(memory)@
                } else {
                    let rt = after_charge(*old(self), costs);
                    &&& *final(self) == rt
                    &&& match read_result(rt, old(memory)@, input_ptr, input_len) {
                        Err(e) => (r matches Err(t) && t == supervisor(e)) && final(memory)@ == old(memory)@,
                        Ok(input) => if fits(old(memory)@.len() as int, output_ptr as int, digest_len(hash_fn) as int) {
                            r is Ok && final(memory)@ == splice(old(memory)@, output_ptr as int, digest_of(hash_fn, input))
                        } else {
                            (r matches Err(t) && t == supervisor(out_of_bounds())) && final(memory)@ == old(memory)@
                        },
                    }
                }
            }),
    {
        let costs = match hash_fn {
            HashFunction::Sha2_256 => RuntimeCosts::HashSha256(input_len),
            HashFunction::Keccak256 => RuntimeCosts::HashKeccak256(input_len),
            HashFunction::Blake2_256 => RuntimeCosts::HashBlake256(input_len),
            HashFunction::Blake2_128 => RuntimeCosts::HashBlake128(input_len),
        };
        match self.charge_gas(costs) {
            Ok(_) => {},
            Err(e) => return Err(TrapReason::SupervisorError(e)),
        }
        match self.compute_hash_on_intermediate_buffer(memory, hash_fn, input_ptr, input_len, output_ptr) {
            Ok(()) => Ok(()),
            Err(e) => Err(TrapReason::SupervisorError(e)),
        }
    }

    /// `seal_transfer`, up to the transfer: charges its costs and reads the receiving account
    /// and the value.
    pub fn transfer(&mut self, memory: &Vec<u8>, account_ptr: u32, value_ptr: u32) -> (r: Result<TransferRequest, TrapReason>)
        ensures
            !can_charge(*old(self), RuntimeCosts::Transfer) ==> (r matches Err(t) && t == out_of_gas()) && *final(self) == *old(self),
            can_charge(*old(self), RuntimeCosts::Transfer) ==> *final(self) == after_charge(*old(self), RuntimeCosts::Transfer)
                && match fixed_result(memory@, account_ptr, ACCOUNT_ID_LEN) {
                    Err(e) => r matches Err(t) && t == supervisor(e),
                    Ok(to) => match balance_result(memory@, value_ptr) {
                        Err(e) => r matches Err(t) && t == supervisor(e),
                        Ok(value) => r matches Ok(req) && req.to@ == to && req.value == value,
                    },
                },
    {
        match self.charge_gas(RuntimeCosts::Transfer) {
            Ok(_) => {},
            Err(e) => return Err(TrapReason::SupervisorError(e)),
        }
        let to = match self.read_sandbox_memory_as(memory, account_ptr, ACCOUNT_ID_LEN) {
            Ok(v) => v,
            Err(e) => return Err(TrapReason::SupervisorError(e)),
        };
        let value = match self.read_sandbox_memory_as_balance(memory, value_ptr) {
            Ok(v) => v,
            Err(e) => return Err(TrapReason::SupervisorError(e)),
        };
        Ok(TransferRequest { to, value })
    }

    /// `seal_transfer` and `seal_set_code_hash`, after the request: `Success`, or the return
    /// code of the error where it has one; other errors stop the contract.
    pub fn code_of_outcome(outcome: Result<(), DispatchError>) -> (r: Result<ReturnCode, TrapReason>)
        ensures
            match outcome {
                Ok(_) => r == Ok::<ReturnCode, TrapReason>(ReturnCode::Success),
                Err(e) => match error_return_code(e) {
                    Some(c) => r == Ok::<ReturnCode, TrapReason>(c),
                    None => r matches Err(t) && t == supervisor(e),
                },
            },
    {
        match outcome {
            Ok(()) => Ok(ReturnCode::Success),
            Err(err) => match Runtime::err_into_return_code(err) {
                Ok(code) => Ok(code),
                Err(e) => Err(TrapReason::SupervisorError(e)),
            },
        }
    }

    /// `seal_code_hash`, after the lookup: writes the code hash found to the output buffer
    /// (`Success`), or answers `KeyNotFound` for an account without code.
    pub fn code_hash_done(&mut self, memory: &mut Vec<u8>, out_ptr: u32, out_len_ptr: u32, outcome: Option<Vec<u8>>) -> (r: Result<ReturnCode, TrapReason>)
        requires
            outcome matches Some(v) ==> v@.len() <= u32::MAX,
        ensures
            match outcome {
                None => r == Ok::<ReturnCode, TrapReason>(ReturnCode::KeyNotFound) && *final(self) == *old(self) && final(memory)@ == old(memory)@,
                Some(h) => {
                    let (w, rt, mem) = output_outcome(*old(self), old(memory)@, out_ptr, out_len_ptr, h@, false, OutputCharge::AlreadyCharged);
                    &&& *final(self) == rt
                    &&& final(memory)@ == mem
                    &&& match w {
                        Ok(_) => r == Ok::<ReturnCode, TrapReason>(ReturnCode::Success),
                        Err(e) => r matches Err(t) && t == supervisor(e),
                    }
                },
            },
    {
        match outcome {
            Some(value) => match self.write_sandbox_output(memory, out_ptr, out_len_ptr, value.as_slice(), false, OutputCharge::AlreadyCharged) {
                Ok(()) => Ok(ReturnCode::Success),
                Err(e) => Err(TrapReason::SupervisorError(e)),
            },
            None => Ok(ReturnCode::KeyNotFound),
        }
    }

    /// `seal_debug_message`, up to the append: charges for the message, cut to the size of the
    /// debug buffer; when the debug buffer is enabled, reads the message.
    pub fn debug_message(&mut self, memory: &Vec<u8>, str_ptr: u32, str_len: u32, buffer_bound: u32, enabled: bool) -> (r: Result<Option<Vec<u8>>, TrapReason>)
        ensures
            ({
                let len = if str_len < buffer_bound { str_len } else { buffer_bound };
                if !can_charge(*old(self), RuntimeCosts::DebugMessage(len)) {
                    (r matches Err(t) && t == out_of_gas()) && *final(self) == *old(self)
                } else {
                    let rt = after_charge(*old(self), RuntimeCosts::DebugMessage(len));
                    &&& *final(self) == rt
                    &&& if !enabled {
                        r matches Ok(None)
                    } else {
                        match read_result(rt, memory@, str_ptr, len) {
                            Ok(m) => r matches Ok(Some(v)) && v@ == m,
                            Err(e) => r matches Err(t) && t == supervisor(e),
                        }
                    }
                }
            }),
    {
        let len = if str_len < buffer_bound { str_len } else { buffer_bound };
        match self.charge_gas(RuntimeCosts::DebugMessage(len)) {
            Ok(_) => {},
            Err(e) => return Err(TrapReason::SupervisorError(e)),
        }
        if !enabled {
            return Ok(None);
        }
        match self.read_sandbox_memory(memory, str_ptr, len) {
            Ok(v) => Ok(Some(v)),
            Err(e) => Err(TrapReason::SupervisorError(e)),
        }
    }

    /// `seal_ecdsa_recover` and `seal_ecdsa_to_eth_address`, after the computation: writes
    /// the key (or address) found from `output_ptr` on (`Success`), or answers
    /// `EcdsaRecoverFailed`.
    pub fn ecdsa_done(&self, memory: &mut Vec<u8>, output_ptr: u32, outcome: Option<Vec<u8>>) -> (r: Result<ReturnCode, TrapReason>)
        ensures
            match outcome {
                None => r == Ok::<ReturnCode, TrapReason>(ReturnCode::EcdsaRecoverFailed) && final(memory)@ == old(memory)@,
                Some(k) => if fits(old(memory)@.len() as int, output_ptr as int, k@.len() as int) {
                    r == Ok::<ReturnCode, TrapReason>(ReturnCode::Success) && final(memory)@ == splice(old(memory)@, output_ptr as int, k@)
                } else {
                    (r matches Err(t) && t == supervisor(out_of_bounds())) && final(memory)@ == old(memory)@
                },
            },
    {
        match outcome {
            Some(key) => match self.write_sandbox_memory(memory, output_ptr, key.as_slice()) {
                Ok(()) => Ok(ReturnCode::Success),
                Err(e) => Err(TrapReason::SupervisorError(e)),
            },
            None => Ok(ReturnCode::EcdsaRecoverFailed),
        }
    }

    /// `seal_sr25519_verify`, up to the verification: charges for the message, then reads the
    /// 64-byte signature, the 32-byte public key and the message.
    pub fn sr25519_verify(&mut self, memory: &Vec<u8>, signature_ptr: u32, pub_key_ptr: u32, message_len: u32, message_ptr: u32) -> (r: Result<(Vec<u8>, Vec<u8>, Vec<u8>), TrapReason>)
        ensures
            !can_charge(*old(self), RuntimeCosts::Sr25519Verify(message_len)) ==> (r matches Err(t) && t == out_of_gas()) && *final(self) == *old(self),
            can_charge(*old(self), RuntimeCosts::Sr25519Verify(message_len)) ==> {
                let rt = after_charge(*old(self), RuntimeCosts::Sr25519Verify(message_len));
                &&& *final(self) == rt
                &&& match fixed_result(memory@, signature_ptr, 64) {
                    Err(e) => r matches Err(t) && t == supervisor(e),
                    Ok(sig) => match fixed_result(memory@, pub_key_ptr, 32) {
                        Err(e) => r matches Err(t) && t == supervisor(e),
                        Ok(key) => match read_result(rt, memory@, message_ptr, message_len) {
                            Err(e) => r matches Err(t) && t == supervisor(e),
                            Ok(msg) => r matches Ok((s, k, m)) && s@ == sig && k@ == key && m@ == msg,
                        },
                    },
                }
            },
    {
        match self.charge_gas(RuntimeCosts::Sr25519Verify(message_len)) {
            Ok(_) => {},
            Err(e) => return Err(TrapReason::SupervisorError(e)),
        }
        let mut signature: Vec<u8> = vec![0u8; 64];
        match self.read_sandbox_memory_into_buf(memory, signature_ptr, &mut signature) {
            Ok(()) => {},
            Err(e) => return Err(TrapReason::SupervisorError(e)),
        }
        let mut pub_key: Vec<u8> = vec![0u8; 32];
        match self.read_sandbox_memory_into_buf(memory, pub_key_ptr, &mut pub_key) {
            Ok(()) => {},
            Err(e) => return Err(TrapReason::SupervisorError(e)),
        }
        let message = match self.read_sandbox_memory(memory, message_ptr, message_len) {
            Ok(v) => v,
            Err(e) => return Err(TrapReason::SupervisorError(e)),
        };
        Ok((signature, pub_key, message))
    }

    /// `seal_sr25519_verify`, after the verification.
    pub fn sr25519_verify_done(verified: bool) -> (r: ReturnCode)
        ensures
            r == (if verified { ReturnCode::Success } else { ReturnCode::Sr25519VerifyFailed }),
    {
        if verified { ReturnCode::Success } else { ReturnCode::Sr25519VerifyFailed }
    }

    /// `seal_call_runtime`, up to the decoding of the call: charges for copying `call_len`
    /// bytes and reads them.
    pub fn call_runtime(&mut self, memory: &Vec<u8>, call_ptr: u32, call_len: u32) -> (r: Result<Vec<u8>, TrapReason>)
        ensures
            !can_charge(*old(self), RuntimeCosts::CopyFromContract(call_len)) ==> (r matches Err(t) && t == out_of_gas()) && *final(self) == *old(self),
            can_charge(*old(self), RuntimeCosts::CopyFromContract(call_len)) ==> {
                let rt = after_charge(*old(self), RuntimeCosts::CopyFromContract(call_len));
                &&& *final(self) == rt
                &&& match read_result(rt, memory@, call_ptr, call_len) {
                    Ok(c) => r matches Ok(v) && v@ == c,
                    Err(e) => r matches Err(t) && t == supervisor(e),
                }
            },
    {
        match self.charge_gas(RuntimeCosts::CopyFromContract(call_len)) {
            Ok(_) => {},
            Err(e) => return Err(TrapReason::SupervisorError(e)),
        }
        match self.read_sandbox_memory(memory, call_ptr, call_len) {
            Ok(v) => Ok(v),
            Err(e) => Err(TrapReason::SupervisorError(e)),
        }
    }

    /// `seal_call_runtime`, after the call: refunds what was charged for the declared weight
    /// beyond the weight actually used, and answers `Success` or `CallRuntimeFailed`.
    pub fn call_runtime_done(&mut self, charged: ChargedAmount, actual_weight: Weight, succeeded: bool) -> (r: ReturnCode)
        ensures
            r == (if succeeded { ReturnCode::Success } else { ReturnCode::CallRuntimeFailed }),
            *final(self) == (Runtime {
                gas_meter: crate::gas::GasMeter { gas_left: weight_add(old(self).gas_meter.gas_left,
                    weight_sub(charged.amount, actual_weight)) },
                ..*old(self)
            }),
    {
        self.adjust_gas(charged, RuntimeCosts::CallRuntime(actual_weight));
        if succeeded { ReturnCode::Success } else { ReturnCode::CallRuntimeFailed }
    }
}

} // verus!
