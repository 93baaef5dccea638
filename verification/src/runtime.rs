//! The state a contract's host functions work on, and the sandbox memory access they share.
use crate::codec::{decode_hash_list, decode_u128, decode_u32, decoded_hash_list, encode_u32, le_u32, le_value, u32_le_bytes};
use crate::costs::{costs_weight, HostFnWeights, RuntimeCosts};
use crate::errors::{DispatchError, Error};
use crate::exec_result::{ExecError, ExecReturnValue, ErrorOrigin, ReturnCode, REVERT_BIT};
use crate::gas::{ChargedAmount, GasMeter};
use crate::memory::{chunk, copy_in, copy_out, fits, range_fits, splice, SENTINEL};
use crate::weight::{weight_add, weight_le, weight_scale, weight_sub, Weight};
use vstd::prelude::*;

verus! {

/// Limits that the cost schedule puts on what contracts may do.
#[derive(Clone, Copy, PartialEq, Eq, Structural, Debug)]
pub struct Limits {
    /// The largest number of bytes a contract may read from its memory in one go.
    pub max_memory_size: u32,
    /// The maximum length of a subject in bytes used for PRNG generation.
    pub subject_len: u32,
    /// The maximum number of topics supported by an event.
    pub event_topics: u32,
}

/// The cost schedule: limits and the weight of each host function.
#[derive(Clone, Copy, PartialEq, Eq, Structural, Debug)]
pub struct Schedule {
    pub limits: Limits,
    pub host_fn_weights: HostFnWeights,
}

/// What writing an output charges per byte, beyond what the host function charged on entry.
#[derive(Clone, Copy, PartialEq, Eq, Structural, Debug)]
pub enum OutputCharge {
    /// Nothing: the data has a constant size and was paid for on entry.
    AlreadyCharged,
    /// `RuntimeCosts::CopyToContract` for the bytes written.
    CopyToContract,
    /// `RuntimeCosts::ChainExtension` of the given weight per byte written.
    ChainExtensionPerByte(Weight),
}

/// The costs that writing `len` bytes of output charges.
pub open spec fn output_costs(charge: OutputCharge, len: u32) -> Option<RuntimeCosts> {
    match charge {
        OutputCharge::AlreadyCharged => None,
        OutputCharge::CopyToContract => Some(RuntimeCosts::CopyToContract(len)),
        OutputCharge::ChainExtensionPerByte(w) => Some(
            RuntimeCosts::ChainExtension(weight_scale(w, len as u64)),
        ),
    }
}

impl OutputCharge {
    /// The costs of writing `len` bytes of output.
    pub fn costs(&self, len: u32) -> (r: Option<RuntimeCosts>)
        ensures
            r == output_costs(*self, len),
    {
        match self {
            OutputCharge::AlreadyCharged => None,
            OutputCharge::CopyToContract => Some(RuntimeCosts::CopyToContract(len)),
            OutputCharge::ChainExtensionPerByte(w) => Some(
                RuntimeCosts::ChainExtension(w.saturating_mul(len as u64)),
            ),
        }
    }
}

/// The error by which a host function reports a buffer outside of sandbox memory.
pub open spec fn out_of_bounds() -> DispatchError {
    DispatchError::Module(Error::OutOfBounds)
}

/// The state that one execution of a contract's code works on.
pub struct Runtime {
    /// The input of the call, until a forwarding call consumes it.
    pub input_data: Option<Vec<u8>>,
    /// The weight left to this execution.
    pub gas_meter: GasMeter,
    /// Costs and limits.
    pub schedule: Schedule,
    /// The maximum size of a storage value in bytes.
    pub max_value_size: u32,
    /// The maximum length of a variable-sized storage key in bytes.
    pub max_storage_key_len: u32,
}

/// Whether what is left of the gas covers `costs`.
pub open spec fn can_charge(rt: Runtime, costs: RuntimeCosts) -> bool {
    weight_le(rt.weight_of(costs), rt.gas_meter.gas_left)
}

/// `rt` after the weight of `costs` was taken from its gas meter.
pub open spec fn after_charge(rt: Runtime, costs: RuntimeCosts) -> Runtime {
    Runtime { gas_meter: GasMeter { gas_left: weight_sub(rt.gas_meter.gas_left, rt.weight_of(costs)) }, ..rt }
}

/// What `write_sandbox_output` returns, and the runtime and memory it leaves.
pub open spec fn output_outcome(
    rt: Runtime,
    mem: Seq<u8>,
    out_ptr: u32,
    out_len_ptr: u32,
    buf: Seq<u8>,
    allow_skip: bool,
    charge: OutputCharge,
) -> (Result<(), DispatchError>, Runtime, Seq<u8>) {
    let n = buf.len() as u32;
    if allow_skip && out_ptr == SENTINEL {
        (Ok(()), rt, mem)
    } else if !fits(mem.len() as int, out_len_ptr as int, 4) {
        (Err(out_of_bounds()), rt, mem)
    } else if le_u32(chunk(mem, out_len_ptr as int, 4)) < n {
        (Err(DispatchError::Module(Error::OutputBufferTooSmall)), rt, mem)
    } else {
        let charged = match output_costs(charge, n) {
            Some(c) => if can_charge(rt, c) { Some(after_charge(rt, c)) } else { None },
            None => Some(rt),
        };
        match charged {
            None => (Err(DispatchError::Module(Error::OutOfGas)), rt, mem),
            Some(rt2) => if !fits(mem.len() as int, out_ptr as int, buf.len() as int) {
                (Err(out_of_bounds()), rt2, mem)
            } else {
                (Ok(()), rt2, splice(splice(mem, out_ptr as int, buf), out_len_ptr as int, u32_le_bytes(n)))
            },
        }
    }
}

impl Runtime {
    /// A runtime for a call with `input_data` as its input.
    pub fn new(
        input_data: Vec<u8>,
        gas_meter: GasMeter,
        schedule: Schedule,
        max_value_size: u32,
        max_storage_key_len: u32,
    ) -> (r: Runtime)
        ensures
            r.input_data == Some(input_data),
            r.gas_meter == gas_meter,
            r.schedule == schedule,
            r.max_value_size == max_value_size,
            r.max_storage_key_len == max_storage_key_len,
    {
        Runtime { input_data: Some(input_data), gas_meter, schedule, max_value_size, max_storage_key_len }
    }

    /// The weight that the cost schedule assigns to `costs`.
    pub open spec fn weight_of(&self, costs: RuntimeCosts) -> Weight {
        costs_weight(costs, self.schedule.host_fn_weights)
    }

    /// `self` after charging `costs` succeeded: only the gas left has changed.
    pub open spec fn charged(self, next: Runtime, costs: RuntimeCosts) -> bool {
        &&& weight_le(self.weight_of(costs), self.gas_meter.gas_left)
        &&& next == Runtime {
            gas_meter: GasMeter { gas_left: weight_sub(self.gas_meter.gas_left, self.weight_of(costs)) },
            ..self
        }
    }

    /// Charges the gas meter with the weight of `costs`; fails with `OutOfGas`, changing
    /// nothing, when not enough is left.
    pub fn charge_gas(&mut self, costs: RuntimeCosts) -> (r: Result<ChargedAmount, DispatchError>)
        ensures
            weight_le(old(self).weight_of(costs), old(self).gas_meter.gas_left) ==> {
                &&& r == Ok::<ChargedAmount, DispatchError>(ChargedAmount { amount: old(self).weight_of(costs) })
                &&& old(self).charged(*final(self), costs)
            },
            !weight_le(old(self).weight_of(costs), old(self).gas_meter.gas_left) ==> {
                &&& r == Err::<ChargedAmount, DispatchError>(DispatchError::Module(Error::OutOfGas))
                &&& *final(self) == *old(self)
            },
    {
        let token = costs.token(&self.schedule.host_fn_weights);
        self.gas_meter.charge(token.weight())
    }

    /// Adjusts a previously charged amount down to the weight of `actual_costs`, refunding
    /// the difference.
    pub fn adjust_gas(&mut self, charged: ChargedAmount, actual_costs: RuntimeCosts)
        ensures
            *final(self) == (Runtime {
                gas_meter: GasMeter {
                    gas_left: weight_add(
                        old(self).gas_meter.gas_left,
                        weight_sub(charged.amount, old(self).weight_of(actual_costs)),
                    ),
                },
                ..*old(self)
            }),
    {
        let token = actual_costs.token(&self.schedule.host_fn_weights);
        self.gas_meter.adjust_gas(charged, token.weight());
    }

    /// Reads `len` bytes from `ptr` on.
    ///
    /// Fails with `OutOfBounds` when `len` exceeds the memory limit of the schedule or the
    /// range is not within the sandbox memory.
    pub fn read_sandbox_memory(&self, memory: &Vec<u8>, ptr: u32, len: u32) -> (r: Result<Vec<u8>, DispatchError>)
        ensures
            r is Ok <==> len <= self.schedule.limits.max_memory_size && fits(memory@.len() as int, ptr as int, len as int),
            r matches Ok(v) ==> v@ == chunk(memory@, ptr as int, len as int),
            r matches Err(e) ==> e == out_of_bounds(),
    {
        if !(len <= self.schedule.limits.max_memory_size) {
            return Err(DispatchError::Module(Error::OutOfBounds));
        }
        if !range_fits(memory.len(), ptr, len as usize) {
            return Err(DispatchError::Module(Error::OutOfBounds));
        }
        Ok(copy_out(memory, ptr, len as usize))
    }

    /// Fills `buf` with the bytes from `ptr` on; fails with `OutOfBounds`, leaving `buf` as
    /// it was, when they are not within the sandbox memory.
    pub fn read_sandbox_memory_into_buf(&self, memory: &Vec<u8>, ptr: u32, buf: &mut Vec<u8>) -> (r: Result<(), DispatchError>)
        ensures
            r is Ok <==> fits(memory@.len() as int, ptr as int, old(buf)@.len() as int),
            r is Ok ==> final(buf)@ == chunk(memory@, ptr as int, old(buf)@.len() as int),
            r is Err ==> final(buf)@ == old(buf)@ && r == Err::<(), DispatchError>(out_of_bounds()),
    {
        let len = buf.len();
        if !range_fits(memory.len(), ptr, len) {
            return Err(DispatchError::Module(Error::OutOfBounds));
        }
        let start = ptr as usize;
        let mlen = memory.len();
        let mut i: usize = 0;
        while i < len
            invariant
                mlen == memory@.len(),
                fits(memory@.len() as int, ptr as int, len as int),
                start == ptr as usize,
                len == buf@.len(),
                i <= len,
                forall|k: int| 0 <= k < i ==> buf@[k] == memory@[start + k],
            decreases len - i,
        {
            buf.set(i, memory[start + i]);
            i = i + 1;
        }
        assert(buf@ =~= chunk(memory@, ptr as int, len as int));
        Ok(())
    }

    /// Reads the `u32` encoded in the four bytes from `ptr` on.
    pub fn read_sandbox_memory_as_u32(&self, memory: &Vec<u8>, ptr: u32) -> (r: Result<u32, DispatchError>)
        ensures
            r is Ok <==> fits(memory@.len() as int, ptr as int, 4),
            r matches Ok(v) ==> v == le_u32(chunk(memory@, ptr as int, 4)),
            r matches Err(e) ==> e == out_of_bounds(),
    {
        if !range_fits(memory.len(), ptr, 4) {
            return Err(DispatchError::Module(Error::OutOfBounds));
        }
        let bytes = copy_out(memory, ptr, 4);
        match decode_u32(bytes.as_slice()) {
            Some(v) => Ok(v),
            None => Err(DispatchError::Module(Error::DecodingFailed)),
        }
    }

    /// Reads the balance encoded in the sixteen bytes from `ptr` on.
    pub fn read_sandbox_memory_as_balance(&self, memory: &Vec<u8>, ptr: u32) -> (r: Result<u128, DispatchError>)
        ensures
            r is Ok <==> fits(memory@.len() as int, ptr as int, 16),
            r matches Ok(v) ==> v as int == le_value(chunk(memory@, ptr as int, 16)),
            r matches Err(e) ==> e == out_of_bounds(),
    {
        if !range_fits(memory.len(), ptr, 16) {
            return Err(DispatchError::Module(Error::OutOfBounds));
        }
        let bytes = copy_out(memory, ptr, 16);
        match decode_u128(bytes.as_slice()) {
            Some(v) => Ok(v),
            None => Err(DispatchError::Module(Error::DecodingFailed)),
        }
    }

    /// Reads a value of fixed size `size` (an account id, a code hash): the bytes from `ptr`
    /// on, which such a value decodes from one for one.
    pub fn read_sandbox_memory_as(&self, memory: &Vec<u8>, ptr: u32, size: u32) -> (r: Result<Vec<u8>, DispatchError>)
        ensures
            r is Ok <==> fits(memory@.len() as int, ptr as int, size as int),
            r matches Ok(v) ==> v@ == chunk(memory@, ptr as int, size as int),
            r matches Err(e) ==> e == out_of_bounds(),
    {
        if !range_fits(memory.len(), ptr, size as usize) {
            return Err(DispatchError::Module(Error::OutOfBounds));
        }
        Ok(copy_out(memory, ptr, size as usize))
    }

    /// Reads and decodes a list of 32-byte hashes (event topics) from the `len` bytes from
    /// `ptr` on; fails with `OutOfBounds` when they are not within the sandbox memory and
    /// with `DecodingFailed` when they do not decode.
    pub fn read_sandbox_memory_as_unbounded(&self, memory: &Vec<u8>, ptr: u32, len: u32) -> (r: Result<Vec<Vec<u8>>, DispatchError>)
        ensures
            !fits(memory@.len() as int, ptr as int, len as int) ==> r == Err::<Vec<Vec<u8>>, DispatchError>(out_of_bounds()),
            fits(memory@.len() as int, ptr as int, len as int) ==> {
                let d = decoded_hash_list(chunk(memory@, ptr as int, len as int));
                &&& (r is Ok <==> d is Some)
                &&& (d is None ==> r == Err::<Vec<Vec<u8>>, DispatchError>(DispatchError::Module(Error::DecodingFailed)))
                &&& (r is Ok ==> r->Ok_0@.len() == d->0.len() && forall|i: int| 0 <= i < d->0.len() ==> #[trigger] r->Ok_0@[i]@ == d->0[i])
            },
    {
        if !range_fits(memory.len(), ptr, len as usize) {
            return Err(DispatchError::Module(Error::OutOfBounds));
        }
        let bytes = copy_out(memory, ptr, len as usize);
        match decode_hash_list(bytes.as_slice()) {
            Some(v) => Ok(v),
            None => Err(DispatchError::Module(Error::DecodingFailed)),
        }
    }

    /// Writes `buf` to the sandbox memory from `ptr` on; fails with `OutOfBounds`, changing
    /// nothing, when it does not fit.
    pub fn write_sandbox_memory(&self, memory: &mut Vec<u8>, ptr: u32, buf: &[u8]) -> (r: Result<(), DispatchError>)
        ensures
            r is Ok <==> fits(old(memory)@.len() as int, ptr as int, buf@.len() as int),
            r is Ok ==> final(memory)@ == splice(old(memory)@, ptr as int, buf@),
            r is Err ==> final(memory)@ == old(memory)@ && r == Err::<(), DispatchError>(out_of_bounds()),
    {
        if !range_fits(memory.len(), ptr, buf.len()) {
            return Err(DispatchError::Module(Error::OutOfBounds));
        }
        copy_in(memory, ptr, buf);
        Ok(())
    }
    /// Writes `buf` to the sandbox memory from `out_ptr` on and its length to `out_len_ptr`,
    /// charging the gas meter as `charge` says for the bytes written.
    ///
    /// `out_len_ptr` is read first for the size of the buffer at `out_ptr`: a buffer smaller
    /// than `buf` fails with `OutputBufferTooSmall`. When `allow_skip` holds and `out_ptr` is
    /// `SENTINEL` nothing is written and nothing charged.
    pub fn write_sandbox_output(
        &mut self,
        memory: &mut Vec<u8>,
        out_ptr: u32,
        out_len_ptr: u32,
        buf: &[u8],
        allow_skip: bool,
        charge: OutputCharge,
    ) -> (r: Result<(), DispatchError>)
        requires
            buf@.len() <= u32::MAX,
        ensures
            (r, *final(self), final(memory)@) == output_outcome(
                *old(self),
                old(memory)@,
                out_ptr,
                out_len_ptr,
                buf@,
                allow_skip,
                charge,
            ),
    {
        if allow_skip && out_ptr == SENTINEL {
            return Ok(());
        }
        let buf_len = buf.len() as u32;
        let len: u32 = match self.read_sandbox_memory_as_u32(memory, out_len_ptr) {
            Ok(v) => v,
            Err(e) => return Err(e),
        };
        if len < buf_len {
            return Err(DispatchError::Module(Error::OutputBufferTooSmall));
        }
        if let Some(costs) = charge.costs(buf_len) {
            match self.charge_gas(costs) {
                Ok(_) => {},
                Err(e) => return Err(e),
            }
        }
        match self.write_sandbox_memory(memory, out_ptr, buf) {
            Ok(()) => {},
            Err(e) => return Err(e),
        }
        let encoded_len = encode_u32(buf_len);
        let ghost mid = memory@;
        let r = self.write_sandbox_memory(memory, out_len_ptr, encoded_len.as_slice());
        assert(r is Ok);
        assert(memory@ == splice(splice(old(memory)@, out_ptr as int, buf@), out_len_ptr as int, u32_le_bytes(buf_len)));
        Ok(())
    }
}

} // verus!
