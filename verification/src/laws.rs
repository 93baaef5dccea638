//! Properties that hold across the operations of the library.
use crate::call_flags::{known_bits, CallFlags, ALL_BITS};
use crate::codec::{le_u32, le_value, u32_le_bytes};
use crate::costs::{costs_weight, HostFnWeights, RuntimeCosts};
use crate::errors::{error_name, DispatchError, Error};
use crate::env::{deprecated_import, host_fn_table, import_linked, linked, unstable_import, HostFnImport};
use crate::exec_result::{return_code_value, ErrorOrigin, ExecError, ExecReturnValue, ReturnCode, TrapReason, REVERT_BIT};
use crate::host::exec_return_code;
use crate::host_call::{call_answer, call_request, has_flag, instantiate_request};
use crate::call_flags::{CLONE_INPUT_BIT, FORWARD_INPUT_BIT, TAIL_CALL_BIT};
use crate::costs::CallType;
use crate::memory::{chunk, disjoint, fits, splice, SENTINEL};
use crate::runtime::{output_outcome, OutputCharge, Runtime};
use crate::weight::{sat_add, sat_mul, u64_max, weight_add, weight_le, weight_scale, weight_sub, Weight};
use vstd::prelude::*;

verus! {

/// Reading a range that was just written gives back what was written.
pub proof fn read_after_write(mem: Seq<u8>, ptr: int, data: Seq<u8>)
    requires
        fits(mem.len() as int, ptr, data.len() as int),
    ensures
        chunk(splice(mem, ptr, data), ptr, data.len() as int) == data,
        splice(mem, ptr, data).len() == mem.len(),
{
    assert(chunk(splice(mem, ptr, data), ptr, data.len() as int) =~= data);
}

/// Writing a range leaves every range that does not overlap it as it was.
pub proof fn write_preserves_disjoint(mem: Seq<u8>, ptr: int, data: Seq<u8>, q: int, m: int)
    requires
        fits(mem.len() as int, ptr, data.len() as int),
        fits(mem.len() as int, q, m),
        disjoint(ptr, data.len() as int, q, m),
    ensures
        chunk(splice(mem, ptr, data), q, m) == chunk(mem, q, m),
{
    assert(chunk(splice(mem, ptr, data), q, m) =~= chunk(mem, q, m));
}

/// Decoding the encoding of a `u32` gives it back.
pub proof fn u32_encoding_round_trip(v: u32)
    ensures
        u32_le_bytes(v).len() == 4,
        le_u32(u32_le_bytes(v)) == v,
{
    assert(v % 256 + 256 * ((v / 256) % 256) + 65536 * ((v / 65536) % 256) + 16777216 * (v
        / 16777216) == v) by (bit_vector);
}

/// When a contract's output is written and the buffer and its length field do not overlap,
/// reading them back gives the buffer and its length.
pub proof fn output_read_back(
    rt: Runtime,
    mem: Seq<u8>,
    out_ptr: u32,
    out_len_ptr: u32,
    buf: Seq<u8>,
    allow_skip: bool,
    charge: OutputCharge,
)
    requires
        buf.len() <= u32::MAX,
        disjoint(out_ptr as int, buf.len() as int, out_len_ptr as int, 4),
        !(allow_skip && out_ptr == crate::memory::SENTINEL),
        output_outcome(rt, mem, out_ptr, out_len_ptr, buf, allow_skip, charge).0 is Ok,
    ensures
        ({
            let mem2 = output_outcome(rt, mem, out_ptr, out_len_ptr, buf, allow_skip, charge).2;
            &&& chunk(mem2, out_ptr as int, buf.len() as int) == buf
            &&& le_u32(chunk(mem2, out_len_ptr as int, 4)) == buf.len()
            &&& mem2.len() == mem.len()
        }),
{
    let n = buf.len() as u32;
    let m1 = splice(mem, out_ptr as int, buf);
    read_after_write(mem, out_ptr as int, buf);
    u32_encoding_round_trip(n);
    read_after_write(m1, out_len_ptr as int, u32_le_bytes(n));
    write_preserves_disjoint(m1, out_len_ptr as int, u32_le_bytes(n), out_ptr as int, buf.len() as int);
}

/// Writing a contract's output leaves every range that overlaps neither the output buffer nor
/// its length field as it was.
pub proof fn output_preserves_disjoint(
    rt: Runtime,
    mem: Seq<u8>,
    out_ptr: u32,
    out_len_ptr: u32,
    buf: Seq<u8>,
    allow_skip: bool,
    charge: OutputCharge,
    q: int,
    m: int,
)
    requires
        buf.len() <= u32::MAX,
        fits(mem.len() as int, q, m),
        (allow_skip && out_ptr == crate::memory::SENTINEL) || (disjoint(out_ptr as int, buf.len() as int, q, m)
            && disjoint(out_len_ptr as int, 4, q, m)),
    ensures
        chunk(output_outcome(rt, mem, out_ptr, out_len_ptr, buf, allow_skip, charge).2, q, m) == chunk(mem, q, m),
        output_outcome(rt, mem, out_ptr, out_len_ptr, buf, allow_skip, charge).2.len() == mem.len(),
{
    let out = output_outcome(rt, mem, out_ptr, out_len_ptr, buf, allow_skip, charge);
    if out.0 is Ok && !(allow_skip && out_ptr == crate::memory::SENTINEL) {
        let n = buf.len() as u32;
        let m1 = splice(mem, out_ptr as int, buf);
        write_preserves_disjoint(mem, out_ptr as int, buf, q, m);
        write_preserves_disjoint(m1, out_len_ptr as int, u32_le_bytes(n), q, m);
    }
}

/// Charging a weight and then adjusting it down to an actual weight no larger leaves the
/// meter as if only the actual weight had been charged.
pub proof fn charge_then_adjust(gas_left: Weight, charged: Weight, actual: Weight)
    requires
        weight_le(charged, gas_left),
        weight_le(actual, charged),
    ensures
        weight_add(weight_sub(gas_left, charged), weight_sub(charged, actual)) == weight_sub(gas_left, actual),
{
}

/// Scaling a weight by a larger factor gives no smaller weight.
pub proof fn scale_monotonic(w: Weight, a: u64, b: u64)
    requires
        a <= b,
    ensures
        weight_le(weight_scale(w, a), weight_scale(w, b)),
{
    assert(w.ref_time * a <= w.ref_time * b) by (nonlinear_arith)
        requires a <= b;
    assert(w.proof_size * a <= w.proof_size * b) by (nonlinear_arith)
        requires a <= b;
}

/// An error of the called contract is always reported to the caller as `CalleeTrapped`.
pub proof fn callee_errors_trap(error: DispatchError)
    ensures
        exec_return_code(Err(ExecError { error, origin: ErrorOrigin::Callee })) == Ok::<ReturnCode, DispatchError>(ReturnCode::CalleeTrapped),
{
}

/// No two return codes share a number.
pub proof fn return_codes_distinct(a: ReturnCode, b: ReturnCode)
    requires
        return_code_value(a) == return_code_value(b),
    ensures
        a == b,
{
}

/// Converting the bits of known flags back gives the same flags.
pub proof fn from_bits_round_trip(f: CallFlags)
    requires
        known_bits(f.bits),
    ensures
        f.bits & ALL_BITS == f.bits,
{
    let b = f.bits;
    assert(b & !0b1111u32 == 0 ==> b & 0b1111u32 == b) by (bit_vector);
}

/// Flags are known exactly when truncating them changes nothing.
pub proof fn truncation_keeps_known(bits: u32)
    ensures
        known_bits(bits) <==> bits & ALL_BITS == bits,
        known_bits(bits & ALL_BITS),
{
    assert((bits & !0b1111u32 == 0) <==> (bits & 0b1111u32 == bits)) by (bit_vector);
    assert((bits & 0b1111u32) & !0b1111u32 == 0) by (bit_vector);
}

/// Taking the complement twice gives back known flags.
pub proof fn complement_involution(bits: u32)
    requires
        known_bits(bits),
    ensures
        !(!bits & ALL_BITS) & ALL_BITS == bits,
{
    assert(bits & !0b1111u32 == 0 ==> !(!bits & 0b1111u32) & 0b1111u32 == bits) by (bit_vector);
}

/// Toggling the same flags twice changes nothing.
pub proof fn toggle_involution(a: u32, b: u32)
    ensures
        (a ^ b) ^ b == a,
{
    assert((a ^ b) ^ b == a) by (bit_vector);
}

/// After inserting flags they are contained; after removing them none of them is set.
pub proof fn insert_contains_remove_excludes(a: u32, b: u32)
    ensures
        ((a | b) & b) == b,
        ((a & !b) & b) == 0,
{
    assert(((a | b) & b) == b) by (bit_vector);
    assert(((a & !b) & b) == 0) by (bit_vector);
}

/// The union contains both operands and the intersection is contained in both.
pub proof fn union_intersection_bounds(a: u32, b: u32)
    ensures
        ((a | b) & a) == a,
        ((a | b) & b) == b,
        (a & (a & b)) == (a & b),
        (b & (a & b)) == (a & b),
{
    assert(((a | b) & a) == a) by (bit_vector);
    assert(((a | b) & b) == b) by (bit_vector);
    assert((a & (a & b)) == (a & b)) by (bit_vector);
    assert((b & (a & b)) == (a & b)) by (bit_vector);
}

/// The difference of known flags is their intersection with the complement.
pub proof fn difference_is_intersection_with_complement(a: u32, b: u32)
    requires
        known_bits(a),
    ensures
        (a & !b) == (a & (!b & ALL_BITS)),
{
    assert(a & !0b1111u32 == 0 ==> (a & !b) == (a & (!b & 0b1111u32))) by (bit_vector);
}

/// The extension id and the function id that `ext_id` and `func_id` give for an `id` passed by
/// a contract together give back that `id`.
pub proof fn ids_recombine(id: u32, ext_id: u16, func_id: u16)
    requires
        ext_id as int == id as int / 65536,
        func_id as int == id as int % 65536,
    ensures
        ext_id as int * 65536 + func_id as int == id,
{
}

/// A host function is linked exactly when it is defined and the interface switches admit it.
pub proof fn linked_exactly_the_admitted(s: Seq<HostFnImport>, allow_unstable: bool, allow_deprecated: bool, x: HostFnImport)
    ensures
        linked(s, allow_unstable, allow_deprecated).contains(x) <==> (s.contains(x) && import_linked(x, allow_unstable, allow_deprecated)),
    decreases s.len(),
{
    if s.len() > 0 {
        let init = s.drop_last();
        linked_exactly_the_admitted(init, allow_unstable, allow_deprecated, x);
        assert(s =~= init.push(s.last()));
        assert(s.contains(x) <==> (init.contains(x) || x == s.last())) by {
            if s.contains(x) && x != s.last() {
                let j = s.index_of(x);
                assert(init[j] == x);
            }
            if init.contains(x) {
                assert(s[init.index_of(x)] == x);
            }
        }
        let rest = linked(init, allow_unstable, allow_deprecated);
        assert(rest.push(s.last()).contains(x) <==> (rest.contains(x) || x == s.last())) by {
            let pushed = rest.push(s.last());
            if pushed.contains(x) && x != s.last() {
                assert(rest[pushed.index_of(x)] == x);
            }
            if rest.contains(x) {
                assert(pushed[rest.index_of(x)] == x);
            }
            assert(pushed[rest.len() as int] == s.last());
        }
    }
}

/// With unstable and deprecated interfaces allowed, every host function is linked, in order.
pub proof fn everything_linked_when_allowed(s: Seq<HostFnImport>)
    ensures
        linked(s, true, true) == s,
    decreases s.len(),
{
    if s.len() > 0 {
        everything_linked_when_allowed(s.drop_last());
        assert(s.drop_last().push(s.last()) =~= s);
    }
}

/// A call that forwards its input consumes it: the runtime it leaves holds no input, and a
/// later call that forwards or clones the input fails with `InputForwarded` (or with
/// `OutOfGas` before it gets that far).
pub proof fn forwarding_consumes_input(
    rt: Runtime,
    mem: Seq<u8>,
    flags: CallFlags,
    call_type: CallType,
    ptr: u32,
    len: u32,
    next_flags: CallFlags,
    next_call_type: CallType,
    next_ptr: u32,
    next_len: u32,
)
    requires
        has_flag(flags, FORWARD_INPUT_BIT),
        !has_flag(flags, CLONE_INPUT_BIT),
        call_request(rt, mem, flags, call_type, ptr, len).0 is Ok,
        has_flag(next_flags, FORWARD_INPUT_BIT) || has_flag(next_flags, CLONE_INPUT_BIT),
    ensures
        ({
            let rt2 = call_request(rt, mem, flags, call_type, ptr, len).1;
            let next = call_request(rt2, mem, next_flags, next_call_type, next_ptr, next_len).0;
            &&& rt2.input_data is None
            &&& (next == Err::<crate::host_call::CallRequestView, DispatchError>(DispatchError::Module(Error::InputForwarded))
                || next == Err::<crate::host_call::CallRequestView, DispatchError>(DispatchError::Module(Error::OutOfGas)))
        }),
{
}

/// A call that clones its input leaves the input to the calling contract.
pub proof fn cloning_keeps_input(rt: Runtime, mem: Seq<u8>, flags: CallFlags, call_type: CallType, ptr: u32, len: u32)
    requires
        has_flag(flags, CLONE_INPUT_BIT),
    ensures
        call_request(rt, mem, flags, call_type, ptr, len).1.input_data == rt.input_data,
{
}

/// Adjusting a charge never refunds more than was charged: after charging `charged` and
/// adjusting it to any `actual` weight, no more is left than before the charge.
pub proof fn refund_never_exceeds_charge(gas_left: Weight, charged: Weight, actual: Weight)
    requires
        weight_le(charged, gas_left),
    ensures
        weight_le(weight_add(weight_sub(gas_left, charged), weight_sub(charged, actual)), gas_left),
{
}

/// Every cost that depends on a single length grows with that length, so charging for the
/// largest length and adjusting down to the actual one never charges too little.
pub proof fn length_costs_monotonic(s: HostFnWeights, a: u32, b: u32)
    requires
        a <= b,
    ensures
        weight_le(costs_weight(RuntimeCosts::CopyFromContract(a), s), costs_weight(RuntimeCosts::CopyFromContract(b), s)),
        weight_le(costs_weight(RuntimeCosts::CopyToContract(a), s), costs_weight(RuntimeCosts::CopyToContract(b), s)),
        weight_le(costs_weight(RuntimeCosts::Return(a), s), costs_weight(RuntimeCosts::Return(b), s)),
        weight_le(costs_weight(RuntimeCosts::DebugMessage(a), s), costs_weight(RuntimeCosts::DebugMessage(b), s)),
        weight_le(costs_weight(RuntimeCosts::ClearStorage(a), s), costs_weight(RuntimeCosts::ClearStorage(b), s)),
        weight_le(costs_weight(RuntimeCosts::ContainsStorage(a), s), costs_weight(RuntimeCosts::ContainsStorage(b), s)),
        weight_le(costs_weight(RuntimeCosts::GetStorage(a), s), costs_weight(RuntimeCosts::GetStorage(b), s)),
        weight_le(costs_weight(RuntimeCosts::TakeStorage(a), s), costs_weight(RuntimeCosts::TakeStorage(b), s)),
        weight_le(costs_weight(RuntimeCosts::CallInputCloned(a), s), costs_weight(RuntimeCosts::CallInputCloned(b), s)),
        weight_le(costs_weight(RuntimeCosts::HashSha256(a), s), costs_weight(RuntimeCosts::HashSha256(b), s)),
        weight_le(costs_weight(RuntimeCosts::HashKeccak256(a), s), costs_weight(RuntimeCosts::HashKeccak256(b), s)),
        weight_le(costs_weight(RuntimeCosts::HashBlake256(a), s), costs_weight(RuntimeCosts::HashBlake256(b), s)),
        weight_le(costs_weight(RuntimeCosts::HashBlake128(a), s), costs_weight(RuntimeCosts::HashBlake128(b), s)),
        weight_le(costs_weight(RuntimeCosts::Sr25519Verify(a), s), costs_weight(RuntimeCosts::Sr25519Verify(b), s)),
{
    scale_monotonic(s.call_per_cloned_byte, a as u64, b as u64);
    scale_monotonic(s.clear_storage_per_byte, a as u64, b as u64);
    scale_monotonic(s.contains_storage_per_byte, a as u64, b as u64);
    scale_monotonic(s.deposit_event_per_byte, a as u64, b as u64);
    scale_monotonic(s.get_storage_per_byte, a as u64, b as u64);
    scale_monotonic(s.hash_blake2_128_per_byte, a as u64, b as u64);
    scale_monotonic(s.hash_blake2_256_per_byte, a as u64, b as u64);
    scale_monotonic(s.hash_keccak_256_per_byte, a as u64, b as u64);
    scale_monotonic(s.hash_sha2_256_per_byte, a as u64, b as u64);
    scale_monotonic(s.input_per_byte, a as u64, b as u64);
    scale_monotonic(s.return_per_byte, a as u64, b as u64);
    scale_monotonic(s.sr25519_verify_per_byte, a as u64, b as u64);
    scale_monotonic(s.take_storage_per_byte, a as u64, b as u64);
}

/// The weight that chain extensions and runtime calls declare is charged as it is.
pub proof fn declared_weights_charged_verbatim(s: HostFnWeights, w: Weight)
    ensures
        costs_weight(RuntimeCosts::ChainExtension(w), s) == w,
        costs_weight(RuntimeCosts::CallRuntime(w), s) == w,
{
}

/// No two errors have the same name, so the name that `as_str` gives identifies the error.
pub proof fn error_names_distinct(a: Error, b: Error)
    requires
        error_name(a) == error_name(b),
    ensures
        a == b,
{
    reveal_strlit("InvalidScheduleVersion");
    reveal_strlit("InvalidCallFlags");
    reveal_strlit("OutOfGas");
    reveal_strlit("OutputBufferTooSmall");
    reveal_strlit("TransferFailed");
    reveal_strlit("MaxCallDepthReached");
    reveal_strlit("ContractNotFound");
    reveal_strlit("CodeTooLarge");
    reveal_strlit("CodeNotFound");
    reveal_strlit("OutOfBounds");
    reveal_strlit("DecodingFailed");
    reveal_strlit("ContractTrapped");
    reveal_strlit("ValueTooLarge");
    reveal_strlit("TerminatedWhileReentrant");
    reveal_strlit("InputForwarded");
    reveal_strlit("RandomSubjectTooLong");
    reveal_strlit("TooManyTopics");
    reveal_strlit("NoChainExtension");
    reveal_strlit("DuplicateContract");
    reveal_strlit("TerminatedInConstructor");
    reveal_strlit("ReentranceDenied");
    reveal_strlit("StorageDepositNotEnoughFunds");
    reveal_strlit("StorageDepositLimitExhausted");
    reveal_strlit("CodeInUse");
    reveal_strlit("ContractReverted");
    reveal_strlit("CodeRejected");
    reveal_strlit("Indeterministic");
    let (na, nb) = (error_name(a), error_name(b));
    assert(na.len() == nb.len() && na[4] == nb[4] && na[14] == nb[14]);
}

/// `x`, clamped to the largest value a `u64` can hold.
pub open spec fn clamped(x: int) -> int {
    if x > u64_max() { u64_max() } else { x }
}

proof fn saturating_linear(base: u64, per: u64, n: u64)
    ensures
        sat_add(base, sat_mul(per, n)) == clamped(base + per * n),
        sat_mul(per, n) == clamped(per * n),
{
    assert(per * n >= 0) by (nonlinear_arith);
}

proof fn saturating_linear2(base: u64, p1: u64, a: u64, p2: u64, b: u64)
    ensures
        sat_add(sat_add(base, sat_mul(p1, a)), sat_mul(p2, b)) == clamped(base + p1 * a + p2 * b),
{
    assert(p1 * a >= 0) by (nonlinear_arith);
    assert(p2 * b >= 0) by (nonlinear_arith);
}

/// Every cost that depends on one length charges its base weight plus its per-byte weight
/// once for each byte, in both components, clamped to the largest weight.
pub proof fn length_costs_charge_per_byte(s: HostFnWeights, len: u32)
    ensures
        costs_weight(RuntimeCosts::CopyFromContract(len), s).ref_time == clamped(s.return_per_byte.ref_time * len),
        costs_weight(RuntimeCosts::CopyFromContract(len), s).proof_size == clamped(s.return_per_byte.proof_size * len),
        costs_weight(RuntimeCosts::CopyToContract(len), s).ref_time == clamped(s.input_per_byte.ref_time * len),
        costs_weight(RuntimeCosts::CopyToContract(len), s).proof_size == clamped(s.input_per_byte.proof_size * len),
        costs_weight(RuntimeCosts::Return(len), s).ref_time == clamped(s.return_.ref_time + s.return_per_byte.ref_time * len),
        costs_weight(RuntimeCosts::Return(len), s).proof_size == clamped(s.return_.proof_size + s.return_per_byte.proof_size * len),
        costs_weight(RuntimeCosts::DebugMessage(len), s).ref_time == clamped(s.debug_message.ref_time + s.deposit_event_per_byte.ref_time * len),
        costs_weight(RuntimeCosts::DebugMessage(len), s).proof_size == clamped(s.debug_message.proof_size + s.deposit_event_per_byte.proof_size * len),
        costs_weight(RuntimeCosts::ClearStorage(len), s).ref_time == clamped(s.clear_storage.ref_time + s.clear_storage_per_byte.ref_time * len),
        costs_weight(RuntimeCosts::ClearStorage(len), s).proof_size == clamped(s.clear_storage.proof_size + s.clear_storage_per_byte.proof_size * len),
        costs_weight(RuntimeCosts::ContainsStorage(len), s).ref_time == clamped(s.contains_storage.ref_time + s.contains_storage_per_byte.ref_time * len),
        costs_weight(RuntimeCosts::ContainsStorage(len), s).proof_size == clamped(s.contains_storage.proof_size + s.contains_storage_per_byte.proof_size * len),
        costs_weight(RuntimeCosts::GetStorage(len), s).ref_time == clamped(s.get_storage.ref_time + s.get_storage_per_byte.ref_time * len),
        costs_weight(RuntimeCosts::GetStorage(len), s).proof_size == clamped(s.get_storage.proof_size + s.get_storage_per_byte.proof_size * len),
        costs_weight(RuntimeCosts::TakeStorage(len), s).ref_time == clamped(s.take_storage.ref_time + s.take_storage_per_byte.ref_time * len),
        costs_weight(RuntimeCosts::TakeStorage(len), s).proof_size == clamped(s.take_storage.proof_size + s.take_storage_per_byte.proof_size * len),
        costs_weight(RuntimeCosts::CallInputCloned(len), s).ref_time == clamped(s.call_per_cloned_byte.ref_time * len),
        costs_weight(RuntimeCosts::CallInputCloned(len), s).proof_size == clamped(s.call_per_cloned_byte.proof_size * len),
        costs_weight(RuntimeCosts::HashSha256(len), s).ref_time == clamped(s.hash_sha2_256.ref_time + s.hash_sha2_256_per_byte.ref_time * len),
        costs_weight(RuntimeCosts::HashSha256(len), s).proof_size == clamped(s.hash_sha2_256.proof_size + s.hash_sha2_256_per_byte.proof_size * len),
        costs_weight(RuntimeCosts::HashKeccak256(len), s).ref_time == clamped(s.hash_keccak_256.ref_time + s.hash_keccak_256_per_byte.ref_time * len),
        costs_weight(RuntimeCosts::HashKeccak256(len), s).proof_size == clamped(s.hash_keccak_256.proof_size + s.hash_keccak_256_per_byte.proof_size * len),
        costs_weight(RuntimeCosts::HashBlake256(len), s).ref_time == clamped(s.hash_blake2_256.ref_time + s.hash_blake2_256_per_byte.ref_time * len),
        costs_weight(RuntimeCosts::HashBlake256(len), s).proof_size == clamped(s.hash_blake2_256.proof_size + s.hash_blake2_256_per_byte.proof_size * len),
        costs_weight(RuntimeCosts::HashBlake128(len), s).ref_time == clamped(s.hash_blake2_128.ref_time + s.hash_blake2_128_per_byte.ref_time * len),
        costs_weight(RuntimeCosts::HashBlake128(len), s).proof_size == clamped(s.hash_blake2_128.proof_size + s.hash_blake2_128_per_byte.proof_size * len),
        costs_weight(RuntimeCosts::Sr25519Verify(len), s).ref_time == clamped(s.sr25519_verify.ref_time + s.sr25519_verify_per_byte.ref_time * len),
        costs_weight(RuntimeCosts::Sr25519Verify(len), s).proof_size == clamped(s.sr25519_verify.proof_size + s.sr25519_verify_per_byte.proof_size * len),
{
    saturating_linear(0, s.return_per_byte.ref_time, len as u64);
    saturating_linear(0, s.return_per_byte.proof_size, len as u64);
    saturating_linear(0, s.input_per_byte.ref_time, len as u64);
    saturating_linear(0, s.input_per_byte.proof_size, len as u64);
    saturating_linear(s.return_.ref_time, s.return_per_byte.ref_time, len as u64);
    saturating_linear(s.return_.proof_size, s.return_per_byte.proof_size, len as u64);
    saturating_linear(s.debug_message.ref_time, s.deposit_event_per_byte.ref_time, len as u64);
    saturating_linear(s.debug_message.proof_size, s.deposit_event_per_byte.proof_size, len as u64);
    saturating_linear(s.clear_storage.ref_time, s.clear_storage_per_byte.ref_time, len as u64);
    saturating_linear(s.clear_storage.proof_size, s.clear_storage_per_byte.proof_size, len as u64);
    saturating_linear(s.contains_storage.ref_time, s.contains_storage_per_byte.ref_time, len as u64);
    saturating_linear(s.contains_storage.proof_size, s.contains_storage_per_byte.proof_size, len as u64);
    saturating_linear(s.get_storage.ref_time, s.get_storage_per_byte.ref_time, len as u64);
    saturating_linear(s.get_storage.proof_size, s.get_storage_per_byte.proof_size, len as u64);
    saturating_linear(s.take_storage.ref_time, s.take_storage_per_byte.ref_time, len as u64);
    saturating_linear(s.take_storage.proof_size, s.take_storage_per_byte.proof_size, len as u64);
    saturating_linear(0, s.call_per_cloned_byte.ref_time, len as u64);
    saturating_linear(0, s.call_per_cloned_byte.proof_size, len as u64);
    saturating_linear(s.hash_sha2_256.ref_time, s.hash_sha2_256_per_byte.ref_time, len as u64);
    saturating_linear(s.hash_sha2_256.proof_size, s.hash_sha2_256_per_byte.proof_size, len as u64);
    saturating_linear(s.hash_keccak_256.ref_time, s.hash_keccak_256_per_byte.ref_time, len as u64);
    saturating_linear(s.hash_keccak_256.proof_size, s.hash_keccak_256_per_byte.proof_size, len as u64);
    saturating_linear(s.hash_blake2_256.ref_time, s.hash_blake2_256_per_byte.ref_time, len as u64);
    saturating_linear(s.hash_blake2_256.proof_size, s.hash_blake2_256_per_byte.proof_size, len as u64);
    saturating_linear(s.hash_blake2_128.ref_time, s.hash_blake2_128_per_byte.ref_time, len as u64);
    saturating_linear(s.hash_blake2_128.proof_size, s.hash_blake2_128_per_byte.proof_size, len as u64);
    saturating_linear(s.sr25519_verify.ref_time, s.sr25519_verify_per_byte.ref_time, len as u64);
    saturating_linear(s.sr25519_verify.proof_size, s.sr25519_verify_per_byte.proof_size, len as u64);
}

/// The costs that depend on two counts charge the base weight plus each count times its own
/// per-item weight; metering a block charges the block's time on top of the metering weight.
pub proof fn two_count_costs_charge_per_item(s: HostFnWeights, a: u32, b: u32, amount: u64)
    ensures
        costs_weight(RuntimeCosts::DepositEvent { num_topic: a, len: b }, s).ref_time == clamped(s.deposit_event.ref_time + s.deposit_event_per_topic.ref_time * a + s.deposit_event_per_byte.ref_time * b),
        costs_weight(RuntimeCosts::DepositEvent { num_topic: a, len: b }, s).proof_size == clamped(s.deposit_event.proof_size + s.deposit_event_per_topic.proof_size * a + s.deposit_event_per_byte.proof_size * b),
        costs_weight(RuntimeCosts::SetStorage { old_bytes: b, new_bytes: a }, s).ref_time == clamped(s.set_storage.ref_time + s.set_storage_per_new_byte.ref_time * a + s.set_storage_per_old_byte.ref_time * b),
        costs_weight(RuntimeCosts::SetStorage { old_bytes: b, new_bytes: a }, s).proof_size == clamped(s.set_storage.proof_size + s.set_storage_per_new_byte.proof_size * a + s.set_storage_per_old_byte.proof_size * b),
        costs_weight(RuntimeCosts::InstantiateBase { input_data_len: a, salt_len: b }, s).ref_time == clamped(s.instantiate.ref_time + s.instantiate_per_input_byte.ref_time * a + s.instantiate_per_salt_byte.ref_time * b),
        costs_weight(RuntimeCosts::InstantiateBase { input_data_len: a, salt_len: b }, s).proof_size == clamped(s.instantiate.proof_size + s.instantiate_per_input_byte.proof_size * a + s.instantiate_per_salt_byte.proof_size * b),
        costs_weight(RuntimeCosts::MeteringBlock(amount), s).ref_time == clamped(s.gas.ref_time + amount),
        costs_weight(RuntimeCosts::MeteringBlock(amount), s).proof_size == s.gas.proof_size,
{
    saturating_linear2(s.deposit_event.ref_time, s.deposit_event_per_topic.ref_time, a as u64, s.deposit_event_per_byte.ref_time, b as u64);
    saturating_linear2(s.deposit_event.proof_size, s.deposit_event_per_topic.proof_size, a as u64, s.deposit_event_per_byte.proof_size, b as u64);
    saturating_linear2(s.set_storage.ref_time, s.set_storage_per_new_byte.ref_time, a as u64, s.set_storage_per_old_byte.ref_time, b as u64);
    saturating_linear2(s.set_storage.proof_size, s.set_storage_per_new_byte.proof_size, a as u64, s.set_storage_per_old_byte.proof_size, b as u64);
    saturating_linear2(s.instantiate.ref_time, s.instantiate_per_input_byte.ref_time, a as u64, s.instantiate_per_salt_byte.ref_time, b as u64);
    saturating_linear2(s.instantiate.proof_size, s.instantiate_per_input_byte.proof_size, a as u64, s.instantiate_per_salt_byte.proof_size, b as u64);
}


/// The stability and deprecation of each host function follow the interface's markings.
pub open spec fn marked_as_defined(x: HostFnImport) -> bool {
    (x.stable <==> !unstable_import(x.module, x.name)) && (x.deprecated <==> deprecated_import(x.module, x.name))
}

/// The runtime defines 112 host functions, and each is stable exactly when the interface does
/// not mark it unstable, and deprecated exactly when the interface marks it deprecated.
pub proof fn host_fns_follow_markings()
    ensures
        host_fn_table().len() == 112,
        forall|i: int| 0 <= i < host_fn_table().len() ==> #[trigger] marked_as_defined(host_fn_table()[i]),
{
    let t = host_fn_table();
    assert forall|i: int| 0 <= i < t.len() implies #[trigger] marked_as_defined(t[i]) by {
        assert(marked_as_defined(t[i]));
    }
}

/// Without the unstable and deprecated interfaces (as on a production chain), a host function
/// that the runtime defines under `module` and `name` is linked exactly when the interface
/// marks it neither unstable nor deprecated.
pub proof fn production_links_by_markings(module: &str, name: &str)
    requires
        exists|j: int| 0 <= j < host_fn_table().len() && host_fn_table()[j].module == module && host_fn_table()[j].name == name,
    ensures
        (exists|x: HostFnImport| linked(host_fn_table(), false, false).contains(x) && x.module == module && x.name == name)
            <==> (!unstable_import(module, name) && !deprecated_import(module, name)),
{
    let t = host_fn_table();
    host_fns_follow_markings();
    let j = choose|j: int| 0 <= j < t.len() && t[j].module == module && t[j].name == name;
    assert(marked_as_defined(t[j]));
    if !unstable_import(module, name) && !deprecated_import(module, name) {
        linked_exactly_the_admitted(t, false, false, t[j]);
        assert(t.contains(t[j]));
    }
    if exists|x: HostFnImport| linked(t, false, false).contains(x) && x.module == module && x.name == name {
        let x = choose|x: HostFnImport| linked(t, false, false).contains(x) && x.module == module && x.name == name;
        linked_exactly_the_admitted(t, false, false, x);
        let k = t.index_of(x);
        assert(marked_as_defined(t[k]));
    }
}

/// Once a call completed (and was no tail call), its output is handed to the caller whether
/// the callee reverted or not: where the write succeeds, the output buffer holds the output,
/// its length field holds the output's length, and the answer is `CalleeReverted` for a
/// reverted callee and `Success` otherwise.
pub proof fn completed_call_output_reaches_caller(
    rt: Runtime,
    mem: Seq<u8>,
    flags: CallFlags,
    output_ptr: u32,
    output_len_ptr: u32,
    v: ExecReturnValue,
)
    requires
        !has_flag(flags, TAIL_CALL_BIT),
        output_ptr != SENTINEL,
        v.data@.len() <= u32::MAX,
        disjoint(output_ptr as int, v.data@.len() as int, output_len_ptr as int, 4),
        call_answer(rt, mem, flags, output_ptr, output_len_ptr, Ok(v)).0 is Ok,
    ensures
        ({
            let (r, _, mem2) = call_answer(rt, mem, flags, output_ptr, output_len_ptr, Ok(v));
            &&& chunk(mem2, output_ptr as int, v.data@.len() as int) == v.data@
            &&& le_u32(chunk(mem2, output_len_ptr as int, 4)) == v.data@.len()
            &&& r == Ok::<ReturnCode, TrapReason>(if v.flags.bits & REVERT_BIT == REVERT_BIT {
                ReturnCode::CalleeReverted
            } else {
                ReturnCode::Success
            })
        }),
{
    output_read_back(rt, mem, output_ptr, output_len_ptr, v.data@, true, OutputCharge::CopyToContract);
}

/// 256 to the power `n`.
spec fn byte_power(n: nat) -> int
    decreases n,
{
    if n == 0 { 1 } else { 256 * byte_power((n - 1) as nat) }
}

/// A little-endian value of `n` bytes is below 256 to the power `n`.
proof fn le_value_below_byte_power(b: Seq<u8>)
    ensures
        0 <= le_value(b) < byte_power(b.len()),
    decreases b.len(),
{
    if b.len() > 0 {
        le_value_below_byte_power(b.drop_first());
    }
}

/// An instantiation request carries what the contract put in its memory: the storage deposit
/// limit read at `deposit_ptr` (none, that is zero, for `SENTINEL`), the value at `value_ptr`,
/// the code hash, the input and the salt, and the weight passed as it is.
pub proof fn instantiate_request_read_from_memory(
    rt: Runtime,
    mem: Seq<u8>,
    code_hash_ptr: u32,
    weight: Weight,
    deposit_ptr: u32,
    value_ptr: u32,
    input_data_ptr: u32,
    input_data_len: u32,
    salt_ptr: u32,
    salt_len: u32,
)
    requires
        instantiate_request(rt, mem, code_hash_ptr, weight, deposit_ptr, value_ptr, input_data_ptr, input_data_len, salt_ptr, salt_len).0 is Ok,
    ensures
        ({
            let req = instantiate_request(rt, mem, code_hash_ptr, weight, deposit_ptr, value_ptr, input_data_ptr, input_data_len, salt_ptr, salt_len).0->Ok_0;
            &&& req.weight == weight
            &&& req.deposit_limit as int == if deposit_ptr == SENTINEL { 0 } else { le_value(chunk(mem, deposit_ptr as int, 16)) }
            &&& req.value as int == le_value(chunk(mem, value_ptr as int, 16))
            &&& req.code_hash == chunk(mem, code_hash_ptr as int, 32)
            &&& req.input_data == chunk(mem, input_data_ptr as int, input_data_len as int)
            &&& req.salt == chunk(mem, salt_ptr as int, salt_len as int)
        }),
{
    reveal_with_fuel(byte_power, 17);
    assert(byte_power(16) == 0x1_0000_0000_0000_0000_0000_0000_0000_0000);
    le_value_below_byte_power(chunk(mem, deposit_ptr as int, 16));
    le_value_below_byte_power(chunk(mem, value_ptr as int, 16));
}

} // verus!
