use pallet_contracts::costs::{HostFnWeights, RuntimeCosts};
use pallet_contracts::errors::{DispatchError, Error};
use pallet_contracts::exec_result::{
    ErrorOrigin, ExecError, ExecReturnValue, ReturnCode, ReturnData, ReturnFlags, TrapReason,
};
use pallet_contracts::gas::GasMeter;
use pallet_contracts::hashing::HashFunction;
use pallet_contracts::host::{Key, KeyType, SandboxOutcome, WriteOutcome};
use pallet_contracts::memory::SENTINEL;
use pallet_contracts::runtime::{Limits, Runtime, Schedule};
use pallet_contracts::weight::Weight;

fn schedule_weights() -> HostFnWeights {
    HostFnWeights {
        gas: Weight::from_parts(10, 1),
        return_per_byte: Weight::from_parts(20, 2),
        input_per_byte: Weight::from_parts(30, 3),
        caller: Weight::from_parts(40, 4),
        is_contract: Weight::from_parts(50, 5),
        code_hash: Weight::from_parts(60, 6),
        own_code_hash: Weight::from_parts(70, 7),
        caller_is_origin: Weight::from_parts(80, 8),
        caller_is_root: Weight::from_parts(90, 9),
        address: Weight::from_parts(100, 10),
        gas_left: Weight::from_parts(110, 11),
        balance: Weight::from_parts(120, 12),
        value_transferred: Weight::from_parts(130, 13),
        minimum_balance: Weight::from_parts(140, 14),
        block_number: Weight::from_parts(150, 15),
        now: Weight::from_parts(160, 16),
        weight_to_fee: Weight::from_parts(170, 17),
        input: Weight::from_parts(180, 18),
        return_: Weight::from_parts(190, 19),
        terminate: Weight::from_parts(200, 20),
        random: Weight::from_parts(210, 21),
        deposit_event: Weight::from_parts(220, 22),
        deposit_event_per_topic: Weight::from_parts(230, 23),
        deposit_event_per_byte: Weight::from_parts(240, 24),
        debug_message: Weight::from_parts(250, 25),
        set_storage: Weight::from_parts(260, 26),
        set_storage_per_new_byte: Weight::from_parts(270, 27),
        set_storage_per_old_byte: Weight::from_parts(280, 28),
        clear_storage: Weight::from_parts(290, 29),
        clear_storage_per_byte: Weight::from_parts(300, 30),
        contains_storage: Weight::from_parts(310, 31),
        contains_storage_per_byte: Weight::from_parts(320, 32),
        get_storage: Weight::from_parts(330, 33),
        get_storage_per_byte: Weight::from_parts(340, 34),
        take_storage: Weight::from_parts(350, 35),
        take_storage_per_byte: Weight::from_parts(360, 36),
        transfer: Weight::from_parts(370, 37),
        call: Weight::from_parts(380, 38),
        delegate_call: Weight::from_parts(390, 39),
        call_transfer_surcharge: Weight::from_parts(400, 40),
        call_per_cloned_byte: Weight::from_parts(410, 41),
        instantiate: Weight::from_parts(420, 42),
        instantiate_per_input_byte: Weight::from_parts(430, 43),
        instantiate_per_salt_byte: Weight::from_parts(440, 44),
        instantiate_transfer_surcharge: Weight::from_parts(450, 45),
        hash_sha2_256: Weight::from_parts(460, 46),
        hash_sha2_256_per_byte: Weight::from_parts(470, 47),
        hash_keccak_256: Weight::from_parts(480, 48),
        hash_keccak_256_per_byte: Weight::from_parts(490, 49),
        hash_blake2_256: Weight::from_parts(500, 50),
        hash_blake2_256_per_byte: Weight::from_parts(510, 51),
        hash_blake2_128: Weight::from_parts(520, 52),
        hash_blake2_128_per_byte: Weight::from_parts(530, 53),
        ecdsa_recover: Weight::from_parts(540, 54),
        sr25519_verify: Weight::from_parts(550, 55),
        sr25519_verify_per_byte: Weight::from_parts(560, 56),
        set_code_hash: Weight::from_parts(570, 57),
        ecdsa_to_eth_address: Weight::from_parts(580, 58),
        reentrance_count: Weight::from_parts(590, 59),
        account_reentrance_count: Weight::from_parts(600, 60),
        instantiation_nonce: Weight::from_parts(610, 61),
    }
}

fn w(ref_time: u64, proof_size: u64) -> Weight {
    Weight::from_parts(ref_time, proof_size)
}

fn runtime(gas: Weight) -> Runtime {
    let schedule = Schedule {
        limits: Limits { max_memory_size: 64, subject_len: 32, event_topics: 4 },
        host_fn_weights: schedule_weights(),
    };
    Runtime::new(vec![7, 8, 9], GasMeter::new(gas), schedule, 100, 40)
}

fn memory() -> Vec<u8> {
    (0..128u32).map(|i| i as u8).collect()
}

fn module(e: Error) -> DispatchError {
    DispatchError::Module(e)
}

fn supervisor_error(t: TrapReason) -> Option<DispatchError> {
    match t {
        TrapReason::SupervisorError(e) => Some(e),
        _ => None,
    }
}

fn hex(bytes: &[u8]) -> String {
    bytes.iter().map(|b| format!("{:02x}", b)).collect()
}

#[test]
fn errors_with_a_return_code() {
    assert_eq!(Runtime::err_into_return_code(module(Error::TransferFailed)), Ok(ReturnCode::TransferFailed));
    assert_eq!(Runtime::err_into_return_code(module(Error::CodeNotFound)), Ok(ReturnCode::CodeNotFound));
    assert_eq!(Runtime::err_into_return_code(module(Error::ContractNotFound)), Ok(ReturnCode::NotCallable));
    assert_eq!(Runtime::err_into_return_code(module(Error::OutOfGas)), Err(module(Error::OutOfGas)));
    assert_eq!(Runtime::err_into_return_code(DispatchError::BadOrigin), Err(DispatchError::BadOrigin));
}

#[test]
fn execution_results_as_return_codes() {
    let ok = ExecReturnValue { flags: ReturnFlags::empty(), data: vec![1] };
    let reverted = ExecReturnValue { flags: ReturnFlags::revert(), data: vec![] };
    assert_eq!(Runtime::exec_into_return_code(Ok(ok)), Ok(ReturnCode::Success));
    assert_eq!(Runtime::exec_into_return_code(Ok(reverted)), Ok(ReturnCode::CalleeReverted));
    let callee = ExecError { error: DispatchError::Other, origin: ErrorOrigin::Callee };
    assert_eq!(Runtime::exec_into_return_code(Err(callee)), Ok(ReturnCode::CalleeTrapped));
    let caller = ExecError { error: module(Error::TransferFailed), origin: ErrorOrigin::Caller };
    assert_eq!(Runtime::exec_into_return_code(Err(caller)), Ok(ReturnCode::TransferFailed));
    let other = ExecError { error: module(Error::ValueTooLarge), origin: ErrorOrigin::Caller };
    assert_eq!(Runtime::exec_into_return_code(Err(other)), Err(module(Error::ValueTooLarge)));
}

#[test]
fn callee_errors_always_trap() {
    for e in [module(Error::TransferFailed), module(Error::OutOfGas), DispatchError::Corruption] {
        let err = ExecError { error: e, origin: ErrorOrigin::Callee };
        assert_eq!(Runtime::exec_into_return_code(Err(err)), Ok(ReturnCode::CalleeTrapped));
    }
}

#[test]
fn return_codes_and_their_numbers() {
    let all = [
        (ReturnCode::Success, 0, "Success"),
        (ReturnCode::CalleeTrapped, 1, "CalleeTrapped"),
        (ReturnCode::CalleeReverted, 2, "CalleeReverted"),
        (ReturnCode::KeyNotFound, 3, "KeyNotFound"),
        (ReturnCode::TransferFailed, 5, "TransferFailed"),
        (ReturnCode::CodeNotFound, 7, "CodeNotFound"),
        (ReturnCode::NotCallable, 8, "NotCallable"),
        (ReturnCode::CallRuntimeFailed, 10, "CallRuntimeFailed"),
        (ReturnCode::EcdsaRecoverFailed, 11, "EcdsaRecoverFailed"),
        (ReturnCode::Sr25519VerifyFailed, 12, "Sr25519VerifyFailed"),
    ];
    for (code, n, name) in all {
        assert_eq!(code.to_u32(), n);
        assert_eq!(code.name(), name);
    }
    for (a, na, _) in all {
        for (b, nb, _) in all {
            assert_eq!(a == b, na == nb);
        }
    }
}

#[test]
fn return_flags_and_reverts() {
    assert_eq!(ReturnFlags::from_bits(1).map(|f| f.bits()), Some(1));
    assert_eq!(ReturnFlags::from_bits(2), None);
    assert!(ReturnFlags::revert().contains_revert());
    assert!(!ReturnFlags::empty().contains_revert());
    let v = ExecReturnValue { flags: ReturnFlags::revert(), data: vec![] };
    assert!(v.did_revert());
    assert_eq!(ReturnCode::from_exec_return_value(&v), ReturnCode::CalleeReverted);
}

#[test]
fn error_names_and_dispatch_errors() {
    assert_eq!(Error::OutOfGas.as_str(), "OutOfGas");
    assert_eq!(Error::InvalidScheduleVersion.as_str(), "InvalidScheduleVersion");
    assert_eq!(Error::Indeterministic.as_str(), "Indeterministic");
    assert_eq!(Error::CodeRejected.into_dispatch_error(), DispatchError::Module(Error::CodeRejected));
    assert_eq!(ExecError::from_dispatch_error(DispatchError::Token).origin, ErrorOrigin::Caller);
    assert!(matches!(
        TrapReason::from_error(Error::OutOfBounds),
        TrapReason::SupervisorError(DispatchError::Module(Error::OutOfBounds))
    ));
}

#[test]
fn execution_results_of_the_sandbox() {
    let rt = runtime(w(1, 1));
    let r = rt.to_execution_result(SandboxOutcome::Finished).unwrap();
    assert_eq!((r.flags.bits(), r.data), (0, vec![]));
    let rt = runtime(w(1, 1));
    let r = rt.to_execution_result(SandboxOutcome::Trapped(Some(TrapReason::Termination))).unwrap();
    assert_eq!((r.flags.bits(), r.data), (0, vec![]));
    let rt = runtime(w(1, 1));
    let ret = TrapReason::Return(ReturnData { flags: 1, data: vec![4, 2] });
    let r = rt.to_execution_result(SandboxOutcome::Trapped(Some(ret))).unwrap();
    assert_eq!((r.flags.bits(), r.data), (1, vec![4, 2]));
}

#[test]
fn failed_executions_of_the_sandbox() {
    let caller = |e| ExecError { error: e, origin: ErrorOrigin::Caller };
    let rt = runtime(w(1, 1));
    assert_eq!(rt.to_execution_result(SandboxOutcome::Trapped(None)).err(), Some(caller(module(Error::ContractTrapped))));
    let rt = runtime(w(1, 1));
    assert_eq!(rt.to_execution_result(SandboxOutcome::Rejected).err(), Some(caller(module(Error::CodeRejected))));
    let rt = runtime(w(1, 1));
    let bad = TrapReason::Return(ReturnData { flags: 2, data: vec![] });
    assert_eq!(rt.to_execution_result(SandboxOutcome::Trapped(Some(bad))).err(), Some(caller(module(Error::InvalidCallFlags))));
    let rt = runtime(w(1, 1));
    let sup = TrapReason::SupervisorError(DispatchError::Exhausted);
    assert_eq!(rt.to_execution_result(SandboxOutcome::Trapped(Some(sup))).err(), Some(caller(DispatchError::Exhausted)));
}

#[test]
fn decode_keys() {
    let rt = runtime(w(1, 1));
    let mem = memory();
    match rt.decode_key(&mem, KeyType::Fix, 10).unwrap() {
        Key::Fix(k) => assert_eq!(k, (10..42u8).collect::<Vec<u8>>()),
        Key::Var(_) => panic!("a fixed key was expected"),
    }
    match rt.decode_key(&mem, KeyType::Var(3), 5).unwrap() {
        Key::Var(k) => assert_eq!(k, vec![5, 6, 7]),
        Key::Fix(_) => panic!("a variable key was expected"),
    }
    let too_long = rt.decode_key(&mem, KeyType::Var(41), 0).unwrap_err();
    assert_eq!(supervisor_error(too_long), Some(module(Error::DecodingFailed)));
    let outside = rt.decode_key(&mem, KeyType::Fix, 100).unwrap_err();
    assert_eq!(supervisor_error(outside), Some(module(Error::OutOfBounds)));
}

#[test]
fn set_storage_charges_for_the_largest_value_then_refunds() {
    let mut rt = runtime(w(100_000, 10_000));
    let mem = memory();
    let req = rt.set_storage(&mem, KeyType::Var(2), 0, 20, 3).unwrap();
    assert!(matches!(req.key, Key::Var(ref k) if *k == vec![0, 1]));
    assert_eq!(req.value, Some(vec![20, 21, 22]));
    assert!(!req.take);
    let worst = RuntimeCosts::SetStorage { old_bytes: 100, new_bytes: 3 }.token(&schedule_weights()).weight();
    assert_eq!(req.charged.amount(), worst);
    assert_eq!(rt.gas_meter.gas_left(), w(100_000, 10_000).saturating_sub(worst));
    assert_eq!(rt.set_storage_done(req.charged, 3, Ok(WriteOutcome::Overwritten(5))).ok(), Some(5));
    let actual = RuntimeCosts::SetStorage { old_bytes: 5, new_bytes: 3 }.token(&schedule_weights()).weight();
    assert_eq!(rt.gas_meter.gas_left(), w(100_000, 10_000).saturating_sub(actual));
}

#[test]
fn set_storage_answers_the_sentinel_for_a_new_value() {
    let mut rt = runtime(w(100_000, 10_000));
    let mem = memory();
    let req = rt.set_storage(&mem, KeyType::Fix, 0, 0, 1).unwrap();
    assert_eq!(rt.set_storage_done(req.charged, 1, Ok(WriteOutcome::New)).ok(), Some(SENTINEL));
    let failed = rt.set_storage_done(req.charged, 1, Err(DispatchError::Corruption)).unwrap_err();
    assert_eq!(supervisor_error(failed), Some(DispatchError::Corruption));
}

#[test]
fn set_storage_refuses_large_values() {
    let mut rt = runtime(w(1_000_000, 100_000));
    let mem = memory();
    let t = rt.set_storage(&mem, KeyType::Fix, 0, 0, 101).unwrap_err();
    assert_eq!(supervisor_error(t), Some(module(Error::ValueTooLarge)));
    let mut poor = runtime(w(10, 10));
    let t = poor.set_storage(&mem, KeyType::Fix, 0, 0, 1).unwrap_err();
    assert_eq!(supervisor_error(t), Some(module(Error::OutOfGas)));
    assert_eq!(poor.gas_meter.gas_left(), w(10, 10));
}

#[test]
fn clear_and_contains_storage() {
    let mut rt = runtime(w(100_000, 10_000));
    let mem = memory();
    let req = rt.clear_storage(&mem, KeyType::Fix, 0).unwrap();
    assert_eq!(req.value, None);
    assert_eq!(rt.clear_storage_done(req.charged, Ok(WriteOutcome::Overwritten(4))).ok(), Some(4));
    let expected = RuntimeCosts::ClearStorage(4).token(&schedule_weights()).weight();
    assert_eq!(rt.gas_meter.gas_left(), w(100_000, 10_000).saturating_sub(expected));

    let mut rt = runtime(w(100_000, 10_000));
    let q = rt.contains_storage(&mem, KeyType::Var(1), 0).unwrap();
    assert_eq!(rt.contains_storage_done(q.charged, None), SENTINEL);
    let expected = RuntimeCosts::ContainsStorage(0).token(&schedule_weights()).weight();
    assert_eq!(rt.gas_meter.gas_left(), w(100_000, 10_000).saturating_sub(expected));
    let q = rt.contains_storage(&mem, KeyType::Var(1), 0).unwrap();
    assert_eq!(rt.contains_storage_done(q.charged, Some(9)), 9);
}

#[test]
fn get_storage_writes_the_value_found() {
    let mut rt = runtime(w(100_000, 10_000));
    let mut mem = vec![0u8; 64];
    mem[40..44].copy_from_slice(&8u32.to_le_bytes());
    let q = rt.get_storage(&mem, KeyType::Fix, 0).unwrap();
    let r = rt.get_storage_done(&mut mem, q.charged, 44, 40, Some(vec![3, 1, 4]));
    assert_eq!(r.ok(), Some(ReturnCode::Success));
    assert_eq!(&mem[40..47], &[3, 0, 0, 0, 3, 1, 4]);
    let expected = RuntimeCosts::GetStorage(3).token(&schedule_weights()).weight();
    assert_eq!(rt.gas_meter.gas_left(), w(100_000, 10_000).saturating_sub(expected));
}

#[test]
fn get_storage_reports_a_missing_key() {
    let mut rt = runtime(w(100_000, 10_000));
    let mut mem = vec![0u8; 64];
    let q = rt.get_storage(&mem, KeyType::Fix, 0).unwrap();
    let r = rt.get_storage_done(&mut mem, q.charged, 44, 40, None);
    assert_eq!(r.ok(), Some(ReturnCode::KeyNotFound));
    assert_eq!(mem, vec![0u8; 64]);
}

#[test]
fn take_storage_hands_the_value_out() {
    let mut rt = runtime(w(100_000, 10_000));
    let mut mem = vec![0u8; 64];
    mem[40..44].copy_from_slice(&8u32.to_le_bytes());
    let req = rt.take_storage(&mem, 0, 4).unwrap();
    assert!(req.take);
    assert!(matches!(req.key, Key::Var(ref k) if *k == vec![0, 0, 0, 0]));
    let r = rt.take_storage_done(&mut mem, req.charged, 44, 40, Ok(WriteOutcome::Taken(vec![6, 6])));
    assert_eq!(r.ok(), Some(ReturnCode::Success));
    assert_eq!(&mem[40..46], &[2, 0, 0, 0, 6, 6]);
    let r = rt.take_storage_done(&mut mem, req.charged, 44, 40, Ok(WriteOutcome::New));
    assert_eq!(r.ok(), Some(ReturnCode::KeyNotFound));
    let too_long = rt.take_storage(&mem, 0, 41).unwrap_err();
    assert_eq!(supervisor_error(too_long), Some(module(Error::DecodingFailed)));
}

#[test]
fn write_outcome_lengths() {
    assert_eq!(WriteOutcome::New.old_len(), 0);
    assert_eq!(WriteOutcome::New.old_len_with_sentinel(), SENTINEL);
    assert_eq!(WriteOutcome::Overwritten(7).old_len_with_sentinel(), 7);
    assert_eq!(WriteOutcome::Taken(vec![1, 2]).old_len(), 2);
}

#[test]
fn hash_functions_give_their_digests() {
    assert_eq!(
        hex(&HashFunction::Sha2_256.hash(b"")),
        "e3b0c44298fc1c149afbf4c8996fb92427ae41e4649b934ca495991b7852b855"
    );
    assert_eq!(
        hex(&HashFunction::Keccak256.hash(b"")),
        "c5d2460186f7233c927e7db2dcc703c0e500b653ca82273b7bfad8045d85a470"
    );
    assert_eq!(
        hex(&HashFunction::Blake2_256.hash(b"")),
        "0e5751c026e543b2e8ab2eb06099daa1d1e5df47778f7787faab45cdf12fe3a8"
    );
    assert_eq!(hex(&HashFunction::Blake2_128.hash(b"")), "cae66941d9efbd404e4d88758ea67670");
    assert_eq!(
        hex(&HashFunction::Sha2_256.hash(b"abc")),
        "ba7816bf8f01cfea414140de5dae2223b00361a396177a9cb410ff61f20015ad"
    );
}

#[test]
fn hash_on_intermediate_buffer_may_overwrite_its_input() {
    let rt = runtime(w(1, 1));
    let mut mem = vec![0u8; 40];
    mem[0..3].copy_from_slice(b"abc");
    assert_eq!(rt.compute_hash_on_intermediate_buffer(&mut mem, HashFunction::Sha2_256, 0, 3, 0), Ok(()));
    assert_eq!(hex(&mem[0..32]), "ba7816bf8f01cfea414140de5dae2223b00361a396177a9cb410ff61f20015ad");
    let mut small = vec![0u8; 20];
    assert_eq!(
        rt.compute_hash_on_intermediate_buffer(&mut small, HashFunction::Blake2_128, 0, 3, 5),
        Err(module(Error::OutOfBounds))
    );
    assert_eq!(small, vec![0u8; 20]);
}

#[test]
fn key_types_of_the_interface_versions() {
    assert_eq!(KeyType::from_key_len(None), KeyType::Fix);
    assert_eq!(KeyType::from_key_len(Some(12)), KeyType::Var(12));
}

#[test]
fn contains_storage_refunds_to_the_checking_costs() {
    let gas = w(100_000, 10_000);
    let mut rt = runtime(gas);
    let mem = memory();
    let q = rt.contains_storage(&mem, KeyType::Fix, 0).unwrap();
    assert_eq!(rt.contains_storage_done(q.charged, Some(7)), 7);
    let expected = RuntimeCosts::ContainsStorage(7).token(&schedule_weights()).weight();
    assert_eq!(rt.gas_meter.gas_left(), gas.saturating_sub(expected));
    assert_ne!(expected, RuntimeCosts::ClearStorage(7).token(&schedule_weights()).weight());
}

#[test]
fn errors_convert_to_their_names() {
    let name: &'static str = Error::OutOfGas.into();
    assert_eq!(name, "OutOfGas");
    let name: &'static str = Error::StorageDepositLimitExhausted.into();
    assert_eq!(name, Error::StorageDepositLimitExhausted.as_str());
    assert_ne!(Error::StorageDepositLimitExhausted.as_str(), Error::StorageDepositNotEnoughFunds.as_str());
}

#[test]
fn return_codes_convert_to_their_numbers() {
    let n: u32 = ReturnCode::CalleeReverted.into();
    assert_eq!(n, 2);
    let n: u32 = ReturnCode::Sr25519VerifyFailed.into();
    assert_eq!(n, 12);
}

#[test]
fn module_errors_carry_index_encoding_and_name() {
    use_module_error(Error::InvalidScheduleVersion, 0, "InvalidScheduleVersion");
    use_module_error(Error::OutOfBounds, 9, "OutOfBounds");
    use_module_error(Error::NoChainExtension, 17, "NoChainExtension");
    use_module_error(Error::Indeterministic, 26, "Indeterministic");
}

fn use_module_error(e: Error, k: u8, name: &'static str) {
    let m = e.into_module_error(8);
    assert_eq!(m.index, 8);
    assert_eq!(m.error, [k, 0, 0, 0]);
    assert_eq!(m.message, Some(name));
    assert_eq!(e.index(), k);
}
