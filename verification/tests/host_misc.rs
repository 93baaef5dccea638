use pallet_contracts::costs::{HostFnWeights, RuntimeCosts};
use pallet_contracts::errors::{DispatchError, Error};
use pallet_contracts::exec_result::{ReturnCode, TrapReason};
use pallet_contracts::gas::GasMeter;
use pallet_contracts::hashing::HashFunction;
use pallet_contracts::runtime::{Limits, Runtime, Schedule};
use pallet_contracts::weight::Weight;

fn schedule_weights() -> HostFnWeights {
    HostFnWeights {
        gas: Weight::from_parts(10, 1),
        return_per_byte: Weight::from_parts(20, 2),
        input_per_byte: Weight::from_parts(30, 3),
        caller: Weight::from_parts(40, 4),
        is_contract: Weight::from_parts(50, 5),
        code_hash: Weight::from_parts(60, 6),
        own_code_hash: Weight::from_parts(70, 7),
        caller_is_origin: Weight::from_parts(80, 8),
        caller_is_root: Weight::from_parts(90, 9),
        address: Weight::from_parts(100, 10),
        gas_left: Weight::from_parts(110, 11),
        balance: Weight::from_parts(120, 12),
        value_transferred: Weight::from_parts(130, 13),
        minimum_balance: Weight::from_parts(140, 14),
        block_number: Weight::from_parts(150, 15),
        now: Weight::from_parts(160, 16),
        weight_to_fee: Weight::from_parts(170, 17),
        input: Weight::from_parts(180, 18),
        return_: Weight::from_parts(190, 19),
        terminate: Weight::from_parts(200, 20),
        random: Weight::from_parts(210, 21),
        deposit_event: Weight::from_parts(220, 22),
        deposit_event_per_topic: Weight::from_parts(230, 23),
        deposit_event_per_byte: Weight::from_parts(240, 24),
        debug_message: Weight::from_parts(250, 25),
        set_storage: Weight::from_parts(260, 26),
        set_storage_per_new_byte: Weight::from_parts(270, 27),
        set_storage_per_old_byte: Weight::from_parts(280, 28),
        clear_storage: Weight::from_parts(290, 29),
        clear_storage_per_byte: Weight::from_parts(300, 30),
        contains_storage: Weight::from_parts(310, 31),
        contains_storage_per_byte: Weight::from_parts(320, 32),
        get_storage: Weight::from_parts(330, 33),
        get_storage_per_byte: Weight::from_parts(340, 34),
        take_storage: Weight::from_parts(350, 35),
        take_storage_per_byte: Weight::from_parts(360, 36),
        transfer: Weight::from_parts(370, 37),
        call: Weight::from_parts(380, 38),
        delegate_call: Weight::from_parts(390, 39),
        call_transfer_surcharge: Weight::from_parts(400, 40),
        call_per_cloned_byte: Weight::from_parts(410, 41),
        instantiate: Weight::from_parts(420, 42),
        instantiate_per_input_byte: Weight::from_parts(430, 43),
        instantiate_per_salt_byte: Weight::from_parts(440, 44),
        instantiate_transfer_surcharge: Weight::from_parts(450, 45),
        hash_sha2_256: Weight::from_parts(460, 46),
        hash_sha2_256_per_byte: Weight::from_parts(470, 47),
        hash_keccak_256: Weight::from_parts(480, 48),
        hash_keccak_256_per_byte: Weight::from_parts(490, 49),
        hash_blake2_256: Weight::from_parts(500, 50),
        hash_blake2_256_per_byte: Weight::from_parts(510, 51),
        hash_blake2_128: Weight::from_parts(520, 52),
        hash_blake2_128_per_byte: Weight::from_parts(530, 53),
        ecdsa_recover: Weight::from_parts(540, 54),
        sr25519_verify: Weight::from_parts(550, 55),
        sr25519_verify_per_byte: Weight::from_parts(560, 56),
        set_code_hash: Weight::from_parts(570, 57),
        ecdsa_to_eth_address: Weight::from_parts(580, 58),
        reentrance_count: Weight::from_parts(590, 59),
        account_reentrance_count: Weight::from_parts(600, 60),
        instantiation_nonce: Weight::from_parts(610, 61),
    }
}

fn w(ref_time: u64, proof_size: u64) -> Weight {
    Weight::from_parts(ref_time, proof_size)
}

fn runtime(gas: Weight) -> Runtime {
    let schedule = Schedule {
        limits: Limits { max_memory_size: 64, subject_len: 32, event_topics: 2 },
        host_fn_weights: schedule_weights(),
    };
    Runtime::new(vec![7, 8, 9], GasMeter::new(gas), schedule, 100, 40)
}

fn cost(c: RuntimeCosts) -> Weight {
    c.token(&schedule_weights()).weight()
}

fn module(e: Error) -> DispatchError {
    DispatchError::Module(e)
}

fn supervisor_error(t: TrapReason) -> Option<DispatchError> {
    match t {
        TrapReason::SupervisorError(e) => Some(e),
        _ => None,
    }
}

fn memory() -> Vec<u8> {
    (0..128u32).map(|i| i as u8).collect()
}

fn hex(bytes: &[u8]) -> String {
    bytes.iter().map(|b| format!("{:02x}", b)).collect()
}

#[test]
fn charge_traps_when_gas_runs_out() {
    let mut rt = runtime(w(100, 10));
    assert!(rt.charge(RuntimeCosts::Caller).is_ok());
    assert_eq!(rt.gas_meter.gas_left(), w(60, 6));
    let t = rt.charge(RuntimeCosts::Terminate).unwrap_err();
    assert_eq!(supervisor_error(t), Some(module(Error::OutOfGas)));
    assert_eq!(rt.gas_meter.gas_left(), w(60, 6));
}

#[test]
fn charged_output_writes_an_encoded_value() {
    let mut rt = runtime(w(1000, 100));
    let mut mem = vec![0u8; 32];
    mem[0..4].copy_from_slice(&32u32.to_le_bytes());
    assert!(rt.charged_output(&mut mem, RuntimeCosts::Address, 4, 0, &[1, 2, 3]).is_ok());
    assert_eq!(&mem[0..7], &[3, 0, 0, 0, 1, 2, 3]);
    assert_eq!(rt.gas_meter.gas_left(), w(1000, 100).saturating_sub(cost(RuntimeCosts::Address)));
}

#[test]
fn charged_read_reads_a_fixed_size_value() {
    let mut rt = runtime(w(1000, 100));
    let mem = memory();
    assert_eq!(rt.charged_read(&mem, RuntimeCosts::IsContract, 10, 32).ok(), Some((10..42u8).collect::<Vec<u8>>()));
    let t = rt.charged_read(&mem, RuntimeCosts::IsContract, 100, 32).unwrap_err();
    assert_eq!(supervisor_error(t), Some(module(Error::OutOfBounds)));
}

#[test]
fn input_is_written_and_kept() {
    let gas = w(10_000, 1000);
    let mut rt = runtime(gas);
    let mut mem = vec![0u8; 16];
    mem[0..4].copy_from_slice(&16u32.to_le_bytes());
    assert!(rt.input(&mut mem, 4, 0).is_ok());
    assert_eq!(&mem[0..7], &[3, 0, 0, 0, 7, 8, 9]);
    assert_eq!(rt.input_data, Some(vec![7, 8, 9]));
    let spent = cost(RuntimeCosts::InputBase).saturating_add(cost(RuntimeCosts::CopyToContract(3)));
    assert_eq!(rt.gas_meter.gas_left(), gas.saturating_sub(spent));
}

#[test]
fn input_that_cannot_be_written_is_lost() {
    let mut rt = runtime(w(10_000, 1000));
    let mut mem = vec![0u8; 16];
    mem[0..4].copy_from_slice(&2u32.to_le_bytes());
    let t = rt.input(&mut mem, 4, 0).unwrap_err();
    assert_eq!(supervisor_error(t), Some(module(Error::OutputBufferTooSmall)));
    assert_eq!(rt.input_data, None);
    let t = rt.input(&mut mem, 4, 0).unwrap_err();
    assert_eq!(supervisor_error(t), Some(module(Error::InputForwarded)));
}

#[test]
fn seal_return_ends_with_flags_and_data() {
    let mut rt = runtime(w(10_000, 1000));
    let mem = memory();
    match rt.seal_return(&mem, 1, 3, 2) {
        TrapReason::Return(d) => assert_eq!((d.flags, d.data), (1, vec![3, 4])),
        _ => panic!("a return was expected"),
    }
    assert_eq!(rt.gas_meter.gas_left(), w(10_000, 1000).saturating_sub(cost(RuntimeCosts::Return(2))));
    let mut poor = runtime(w(1, 1));
    assert_eq!(supervisor_error(poor.seal_return(&mem, 0, 0, 0)), Some(module(Error::OutOfGas)));
}

#[test]
fn gas_left_reports_the_reference_time_after_its_charge() {
    let mut rt = runtime(w(1000, 100));
    let mut mem = vec![0u8; 16];
    mem[0..4].copy_from_slice(&8u32.to_le_bytes());
    assert!(rt.gas_left(&mut mem, 4, 0).is_ok());
    assert_eq!(&mem[0..4], &8u32.to_le_bytes());
    assert_eq!(&mem[4..12], &(1000u64 - 110).to_le_bytes());
}

#[test]
fn random_refuses_long_subjects() {
    let mut rt = runtime(w(10_000, 1000));
    let mem = memory();
    assert_eq!(rt.random(&mem, 1, 2).ok(), Some(vec![1, 2]));
    let t = rt.random(&mem, 0, 33).unwrap_err();
    assert_eq!(supervisor_error(t), Some(module(Error::RandomSubjectTooLong)));
}

#[test]
fn deposit_event_reads_topics_and_data() {
    let mut rt = runtime(w(100_000, 10_000));
    let mut mem = vec![0x08u8];
    mem.extend(std::iter::repeat(1).take(32));
    mem.extend(std::iter::repeat(2).take(32));
    mem.extend([9, 9, 9]);
    let ev = rt.deposit_event(&mem, 0, 65, 65, 3).unwrap();
    assert_eq!(ev.topics, vec![vec![1; 32], vec![2; 32]]);
    assert_eq!(ev.data, vec![9, 9, 9]);
    let charged = cost(RuntimeCosts::DepositEvent { num_topic: 2, len: 3 });
    assert_eq!(rt.gas_meter.gas_left(), w(100_000, 10_000).saturating_sub(charged));
    let none = rt.deposit_event(&mem, 0, 0, 65, 3).unwrap();
    assert!(none.topics.is_empty());
}

#[test]
fn deposit_event_refusals() {
    let mut rt = runtime(w(1_000_000, 100_000));
    let mut mem = vec![0x0cu8];
    mem.extend(std::iter::repeat(1).take(96));
    let t = rt.deposit_event(&mem, 0, 97, 0, 1).unwrap_err();
    assert_eq!(supervisor_error(t), Some(module(Error::TooManyTopics)));
    let t = rt.deposit_event(&mem, 0, 0, 0, 101).unwrap_err();
    assert_eq!(supervisor_error(t), Some(module(Error::ValueTooLarge)));
    let t = rt.deposit_event(&mem, 0, 50, 0, 1).unwrap_err();
    assert_eq!(supervisor_error(t), Some(module(Error::DecodingFailed)));
}

#[test]
fn hash_writes_the_digest() {
    let mut rt = runtime(w(100_000, 10_000));
    let mut mem = vec![0u8; 64];
    mem[0..3].copy_from_slice(b"abc");
    assert!(rt.hash(&mut mem, HashFunction::Sha2_256, 0, 3, 32).is_ok());
    assert_eq!(hex(&mem[32..64]), "ba7816bf8f01cfea414140de5dae2223b00361a396177a9cb410ff61f20015ad");
    assert_eq!(rt.gas_meter.gas_left(), w(100_000, 10_000).saturating_sub(cost(RuntimeCosts::HashSha256(3))));
}

#[test]
fn transfer_reads_account_and_value() {
    let mut rt = runtime(w(100_000, 10_000));
    let mut mem = vec![0u8; 64];
    mem[0..32].copy_from_slice(&[4; 32]);
    mem[32..48].copy_from_slice(&500u128.to_le_bytes());
    let req = rt.transfer(&mem, 0, 32).unwrap();
    assert_eq!((req.to, req.value), (vec![4; 32], 500));
    let t = rt.transfer(&mem, 0, 50).unwrap_err();
    assert_eq!(supervisor_error(t), Some(module(Error::OutOfBounds)));
}

#[test]
fn outcomes_as_return_codes() {
    assert_eq!(Runtime::code_of_outcome(Ok(())).ok(), Some(ReturnCode::Success));
    assert_eq!(Runtime::code_of_outcome(Err(module(Error::TransferFailed))).ok(), Some(ReturnCode::TransferFailed));
    let t = Runtime::code_of_outcome(Err(module(Error::CodeInUse))).unwrap_err();
    assert_eq!(supervisor_error(t), Some(module(Error::CodeInUse)));
    assert_eq!(Runtime::sr25519_verify_done(true), ReturnCode::Success);
    assert_eq!(Runtime::sr25519_verify_done(false), ReturnCode::Sr25519VerifyFailed);
}

#[test]
fn code_hash_is_written_when_found() {
    let mut rt = runtime(w(100_000, 10_000));
    let mut mem = vec![0u8; 64];
    mem[0..4].copy_from_slice(&32u32.to_le_bytes());
    assert_eq!(rt.code_hash_done(&mut mem, 4, 0, Some(vec![0xee; 32])).ok(), Some(ReturnCode::Success));
    assert_eq!(&mem[4..36], &[0xee; 32]);
    assert_eq!(rt.code_hash_done(&mut mem, 4, 0, None).ok(), Some(ReturnCode::KeyNotFound));
}

#[test]
fn debug_message_is_cut_to_the_buffer() {
    let mut rt = runtime(w(100_000, 10_000));
    let mem = memory();
    assert_eq!(rt.debug_message(&mem, 10, 5, 3, true).ok(), Some(Some(vec![10, 11, 12])));
    assert_eq!(
        rt.gas_meter.gas_left(),
        w(100_000, 10_000).saturating_sub(cost(RuntimeCosts::DebugMessage(3)))
    );
    assert_eq!(rt.debug_message(&mem, 10, 5, 3, false).ok(), Some(None));
}

#[test]
fn ecdsa_results_are_written_or_reported() {
    let rt = runtime(w(1, 1));
    let mut mem = vec![0u8; 40];
    assert_eq!(rt.ecdsa_done(&mut mem, 5, Some(vec![1; 33])).ok(), Some(ReturnCode::Success));
    assert_eq!(&mem[5..38], &[1; 33]);
    assert_eq!(rt.ecdsa_done(&mut mem, 5, None).ok(), Some(ReturnCode::EcdsaRecoverFailed));
    let t = rt.ecdsa_done(&mut mem, 10, Some(vec![1; 33])).unwrap_err();
    assert_eq!(supervisor_error(t), Some(module(Error::OutOfBounds)));
}

#[test]
fn sr25519_verify_reads_signature_key_and_message() {
    let mut rt = runtime(w(100_000, 10_000));
    let mem = memory();
    let (sig, key, msg) = rt.sr25519_verify(&mem, 0, 64, 2, 100).unwrap();
    assert_eq!(sig, (0..64u8).collect::<Vec<u8>>());
    assert_eq!(key, (64..96u8).collect::<Vec<u8>>());
    assert_eq!(msg, vec![100, 101]);
}

#[test]
fn call_runtime_refunds_unused_weight() {
    let gas = w(100_000, 10_000);
    let mut rt = runtime(gas);
    let mem = memory();
    assert_eq!(rt.call_runtime(&mem, 0, 3).ok(), Some(vec![0, 1, 2]));
    let after_read = gas.saturating_sub(cost(RuntimeCosts::CopyFromContract(3)));
    assert_eq!(rt.gas_meter.gas_left(), after_read);
    let charged = rt.charge_gas(RuntimeCosts::CallRuntime(w(500, 50))).unwrap();
    assert_eq!(rt.call_runtime_done(charged, w(200, 20), false), ReturnCode::CallRuntimeFailed);
    assert_eq!(rt.gas_meter.gas_left(), after_read.saturating_sub(w(200, 20)));
}

#[test]
fn old_balance_functions_write_fixed_values() {
    let gas = w(10_000, 1000);
    let mut rt = runtime(gas);
    let mut mem = vec![0u8; 40];
    mem[0..4].copy_from_slice(&16u32.to_le_bytes());
    assert!(rt.tombstone_deposit(&mut mem, 4, 0).is_ok());
    assert_eq!(&mem[0..20], &[&16u32.to_le_bytes()[..], &[0u8; 16][..]].concat()[..]);
    assert!(rt.rent_allowance(&mut mem, 4, 0).is_ok());
    assert_eq!(&mem[4..20], &[0xffu8; 16]);
    let spent = cost(RuntimeCosts::Balance).saturating_add(cost(RuntimeCosts::Balance));
    assert_eq!(rt.gas_meter.gas_left(), gas.saturating_sub(spent));
}

#[test]
fn removed_functions_only_charge() {
    let gas = w(10_000, 1000);
    let mut rt = runtime(gas);
    assert!(rt.removed_host_function().is_ok());
    assert_eq!(rt.gas_meter.gas_left(), gas.saturating_sub(cost(RuntimeCosts::DebugMessage(0))));
    let mut poor = runtime(w(1, 1));
    let t = poor.removed_host_function().unwrap_err();
    assert_eq!(supervisor_error(t), Some(module(Error::OutOfGas)));
}
