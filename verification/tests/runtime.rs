use pallet_contracts::costs::HostFnWeights;
use pallet_contracts::errors::{DispatchError, Error};
use pallet_contracts::gas::GasMeter;
use pallet_contracts::memory::SENTINEL;
use pallet_contracts::runtime::{Limits, OutputCharge, Runtime, Schedule};
use pallet_contracts::weight::Weight;

fn schedule_weights() -> HostFnWeights {
    HostFnWeights {
        gas: Weight::from_parts(10, 1),
        return_per_byte: Weight::from_parts(20, 2),
        input_per_byte: Weight::from_parts(30, 3),
        caller: Weight::from_parts(40, 4),
        is_contract: Weight::from_parts(50, 5),
        code_hash: Weight::from_parts(60, 6),
        own_code_hash: Weight::from_parts(70, 7),
        caller_is_origin: Weight::from_parts(80, 8),
        caller_is_root: Weight::from_parts(90, 9),
        address: Weight::from_parts(100, 10),
        gas_left: Weight::from_parts(110, 11),
        balance: Weight::from_parts(120, 12),
        value_transferred: Weight::from_parts(130, 13),
        minimum_balance: Weight::from_parts(140, 14),
        block_number: Weight::from_parts(150, 15),
        now: Weight::from_parts(160, 16),
        weight_to_fee: Weight::from_parts(170, 17),
        input: Weight::from_parts(180, 18),
        return_: Weight::from_parts(190, 19),
        terminate: Weight::from_parts(200, 20),
        random: Weight::from_parts(210, 21),
        deposit_event: Weight::from_parts(220, 22),
        deposit_event_per_topic: Weight::from_parts(230, 23),
        deposit_event_per_byte: Weight::from_parts(240, 24),
        debug_message: Weight::from_parts(250, 25),
        set_storage: Weight::from_parts(260, 26),
        set_storage_per_new_byte: Weight::from_parts(270, 27),
        set_storage_per_old_byte: Weight::from_parts(280, 28),
        clear_storage: Weight::from_parts(290, 29),
        clear_storage_per_byte: Weight::from_parts(300, 30),
        contains_storage: Weight::from_parts(310, 31),
        contains_storage_per_byte: Weight::from_parts(320, 32),
        get_storage: Weight::from_parts(330, 33),
        get_storage_per_byte: Weight::from_parts(340, 34),
        take_storage: Weight::from_parts(350, 35),
        take_storage_per_byte: Weight::from_parts(360, 36),
        transfer: Weight::from_parts(370, 37),
        call: Weight::from_parts(380, 38),
        delegate_call: Weight::from_parts(390, 39),
        call_transfer_surcharge: Weight::from_parts(400, 40),
        call_per_cloned_byte: Weight::from_parts(410, 41),
        instantiate: Weight::from_parts(420, 42),
        instantiate_per_input_byte: Weight::from_parts(430, 43),
        instantiate_per_salt_byte: Weight::from_parts(440, 44),
        instantiate_transfer_surcharge: Weight::from_parts(450, 45),
        hash_sha2_256: Weight::from_parts(460, 46),
        hash_sha2_256_per_byte: Weight::from_parts(470, 47),
        hash_keccak_256: Weight::from_parts(480, 48),
        hash_keccak_256_per_byte: Weight::from_parts(490, 49),
        hash_blake2_256: Weight::from_parts(500, 50),
        hash_blake2_256_per_byte: Weight::from_parts(510, 51),
        hash_blake2_128: Weight::from_parts(520, 52),
        hash_blake2_128_per_byte: Weight::from_parts(530, 53),
        ecdsa_recover: Weight::from_parts(540, 54),
        sr25519_verify: Weight::from_parts(550, 55),
        sr25519_verify_per_byte: Weight::from_parts(560, 56),
        set_code_hash: Weight::from_parts(570, 57),
        ecdsa_to_eth_address: Weight::from_parts(580, 58),
        reentrance_count: Weight::from_parts(590, 59),
        account_reentrance_count: Weight::from_parts(600, 60),
        instantiation_nonce: Weight::from_parts(610, 61),
    }
}

fn w(ref_time: u64, proof_size: u64) -> Weight {
    Weight::from_parts(ref_time, proof_size)
}

fn runtime(gas: Weight) -> Runtime {
    let schedule = Schedule {
        limits: Limits { max_memory_size: 64, subject_len: 32, event_topics: 4 },
        host_fn_weights: schedule_weights(),
    };
    Runtime::new(vec![7, 8, 9], GasMeter::new(gas), schedule, 100, 40)
}

fn memory() -> Vec<u8> {
    (0..128u32).map(|i| i as u8).collect()
}

fn oob() -> DispatchError {
    DispatchError::Module(Error::OutOfBounds)
}

#[test]
fn new_runtime_holds_its_input() {
    let rt = runtime(w(1, 1));
    assert_eq!(rt.input_data, Some(vec![7, 8, 9]));
    assert_eq!(rt.gas_meter.gas_left(), w(1, 1));
    assert_eq!(rt.max_value_size, 100);
    assert_eq!(rt.max_storage_key_len, 40);
}

#[test]
fn charge_gas_takes_the_weight_of_the_costs() {
    let mut rt = runtime(w(1000, 100));
    let charged = rt.charge_gas(pallet_contracts::costs::RuntimeCosts::Caller).unwrap();
    assert_eq!(charged.amount(), w(40, 4));
    assert_eq!(rt.gas_meter.gas_left(), w(960, 96));
    rt.adjust_gas(charged, pallet_contracts::costs::RuntimeCosts::CopyToContract(1));
    assert_eq!(rt.gas_meter.gas_left(), w(970, 97));
    let mut poor = runtime(w(39, 100));
    assert_eq!(
        poor.charge_gas(pallet_contracts::costs::RuntimeCosts::Caller),
        Err(DispatchError::Module(Error::OutOfGas))
    );
    assert_eq!(poor.gas_meter.gas_left(), w(39, 100));
}

#[test]
fn read_sandbox_memory_reads_in_bounds() {
    let rt = runtime(w(1, 1));
    let mem = memory();
    assert_eq!(rt.read_sandbox_memory(&mem, 10, 4), Ok(vec![10, 11, 12, 13]));
    assert_eq!(rt.read_sandbox_memory(&mem, 128, 0), Ok(vec![]));
    assert_eq!(rt.read_sandbox_memory(&mem, 125, 4), Err(oob()));
    assert_eq!(rt.read_sandbox_memory(&mem, u32::MAX, 2), Err(oob()));
}

#[test]
fn read_sandbox_memory_refuses_more_than_the_memory_limit() {
    let rt = runtime(w(1, 1));
    let mem = memory();
    assert!(rt.read_sandbox_memory(&mem, 0, 64).is_ok());
    assert_eq!(rt.read_sandbox_memory(&mem, 0, 65), Err(oob()));
}

#[test]
fn read_into_buf_fills_the_whole_buffer() {
    let rt = runtime(w(1, 1));
    let mem = memory();
    let mut buf = vec![0u8; 3];
    assert_eq!(rt.read_sandbox_memory_into_buf(&mem, 100, &mut buf), Ok(()));
    assert_eq!(buf, vec![100, 101, 102]);
    let mut big = vec![5u8; 3];
    assert_eq!(rt.read_sandbox_memory_into_buf(&mem, 126, &mut big), Err(oob()));
    assert_eq!(big, vec![5, 5, 5]);
}

#[test]
fn read_as_u32_and_balance_are_little_endian() {
    let rt = runtime(w(1, 1));
    let mut mem = vec![0u8; 32];
    mem[0..4].copy_from_slice(&[0x78, 0x56, 0x34, 0x12]);
    mem[4..20].copy_from_slice(&1_000_000_000_000_000_000_000u128.to_le_bytes());
    assert_eq!(rt.read_sandbox_memory_as_u32(&mem, 0), Ok(0x1234_5678));
    assert_eq!(rt.read_sandbox_memory_as_balance(&mem, 4), Ok(1_000_000_000_000_000_000_000u128));
    assert_eq!(rt.read_sandbox_memory_as_u32(&mem, 29), Err(oob()));
    assert_eq!(rt.read_sandbox_memory_as_balance(&mem, 17), Err(oob()));
}

#[test]
fn read_as_fixed_size_ignores_the_memory_limit() {
    let rt = runtime(w(1, 1));
    let mem = memory();
    assert_eq!(rt.read_sandbox_memory_as(&mem, 0, 100).map(|v| v.len()), Ok(100));
    assert_eq!(rt.read_sandbox_memory_as(&mem, 100, 29), Err(oob()));
}

#[test]
fn read_unbounded_decodes_a_list_of_hashes() {
    let rt = runtime(w(1, 1));
    let mut mem = vec![0x08u8];
    mem.extend(std::iter::repeat(0xaa).take(32));
    mem.extend(std::iter::repeat(0xbb).take(32));
    let topics = rt.read_sandbox_memory_as_unbounded(&mem, 0, 65).unwrap();
    assert_eq!(topics, vec![vec![0xaa; 32], vec![0xbb; 32]]);
    assert_eq!(
        rt.read_sandbox_memory_as_unbounded(&mem, 0, 64),
        Err(DispatchError::Module(Error::DecodingFailed))
    );
    assert_eq!(rt.read_sandbox_memory_as_unbounded(&mem, 0, 66), Err(oob()));
}

#[test]
fn read_unbounded_refuses_trailing_bytes() {
    let rt = runtime(w(1, 1));
    let mut mem = vec![0x04u8];
    mem.extend(std::iter::repeat(0x11).take(33));
    assert_eq!(
        rt.read_sandbox_memory_as_unbounded(&mem, 0, 34),
        Err(DispatchError::Module(Error::DecodingFailed))
    );
    assert_eq!(rt.read_sandbox_memory_as_unbounded(&mem, 0, 33), Ok(vec![vec![0x11; 32]]));
}

#[test]
fn write_then_read_gives_back_what_was_written() {
    let rt = runtime(w(1, 1));
    let mut mem = memory();
    assert_eq!(rt.write_sandbox_memory(&mut mem, 40, &[1, 2, 3]), Ok(()));
    assert_eq!(rt.read_sandbox_memory(&mem, 40, 3), Ok(vec![1, 2, 3]));
    assert_eq!(rt.read_sandbox_memory(&mem, 43, 2), Ok(vec![43, 44]));
    assert_eq!(rt.write_sandbox_memory(&mut mem, 127, &[1, 2]), Err(oob()));
    assert_eq!(mem[127], 127);
}

#[test]
fn write_output_can_be_skipped() {
    let mut rt = runtime(w(1000, 100));
    let mut mem = memory();
    let r = rt.write_sandbox_output(&mut mem, SENTINEL, 0, &[1, 2, 3], true, OutputCharge::CopyToContract);
    assert_eq!(r, Ok(()));
    assert_eq!(mem, memory());
    assert_eq!(rt.gas_meter.gas_left(), w(1000, 100));
}

#[test]
fn write_output_writes_data_and_length() {
    let mut rt = runtime(w(1000, 100));
    let mut mem = vec![0u8; 16];
    mem[0..4].copy_from_slice(&10u32.to_le_bytes());
    let r = rt.write_sandbox_output(&mut mem, 4, 0, &[9, 8, 7], false, OutputCharge::CopyToContract);
    assert_eq!(r, Ok(()));
    assert_eq!(&mem[0..4], &3u32.to_le_bytes());
    assert_eq!(&mem[4..7], &[9, 8, 7]);
    assert_eq!(rt.gas_meter.gas_left(), w(1000 - 90, 100 - 9));
    assert_eq!(rt.read_sandbox_memory_as_u32(&mem, 0), Ok(3));
    assert_eq!(rt.read_sandbox_memory(&mem, 4, 3), Ok(vec![9, 8, 7]));
}

#[test]
fn write_output_refuses_a_small_buffer() {
    let mut rt = runtime(w(1000, 100));
    let mut mem = vec![0u8; 16];
    mem[0..4].copy_from_slice(&2u32.to_le_bytes());
    let before = mem.clone();
    let r = rt.write_sandbox_output(&mut mem, 4, 0, &[9, 8, 7], false, OutputCharge::CopyToContract);
    assert_eq!(r, Err(DispatchError::Module(Error::OutputBufferTooSmall)));
    assert_eq!(mem, before);
}

#[test]
fn write_output_refuses_a_length_out_of_bounds() {
    let mut rt = runtime(w(1000, 100));
    let mut mem = vec![0u8; 16];
    let r = rt.write_sandbox_output(&mut mem, 0, 14, &[1], false, OutputCharge::AlreadyCharged);
    assert_eq!(r, Err(oob()));
}

#[test]
fn write_output_runs_out_of_gas() {
    let mut rt = runtime(w(89, 100));
    let mut mem = vec![0u8; 16];
    mem[0..4].copy_from_slice(&10u32.to_le_bytes());
    let before = mem.clone();
    let r = rt.write_sandbox_output(&mut mem, 4, 0, &[9, 8, 7], false, OutputCharge::CopyToContract);
    assert_eq!(r, Err(DispatchError::Module(Error::OutOfGas)));
    assert_eq!(mem, before);
    assert_eq!(rt.gas_meter.gas_left(), w(89, 100));
}

#[test]
fn write_output_charges_an_extension_per_byte() {
    let mut rt = runtime(w(1000, 100));
    let mut mem = vec![0u8; 16];
    mem[0..4].copy_from_slice(&10u32.to_le_bytes());
    let r = rt.write_sandbox_output(&mut mem, 4, 0, &[1, 2], false, OutputCharge::ChainExtensionPerByte(w(5, 1)));
    assert_eq!(r, Ok(()));
    assert_eq!(rt.gas_meter.gas_left(), w(990, 98));
}

#[test]
fn write_output_charged_but_out_of_bounds_keeps_the_charge() {
    let mut rt = runtime(w(1000, 100));
    let mut mem = vec![0u8; 16];
    mem[0..4].copy_from_slice(&10u32.to_le_bytes());
    let r = rt.write_sandbox_output(&mut mem, 15, 0, &[1, 2], false, OutputCharge::CopyToContract);
    assert_eq!(r, Err(oob()));
    assert_eq!(rt.gas_meter.gas_left(), w(940, 94));
}

#[test]
fn read_unbounded_follows_the_compact_length_modes() {
    let rt = runtime(w(1, 1));
    assert_eq!(rt.read_sandbox_memory_as_unbounded(&vec![0x00], 0, 1), Ok(vec![]));
    assert_eq!(
        rt.read_sandbox_memory_as_unbounded(&vec![0x01, 0x00], 0, 2),
        Err(DispatchError::Module(Error::DecodingFailed))
    );
    let mut two_byte_mode = vec![0x01u8, 0x01];
    two_byte_mode.extend(std::iter::repeat(7).take(64 * 32));
    let list = rt.read_sandbox_memory_as_unbounded(&two_byte_mode, 0, two_byte_mode.len() as u32).unwrap();
    assert_eq!(list.len(), 64);
    assert_eq!(list[63], vec![7; 32]);
    assert_eq!(
        rt.read_sandbox_memory_as_unbounded(&vec![0x03, 0, 0, 0, 0], 0, 5),
        Err(DispatchError::Module(Error::DecodingFailed))
    );
}
