use pallet_contracts::chain_extension::{
    call_chain_extension, ret_val_outcome, ChainExtension, Environment, InitState,
    RegisteredChainExtension, RetVal,
};
use pallet_contracts::costs::HostFnWeights;
use pallet_contracts::errors::{DispatchError, Error};
use pallet_contracts::exec_result::{ReturnFlags, TrapReason};
use pallet_contracts::gas::GasMeter;
use pallet_contracts::runtime::{Limits, Runtime, Schedule};
use pallet_contracts::weight::Weight;

fn schedule_weights() -> HostFnWeights {
    HostFnWeights {
        gas: Weight::from_parts(10, 1),
        return_per_byte: Weight::from_parts(20, 2),
        input_per_byte: Weight::from_parts(30, 3),
        caller: Weight::from_parts(40, 4),
        is_contract: Weight::from_parts(50, 5),
        code_hash: Weight::from_parts(60, 6),
        own_code_hash: Weight::from_parts(70, 7),
        caller_is_origin: Weight::from_parts(80, 8),
        caller_is_root: Weight::from_parts(90, 9),
        address: Weight::from_parts(100, 10),
        gas_left: Weight::from_parts(110, 11),
        balance: Weight::from_parts(120, 12),
        value_transferred: Weight::from_parts(130, 13),
        minimum_balance: Weight::from_parts(140, 14),
        block_number: Weight::from_parts(150, 15),
        now: Weight::from_parts(160, 16),
        weight_to_fee: Weight::from_parts(170, 17),
        input: Weight::from_parts(180, 18),
        return_: Weight::from_parts(190, 19),
        terminate: Weight::from_parts(200, 20),
        random: Weight::from_parts(210, 21),
        deposit_event: Weight::from_parts(220, 22),
        deposit_event_per_topic: Weight::from_parts(230, 23),
        deposit_event_per_byte: Weight::from_parts(240, 24),
        debug_message: Weight::from_parts(250, 25),
        set_storage: Weight::from_parts(260, 26),
        set_storage_per_new_byte: Weight::from_parts(270, 27),
        set_storage_per_old_byte: Weight::from_parts(280, 28),
        clear_storage: Weight::from_parts(290, 29),
        clear_storage_per_byte: Weight::from_parts(300, 30),
        contains_storage: Weight::from_parts(310, 31),
        contains_storage_per_byte: Weight::from_parts(320, 32),
        get_storage: Weight::from_parts(330, 33),
        get_storage_per_byte: Weight::from_parts(340, 34),
        take_storage: Weight::from_parts(350, 35),
        take_storage_per_byte: Weight::from_parts(360, 36),
        transfer: Weight::from_parts(370, 37),
        call: Weight::from_parts(380, 38),
        delegate_call: Weight::from_parts(390, 39),
        call_transfer_surcharge: Weight::from_parts(400, 40),
        call_per_cloned_byte: Weight::from_parts(410, 41),
        instantiate: Weight::from_parts(420, 42),
        instantiate_per_input_byte: Weight::from_parts(430, 43),
        instantiate_per_salt_byte: Weight::from_parts(440, 44),
        instantiate_transfer_surcharge: Weight::from_parts(450, 45),
        hash_sha2_256: Weight::from_parts(460, 46),
        hash_sha2_256_per_byte: Weight::from_parts(470, 47),
        hash_keccak_256: Weight::from_parts(480, 48),
        hash_keccak_256_per_byte: Weight::from_parts(490, 49),
        hash_blake2_256: Weight::from_parts(500, 50),
        hash_blake2_256_per_byte: Weight::from_parts(510, 51),
        hash_blake2_128: Weight::from_parts(520, 52),
        hash_blake2_128_per_byte: Weight::from_parts(530, 53),
        ecdsa_recover: Weight::from_parts(540, 54),
        sr25519_verify: Weight::from_parts(550, 55),
        sr25519_verify_per_byte: Weight::from_parts(560, 56),
        set_code_hash: Weight::from_parts(570, 57),
        ecdsa_to_eth_address: Weight::from_parts(580, 58),
        reentrance_count: Weight::from_parts(590, 59),
        account_reentrance_count: Weight::from_parts(600, 60),
        instantiation_nonce: Weight::from_parts(610, 61),
    }
}

fn w(ref_time: u64, proof_size: u64) -> Weight {
    Weight::from_parts(ref_time, proof_size)
}

fn runtime(gas: Weight) -> Runtime {
    let schedule = Schedule {
        limits: Limits { max_memory_size: 64, subject_len: 32, event_topics: 4 },
        host_fn_weights: schedule_weights(),
    };
    Runtime::new(vec![], GasMeter::new(gas), schedule, 100, 40)
}

fn supervisor_error(t: TrapReason) -> Option<DispatchError> {
    match t {
        TrapReason::SupervisorError(e) => Some(e),
        _ => None,
    }
}

/// Reverses its input buffer (function 1), adds its two integer arguments (function 2),
/// diverges with its input (function 3), reports its ids (function 4) or reads its input into
/// a slice of four bytes and reports the slice, then the bytes under it (function 5).
#[derive(Default)]
struct Reverser {
    calls: u32,
}

impl ChainExtension for Reverser {
    fn call(&mut self, env: Environment<'_, InitState>) -> Result<RetVal, DispatchError> {
        self.calls += 1;
        match env.func_id() {
            1 => {
                let mut env = env.buf_in_buf_out();
                let len = env.in_len();
                let charged = env.charge_weight(w(10 * len as u64, len as u64))?;
                let mut input = env.read(len)?;
                input.reverse();
                env.write(&input, false, None)?;
                env.adjust_weight(charged, w(5 * len as u64, len as u64));
                Ok(RetVal::Converging(0))
            },
            2 => {
                let env = env.only_in();
                Ok(RetVal::Converging(env.val0() + env.val1() + env.val2() + env.val3()))
            },
            3 => {
                let env = env.buf_in_buf_out();
                let data = env.read(u32::MAX)?;
                Ok(RetVal::Diverging { flags: ReturnFlags::revert(), data })
            },
            4 => Ok(RetVal::Converging(env.ext_id() as u32)),
            5 => {
                let env = env.buf_in_buf_out();
                let mut storage = vec![9u8; 4];
                let mut buffer: &mut [u8] = &mut storage[..];
                let outcome = env.read_into(&mut buffer);
                let read = buffer.to_vec();
                let mut data = read;
                data.push(0xff);
                data.extend_from_slice(&storage);
                match outcome {
                    Ok(()) => Ok(RetVal::Diverging { flags: ReturnFlags::empty(), data }),
                    Err(_) => Ok(RetVal::Diverging { flags: ReturnFlags::revert(), data }),
                }
            },
            _ => Err(DispatchError::Other),
        }
    }
}

impl RegisteredChainExtension for Reverser {
    fn registered_id() -> u16 {
        7
    }

    fn id() -> u16 {
        7
    }
}

/// An extension that is switched off.
#[derive(Default)]
struct Disabled;

impl ChainExtension for Disabled {
    fn call(&mut self, _env: Environment<'_, InitState>) -> Result<RetVal, DispatchError> {
        Ok(RetVal::Converging(99))
    }

    fn enabled() -> bool {
        false
    }
}

impl RegisteredChainExtension for Disabled {
    fn registered_id() -> u16 {
        7
    }

    fn id() -> u16 {
        7
    }
}

/// An extension with id 9 that answers 9.
#[derive(Default)]
struct Nine;

impl ChainExtension for Nine {
    fn call(&mut self, _env: Environment<'_, InitState>) -> Result<RetVal, DispatchError> {
        Ok(RetVal::Converging(9))
    }
}

impl RegisteredChainExtension for Nine {
    fn registered_id() -> u16 {
        9
    }

    fn id() -> u16 {
        9
    }
}

fn ext_id(ext: u16, func: u16) -> u32 {
    ((ext as u32) << 16) | func as u32
}

#[test]
fn extension_reads_and_writes_buffers() {
    let gas = w(10_000, 1_000);
    let mut rt = runtime(gas);
    let mut mem = vec![0u8; 32];
    mem[0..3].copy_from_slice(&[1, 2, 3]);
    mem[16..20].copy_from_slice(&8u32.to_le_bytes());
    let mut ext = Reverser::default();
    let r = call_chain_extension(&mut ext, &mut rt, &mut mem, ext_id(7, 1), 0, 3, 20, 16);
    assert_eq!(r.ok(), Some(0));
    assert_eq!(&mem[16..23], &[3, 0, 0, 0, 3, 2, 1]);
    assert_eq!(rt.gas_meter.gas_left(), w(10_000 - 15, 1_000 - 3));
    assert_eq!(ext.calls, 1);
}

#[test]
fn extension_uses_arguments_as_integers() {
    let mut rt = runtime(w(10_000, 1_000));
    let mut mem = vec![];
    let mut ext = Reverser::default();
    let r = call_chain_extension(&mut ext, &mut rt, &mut mem, ext_id(0, 2), 1, 20, 300, 4000);
    assert_eq!(r.ok(), Some(4321));
    let r = call_chain_extension(&mut ext, &mut rt, &mut mem, ext_id(0xabcd, 4), 0, 0, 0, 0);
    assert_eq!(r.ok(), Some(0xabcd));
}

#[test]
fn diverging_extension_returns_to_the_caller() {
    let mut rt = runtime(w(10_000, 1_000));
    let mut mem = vec![5, 6, 7, 8];
    let mut ext = Reverser::default();
    match call_chain_extension(&mut ext, &mut rt, &mut mem, ext_id(0, 3), 1, 2, 0, 0).unwrap_err() {
        TrapReason::Return(d) => assert_eq!((d.flags, d.data), (1, vec![6, 7])),
        _ => panic!("a return was expected"),
    }
}

#[test]
fn extension_errors_stop_the_contract() {
    let mut rt = runtime(w(10_000, 1_000));
    let mut mem = vec![0u8; 8];
    let mut ext = Reverser::default();
    let t = call_chain_extension(&mut ext, &mut rt, &mut mem, ext_id(0, 6), 0, 0, 0, 0).unwrap_err();
    assert_eq!(supervisor_error(t), Some(DispatchError::Other));
    let t = call_chain_extension(&mut ext, &mut rt, &mut mem, ext_id(0, 1), 6, 3, 0, 0).unwrap_err();
    assert_eq!(supervisor_error(t), Some(DispatchError::Module(Error::OutOfBounds)));
}

#[test]
fn extension_weight_charge_can_run_out() {
    let mut rt = runtime(w(20, 1_000));
    let mut mem = vec![0u8; 8];
    let mut ext = Reverser::default();
    let t = call_chain_extension(&mut ext, &mut rt, &mut mem, ext_id(0, 1), 0, 3, 4, 0).unwrap_err();
    assert_eq!(supervisor_error(t), Some(DispatchError::Module(Error::OutOfGas)));
    assert_eq!(rt.gas_meter.gas_left(), w(20, 1_000));
}

#[test]
fn no_extension_is_refused() {
    let mut rt = runtime(w(10_000, 1_000));
    let mut mem = vec![];
    let t = call_chain_extension(&mut (), &mut rt, &mut mem, 0, 0, 0, 0, 0).unwrap_err();
    assert_eq!(supervisor_error(t), Some(DispatchError::Module(Error::NoChainExtension)));
    let mut disabled = Disabled;
    let t = call_chain_extension(&mut disabled, &mut rt, &mut mem, ext_id(7, 1), 0, 0, 0, 0).unwrap_err();
    assert_eq!(supervisor_error(t), Some(DispatchError::Module(Error::NoChainExtension)));
}

#[test]
fn tuples_route_by_extension_id() {
    let mut rt = runtime(w(10_000, 1_000));
    let mut mem = vec![];
    let mut both = (Nine, Reverser::default());
    let r = call_chain_extension(&mut both, &mut rt, &mut mem, ext_id(9, 2), 0, 0, 0, 0);
    assert_eq!(r.ok(), Some(9));
    let r = call_chain_extension(&mut both, &mut rt, &mut mem, ext_id(7, 2), 1, 1, 1, 1);
    assert_eq!(r.ok(), Some(4));
    assert_eq!(both.1.calls, 1);
    let t = call_chain_extension(&mut both, &mut rt, &mut mem, ext_id(8, 2), 0, 0, 0, 0).unwrap_err();
    assert_eq!(supervisor_error(t), Some(DispatchError::Module(Error::NoChainExtension)));
}

#[test]
fn tuples_skip_disabled_extensions() {
    let mut rt = runtime(w(10_000, 1_000));
    let mut mem = vec![];
    let mut pair = (Disabled, Reverser::default());
    let r = call_chain_extension(&mut pair, &mut rt, &mut mem, ext_id(7, 2), 2, 2, 2, 2);
    assert_eq!(r.ok(), Some(8));
    let mut only_disabled = (Disabled,);
    let t = call_chain_extension(&mut only_disabled, &mut rt, &mut mem, ext_id(7, 2), 0, 0, 0, 0).unwrap_err();
    assert_eq!(supervisor_error(t), Some(DispatchError::Module(Error::NoChainExtension)));
}

#[test]
fn answers_of_an_extension() {
    assert_eq!(ret_val_outcome(Ok(RetVal::Converging(3))).ok(), Some(3));
    let t = ret_val_outcome(Err(DispatchError::BadOrigin)).unwrap_err();
    assert_eq!(supervisor_error(t), Some(DispatchError::BadOrigin));
    match ret_val_outcome(Ok(RetVal::Diverging { flags: ReturnFlags::empty(), data: vec![1] })).unwrap_err() {
        TrapReason::Return(d) => assert_eq!((d.flags, d.data), (0, vec![1])),
        _ => panic!("a return was expected"),
    }
}

#[test]
fn read_into_fills_a_prefix_or_empties_the_slice() {
    let mut rt = runtime(w(10_000, 1_000));
    let mut mem = vec![1, 2, 3, 4, 5, 6];
    let mut ext = Reverser::default();
    match call_chain_extension(&mut ext, &mut rt, &mut mem, ext_id(0, 5), 1, 2, 0, 0).unwrap_err() {
        TrapReason::Return(d) => assert_eq!((d.flags, d.data), (0, vec![2, 3, 0xff, 2, 3, 9, 9])),
        _ => panic!("a return was expected"),
    }
    match call_chain_extension(&mut ext, &mut rt, &mut mem, ext_id(0, 5), 4, 10, 0, 0).unwrap_err() {
        TrapReason::Return(d) => assert_eq!((d.flags, d.data), (1, vec![0xff, 9, 9, 9, 9])),
        _ => panic!("a return was expected"),
    }
}
