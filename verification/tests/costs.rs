use pallet_contracts::costs::{already_charged, CallType, HostFnWeights, RuntimeCosts};
use pallet_contracts::errors::{DispatchError, Error};
use pallet_contracts::gas::GasMeter;
use pallet_contracts::weight::Weight;

fn schedule_weights() -> HostFnWeights {
    HostFnWeights {
        gas: Weight::from_parts(10, 1),
        return_per_byte: Weight::from_parts(20, 2),
        input_per_byte: Weight::from_parts(30, 3),
        caller: Weight::from_parts(40, 4),
        is_contract: Weight::from_parts(50, 5),
        code_hash: Weight::from_parts(60, 6),
        own_code_hash: Weight::from_parts(70, 7),
        caller_is_origin: Weight::from_parts(80, 8),
        caller_is_root: Weight::from_parts(90, 9),
        address: Weight::from_parts(100, 10),
        gas_left: Weight::from_parts(110, 11),
        balance: Weight::from_parts(120, 12),
        value_transferred: Weight::from_parts(130, 13),
        minimum_balance: Weight::from_parts(140, 14),
        block_number: Weight::from_parts(150, 15),
        now: Weight::from_parts(160, 16),
        weight_to_fee: Weight::from_parts(170, 17),
        input: Weight::from_parts(180, 18),
        return_: Weight::from_parts(190, 19),
        terminate: Weight::from_parts(200, 20),
        random: Weight::from_parts(210, 21),
        deposit_event: Weight::from_parts(220, 22),
        deposit_event_per_topic: Weight::from_parts(230, 23),
        deposit_event_per_byte: Weight::from_parts(240, 24),
        debug_message: Weight::from_parts(250, 25),
        set_storage: Weight::from_parts(260, 26),
        set_storage_per_new_byte: Weight::from_parts(270, 27),
        set_storage_per_old_byte: Weight::from_parts(280, 28),
        clear_storage: Weight::from_parts(290, 29),
        clear_storage_per_byte: Weight::from_parts(300, 30),
        contains_storage: Weight::from_parts(310, 31),
        contains_storage_per_byte: Weight::from_parts(320, 32),
        get_storage: Weight::from_parts(330, 33),
        get_storage_per_byte: Weight::from_parts(340, 34),
        take_storage: Weight::from_parts(350, 35),
        take_storage_per_byte: Weight::from_parts(360, 36),
        transfer: Weight::from_parts(370, 37),
        call: Weight::from_parts(380, 38),
        delegate_call: Weight::from_parts(390, 39),
        call_transfer_surcharge: Weight::from_parts(400, 40),
        call_per_cloned_byte: Weight::from_parts(410, 41),
        instantiate: Weight::from_parts(420, 42),
        instantiate_per_input_byte: Weight::from_parts(430, 43),
        instantiate_per_salt_byte: Weight::from_parts(440, 44),
        instantiate_transfer_surcharge: Weight::from_parts(450, 45),
        hash_sha2_256: Weight::from_parts(460, 46),
        hash_sha2_256_per_byte: Weight::from_parts(470, 47),
        hash_keccak_256: Weight::from_parts(480, 48),
        hash_keccak_256_per_byte: Weight::from_parts(490, 49),
        hash_blake2_256: Weight::from_parts(500, 50),
        hash_blake2_256_per_byte: Weight::from_parts(510, 51),
        hash_blake2_128: Weight::from_parts(520, 52),
        hash_blake2_128_per_byte: Weight::from_parts(530, 53),
        ecdsa_recover: Weight::from_parts(540, 54),
        sr25519_verify: Weight::from_parts(550, 55),
        sr25519_verify_per_byte: Weight::from_parts(560, 56),
        set_code_hash: Weight::from_parts(570, 57),
        ecdsa_to_eth_address: Weight::from_parts(580, 58),
        reentrance_count: Weight::from_parts(590, 59),
        account_reentrance_count: Weight::from_parts(600, 60),
        instantiation_nonce: Weight::from_parts(610, 61),
    }
}

fn w(ref_time: u64, proof_size: u64) -> Weight {
    Weight::from_parts(ref_time, proof_size)
}

#[test]
fn weight_arithmetic_saturates() {
    let a = w(5, u64::MAX - 1);
    let b = w(7, 3);
    assert_eq!(a.saturating_add(b), w(12, u64::MAX));
    assert_eq!(a.saturating_sub(b), w(0, u64::MAX - 4));
    assert_eq!(b.saturating_mul(4), w(28, 12));
    assert_eq!(a.saturating_mul(2), w(10, u64::MAX));
    assert!(b.all_lte(&w(7, 3)));
    assert!(!b.all_lte(&w(8, 2)));
    assert_eq!(Weight::zero(), w(0, 0));
}

#[test]
fn constant_costs_take_their_schedule_entry() {
    let s = schedule_weights();
    assert_eq!(RuntimeCosts::Caller.token(&s).weight(), w(40, 4));
    assert_eq!(RuntimeCosts::GasLeft.token(&s).weight(), w(110, 11));
    assert_eq!(RuntimeCosts::Terminate.token(&s).weight(), w(200, 20));
    assert_eq!(RuntimeCosts::CallBase.token(&s).weight(), w(380, 38));
    assert_eq!(RuntimeCosts::DelegateCallBase.token(&s).weight(), w(390, 39));
    assert_eq!(RuntimeCosts::InstantationNonce.token(&s).weight(), w(610, 61));
}

#[test]
fn per_byte_costs_scale_with_length() {
    let s = schedule_weights();
    assert_eq!(RuntimeCosts::CopyFromContract(3).token(&s).weight(), w(60, 6));
    assert_eq!(RuntimeCosts::CopyToContract(3).token(&s).weight(), w(90, 9));
    assert_eq!(RuntimeCosts::Return(2).token(&s).weight(), w(190 + 40, 19 + 4));
    assert_eq!(RuntimeCosts::ClearStorage(2).token(&s).weight(), w(290 + 600, 29 + 60));
    assert_eq!(RuntimeCosts::GetStorage(0).token(&s).weight(), w(330, 33));
    assert_eq!(RuntimeCosts::HashBlake128(10).token(&s).weight(), w(520 + 5300, 52 + 530));
    assert_eq!(RuntimeCosts::CallInputCloned(5).token(&s).weight(), w(2050, 205));
}

#[test]
fn composite_costs_add_their_parts() {
    let s = schedule_weights();
    assert_eq!(
        RuntimeCosts::DepositEvent { num_topic: 2, len: 3 }.token(&s).weight(),
        w(220 + 2 * 230 + 3 * 240, 22 + 2 * 23 + 3 * 24)
    );
    assert_eq!(
        RuntimeCosts::SetStorage { old_bytes: 1, new_bytes: 2 }.token(&s).weight(),
        w(260 + 2 * 270 + 280, 26 + 2 * 27 + 28)
    );
    assert_eq!(
        RuntimeCosts::InstantiateBase { input_data_len: 1, salt_len: 2 }.token(&s).weight(),
        w(420 + 430 + 2 * 440, 42 + 43 + 2 * 44)
    );
    assert_eq!(RuntimeCosts::MeteringBlock(1000).token(&s).weight(), w(1010, 1));
}

#[test]
fn debug_message_costs_use_the_event_byte_price() {
    let s = schedule_weights();
    assert_eq!(RuntimeCosts::DebugMessage(2).token(&s).weight(), w(250 + 2 * 240, 25 + 2 * 24));
}

#[test]
fn chain_extension_and_runtime_calls_cost_what_they_say() {
    let s = schedule_weights();
    assert_eq!(RuntimeCosts::ChainExtension(w(9, 8)).token(&s).weight(), w(9, 8));
    assert_eq!(RuntimeCosts::CallRuntime(w(1, 2)).token(&s).weight(), w(1, 2));
}

#[test]
fn huge_lengths_saturate() {
    let mut s = schedule_weights();
    s.return_per_byte = w(u64::MAX / 2, 1);
    assert_eq!(RuntimeCosts::CopyFromContract(3).token(&s).weight(), w(u64::MAX, 3));
}

#[test]
fn call_type_base_costs() {
    let call = CallType::Call { callee_ptr: 0, value_ptr: 0, deposit_ptr: 0, weight: w(1, 1) };
    assert_eq!(call.cost(), RuntimeCosts::CallBase);
    assert_eq!(CallType::DelegateCall { code_hash_ptr: 4 }.cost(), RuntimeCosts::DelegateCallBase);
    assert_eq!(already_charged(100), None);
}

#[test]
fn gas_meter_charges_and_refunds() {
    let mut meter = GasMeter::new(w(100, 10));
    let charged = meter.charge(w(60, 4)).unwrap();
    assert_eq!(charged.amount(), w(60, 4));
    assert_eq!(meter.gas_left(), w(40, 6));
    meter.adjust_gas(charged, w(20, 1));
    assert_eq!(meter.gas_left(), w(80, 9));
}

#[test]
fn gas_meter_refuses_what_it_cannot_cover() {
    let mut meter = GasMeter::new(w(100, 10));
    assert_eq!(meter.charge(w(101, 1)), Err(DispatchError::Module(Error::OutOfGas)));
    assert_eq!(meter.charge(w(1, 11)), Err(DispatchError::Module(Error::OutOfGas)));
    assert_eq!(meter.gas_left(), w(100, 10));
    assert!(meter.charge(w(100, 10)).is_ok());
    assert_eq!(meter.gas_left(), w(0, 0));
}

#[test]
fn charge_then_adjust_equals_charging_the_actual_weight() {
    let mut a = GasMeter::new(w(1000, 100));
    let charged = a.charge(w(300, 30)).unwrap();
    a.adjust_gas(charged, w(120, 7));
    let mut b = GasMeter::new(w(1000, 100));
    b.charge(w(120, 7)).unwrap();
    assert_eq!(a, b);
}

#[test]
fn copy_costs_grow_with_length() {
    let s = schedule_weights();
    let small = RuntimeCosts::CopyToContract(10).token(&s).weight();
    let large = RuntimeCosts::CopyToContract(11).token(&s).weight();
    assert!(small.all_lte(&large));
    assert!(!large.all_lte(&small));
}

#[test]
fn refunds_never_exceed_the_charge() {
    let mut meter = GasMeter::new(w(100, 10));
    let charged = meter.charge(w(30, 3)).unwrap();
    meter.adjust_gas(charged, w(0, 0));
    assert_eq!(meter.gas_left(), w(100, 10));
    let charged = meter.charge(w(30, 3)).unwrap();
    meter.adjust_gas(charged, w(50, 5));
    assert_eq!(meter.gas_left(), w(70, 7));
}
