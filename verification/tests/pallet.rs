use pallet_contracts::errors::{DispatchError, Error};
use pallet_contracts::exec_result::{ErrorOrigin, ExecError, ExecReturnValue, ReturnFlags};
use pallet_contracts::pallet::{
    integrity_check, integrity_test, pallet_documentation_metadata, reverted_into_error, BaseWeight, Call, Determinism,
    DispatchClass, IntegrityError, Pays,
};
use pallet_contracts::weight::Weight;

fn w(ref_time: u64, proof_size: u64) -> Weight {
    Weight::from_parts(ref_time, proof_size)
}

fn all_calls() -> Vec<Call> {
    vec![
        Call::new_call_variant_call_old_weight(vec![1; 32], 5, 1000, None, vec![1]),
        Call::new_call_variant_instantiate_with_code_old_weight(0, 1000, Some(3), vec![0; 10], vec![1, 2], vec![3]),
        Call::new_call_variant_instantiate_old_weight(0, 1000, None, vec![2; 32], vec![1, 2, 3], vec![]),
        Call::new_call_variant_upload_code(vec![0; 7], None, Determinism::Relaxed),
        Call::new_call_variant_remove_code(vec![3; 32]),
        Call::new_call_variant_set_code(vec![1; 32], vec![3; 32]),
        Call::new_call_variant_call(vec![1; 32], 5, w(40, 4), None, vec![]),
        Call::new_call_variant_instantiate_with_code(1, w(50, 5), None, vec![0; 4], vec![], vec![9, 9]),
        Call::new_call_variant_instantiate(1, w(60, 6), Some(1), vec![2; 32], vec![7], vec![]),
    ]
}

#[test]
fn call_names_and_indices() {
    let names = Call::get_call_names();
    assert_eq!(
        names,
        vec![
            "call_old_weight",
            "instantiate_with_code_old_weight",
            "instantiate_old_weight",
            "upload_code",
            "remove_code",
            "set_code",
            "call",
            "instantiate_with_code",
            "instantiate",
        ]
    );
    assert_eq!(Call::get_call_indices(), vec![0, 1, 2, 3, 4, 5, 6, 7, 8]);
    for (i, call) in all_calls().iter().enumerate() {
        assert_eq!(call.get_call_index() as usize, i);
        assert_eq!(call.get_call_name(), names[i]);
    }
}

#[test]
fn base_weights_carry_the_lengths() {
    let calls = all_calls();
    assert_eq!(calls[0].base_weight(), BaseWeight::Call);
    assert_eq!(
        calls[1].base_weight(),
        BaseWeight::InstantiateWithCode { code_len: 10, data_len: 2, salt_len: 1 }
    );
    assert_eq!(calls[2].base_weight(), BaseWeight::Instantiate { data_len: 3, salt_len: 0 });
    assert_eq!(calls[3].base_weight(), BaseWeight::UploadCode { code_len: 7 });
    assert_eq!(calls[4].base_weight(), BaseWeight::RemoveCode);
    assert_eq!(calls[5].base_weight(), BaseWeight::SetCode);
    assert_eq!(calls[6].base_weight(), BaseWeight::Call);
    assert_eq!(
        calls[7].base_weight(),
        BaseWeight::InstantiateWithCode { code_len: 4, data_len: 0, salt_len: 2 }
    );
    assert_eq!(calls[8].base_weight(), BaseWeight::Instantiate { data_len: 1, salt_len: 0 });
}

#[test]
fn dispatch_info_adds_the_gas_limit() {
    let calls = all_calls();
    let base = w(100, 10);
    let compat = w(7, 1);
    let weights: Vec<Weight> = calls.iter().map(|c| c.get_dispatch_info(base, compat).weight).collect();
    assert_eq!(
        weights,
        vec![w(107, 11), w(107, 11), w(107, 11), w(100, 10), w(100, 10), w(100, 10), w(140, 14), w(150, 15), w(160, 16)]
    );
    for c in &calls {
        let info = c.get_dispatch_info(base, compat);
        assert_eq!(info.class, DispatchClass::Normal);
        assert_eq!(info.pays_fee, Pays::Yes);
    }
    let saturated = calls[6].get_dispatch_info(w(u64::MAX, 1), compat).weight;
    assert_eq!(saturated, w(u64::MAX, 5));
}

#[test]
fn reverted_contracts_are_errors() {
    let reverted = Ok(ExecReturnValue { flags: ReturnFlags::revert(), data: vec![1] });
    assert_eq!(
        reverted_into_error(reverted).err(),
        Some(ExecError { error: DispatchError::Module(Error::ContractReverted), origin: ErrorOrigin::Caller })
    );
    let fine = Ok(ExecReturnValue { flags: ReturnFlags::empty(), data: vec![1] });
    assert_eq!(reverted_into_error(fine).map(|v| v.data), Ok(vec![1]));
    let failed = Err(ExecError { error: DispatchError::BadOrigin, origin: ErrorOrigin::Callee });
    assert_eq!(reverted_into_error(failed.clone()).err(), failed.err());
}

#[test]
fn the_module_has_no_documentation() {
    assert!(pallet_documentation_metadata().is_empty());
}

#[test]
fn integrity_of_a_sound_configuration() {
    // 1 GiB of runtime memory, 1 MiB heap, a stack of 5 frames.
    assert_eq!(integrity_check(1 << 30, 1 << 20, 5, 100_000, 2 * 1024 * 1024), Ok(()));
    integrity_test(1 << 30, 1 << 20, 5, 100_000, 2 * 1024 * 1024);
}

#[test]
fn integrity_refuses_too_large_code() {
    let limit = ((1u32 << 30) / 2 / 6 - (1 << 20) - 1024 * 1024) / 72;
    assert_eq!(
        integrity_check(1 << 30, 1 << 20, 5, limit, 2 * 1024 * 1024),
        Err(IntegrityError::MaxCodeLenTooLarge { max_call_depth: 6, code_len_limit: limit, max_code_len: limit })
    );
    assert!(integrity_check(1 << 30, 1 << 20, 5, limit - 1, 2 * 1024 * 1024).is_ok());
    assert!(matches!(
        integrity_check(1000, 1 << 20, 5, 0, 2 * 1024 * 1024),
        Err(IntegrityError::MaxCodeLenTooLarge { code_len_limit: 0, .. })
    ));
}

#[test]
fn integrity_refuses_a_small_debug_buffer() {
    assert_eq!(
        integrity_check(1 << 30, 1 << 20, 5, 100, 256),
        Err(IntegrityError::DebugBufferTooSmall { max_debug_buffer_len: 256 })
    );
    assert!(integrity_check(1 << 30, 1 << 20, 5, 100, 257).is_ok());
}
