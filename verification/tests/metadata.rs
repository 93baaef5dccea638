use pallet_contracts::metadata::{pallet_constants_metadata, ConstantValues};

fn values() -> ConstantValues {
    ConstantValues {
        schedule: vec![4, 0, 0, 0, 9],
        deposit_per_byte: 0x0102,
        default_deposit_limit: u128::MAX,
        deposit_per_item: 0,
        max_code_len: 123 * 1024,
        max_storage_key_len: 128,
        unsafe_unstable_interface: true,
        max_debug_buffer_len: 2 * 1024 * 1024,
    }
}

#[test]
fn constants_are_named_in_order() {
    let names: Vec<&str> = pallet_constants_metadata(&values()).iter().map(|c| c.name).collect();
    assert_eq!(
        names,
        vec![
            "Schedule",
            "DepositPerByte",
            "DefaultDepositLimit",
            "DepositPerItem",
            "MaxCodeLen",
            "MaxStorageKeyLen",
            "UnsafeUnstableInterface",
            "MaxDebugBufferLen",
        ]
    );
}

#[test]
fn constants_are_scale_encoded() {
    let m = pallet_constants_metadata(&values());
    assert_eq!(m[0].value, vec![4, 0, 0, 0, 9]);
    assert_eq!(m[1].value, 0x0102u128.to_le_bytes().to_vec());
    assert_eq!(m[2].value, vec![0xff; 16]);
    assert_eq!(m[3].value, vec![0; 16]);
    assert_eq!(m[4].value, (123u32 * 1024).to_le_bytes().to_vec());
    assert_eq!(m[5].value, vec![128, 0, 0, 0]);
    assert_eq!(m[6].value, vec![1]);
    assert_eq!(m[7].value, vec![0, 0, 0x20, 0]);
    let mut off = values();
    off.unsafe_unstable_interface = false;
    assert_eq!(pallet_constants_metadata(&off)[6].value, vec![0]);
}

#[test]
fn constants_carry_their_documentation() {
    let m = pallet_constants_metadata(&values());
    assert_eq!(m[0].docs, vec![" Cost schedule and limits."]);
    assert_eq!(m[5].docs, vec![" The maximum allowable length in bytes for storage keys."]);
    assert_eq!(m[4].docs.len(), 7);
    assert_eq!(m[6].docs.last(), Some(&" Do **not** set to `true` on productions chains."));
}
