//! The constants that the contracts module exposes in its metadata.
use crate::codec::{encode_bool, encode_u128, encode_u32, u128_le_bytes, u32_le_bytes};
use vstd::prelude::*;

verus! {

/// The values of the module's configuration constants. The cost schedule is given by its
/// encoding.
#[derive(Clone, Debug)]
pub struct ConstantValues {
    pub schedule: Vec<u8>,
    pub deposit_per_byte: u128,
    pub default_deposit_limit: u128,
    pub deposit_per_item: u128,
    pub max_code_len: u32,
    pub max_storage_key_len: u32,
    pub unsafe_unstable_interface: bool,
    pub max_debug_buffer_len: u32,
}

/// A constant of the module as its metadata shows it: name, encoded value and documentation.
#[derive(Clone, Debug)]
pub struct PalletConstantMetadata {
    pub name: &'static str,
    pub value: Vec<u8>,
    pub docs: Vec<&'static str>,
}

/// The names of the constants, in the order of the metadata.
pub open spec fn constant_names() -> Seq<&'static str> {
    seq![
        "Schedule",
        "DepositPerByte",
        "DefaultDepositLimit",
        "DepositPerItem",
        "MaxCodeLen",
        "MaxStorageKeyLen",
        "UnsafeUnstableInterface",
        "MaxDebugBufferLen",
    ]
}

/// The encoded values of the constants, in the order of the metadata.
pub open spec fn constant_values(c: ConstantValues) -> Seq<Seq<u8>> {
    seq![
        c.schedule@,
        u128_le_bytes(c.deposit_per_byte),
        u128_le_bytes(c.default_deposit_limit),
        u128_le_bytes(c.deposit_per_item),
        u32_le_bytes(c.max_code_len),
        u32_le_bytes(c.max_storage_key_len),
        seq![if c.unsafe_unstable_interface { 1u8 } else { 0u8 }],
        u32_le_bytes(c.max_debug_buffer_len),
    ]
}

/// The documentation of the constant at `index` in the order of the metadata.
pub open spec fn constant_docs(index: int) -> Seq<&'static str> {
    if index == 0 {
        seq![" Cost schedule and limits."]
    } else if index == 1 {
        seq![
            " The amount of balance a caller has to pay for each byte of storage.",
            "",
            " # Note",
            "",
            " Changing this value for an existing chain might need a storage migration.",
        ]
    } else if index == 2 {
        seq![" Fallback value to limit the storage deposit if it's not being set by the caller."]
    } else if index == 3 {
        seq![
            " The amount of balance a caller has to pay for each storage item.",
            "",
            " # Note",
            "",
            " Changing this value for an existing chain might need a storage migration.",
        ]
    } else if index == 4 {
        seq![
            " The maximum length of a contract code in bytes. This limit applies to the instrumented",
            " version of the code. Therefore `instantiate_with_code` can fail even when supplying",
            " a wasm binary below this maximum size.",
            "",
            " The value should be chosen carefully taking into the account the overall memory limit",
            " your runtime has, as well as the [maximum allowed callstack",
            " depth](#associatedtype.CallStack). Look into the `integrity_test()` for some insights.",
        ]
    } else if index == 5 {
        seq![" The maximum allowable length in bytes for storage keys."]
    } else if index == 6 {
        seq![
            " Make contract callable functions marked as `#[unstable]` available.",
            "",
            " Contracts that use `#[unstable]` functions won't be able to be uploaded unless",
            " this is set to `true`. This is only meant for testnets and dev nodes in order to",
            " experiment with new features.",
            "",
            " # Warning",
            "",
            " Do **not** set to `true` on productions chains.",
        ]
    } else {
        seq![" The maximum length of the debug buffer in bytes."]
    }
}

/// The metadata of the module's constants: for each its name, its SCALE-encoded value and
/// its documentation, in the order in which the module declares them.
pub fn pallet_constants_metadata(c: &ConstantValues) -> (r: Vec<PalletConstantMetadata>)
    ensures
        r@.len() == 8,
        forall|i: int| 0 <= i < 8 ==> {
            &&& #[trigger] r@[i].name == constant_names()[i]
            &&& r@[i].value@ == constant_values(*c)[i]
            &&& r@[i].docs@ == constant_docs(i)
        },
{
    let mut r: Vec<PalletConstantMetadata> = Vec::new();
    r.push(PalletConstantMetadata {
        name: "Schedule",
        value: c.schedule.clone(),
        docs: vec![" Cost schedule and limits."],
    });
    r.push(PalletConstantMetadata {
        name: "DepositPerByte",
        value: encode_u128(c.deposit_per_byte),
        docs: vec![
            " The amount of balance a caller has to pay for each byte of storage.",
            "",
            " # Note",
            "",
            " Changing this value for an existing chain might need a storage migration.",
        ],
    });
    r.push(PalletConstantMetadata {
        name: "DefaultDepositLimit",
        value: encode_u128(c.default_deposit_limit),
        docs: vec![" Fallback value to limit the storage deposit if it's not being set by the caller."],
    });
    r.push(PalletConstantMetadata {
        name: "DepositPerItem",
        value: encode_u128(c.deposit_per_item),
        docs: vec![
            " The amount of balance a caller has to pay for each storage item.",
            "",
            " # Note",
            "",
            " Changing this value for an existing chain might need a storage migration.",
        ],
    });
    r.push(PalletConstantMetadata {
        name: "MaxCodeLen",
        value: encode_u32(c.max_code_len),
        docs: vec![
            " The maximum length of a contract code in bytes. This limit applies to the instrumented",
            " version of the code. Therefore `instantiate_with_code` can fail even when supplying",
            " a wasm binary below this maximum size.",
            "",
            " The value should be chosen carefully taking into the account the overall memory limit",
            " your runtime has, as well as the [maximum allowed callstack",
            " depth](#associatedtype.CallStack). Look into the `integrity_test()` for some insights.",
        ],
    });
    r.push(PalletConstantMetadata {
        name: "MaxStorageKeyLen",
        value: encode_u32(c.max_storage_key_len),
        docs: vec![" The maximum allowable length in bytes for storage keys."],
    });
    r.push(PalletConstantMetadata {
        name: "UnsafeUnstableInterface",
        value: encode_bool(c.unsafe_unstable_interface),
        docs: vec![
            " Make contract callable functions marked as `#[unstable]` available.",
            "",
            " Contracts that use `#[unstable]` functions won't be able to be uploaded unless",
            " this is set to `true`. This is only meant for testnets and dev nodes in order to",
            " experiment with new features.",
            "",
            " # Warning",
            "",
            " Do **not** set to `true` on productions chains.",
        ],
    });
    r.push(PalletConstantMetadata {
        name: "MaxDebugBufferLen",
        value: encode_u32(c.max_debug_buffer_len),
        docs: vec![" The maximum length of the debug buffer in bytes."],
    });
    assert forall|i: int| 0 <= i < 8 implies {
        &&& #[trigger] r@[i].name == constant_names()[i]
        &&& r@[i].value@ == constant_values(*c)[i]
        &&& r@[i].docs@ == constant_docs(i)
    } by {
        assert(r@[i].docs@ =~= constant_docs(i));
    }
    r
}

} // verus!
