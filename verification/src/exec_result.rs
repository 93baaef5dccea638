//! The outcome of executing a contract and the codes that report it back to contracts.
use crate::errors::{DispatchError, Error};
use vstd::prelude::*;

verus! {

/// The bit of [`ReturnFlags`] by which a contract asks to revert its state changes.
pub const REVERT_BIT: u32 = 0x0000_0001;

/// Flags used by a contract to customize exit behaviour.
#[derive(Clone, Copy, PartialEq, Eq, Structural, Debug)]
pub struct ReturnFlags {
    pub bits: u32,
}

impl ReturnFlags {
    /// No flag set.
    pub fn empty() -> (r: ReturnFlags)
        ensures
            r.bits == 0,
    {
        ReturnFlags { bits: 0 }
    }

    /// The revert flag alone.
    pub fn revert() -> (r: ReturnFlags)
        ensures
            r.bits == REVERT_BIT,
    {
        ReturnFlags { bits: REVERT_BIT }
    }

    /// The raw value of the flags.
    pub fn bits(&self) -> (r: u32)
        ensures
            r == self.bits,
    {
        self.bits
    }

    /// Converts raw bits into flags, or `None` if a bit other than the revert bit is set.
    pub fn from_bits(bits: u32) -> (r: Option<ReturnFlags>)
        ensures
            r is Some <==> bits & !REVERT_BIT == 0,
            r matches Some(f) ==> f.bits == bits,
    {
        if bits & !REVERT_BIT == 0 {
            Some(ReturnFlags { bits })
        } else {
            None
        }
    }

    /// Whether the revert flag is set.
    pub fn contains_revert(&self) -> (r: bool)
        ensures
            r == (self.bits & REVERT_BIT == REVERT_BIT),
    {
        self.bits & REVERT_BIT == REVERT_BIT
    }
}

/// Output of a contract call or instantiation which ran to completion.
#[derive(Clone, Debug)]
pub struct ExecReturnValue {
    /// Flags passed along by `seal_return`. Empty when `seal_return` was never called.
    pub flags: ReturnFlags,
    /// Buffer passed along by `seal_return`. Empty when `seal_return` was never called.
    pub data: Vec<u8>,
}

impl ExecReturnValue {
    /// The contract did revert all storage changes.
    pub fn did_revert(&self) -> (r: bool)
        ensures
            r == (self.flags.bits & REVERT_BIT == REVERT_BIT),
    {
        self.flags.contains_revert()
    }
}

/// Origin of the error: whether it was the calling contract or the called one.
#[derive(Clone, Copy, PartialEq, Eq, Structural, Debug)]
pub enum ErrorOrigin {
    /// Caller error: the error happened in the current execution context (e.g. not enough
    /// balance to pay for the call).
    Caller,
    /// The error happened during execution of the called contract.
    Callee,
}

/// Error returned by contract execution.
#[derive(Clone, Copy, PartialEq, Eq, Structural, Debug)]
pub struct ExecError {
    /// The reason why the execution failed.
    pub error: DispatchError,
    /// Origin of the error.
    pub origin: ErrorOrigin,
}

impl ExecError {
    /// An error of the current execution context.
    pub fn from_dispatch_error(error: DispatchError) -> (r: ExecError)
        ensures
            r.error == error,
            r.origin == ErrorOrigin::Caller,
    {
        ExecError { error, origin: ErrorOrigin::Caller }
    }
}

/// Every error that can be returned to a contract when it calls any of the host functions.
///
/// New codes can be added but existing codes will not be changed or removed, so contracts
/// must not match return codes exhaustively.
#[derive(Clone, Copy, PartialEq, Eq, Structural, Debug)]
pub enum ReturnCode {
    /// API call successful.
    Success,
    /// The called function trapped and has its state changes reverted.
    /// In this case no output buffer is returned.
    CalleeTrapped,
    /// The called function ran to completion but decided to revert its state.
    /// An output buffer is returned when one was supplied.
    CalleeReverted,
    /// The passed key does not exist in storage.
    KeyNotFound,
    /// Transferring the requested balance failed.
    TransferFailed,
    /// No code could be found at the supplied code hash.
    CodeNotFound,
    /// The contract that was called is no contract (a plain account).
    NotCallable,
    /// The call dispatched by `seal_call_runtime` was executed but returned an error.
    CallRuntimeFailed,
    /// ECDSA pubkey recovery failed, or the conversion of a compressed ECDSA pubkey into an
    /// Ethereum address failed.
    EcdsaRecoverFailed,
    /// sr25519 signature verification failed.
    Sr25519VerifyFailed,
}

/// The number by which each return code is reported to contracts.
pub open spec fn return_code_value(c: ReturnCode) -> u32 {
    match c {
        ReturnCode::Success => 0,
        ReturnCode::CalleeTrapped => 1,
        ReturnCode::CalleeReverted => 2,
        ReturnCode::KeyNotFound => 3,
        ReturnCode::TransferFailed => 5,
        ReturnCode::CodeNotFound => 7,
        ReturnCode::NotCallable => 8,
        ReturnCode::CallRuntimeFailed => 10,
        ReturnCode::EcdsaRecoverFailed => 11,
        ReturnCode::Sr25519VerifyFailed => 12,
    }
}

/// The name of each return code.
pub open spec fn return_code_name(c: ReturnCode) -> Seq<char> {
    match c {
        ReturnCode::Success => "Success"@,
        ReturnCode::CalleeTrapped => "CalleeTrapped"@,
        ReturnCode::CalleeReverted => "CalleeReverted"@,
        ReturnCode::KeyNotFound => "KeyNotFound"@,
        ReturnCode::TransferFailed => "TransferFailed"@,
        ReturnCode::CodeNotFound => "CodeNotFound"@,
        ReturnCode::NotCallable => "NotCallable"@,
        ReturnCode::CallRuntimeFailed => "CallRuntimeFailed"@,
        ReturnCode::EcdsaRecoverFailed => "EcdsaRecoverFailed"@,
        ReturnCode::Sr25519VerifyFailed => "Sr25519VerifyFailed"@,
    }
}

impl ReturnCode {
    /// The number by which the code is reported to a contract.
    pub fn to_u32(self) -> (r: u32)
        ensures
            r == return_code_value(self),
    {
        match self {
            ReturnCode::Success => 0,
            ReturnCode::CalleeTrapped => 1,
            ReturnCode::CalleeReverted => 2,
            ReturnCode::KeyNotFound => 3,
            ReturnCode::TransferFailed => 5,
            ReturnCode::CodeNotFound => 7,
            ReturnCode::NotCallable => 8,
            ReturnCode::CallRuntimeFailed => 10,
            ReturnCode::EcdsaRecoverFailed => 11,
            ReturnCode::Sr25519VerifyFailed => 12,
        }
    }

    /// The name of the code.
    pub fn name(&self) -> (r: &'static str)
        ensures
            r@ == return_code_name(*self),
    {
        match self {
            ReturnCode::Success => "Success",
            ReturnCode::CalleeTrapped => "CalleeTrapped",
            ReturnCode::CalleeReverted => "CalleeReverted",
            ReturnCode::KeyNotFound => "KeyNotFound",
            ReturnCode::TransferFailed => "TransferFailed",
            ReturnCode::CodeNotFound => "CodeNotFound",
            ReturnCode::NotCallable => "NotCallable",
            ReturnCode::CallRuntimeFailed => "CallRuntimeFailed",
            ReturnCode::EcdsaRecoverFailed => "EcdsaRecoverFailed",
            ReturnCode::Sr25519VerifyFailed => "Sr25519VerifyFailed",
        }
    }

    /// The code that reports a completed execution: `CalleeReverted` when it asked to revert,
    /// `Success` otherwise.
    pub fn from_exec_return_value(from: &ExecReturnValue) -> (r: ReturnCode)
        ensures
            r == (if from.flags.bits & REVERT_BIT == REVERT_BIT {
                ReturnCode::CalleeReverted
            } else {
                ReturnCode::Success
            }),
    {
        if from.flags.contains_revert() {
            ReturnCode::CalleeReverted
        } else {
            ReturnCode::Success
        }
    }
}

impl From<ReturnCode> for u32 {
    /// The number by which the code is reported to a contract.
    fn from(code: ReturnCode) -> (r: u32) {
        code.to_u32()
    }
}

impl vstd::std_specs::convert::FromSpecImpl<ReturnCode> for u32 {
    open spec fn obeys_from_spec() -> bool {
        true
    }

    open spec fn from_spec(code: ReturnCode) -> u32 {
        return_code_value(code)
    }
}

/// The data passed through when a contract uses `seal_return`.
#[derive(Clone, Debug)]
pub struct ReturnData {
    /// The flags as passed through by the contract, still unchecked.
    pub flags: u32,
    /// The output buffer passed by the contract as return data.
    pub data: Vec<u8>,
}

/// Enumerates all possible reasons why a trap was generated.
///
/// `SupervisorError` supplies the caller with the error that occurred; the other variants do not
/// constitute an error but a quick way to end the execution.
#[derive(Clone, Debug)]
pub enum TrapReason {
    /// The supervisor trapped the contract because of an error condition occurred during
    /// execution in privileged code.
    SupervisorError(DispatchError),
    /// Signals that trap was generated in response to call `seal_return` host function.
    Return(ReturnData),
    /// Signals that a trap was generated in response to a successful call to the
    /// `seal_terminate` host function.
    Termination,
}

impl TrapReason {
    /// A trap caused by the given error.
    pub fn from_dispatch_error(e: DispatchError) -> (r: TrapReason)
        ensures
            r == TrapReason::SupervisorError(e),
    {
        TrapReason::SupervisorError(e)
    }

    /// A trap caused by an error of the contracts module.
    pub fn from_error(e: Error) -> (r: TrapReason)
        ensures
            r == TrapReason::SupervisorError(DispatchError::Module(e)),
    {
        TrapReason::SupervisorError(DispatchError::Module(e))
    }
}

} // verus!
