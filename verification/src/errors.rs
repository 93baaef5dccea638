//! Errors of the contracts module and of dispatching in general.
use vstd::prelude::*;

verus! {

/// Errors that the contracts module reports.
#[derive(Clone, Copy, PartialEq, Eq, Structural, Debug)]
pub enum Error {
    /// A new schedule must have a greater version than the current one.
    InvalidScheduleVersion,
    /// Invalid combination of flags supplied to `seal_call` or `seal_delegate_call`.
    InvalidCallFlags,
    /// The executed contract exhausted its gas limit.
    OutOfGas,
    /// The output buffer supplied to a contract API call was too small.
    OutputBufferTooSmall,
    /// Performing the requested transfer failed. Probably because there isn't enough free balance in the sender's account.
    TransferFailed,
    /// Performing a call was denied because the calling depth reached the limit of what is specified in the schedule.
    MaxCallDepthReached,
    /// No contract was found at the specified address.
    ContractNotFound,
    /// The code supplied to `instantiate_with_code` exceeds the limit specified in the current schedule.
    CodeTooLarge,
    /// No code could be found at the supplied code hash.
    CodeNotFound,
    /// A buffer outside of sandbox memory was passed to a contract API function.
    OutOfBounds,
    /// Input passed to a contract API function failed to decode as expected type.
    DecodingFailed,
    /// Contract trapped during execution.
    ContractTrapped,
    /// The size defined in `T::MaxValueSize` was exceeded.
    ValueTooLarge,
    /// Termination of a contract is not allowed while the contract is already on the call stack.
    TerminatedWhileReentrant,
    /// `seal_call` forwarded this contracts input. It therefore is no longer available.
    InputForwarded,
    /// The subject passed to `seal_random` exceeds the limit.
    RandomSubjectTooLong,
    /// The amount of topics passed to `seal_deposit_events` exceeds the limit.
    TooManyTopics,
    /// The chain does not provide a chain extension.
    NoChainExtension,
    /// A contract with the same AccountId already exists.
    DuplicateContract,
    /// A contract self destructed in its constructor.
    TerminatedInConstructor,
    /// A call tried to invoke a contract that is flagged as non-reentrant.
    ReentranceDenied,
    /// Origin doesn't have enough balance to pay the required storage deposits.
    StorageDepositNotEnoughFunds,
    /// More storage was created than allowed by the storage deposit limit.
    StorageDepositLimitExhausted,
    /// Code removal was denied because the code is still in use by at least one contract.
    CodeInUse,
    /// The contract ran to completion but decided to revert its storage changes.
    ContractReverted,
    /// The contract's code was found to be invalid during validation or instrumentation.
    CodeRejected,
    /// An indetermistic code was used in a context where this is not permitted.
    Indeterministic,
}

/// The position of each error in the declaration of `Error`, which is the byte that encodes it.
pub open spec fn error_index(e: Error) -> u8 {
    match e {
        Error::InvalidScheduleVersion => 0,
        Error::InvalidCallFlags => 1,
        Error::OutOfGas => 2,
        Error::OutputBufferTooSmall => 3,
        Error::TransferFailed => 4,
        Error::MaxCallDepthReached => 5,
        Error::ContractNotFound => 6,
        Error::CodeTooLarge => 7,
        Error::CodeNotFound => 8,
        Error::OutOfBounds => 9,
        Error::DecodingFailed => 10,
        Error::ContractTrapped => 11,
        Error::ValueTooLarge => 12,
        Error::TerminatedWhileReentrant => 13,
        Error::InputForwarded => 14,
        Error::RandomSubjectTooLong => 15,
        Error::TooManyTopics => 16,
        Error::NoChainExtension => 17,
        Error::DuplicateContract => 18,
        Error::TerminatedInConstructor => 19,
        Error::ReentranceDenied => 20,
        Error::StorageDepositNotEnoughFunds => 21,
        Error::StorageDepositLimitExhausted => 22,
        Error::CodeInUse => 23,
        Error::ContractReverted => 24,
        Error::CodeRejected => 25,
        Error::Indeterministic => 26,
    }
}

/// An error of a module as the runtime reports it: the index of the module in the runtime,
/// the encoded error padded with zeros to four bytes, and the error's name.
#[derive(Clone, Copy, PartialEq, Eq, Debug)]
pub struct ModuleError {
    pub index: u8,
    pub error: [u8; 4],
    pub message: Option<&'static str>,
}

/// The name of each error as a string.
pub open spec fn error_str(e: Error) -> &'static str {
    match e {
        Error::InvalidScheduleVersion => "InvalidScheduleVersion",
        Error::InvalidCallFlags => "InvalidCallFlags",
        Error::OutOfGas => "OutOfGas",
        Error::OutputBufferTooSmall => "OutputBufferTooSmall",
        Error::TransferFailed => "TransferFailed",
        Error::MaxCallDepthReached => "MaxCallDepthReached",
        Error::ContractNotFound => "ContractNotFound",
        Error::CodeTooLarge => "CodeTooLarge",
        Error::CodeNotFound => "CodeNotFound",
        Error::OutOfBounds => "OutOfBounds",
        Error::DecodingFailed => "DecodingFailed",
        Error::ContractTrapped => "ContractTrapped",
        Error::ValueTooLarge => "ValueTooLarge",
        Error::TerminatedWhileReentrant => "TerminatedWhileReentrant",
        Error::InputForwarded => "InputForwarded",
        Error::RandomSubjectTooLong => "RandomSubjectTooLong",
        Error::TooManyTopics => "TooManyTopics",
        Error::NoChainExtension => "NoChainExtension",
        Error::DuplicateContract => "DuplicateContract",
        Error::TerminatedInConstructor => "TerminatedInConstructor",
        Error::ReentranceDenied => "ReentranceDenied",
        Error::StorageDepositNotEnoughFunds => "StorageDepositNotEnoughFunds",
        Error::StorageDepositLimitExhausted => "StorageDepositLimitExhausted",
        Error::CodeInUse => "CodeInUse",
        Error::ContractReverted => "ContractReverted",
        Error::CodeRejected => "CodeRejected",
        Error::Indeterministic => "Indeterministic",
    }
}

/// The name of each error, as `Error::as_str` reports it.
pub open spec fn error_name(e: Error) -> Seq<char> {
    match e {
        Error::InvalidScheduleVersion => "InvalidScheduleVersion"@,
        Error::InvalidCallFlags => "InvalidCallFlags"@,
        Error::OutOfGas => "OutOfGas"@,
        Error::OutputBufferTooSmall => "OutputBufferTooSmall"@,
        Error::TransferFailed => "TransferFailed"@,
        Error::MaxCallDepthReached => "MaxCallDepthReached"@,
        Error::ContractNotFound => "ContractNotFound"@,
        Error::CodeTooLarge => "CodeTooLarge"@,
        Error::CodeNotFound => "CodeNotFound"@,
        Error::OutOfBounds => "OutOfBounds"@,
        Error::DecodingFailed => "DecodingFailed"@,
        Error::ContractTrapped => "ContractTrapped"@,
        Error::ValueTooLarge => "ValueTooLarge"@,
        Error::TerminatedWhileReentrant => "TerminatedWhileReentrant"@,
        Error::InputForwarded => "InputForwarded"@,
        Error::RandomSubjectTooLong => "RandomSubjectTooLong"@,
        Error::TooManyTopics => "TooManyTopics"@,
        Error::NoChainExtension => "NoChainExtension"@,
        Error::DuplicateContract => "DuplicateContract"@,
        Error::TerminatedInConstructor => "TerminatedInConstructor"@,
        Error::ReentranceDenied => "ReentranceDenied"@,
        Error::StorageDepositNotEnoughFunds => "StorageDepositNotEnoughFunds"@,
        Error::StorageDepositLimitExhausted => "StorageDepositLimitExhausted"@,
        Error::CodeInUse => "CodeInUse"@,
        Error::ContractReverted => "ContractReverted"@,
        Error::CodeRejected => "CodeRejected"@,
        Error::Indeterministic => "Indeterministic"@,
    }
}

impl Error {
    /// The position of the error in the declaration of `Error`, which is the byte that
    /// encodes it.
    pub fn index(&self) -> (r: u8)
        ensures
            r == error_index(*self),
    {
        match self {
            Error::InvalidScheduleVersion => 0,
            Error::InvalidCallFlags => 1,
            Error::OutOfGas => 2,
            Error::OutputBufferTooSmall => 3,
            Error::TransferFailed => 4,
            Error::MaxCallDepthReached => 5,
            Error::ContractNotFound => 6,
            Error::CodeTooLarge => 7,
            Error::CodeNotFound => 8,
            Error::OutOfBounds => 9,
            Error::DecodingFailed => 10,
            Error::ContractTrapped => 11,
            Error::ValueTooLarge => 12,
            Error::TerminatedWhileReentrant => 13,
            Error::InputForwarded => 14,
            Error::RandomSubjectTooLong => 15,
            Error::TooManyTopics => 16,
            Error::NoChainExtension => 17,
            Error::DuplicateContract => 18,
            Error::TerminatedInConstructor => 19,
            Error::ReentranceDenied => 20,
            Error::StorageDepositNotEnoughFunds => 21,
            Error::StorageDepositLimitExhausted => 22,
            Error::CodeInUse => 23,
            Error::ContractReverted => 24,
            Error::CodeRejected => 25,
            Error::Indeterministic => 26,
        }
    }

    /// The error as the runtime reports it for a module at `pallet_index`: the error's
    /// encoding, one byte, padded with zeros to four bytes, and its name as the message.
    pub fn into_module_error(self, pallet_index: u8) -> (r: ModuleError)
        ensures
            r.index == pallet_index,
            r.error@ == seq![error_index(self), 0u8, 0u8, 0u8],
            r.message == Some(error_str(self)),
    {
        let error = [self.index(), 0u8, 0u8, 0u8];
        assert(error@ =~= seq![error_index(self), 0u8, 0u8, 0u8]);
        ModuleError { index: pallet_index, error, message: Some(self.as_str()) }
    }

    /// The name of the error variant.
    pub fn as_str(&self) -> (r: &'static str)
        ensures
            r == error_str(*self),
            r@ == error_name(*self),
    {
        match self {
            Error::InvalidScheduleVersion => "InvalidScheduleVersion",
            Error::InvalidCallFlags => "InvalidCallFlags",
            Error::OutOfGas => "OutOfGas",
            Error::OutputBufferTooSmall => "OutputBufferTooSmall",
            Error::TransferFailed => "TransferFailed",
            Error::MaxCallDepthReached => "MaxCallDepthReached",
            Error::ContractNotFound => "ContractNotFound",
            Error::CodeTooLarge => "CodeTooLarge",
            Error::CodeNotFound => "CodeNotFound",
            Error::OutOfBounds => "OutOfBounds",
            Error::DecodingFailed => "DecodingFailed",
            Error::ContractTrapped => "ContractTrapped",
            Error::ValueTooLarge => "ValueTooLarge",
            Error::TerminatedWhileReentrant => "TerminatedWhileReentrant",
            Error::InputForwarded => "InputForwarded",
            Error::RandomSubjectTooLong => "RandomSubjectTooLong",
            Error::TooManyTopics => "TooManyTopics",
            Error::NoChainExtension => "NoChainExtension",
            Error::DuplicateContract => "DuplicateContract",
            Error::TerminatedInConstructor => "TerminatedInConstructor",
            Error::ReentranceDenied => "ReentranceDenied",
            Error::StorageDepositNotEnoughFunds => "StorageDepositNotEnoughFunds",
            Error::StorageDepositLimitExhausted => "StorageDepositLimitExhausted",
            Error::CodeInUse => "CodeInUse",
            Error::ContractReverted => "ContractReverted",
            Error::CodeRejected => "CodeRejected",
            Error::Indeterministic => "Indeterministic",
        }
    }

    /// The error as a dispatch error of this module.
    pub fn into_dispatch_error(self) -> (r: DispatchError)
        ensures
            r == DispatchError::Module(self),
    {
        DispatchError::Module(self)
    }
}

/// Reason why a dispatch call failed.
#[derive(Clone, Copy, PartialEq, Eq, Structural, Debug)]
pub enum DispatchError {
    /// Some error occurred that is not further described.
    Other,
    /// Failed to lookup some data.
    CannotLookup,
    /// A bad origin.
    BadOrigin,
    /// A custom error of the contracts module.
    Module(Error),
    /// At least one consumer is remaining so the account cannot be destroyed.
    ConsumerRemaining,
    /// There are no providers so the account cannot be created.
    NoProviders,
    /// There are too many consumers so the account cannot be created.
    TooManyConsumers,
    /// An error to do with tokens.
    Token,
    /// An arithmetic error.
    Arithmetic,
    /// The number of transactional layers has been reached, or we are not in a transactional layer.
    Transactional,
    /// Resources exhausted, e.g. attempt to read/write data which is too large to manipulate.
    Exhausted,
    /// The state is corrupt; this is generally not going to fix itself.
    Corruption,
    /// Some resource (e.g. a preimage) is unavailable right now.
    Unavailable,
}

impl From<Error> for &'static str {
    /// The name of the error.
    fn from(e: Error) -> (r: &'static str) {
        e.as_str()
    }
}

impl vstd::std_specs::convert::FromSpecImpl<Error> for &'static str {
    open spec fn obeys_from_spec() -> bool {
        true
    }

    open spec fn from_spec(e: Error) -> &'static str {
        error_str(e)
    }
}

} // verus!
