//! A mechanism for runtime authors to augment the functionality of contracts.
//!
//! A chain extension lets a contract call into the runtime. The runtime author implements
//! [`ChainExtension`]; several extensions implementing [`RegisteredChainExtension`] can be put
//! into a tuple, which routes each request by the upper two bytes of its id. Chain specific
//! extensions use the reserved id `0`.
//!
//! The chain author alone is responsible for the security of the chain extension: weight must
//! be charged with [`Environment::charge_weight`] **before** any action that consumes it.
use crate::costs::RuntimeCosts;
use crate::errors::{DispatchError, Error};
use crate::exec_result::{ReturnData, ReturnFlags, TrapReason};
use crate::gas::ChargedAmount;
use crate::memory::{chunk, fits, range_fits};
use crate::runtime::{after_charge, can_charge, output_outcome, OutputCharge, Runtime};
use crate::weight::{weight_add, weight_sub, Weight};
use std::marker::PhantomData;
use vstd::prelude::*;

pub mod sealed;

verus! {

/// A trait used to extend the set of contract callable functions.
///
/// The extension is default-initialized at the beginning of each call (not per call stack)
/// and dropped afterwards, so any value held inside it can serve as a per-call scratch buffer.
pub trait ChainExtension: Sized {
    /// Calls the chain extension logic, whenever a contract calls `seal_call_chain_extension`.
    ///
    /// On `Err` the contract execution is suspended at once and the error is returned to the
    /// caller; otherwise the `RetVal` determines the exit behaviour.
    fn call(&mut self, env: Environment<'_, InitState>) -> (r: Result<RetVal, DispatchError>)
        ensures
            Self::answers(*old(self), *final(self), env.id(), env.input_ptr(), env.input_len(), env.output_ptr(), env.output_len_ptr(), env.runtime(), env.memory(), r),
    ;

    /// Whether `call` may answer `r` and leave the extension as `after`, for an extension that
    /// was `before` and a request with these arguments on the runtime and memory as they were
    /// when the request came. Unless an extension says more, nothing is known of it.
    open spec fn answers(before: Self, after: Self, id: u32, input_ptr: u32, input_len: u32, output_ptr: u32, output_len_ptr: u32, runtime: Runtime, memory: Seq<u8>, r: Result<RetVal, DispatchError>) -> bool {
        true
    }

    /// Whether chain extensions are enabled for this chain. When not, calling
    /// `seal_call_chain_extension` returns `NoChainExtension` without calling `call`. Unless an
    /// extension says otherwise, it is enabled.
    fn enabled() -> (r: bool)
        default_ensures
            r,
    {
        true
    }
}

/// A [`ChainExtension`] that can be composed with other extensions using a tuple.
///
/// A tuple routes each request to the first of its extensions whose identifier is the upper
/// two bytes of the `id` passed by the contract and which is enabled; where no extension has
/// that identifier, it answers `NoChainExtension`.
pub trait RegisteredChainExtension: ChainExtension {
    /// The extension's identifier, as specifications see it.
    spec fn registered_id() -> u16;

    /// The extension's globally unique identifier.
    fn id() -> (r: u16)
        ensures
            r == Self::registered_id(),
    ;
}

impl ChainExtension for () {
    fn call(&mut self, env: Environment<'_, InitState>) -> (r: Result<RetVal, DispatchError>)
        ensures
            r matches Err(e) && e == DispatchError::Module(Error::NoChainExtension),
    {
        Err(Error::NoChainExtension.into_dispatch_error())
    }

    fn enabled() -> (r: bool)
        ensures
            !r,
    {
        false
    }
}

impl<T0: RegisteredChainExtension> ChainExtension for (T0,) {
    /// The first extension whose identifier is the upper two bytes of `id` and that answers
    /// that it is enabled takes the request; the others stay as they were. Where none does,
    /// the answer is `NoChainExtension` and nothing changes.
    open spec fn answers(before: Self, after: Self, id: u32, input_ptr: u32, input_len: u32, output_ptr: u32, output_len_ptr: u32, runtime: Runtime, memory: Seq<u8>, r: Result<RetVal, DispatchError>) -> bool {
        (T0::registered_id() == id / 65536 && call_ensures(T0::enabled, (), true) && T0::answers(before.0, after.0, id, input_ptr, input_len, output_ptr, output_len_ptr, runtime, memory, r)) || ((T0::registered_id() != id / 65536 || call_ensures(T0::enabled, (), false)) && (r == Err::<RetVal, DispatchError>(DispatchError::Module(Error::NoChainExtension)) && after == before))
    }

    fn call(&mut self, env: Environment<'_, InitState>) -> (r: Result<RetVal, DispatchError>)
        ensures
            T0::registered_id() != env.id() / 65536 ==> r == Err::<RetVal, DispatchError>(DispatchError::Module(Error::NoChainExtension)),
            T0::registered_id() == env.id() / 65536 && (forall|b: bool| call_ensures(T0::enabled, (), b) ==> b) ==> T0::answers(old(self).0, final(self).0, env.id(), env.input_ptr(), env.input_len(), env.output_ptr(), env.output_len_ptr(), env.runtime(), env.memory(), r),
    {
        if T0::id() == env.ext_id() && T0::enabled() {
            return self.0.call(env);
        }
        Err(Error::NoChainExtension.into_dispatch_error())
    }

    fn enabled() -> (r: bool)
        ensures
            r ==> call_ensures(T0::enabled, (), true),
            !r ==> call_ensures(T0::enabled, (), false),
    {
        if T0::enabled() {
            return true;
        }
        false
    }
}

impl<T0: RegisteredChainExtension, T1: RegisteredChainExtension> ChainExtension for (T0, T1) {
    /// The first extension whose identifier is the upper two bytes of `id` and that answers
    /// that it is enabled takes the request; the others stay as they were. Where none does,
    /// the answer is `NoChainExtension` and nothing changes.
    open spec fn answers(before: Self, after: Self, id: u32, input_ptr: u32, input_len: u32, output_ptr: u32, output_len_ptr: u32, runtime: Runtime, memory: Seq<u8>, r: Result<RetVal, DispatchError>) -> bool {
        (T0::registered_id() == id / 65536 && call_ensures(T0::enabled, (), true) && T0::answers(before.0, after.0, id, input_ptr, input_len, output_ptr, output_len_ptr, runtime, memory, r) && after.1 == before.1) || ((T0::registered_id() != id / 65536 || call_ensures(T0::enabled, (), false)) && ((T1::registered_id() == id / 65536 && call_ensures(T1::enabled, (), true) && T1::answers(before.1, after.1, id, input_ptr, input_len, output_ptr, output_len_ptr, runtime, memory, r) && after.0 == before.0) || ((T1::registered_id() != id / 65536 || call_ensures(T1::enabled, (), false)) && (r == Err::<RetVal, DispatchError>(DispatchError::Module(Error::NoChainExtension)) && after == before))))
    }

    fn call(&mut self, env: Environment<'_, InitState>) -> (r: Result<RetVal, DispatchError>)
        ensures
            T0::registered_id() != env.id() / 65536 && T1::registered_id() != env.id() / 65536 ==> r == Err::<RetVal, DispatchError>(DispatchError::Module(Error::NoChainExtension)),
            T0::registered_id() == env.id() / 65536 && (forall|b: bool| call_ensures(T0::enabled, (), b) ==> b) ==> T0::answers(old(self).0, final(self).0, env.id(), env.input_ptr(), env.input_len(), env.output_ptr(), env.output_len_ptr(), env.runtime(), env.memory(), r) && final(self).1 == old(self).1,
            T1::registered_id() == env.id() / 65536 && (forall|b: bool| call_ensures(T1::enabled, (), b) ==> b) && (T0::registered_id() != env.id() / 65536 || (forall|b: bool| call_ensures(T0::enabled, (), b) ==> !b)) ==> T1::answers(old(self).1, final(self).1, env.id(), env.input_ptr(), env.input_len(), env.output_ptr(), env.output_len_ptr(), env.runtime(), env.memory(), r) && final(self).0 == old(self).0,
    {
        if T0::id() == env.ext_id() && T0::enabled() {
            return self.0.call(env);
        }
        if T1::id() == env.ext_id() && T1::enabled() {
            return self.1.call(env);
        }
        Err(Error::NoChainExtension.into_dispatch_error())
    }

    fn enabled() -> (r: bool)
        ensures
            r ==> call_ensures(T0::enabled, (), true) || (call_ensures(T0::enabled, (), false) && (call_ensures(T1::enabled, (), true))),
            !r ==> call_ensures(T0::enabled, (), false) && call_ensures(T1::enabled, (), false),
    {
        if T0::enabled() {
            return true;
        }
        if T1::enabled() {
            return true;
        }
        false
    }
}

impl<T0: RegisteredChainExtension, T1: RegisteredChainExtension, T2: RegisteredChainExtension> ChainExtension for (T0, T1, T2) {
    /// The first extension whose identifier is the upper two bytes of `id` and that answers
    /// that it is enabled takes the request; the others stay as they were. Where none does,
    /// the answer is `NoChainExtension` and nothing changes.
    open spec fn answers(before: Self, after: Self, id: u32, input_ptr: u32, input_len: u32, output_ptr: u32, output_len_ptr: u32, runtime: Runtime, memory: Seq<u8>, r: Result<RetVal, DispatchError>) -> bool {
        (T0::registered_id() == id / 65536 && call_ensures(T0::enabled, (), true) && T0::answers(before.0, after.0, id, input_ptr, input_len, output_ptr, output_len_ptr, runtime, memory, r) && after.1 == before.1 && after.2 == before.2) || ((T0::registered_id() != id / 65536 || call_ensures(T0::enabled, (), false)) && ((T1::registered_id() == id / 65536 && call_ensures(T1::enabled, (), true) && T1::answers(before.1, after.1, id, input_ptr, input_len, output_ptr, output_len_ptr, runtime, memory, r) && after.0 == before.0 && after.2 == before.2) || ((T1::registered_id() != id / 65536 || call_ensures(T1::enabled, (), false)) && ((T2::registered_id() == id / 65536 && call_ensures(T2::enabled, (), true) && T2::answers(before.2, after.2, id, input_ptr, input_len, output_ptr, output_len_ptr, runtime, memory, r) && after.0 == before.0 && after.1 == before.1) || ((T2::registered_id() != id / 65536 || call_ensures(T2::enabled, (), false)) && (r == Err::<RetVal, DispatchError>(DispatchError::Module(Error::NoChainExtension)) && after == before))))))
    }

    fn call(&mut self, env: Environment<'_, InitState>) -> (r: Result<RetVal, DispatchError>)
        ensures
            T0::registered_id() != env.id() / 65536 && T1::registered_id() != env.id() / 65536 && T2::registered_id() != env.id() / 65536 ==> r == Err::<RetVal, DispatchError>(DispatchError::Module(Error::NoChainExtension)),
            T0::registered_id() == env.id() / 65536 && (forall|b: bool| call_ensures(T0::enabled, (), b) ==> b) ==> T0::answers(old(self).0, final(self).0, env.id(), env.input_ptr(), env.input_len(), env.output_ptr(), env.output_len_ptr(), env.runtime(), env.memory(), r) && final(self).1 == old(self).1 && final(self).2 == old(self).2,
            T1::registered_id() == env.id() / 65536 && (forall|b: bool| call_ensures(T1::enabled, (), b) ==> b) && (T0::registered_id() != env.id() / 65536 || (forall|b: bool| call_ensures(T0::enabled, (), b) ==> !b)) ==> T1::answers(old(self).1, final(self).1, env.id(), env.input_ptr(), env.input_len(), env.output_ptr(), env.output_len_ptr(), env.runtime(), env.memory(), r) && final(self).0 == old(self).0 && final(self).2 == old(self).2,
            T2::registered_id() == env.id() / 65536 && (forall|b: bool| call_ensures(T2::enabled, (), b) ==> b) && (T0::registered_id() != env.id() / 65536 || (forall|b: bool| call_ensures(T0::enabled, (), b) ==> !b)) && (T1::registered_id() != env.id() / 65536 || (forall|b: bool| call_ensures(T1::enabled, (), b) ==> !b)) ==> T2::answers(old(self).2, final(self).2, env.id(), env.input_ptr(), env.input_len(), env.output_ptr(), env.output_len_ptr(), env.runtime(), env.memory(), r) && final(self).0 == old(self).0 && final(self).1 == old(self).1,
    {
        if T0::id() == env.ext_id() && T0::enabled() {
            return self.0.call(env);
        }
        if T1::id() == env.ext_id() && T1::enabled() {
            return self.1.call(env);
        }
        if T2::id() == env.ext_id() && T2::enabled() {
            return self.2.call(env);
        }
        Err(Error::NoChainExtension.into_dispatch_error())
    }

    fn enabled() -> (r: bool)
        ensures
            r ==> call_ensures(T0::enabled, (), true) || (call_ensures(T0::enabled, (), false) && (call_ensures(T1::enabled, (), true) || (call_ensures(T1::enabled, (), false) && (call_ensures(T2::enabled, (), true))))),
            !r ==> call_ensures(T0::enabled, (), false) && call_ensures(T1::enabled, (), false) && call_ensures(T2::enabled, (), false),
    {
        if T0::enabled() {
            return true;
        }
        if T1::enabled() {
            return true;
        }
        if T2::enabled() {
            return true;
        }
        false
    }
}

impl<T0: RegisteredChainExtension, T1: RegisteredChainExtension, T2: RegisteredChainExtension, T3: RegisteredChainExtension> ChainExtension for (T0, T1, T2, T3) {
    /// The first extension whose identifier is the upper two bytes of `id` and that answers
    /// that it is enabled takes the request; the others stay as they were. Where none does,
    /// the answer is `NoChainExtension` and nothing changes.
    open spec fn answers(before: Self, after: Self, id: u32, input_ptr: u32, input_len: u32, output_ptr: u32, output_len_ptr: u32, runtime: Runtime, memory: Seq<u8>, r: Result<RetVal, DispatchError>) -> bool {
        (T0::registered_id() == id / 65536 && call_ensures(T0::enabled, (), true) && T0::answers(before.0, after.0, id, input_ptr, input_len, output_ptr, output_len_ptr, runtime, memory, r) && after.1 == before.1 && after.2 == before.2 && after.3 == before.3) || ((T0::registered_id() != id / 65536 || call_ensures(T0::enabled, (), false)) && ((T1::registered_id() == id / 65536 && call_ensures(T1::enabled, (), true) && T1::answers(before.1, after.1, id, input_ptr, input_len, output_ptr, output_len_ptr, runtime, memory, r) && after.0 == before.0 && after.2 == before.2 && after.3 == before.3) || ((T1::registered_id() != id / 65536 || call_ensures(T1::enabled, (), false)) && ((T2::registered_id() == id / 65536 && call_ensures(T2::enabled, (), true) && T2::answers(before.2, after.2, id, input_ptr, input_len, output_ptr, output_len_ptr, runtime, memory, r) && after.0 == before.0 && after.1 == before.1 && after.3 == before.3) || ((T2::registered_id() != id / 65536 || call_ensures(T2::enabled, (), false)) && ((T3::registered_id() == id / 65536 && call_ensures(T3::enabled, (), true) && T3::answers(before.3, after.3, id, input_ptr, input_len, output_ptr, output_len_ptr, runtime, memory, r) && after.0 == before.0 && after.1 == before.1 && after.2 == before.2) || ((T3::registered_id() != id / 65536 || call_ensures(T3::enabled, (), false)) && (r == Err::<RetVal, DispatchError>(DispatchError::Module(Error::NoChainExtension)) && after == before))))))))
    }

    fn call(&mut self, env: Environment<'_, InitState>) -> (r: Result<RetVal, DispatchError>)
        ensures
            T0::registered_id() != env.id() / 65536 && T1::registered_id() != env.id() / 65536 && T2::registered_id() != env.id() / 65536 && T3::registered_id() != env.id() / 65536 ==> r == Err::<RetVal, DispatchError>(DispatchError::Module(Error::NoChainExtension)),
            T0::registered_id() == env.id() / 65536 && (forall|b: bool| call_ensures(T0::enabled, (), b) ==> b) ==> T0::answers(old(self).0, final(self).0, env.id(), env.input_ptr(), env.input_len(), env.output_ptr(), env.output_len_ptr(), env.runtime(), env.memory(), r) && final(self).1 == old(self).1 && final(self).2 == old(self).2 && final(self).3 == old(self).3,
            T1::registered_id() == env.id() / 65536 && (forall|b: bool| call_ensures(T1::enabled, (), b) ==> b) && (T0::registered_id() != env.id() / 65536 || (forall|b: bool| call_ensures(T0::enabled, (), b) ==> !b)) ==> T1::answers(old(self).1, final(self).1, env.id(), env.input_ptr(), env.input_len(), env.output_ptr(), env.output_len_ptr(), env.runtime(), env.memory(), r) && final(self).0 == old(self).0 && final(self).2 == old(self).2 && final(self).3 == old(self).3,
            T2::registered_id() == env.id() / 65536 && (forall|b: bool| call_ensures(T2::enabled, (), b) ==> b) && (T0::registered_id() != env.id() / 65536 || (forall|b: bool| call_ensures(T0::enabled, (), b) ==> !b)) && (T1::registered_id() != env.id() / 65536 || (forall|b: bool| call_ensures(T1::enabled, (), b) ==> !b)) ==> T2::answers(old(self).2, final(self).2, env.id(), env.input_ptr(), env.input_len(), env.output_ptr(), env.output_len_ptr(), env.runtime(), env.memory(), r) && final(self).0 == old(self).0 && final(self).1 == old(self).1 && final(self).3 == old(self).3,
            T3::registered_id() == env.id() / 65536 && (forall|b: bool| call_ensures(T3::enabled, (), b) ==> b) && (T0::registered_id() != env.id() / 65536 || (forall|b: bool| call_ensures(T0::enabled, (), b) ==> !b)) && (T1::registered_id() != env.id() / 65536 || (forall|b: bool| call_ensures(T1::enabled, (), b) ==> !b)) && (T2::registered_id() != env.id() / 65536 || (forall|b: bool| call_ensures(T2::enabled, (), b) ==> !b)) ==> T3::answers(old(self).3, final(self).3, env.id(), env.input_ptr(), env.input_len(), env.output_ptr(), env.output_len_ptr(), env.runtime(), env.memory(), r) && final(self).0 == old(self).0 && final(self).1 == old(self).1 && final(self).2 == old(self).2,
    {
        if T0::id() == env.ext_id() && T0::enabled() {
            return self.0.call(env);
        }
        if T1::id() == env.ext_id() && T1::enabled() {
            return self.1.call(env);
        }
        if T2::id() == env.ext_id() && T2::enabled() {
            return self.2.call(env);
        }
        if T3::id() == env.ext_id() && T3::enabled() {
            return self.3.call(env);
        }
        Err(Error::NoChainExtension.into_dispatch_error())
    }

    fn enabled() -> (r: bool)
        ensures
            r ==> call_ensures(T0::enabled, (), true) || (call_ensures(T0::enabled, (), false) && (call_ensures(T1::enabled, (), true) || (call_ensures(T1::enabled, (), false) && (call_ensures(T2::enabled, (), true) || (call_ensures(T2::enabled, (), false) && (call_ensures(T3::enabled, (), true))))))),
            !r ==> call_ensures(T0::enabled, (), false) && call_ensures(T1::enabled, (), false) && call_ensures(T2::enabled, (), false) && call_ensures(T3::enabled, (), false),
    {
        if T0::enabled() {
            return true;
        }
        if T1::enabled() {
            return true;
        }
        if T2::enabled() {
            return true;
        }
        if T3::enabled() {
            return true;
        }
        false
    }
}

impl<T0: RegisteredChainExtension, T1: RegisteredChainExtension, T2: RegisteredChainExtension, T3: RegisteredChainExtension, T4: RegisteredChainExtension> ChainExtension for (T0, T1, T2, T3, T4) {
    /// The first extension whose identifier is the upper two bytes of `id` and that answers
    /// that it is enabled takes the request; the others stay as they were. Where none does,
    /// the answer is `NoChainExtension` and nothing changes.
    open spec fn answers(before: Self, after: Self, id: u32, input_ptr: u32, input_len: u32, output_ptr: u32, output_len_ptr: u32, runtime: Runtime, memory: Seq<u8>, r: Result<RetVal, DispatchError>) -> bool {
        (T0::registered_id() == id / 65536 && call_ensures(T0::enabled, (), true) && T0::answers(before.0, after.0, id, input_ptr, input_len, output_ptr, output_len_ptr, runtime, memory, r) && after.1 == before.1 && after.2 == before.2 && after.3 == before.3 && after.4 == before.4) || ((T0::registered_id() != id / 65536 || call_ensures(T0::enabled, (), false)) && ((T1::registered_id() == id / 65536 && call_ensures(T1::enabled, (), true) && T1::answers(before.1, after.1, id, input_ptr, input_len, output_ptr, output_len_ptr, runtime, memory, r) && after.0 == before.0 && after.2 == before.2 && after.3 == before.3 && after.4 == before.4) || ((T1::registered_id() != id / 65536 || call_ensures(T1::enabled, (), false)) && ((T2::registered_id() == id / 65536 && call_ensures(T2::enabled, (), true) && T2::answers(before.2, after.2, id, input_ptr, input_len, output_ptr, output_len_ptr, runtime, memory, r) && after.0 == before.0 && after.1 == before.1 && after.3 == before.3 && after.4 == before.4) || ((T2::registered_id() != id / 65536 || call_ensures(T2::enabled, (), false)) && ((T3::registered_id() == id / 65536 && call_ensures(T3::enabled, (), true) && T3::answers(before.3, after.3, id, input_ptr, input_len, output_ptr, output_len_ptr, runtime, memory, r) && after.0 == before.0 && after.1 == before.1 && after.2 == before.2 && after.4 == before.4) || ((T3::registered_id() != id / 65536 || call_ensures(T3::enabled, (), false)) && ((T4::registered_id() == id / 65536 && call_ensures(T4::enabled, (), true) && T4::answers(before.4, after.4, id, input_ptr, input_len, output_ptr, output_len_ptr, runtime, memory, r) && after.0 == before.0 && after.1 == before.1 && after.2 == before.2 && after.3 == before.3) || ((T4::registered_id() != id / 65536 || call_ensures(T4::enabled, (), false)) && (r == Err::<RetVal, DispatchError>(DispatchError::Module(Error::NoChainExtension)) && after == before))))))))))
    }

    fn call(&mut self, env: Environment<'_, InitState>) -> (r: Result<RetVal, DispatchError>)
        ensures
            T0::registered_id() != env.id() / 65536 && T1::registered_id() != env.id() / 65536 && T2::registered_id() != env.id() / 65536 && T3::registered_id() != env.id() / 65536 && T4::registered_id() != env.id() / 65536 ==> r == Err::<RetVal, DispatchError>(DispatchError::Module(Error::NoChainExtension)),
            T0::registered_id() == env.id() / 65536 && (forall|b: bool| call_ensures(T0::enabled, (), b) ==> b) ==> T0::answers(old(self).0, final(self).0, env.id(), env.input_ptr(), env.input_len(), env.output_ptr(), env.output_len_ptr(), env.runtime(), env.memory(), r) && final(self).1 == old(self).1 && final(self).2 == old(self).2 && final(self).3 == old(self).3 && final(self).4 == old(self).4,
            T1::registered_id() == env.id() / 65536 && (forall|b: bool| call_ensures(T1::enabled, (), b) ==> b) && (T0::registered_id() != env.id() / 65536 || (forall|b: bool| call_ensures(T0::enabled, (), b) ==> !b)) ==> T1::answers(old(self).1, final(self).1, env.id(), env.input_ptr(), env.input_len(), env.output_ptr(), env.output_len_ptr(), env.runtime(), env.memory(), r) && final(self).0 == old(self).0 && final(self).2 == old(self).2 && final(self).3 == old(self).3 && final(self).4 == old(self).4,
            T2::registered_id() == env.id() / 65536 && (forall|b: bool| call_ensures(T2::enabled, (), b) ==> b) && (T0::registered_id() != env.id() / 65536 || (forall|b: bool| call_ensures(T0::enabled, (), b) ==> !b)) && (T1::registered_id() != env.id() / 65536 || (forall|b: bool| call_ensures(T1::enabled, (), b) ==> !b)) ==> T2::answers(old(self).2, final(self).2, env.id(), env.input_ptr(), env.input_len(), env.output_ptr(), env.output_len_ptr(), env.runtime(), env.memory(), r) && final(self).0 == old(self).0 && final(self).1 == old(self).1 && final(self).3 == old(self).3 && final(self).4 == old(self).4,
            T3::registered_id() == env.id() / 65536 && (forall|b: bool| call_ensures(T3::enabled, (), b) ==> b) && (T0::registered_id() != env.id() / 65536 || (forall|b: bool| call_ensures(T0::enabled, (), b) ==> !b)) && (T1::registered_id() != env.id() / 65536 || (forall|b: bool| call_ensures(T1::enabled, (), b) ==> !b)) && (T2::registered_id() != env.id() / 65536 || (forall|b: bool| call_ensures(T2::enabled, (), b) ==> !b)) ==> T3::answers(old(self).3, final(self).3, env.id(), env.input_ptr(), env.input_len(), env.output_ptr(), env.output_len_ptr(), env.runtime(), env.memory(), r) && final(self).0 == old(self).0 && final(self).1 == old(self).1 && final(self).2 == old(self).2 && final(self).4 == old(self).4,
            T4::registered_id() == env.id() / 65536 && (forall|b: bool| call_ensures(T4::enabled, (), b) ==> b) && (T0::registered_id() != env.id() / 65536 || (forall|b: bool| call_ensures(T0::enabled, (), b) ==> !b)) && (T1::registered_id() != env.id() / 65536 || (forall|b: bool| call_ensures(T1::enabled, (), b) ==> !b)) && (T2::registered_id() != env.id() / 65536 || (forall|b: bool| call_ensures(T2::enabled, (), b) ==> !b)) && (T3::registered_id() != env.id() / 65536 || (forall|b: bool| call_ensures(T3::enabled, (), b) ==> !b)) ==> T4::answers(old(self).4, final(self).4, env.id(), env.input_ptr(), env.input_len(), env.output_ptr(), env.output_len_ptr(), env.runtime(), env.memory(), r) && final(self).0 == old(self).0 && final(self).1 == old(self).1 && final(self).2 == old(self).2 && final(self).3 == old(self).3,
    {
        if T0::id() == env.ext_id() && T0::enabled() {
            return self.0.call(env);
        }
        if T1::id() == env.ext_id() && T1::enabled() {
            return self.1.call(env);
        }
        if T2::id() == env.ext_id() && T2::enabled() {
            return self.2.call(env);
        }
        if T3::id() == env.ext_id() && T3::enabled() {
            return self.3.call(env);
        }
        if T4::id() == env.ext_id() && T4::enabled() {
            return self.4.call(env);
        }
        Err(Error::NoChainExtension.into_dispatch_error())
    }

    fn enabled() -> (r: bool)
        ensures
            r ==> call_ensures(T0::enabled, (), true) || (call_ensures(T0::enabled, (), false) && (call_ensures(T1::enabled, (), true) || (call_ensures(T1::enabled, (), false) && (call_ensures(T2::enabled, (), true) || (call_ensures(T2::enabled, (), false) && (call_ensures(T3::enabled, (), true) || (call_ensures(T3::enabled, (), false) && (call_ensures(T4::enabled, (), true))))))))),
            !r ==> call_ensures(T0::enabled, (), false) && call_ensures(T1::enabled, (), false) && call_ensures(T2::enabled, (), false) && call_ensures(T3::enabled, (), false) && call_ensures(T4::enabled, (), false),
    {
        if T0::enabled() {
            return true;
        }
        if T1::enabled() {
            return true;
        }
        if T2::enabled() {
            return true;
        }
        if T3::enabled() {
            return true;
        }
        if T4::enabled() {
            return true;
        }
        false
    }
}

impl<T0: RegisteredChainExtension, T1: RegisteredChainExtension, T2: RegisteredChainExtension, T3: RegisteredChainExtension, T4: RegisteredChainExtension, T5: RegisteredChainExtension> ChainExtension for (T0, T1, T2, T3, T4, T5) {
    /// The first extension whose identifier is the upper two bytes of `id` and that answers
    /// that it is enabled takes the request; the others stay as they were. Where none does,
    /// the answer is `NoChainExtension` and nothing changes.
    open spec fn answers(before: Self, after: Self, id: u32, input_ptr: u32, input_len: u32, output_ptr: u32, output_len_ptr: u32, runtime: Runtime, memory: Seq<u8>, r: Result<RetVal, DispatchError>) -> bool {
        (T0::registered_id() == id / 65536 && call_ensures(T0::enabled, (), true) && T0::answers(before.0, after.0, id, input_ptr, input_len, output_ptr, output_len_ptr, runtime, memory, r) && after.1 == before.1 && after.2 == before.2 && after.3 == before.3 && after.4 == before.4 && after.5 == before.5) || ((T0::registered_id() != id / 65536 || call_ensures(T0::enabled, (), false)) && ((T1::registered_id() == id / 65536 && call_ensures(T1::enabled, (), true) && T1::answers(before.1, after.1, id, input_ptr, input_len, output_ptr, output_len_ptr, runtime, memory, r) && after.0 == before.0 && after.2 == before.2 && after.3 == before.3 && after.4 == before.4 && after.5 == before.5) || ((T1::registered_id() != id / 65536 || call_ensures(T1::enabled, (), false)) && ((T2::registered_id() == id / 65536 && call_ensures(T2::enabled, (), true) && T2::answers(before.2, after.2, id, input_ptr, input_len, output_ptr, output_len_ptr, runtime, memory, r) && after.0 == before.0 && after.1 == before.1 && after.3 == before.3 && after.4 == before.4 && after.5 == before.5) || ((T2::registered_id() != id / 65536 || call_ensures(T2::enabled, (), false)) && ((T3::registered_id() == id / 65536 && call_ensures(T3::enabled, (), true) && T3::answers(before.3, after.3, id, input_ptr, input_len, output_ptr, output_len_ptr, runtime, memory, r) && after.0 == before.0 && after.1 == before.1 && after.2 == before.2 && after.4 == before.4 && after.5 == before.5) || ((T3::registered_id() != id / 65536 || call_ensures(T3::enabled, (), false)) && ((T4::registered_id() == id / 65536 && call_ensures(T4::enabled, (), true) && T4::answers(before.4, after.4, id, input_ptr, input_len, output_ptr, output_len_ptr, runtime, memory, r) && after.0 == before.0 && after.1 == before.1 && after.2 == before.2 && after.3 == before.3 && after.5 == before.5) || ((T4::registered_id() != id / 65536 || call_ensures(T4::enabled, (), false)) && ((T5::registered_id() == id / 65536 && call_ensures(T5::enabled, (), true) && T5::answers(before.5, after.5, id, input_ptr, input_len, output_ptr, output_len_ptr, runtime, memory, r) && after.0 == before.0 && after.1 == before.1 && after.2 == before.2 && after.3 == before.3 && after.4 == before.4) || ((T5::registered_id() != id / 65536 || call_ensures(T5::enabled, (), false)) && (r == Err::<RetVal, DispatchError>(DispatchError::Module(Error::NoChainExtension)) && after == before))))))))))))
    }

    fn call(&mut self, env: Environment<'_, InitState>) -> (r: Result<RetVal, DispatchError>)
        ensures
            T0::registered_id() != env.id() / 65536 && T1::registered_id() != env.id() / 65536 && T2::registered_id() != env.id() / 65536 && T3::registered_id() != env.id() / 65536 && T4::registered_id() != env.id() / 65536 && T5::registered_id() != env.id() / 65536 ==> r == Err::<RetVal, DispatchError>(DispatchError::Module(Error::NoChainExtension)),
            T0::registered_id() == env.id() / 65536 && (forall|b: bool| call_ensures(T0::enabled, (), b) ==> b) ==> T0::answers(old(self).0, final(self).0, env.id(), env.input_ptr(), env.input_len(), env.output_ptr(), env.output_len_ptr(), env.runtime(), env.memory(), r) && final(self).1 == old(self).1 && final(self).2 == old(self).2 && final(self).3 == old(self).3 && final(self).4 == old(self).4 && final(self).5 == old(self).5,
            T1::registered_id() == env.id() / 65536 && (forall|b: bool| call_ensures(T1::enabled, (), b) ==> b) && (T0::registered_id() != env.id() / 65536 || (forall|b: bool| call_ensures(T0::enabled, (), b) ==> !b)) ==> T1::answers(old(self).1, final(self).1, env.id(), env.input_ptr(), env.input_len(), env.output_ptr(), env.output_len_ptr(), env.runtime(), env.memory(), r) && final(self).0 == old(self).0 && final(self).2 == old(self).2 && final(self).3 == old(self).3 && final(self).4 == old(self).4 && final(self).5 == old(self).5,
            T2::registered_id() == env.id() / 65536 && (forall|b: bool| call_ensures(T2::enabled, (), b) ==> b) && (T0::registered_id() != env.id() / 65536 || (forall|b: bool| call_ensures(T0::enabled, (), b) ==> !b)) && (T1::registered_id() != env.id() / 65536 || (forall|b: bool| call_ensures(T1::enabled, (), b) ==> !b)) ==> T2::answers(old(self).2, final(self).2, env.id(), env.input_ptr(), env.input_len(), env.output_ptr(), env.output_len_ptr(), env.runtime(), env.memory(), r) && final(self).0 == old(self).0 && final(self).1 == old(self).1 && final(self).3 == old(self).3 && final(self).4 == old(self).4 && final(self).5 == old(self).5,
            T3::registered_id() == env.id() / 65536 && (forall|b: bool| call_ensures(T3::enabled, (), b) ==> b) && (T0::registered_id() != env.id() / 65536 || (forall|b: bool| call_ensures(T0::enabled, (), b) ==> !b)) && (T1::registered_id() != env.id() / 65536 || (forall|b: bool| call_ensures(T1::enabled, (), b) ==> !b)) && (T2::registered_id() != env.id() / 65536 || (forall|b: bool| call_ensures(T2::enabled, (), b) ==> !b)) ==> T3::answers(old(self).3, final(self).3, env.id(), env.input_ptr(), env.input_len(), env.output_ptr(), env.output_len_ptr(), env.runtime(), env.memory(), r) && final(self).0 == old(self).0 && final(self).1 == old(self).1 && final(self).2 == old(self).2 && final(self).4 == old(self).4 && final(self).5 == old(self).5,
            T4::registered_id() == env.id() / 65536 && (forall|b: bool| call_ensures(T4::enabled, (), b) ==> b) && (T0::registered_id() != env.id() / 65536 || (forall|b: bool| call_ensures(T0::enabled, (), b) ==> !b)) && (T1::registered_id() != env.id() / 65536 || (forall|b: bool| call_ensures(T1::enabled, (), b) ==> !b)) && (T2::registered_id() != env.id() / 65536 || (forall|b: bool| call_ensures(T2::enabled, (), b) ==> !b)) && (T3::registered_id() != env.id() / 65536 || (forall|b: bool| call_ensures(T3::enabled, (), b) ==> !b)) ==> T4::answers(old(self).4, final(self).4, env.id(), env.input_ptr(), env.input_len(), env.output_ptr(), env.output_len_ptr(), env.runtime(), env.memory(), r) && final(self).0 == old(self).0 && final(self).1 == old(self).1 && final(self).2 == old(self).2 && final(self).3 == old(self).3 && final(self).5 == old(self).5,
            T5::registered_id() == env.id() / 65536 && (forall|b: bool| call_ensures(T5::enabled, (), b) ==> b) && (T0::registered_id() != env.id() / 65536 || (forall|b: bool| call_ensures(T0::enabled, (), b) ==> !b)) && (T1::registered_id() != env.id() / 65536 || (forall|b: bool| call_ensures(T1::enabled, (), b) ==> !b)) && (T2::registered_id() != env.id() / 65536 || (forall|b: bool| call_ensures(T2::enabled, (), b) ==> !b)) && (T3::registered_id() != env.id() / 65536 || (forall|b: bool| call_ensures(T3::enabled, (), b) ==> !b)) && (T4::registered_id() != env.id() / 65536 || (forall|b: bool| call_ensures(T4::enabled, (), b) ==> !b)) ==> T5::answers(old(self).5, final(self).5, env.id(), env.input_ptr(), env.input_len(), env.output_ptr(), env.output_len_ptr(), env.runtime(), env.memory(), r) && final(self).0 == old(self).0 && final(self).1 == old(self).1 && final(self).2 == old(self).2 && final(self).3 == old(self).3 && final(self).4 == old(self).4,
    {
        if T0::id() == env.ext_id() && T0::enabled() {
            return self.0.call(env);
        }
        if T1::id() == env.ext_id() && T1::enabled() {
            return self.1.call(env);
        }
        if T2::id() == env.ext_id() && T2::enabled() {
            return self.2.call(env);
        }
        if T3::id() == env.ext_id() && T3::enabled() {
            return self.3.call(env);
        }
        if T4::id() == env.ext_id() && T4::enabled() {
            return self.4.call(env);
        }
        if T5::id() == env.ext_id() && T5::enabled() {
            return self.5.call(env);
        }
        Err(Error::NoChainExtension.into_dispatch_error())
    }

    fn enabled() -> (r: bool)
        ensures
            r ==> call_ensures(T0::enabled, (), true) || (call_ensures(T0::enabled, (), false) && (call_ensures(T1::enabled, (), true) || (call_ensures(T1::enabled, (), false) && (call_ensures(T2::enabled, (), true) || (call_ensures(T2::enabled, (), false) && (call_ensures(T3::enabled, (), true) || (call_ensures(T3::enabled, (), false) && (call_ensures(T4::enabled, (), true) || (call_ensures(T4::enabled, (), false) && (call_ensures(T5::enabled, (), true))))))))))),
            !r ==> call_ensures(T0::enabled, (), false) && call_ensures(T1::enabled, (), false) && call_ensures(T2::enabled, (), false) && call_ensures(T3::enabled, (), false) && call_ensures(T4::enabled, (), false) && call_ensures(T5::enabled, (), false),
    {
        if T0::enabled() {
            return true;
        }
        if T1::enabled() {
            return true;
        }
        if T2::enabled() {
            return true;
        }
        if T3::enabled() {
            return true;
        }
        if T4::enabled() {
            return true;
        }
        if T5::enabled() {
            return true;
        }
        false
    }
}

impl<T0: RegisteredChainExtension, T1: RegisteredChainExtension, T2: RegisteredChainExtension, T3: RegisteredChainExtension, T4: RegisteredChainExtension, T5: RegisteredChainExtension, T6: RegisteredChainExtension> ChainExtension for (T0, T1, T2, T3, T4, T5, T6) {
    /// The first extension whose identifier is the upper two bytes of `id` and that answers
    /// that it is enabled takes the request; the others stay as they were. Where none does,
    /// the answer is `NoChainExtension` and nothing changes.
    open spec fn answers(before: Self, after: Self, id: u32, input_ptr: u32, input_len: u32, output_ptr: u32, output_len_ptr: u32, runtime: Runtime, memory: Seq<u8>, r: Result<RetVal, DispatchError>) -> bool {
        (T0::registered_id() == id / 65536 && call_ensures(T0::enabled, (), true) && T0::answers(before.0, after.0, id, input_ptr, input_len, output_ptr, output_len_ptr, runtime, memory, r) && after.1 == before.1 && after.2 == before.2 && after.3 == before.3 && after.4 == before.4 && after.5 == before.5 && after.6 == before.6) || ((T0::registered_id() != id / 65536 || call_ensures(T0::enabled, (), false)) && ((T1::registered_id() == id / 65536 && call_ensures(T1::enabled, (), true) && T1::answers(before.1, after.1, id, input_ptr, input_len, output_ptr, output_len_ptr, runtime, memory, r) && after.0 == before.0 && after.2 == before.2 && after.3 == before.3 && after.4 == before.4 && after.5 == before.5 && after.6 == before.6) || ((T1::registered_id() != id / 65536 || call_ensures(T1::enabled, (), false)) && ((T2::registered_id() == id / 65536 && call_ensures(T2::enabled, (), true) && T2::answers(before.2, after.2, id, input_ptr, input_len, output_ptr, output_len_ptr, runtime, memory, r) && after.0 == before.0 && after.1 == before.1 && after.3 == before.3 && after.4 == before.4 && after.5 == before.5 && after.6 == before.6) || ((T2::registered_id() != id / 65536 || call_ensures(T2::enabled, (), false)) && ((T3::registered_id() == id / 65536 && call_ensures(T3::enabled, (), true) && T3::answers(before.3, after.3, id, input_ptr, input_len, output_ptr, output_len_ptr, runtime, memory, r) && after.0 == before.0 && after.1 == before.1 && after.2 == before.2 && after.4 == before.4 && after.5 == before.5 && after.6 == before.6) || ((T3::registered_id() != id / 65536 || call_ensures(T3::enabled, (), false)) && ((T4::registered_id() == id / 65536 && call_ensures(T4::enabled, (), true) && T4::answers(before.4, after.4, id, input_ptr, input_len, output_ptr, output_len_ptr, runtime, memory, r) && after.0 == before.0 && after.1 == before.1 && after.2 == before.2 && after.3 == before.3 && after.5 == before.5 && after.6 == before.6) || ((T4::registered_id() != id / 65536 || call_ensures(T4::enabled, (), false)) && ((T5::registered_id() == id / 65536 && call_ensures(T5::enabled, (), true) && T5::answers(before.5, after.5, id, input_ptr, input_len, output_ptr, output_len_ptr, runtime, memory, r) && after.0 == before.0 && after.1 == before.1 && after.2 == before.2 && after.3 == before.3 && after.4 == before.4 && after.6 == before.6) || ((T5::registered_id() != id / 65536 || call_ensures(T5::enabled, (), false)) && ((T6::registered_id() == id / 65536 && call_ensures(T6::enabled, (), true) && T6::answers(before.6, after.6, id, input_ptr, input_len, output_ptr, output_len_ptr, runtime, memory, r) && after.0 == before.0 && after.1 == before.1 && after.2 == before.2 && after.3 == before.3 && after.4 == before.4 && after.5 == before.5) || ((T6::registered_id() != id / 65536 || call_ensures(T6::enabled, (), false)) && (r == Err::<RetVal, DispatchError>(DispatchError::Module(Error::NoChainExtension)) && after == before))))))))))))))
    }

    fn call(&mut self, env: Environment<'_, InitState>) -> (r: Result<RetVal, DispatchError>)
        ensures
            T0::registered_id() != env.id() / 65536 && T1::registered_id() != env.id() / 65536 && T2::registered_id() != env.id() / 65536 && T3::registered_id() != env.id() / 65536 && T4::registered_id() != env.id() / 65536 && T5::registered_id() != env.id() / 65536 && T6::registered_id() != env.id() / 65536 ==> r == Err::<RetVal, DispatchError>(DispatchError::Module(Error::NoChainExtension)),
            T0::registered_id() == env.id() / 65536 && (forall|b: bool| call_ensures(T0::enabled, (), b) ==> b) ==> T0::answers(old(self).0, final(self).0, env.id(), env.input_ptr(), env.input_len(), env.output_ptr(), env.output_len_ptr(), env.runtime(), env.memory(), r) && final(self).1 == old(self).1 && final(self).2 == old(self).2 && final(self).3 == old(self).3 && final(self).4 == old(self).4 && final(self).5 == old(self).5 && final(self).6 == old(self).6,
            T1::registered_id() == env.id() / 65536 && (forall|b: bool| call_ensures(T1::enabled, (), b) ==> b) && (T0::registered_id() != env.id() / 65536 || (forall|b: bool| call_ensures(T0::enabled, (), b) ==> !b)) ==> T1::answers(old(self).1, final(self).1, env.id(), env.input_ptr(), env.input_len(), env.output_ptr(), env.output_len_ptr(), env.runtime(), env.memory(), r) && final(self).0 == old(self).0 && final(self).2 == old(self).2 && final(self).3 == old(self).3 && final(self).4 == old(self).4 && final(self).5 == old(self).5 && final(self).6 == old(self).6,
            T2::registered_id() == env.id() / 65536 && (forall|b: bool| call_ensures(T2::enabled, (), b) ==> b) && (T0::registered_id() != env.id() / 65536 || (forall|b: bool| call_ensures(T0::enabled, (), b) ==> !b)) && (T1::registered_id() != env.id() / 65536 || (forall|b: bool| call_ensures(T1::enabled, (), b) ==> !b)) ==> T2::answers(old(self).2, final(self).2, env.id(), env.input_ptr(), env.input_len(), env.output_ptr(), env.output_len_ptr(), env.runtime(), env.memory(), r) && final(self).0 == old(self).0 && final(self).1 == old(self).1 && final(self).3 == old(self).3 && final(self).4 == old(self).4 && final(self).5 == old(self).5 && final(self).6 == old(self).6,
            T3::registered_id() == env.id() / 65536 && (forall|b: bool| call_ensures(T3::enabled, (), b) ==> b) && (T0::registered_id() != env.id() / 65536 || (forall|b: bool| call_ensures(T0::enabled, (), b) ==> !b)) && (T1::registered_id() != env.id() / 65536 || (forall|b: bool| call_ensures(T1::enabled, (), b) ==> !b)) && (T2::registered_id() != env.id() / 65536 || (forall|b: bool| call_ensures(T2::enabled, (), b) ==> !b)) ==> T3::answers(old(self).3, final(self).3, env.id(), env.input_ptr(), env.input_len(), env.output_ptr(), env.output_len_ptr(), env.runtime(), env.memory(), r) && final(self).0 == old(self).0 && final(self).1 == old(self).1 && final(self).2 == old(self).2 && final(self).4 == old(self).4 && final(self).5 == old(self).5 && final(self).6 == old(self).6,
            T4::registered_id() == env.id() / 65536 && (forall|b: bool| call_ensures(T4::enabled, (), b) ==> b) && (T0::registered_id() != env.id() / 65536 || (forall|b: bool| call_ensures(T0::enabled, (), b) ==> !b)) && (T1::registered_id() != env.id() / 65536 || (forall|b: bool| call_ensures(T1::enabled, (), b) ==> !b)) && (T2::registered_id() != env.id() / 65536 || (forall|b: bool| call_ensures(T2::enabled, (), b) ==> !b)) && (T3::registered_id() != env.id() / 65536 || (forall|b: bool| call_ensures(T3::enabled, (), b) ==> !b)) ==> T4::answers(old(self).4, final(self).4, env.id(), env.input_ptr(), env.input_len(), env.output_ptr(), env.output_len_ptr(), env.runtime(), env.memory(), r) && final(self).0 == old(self).0 && final(self).1 == old(self).1 && final(self).2 == old(self).2 && final(self).3 == old(self).3 && final(self).5 == old(self).5 && final(self).6 == old(self).6,
            T5::registered_id() == env.id() / 65536 && (forall|b: bool| call_ensures(T5::enabled, (), b) ==> b) && (T0::registered_id() != env.id() / 65536 || (forall|b: bool| call_ensures(T0::enabled, (), b) ==> !b)) && (T1::registered_id() != env.id() / 65536 || (forall|b: bool| call_ensures(T1::enabled, (), b) ==> !b)) && (T2::registered_id() != env.id() / 65536 || (forall|b: bool| call_ensures(T2::enabled, (), b) ==> !b)) && (T3::registered_id() != env.id() / 65536 || (forall|b: bool| call_ensures(T3::enabled, (), b) ==> !b)) && (T4::registered_id() != env.id() / 65536 || (forall|b: bool| call_ensures(T4::enabled, (), b) ==> !b)) ==> T5::answers(old(self).5, final(self).5, env.id(), env.input_ptr(), env.input_len(), env.output_ptr(), env.output_len_ptr(), env.runtime(), env.memory(), r) && final(self).0 == old(self).0 && final(self).1 == old(self).1 && final(self).2 == old(self).2 && final(self).3 == old(self).3 && final(self).4 == old(self).4 && final(self).6 == old(self).6,
            T6::registered_id() == env.id() / 65536 && (forall|b: bool| call_ensures(T6::enabled, (), b) ==> b) && (T0::registered_id() != env.id() / 65536 || (forall|b: bool| call_ensures(T0::enabled, (), b) ==> !b)) && (T1::registered_id() != env.id() / 65536 || (forall|b: bool| call_ensures(T1::enabled, (), b) ==> !b)) && (T2::registered_id() != env.id() / 65536 || (forall|b: bool| call_ensures(T2::enabled, (), b) ==> !b)) && (T3::registered_id() != env.id() / 65536 || (forall|b: bool| call_ensures(T3::enabled, (), b) ==> !b)) && (T4::registered_id() != env.id() / 65536 || (forall|b: bool| call_ensures(T4::enabled, (), b) ==> !b)) && (T5::registered_id() != env.id() / 65536 || (forall|b: bool| call_ensures(T5::enabled, (), b) ==> !b)) ==> T6::answers(old(self).6, final(self).6, env.id(), env.input_ptr(), env.input_len(), env.output_ptr(), env.output_len_ptr(), env.runtime(), env.memory(), r) && final(self).0 == old(self).0 && final(self).1 == old(self).1 && final(self).2 == old(self).2 && final(self).3 == old(self).3 && final(self).4 == old(self).4 && final(self).5 == old(self).5,
    {
        if T0::id() == env.ext_id() && T0::enabled() {
            return self.0.call(env);
        }
        if T1::id() == env.ext_id() && T1::enabled() {
            return self.1.call(env);
        }
        if T2::id() == env.ext_id() && T2::enabled() {
            return self.2.call(env);
        }
        if T3::id() == env.ext_id() && T3::enabled() {
            return self.3.call(env);
        }
        if T4::id() == env.ext_id() && T4::enabled() {
            return self.4.call(env);
        }
        if T5::id() == env.ext_id() && T5::enabled() {
            return self.5.call(env);
        }
        if T6::id() == env.ext_id() && T6::enabled() {
            return self.6.call(env);
        }
        Err(Error::NoChainExtension.into_dispatch_error())
    }

    fn enabled() -> (r: bool)
        ensures
            r ==> call_ensures(T0::enabled, (), true) || (call_ensures(T0::enabled, (), false) && (call_ensures(T1::enabled, (), true) || (call_ensures(T1::enabled, (), false) && (call_ensures(T2::enabled, (), true) || (call_ensures(T2::enabled, (), false) && (call_ensures(T3::enabled, (), true) || (call_ensures(T3::enabled, (), false) && (call_ensures(T4::enabled, (), true) || (call_ensures(T4::enabled, (), false) && (call_ensures(T5::enabled, (), true) || (call_ensures(T5::enabled, (), false) && (call_ensures(T6::enabled, (), true))))))))))))),
            !r ==> call_ensures(T0::enabled, (), false) && call_ensures(T1::enabled, (), false) && call_ensures(T2::enabled, (), false) && call_ensures(T3::enabled, (), false) && call_ensures(T4::enabled, (), false) && call_ensures(T5::enabled, (), false) && call_ensures(T6::enabled, (), false),
    {
        if T0::enabled() {
            return true;
        }
        if T1::enabled() {
            return true;
        }
        if T2::enabled() {
            return true;
        }
        if T3::enabled() {
            return true;
        }
        if T4::enabled() {
            return true;
        }
        if T5::enabled() {
            return true;
        }
        if T6::enabled() {
            return true;
        }
        false
    }
}

impl<T0: RegisteredChainExtension, T1: RegisteredChainExtension, T2: RegisteredChainExtension, T3: RegisteredChainExtension, T4: RegisteredChainExtension, T5: RegisteredChainExtension, T6: RegisteredChainExtension, T7: RegisteredChainExtension> ChainExtension for (T0, T1, T2, T3, T4, T5, T6, T7) {
    /// The first extension whose identifier is the upper two bytes of `id` and that answers
    /// that it is enabled takes the request; the others stay as they were. Where none does,
    /// the answer is `NoChainExtension` and nothing changes.
    open spec fn answers(before: Self, after: Self, id: u32, input_ptr: u32, input_len: u32, output_ptr: u32, output_len_ptr: u32, runtime: Runtime, memory: Seq<u8>, r: Result<RetVal, DispatchError>) -> bool {
        (T0::registered_id() == id / 65536 && call_ensures(T0::enabled, (), true) && T0::answers(before.0, after.0, id, input_ptr, input_len, output_ptr, output_len_ptr, runtime, memory, r) && after.1 == before.1 && after.2 == before.2 && after.3 == before.3 && after.4 == before.4 && after.5 == before.5 && after.6 == before.6 && after.7 == before.7) || ((T0::registered_id() != id / 65536 || call_ensures(T0::enabled, (), false)) && ((T1::registered_id() == id / 65536 && call_ensures(T1::enabled, (), true) && T1::answers(before.1, after.1, id, input_ptr, input_len, output_ptr, output_len_ptr, runtime, memory, r) && after.0 == before.0 && after.2 == before.2 && after.3 == before.3 && after.4 == before.4 && after.5 == before.5 && after.6 == before.6 && after.7 == before.7) || ((T1::registered_id() != id / 65536 || call_ensures(T1::enabled, (), false)) && ((T2::registered_id() == id / 65536 && call_ensures(T2::enabled, (), true) && T2::answers(before.2, after.2, id, input_ptr, input_len, output_ptr, output_len_ptr, runtime, memory, r) && after.0 == before.0 && after.1 == before.1 && after.3 == before.3 && after.4 == before.4 && after.5 == before.5 && after.6 == before.6 && after.7 == before.7) || ((T2::registered_id() != id / 65536 || call_ensures(T2::enabled, (), false)) && ((T3::registered_id() == id / 65536 && call_ensures(T3::enabled, (), true) && T3::answers(before.3, after.3, id, input_ptr, input_len, output_ptr, output_len_ptr, runtime, memory, r) && after.0 == before.0 && after.1 == before.1 && after.2 == before.2 && after.4 == before.4 && after.5 == before.5 && after.6 == before.6 && after.7 == before.7) || ((T3::registered_id() != id / 65536 || call_ensures(T3::enabled, (), false)) && ((T4::registered_id() == id / 65536 && call_ensures(T4::enabled, (), true) && T4::answers(before.4, after.4, id, input_ptr, input_len, output_ptr, output_len_ptr, runtime, memory, r) && after.0 == before.0 && after.1 == before.1 && after.2 == before.2 && after.3 == before.3 && after.5 == before.5 && after.6 == before.6 && after.7 == before.7) || ((T4::registered_id() != id / 65536 || call_ensures(T4::enabled, (), false)) && ((T5::registered_id() == id / 65536 && call_ensures(T5::enabled, (), true) && T5::answers(before.5, after.5, id, input_ptr, input_len, output_ptr, output_len_ptr, runtime, memory, r) && after.0 == before.0 && after.1 == before.1 && after.2 == before.2 && after.3 == before.3 && after.4 == before.4 && after.6 == before.6 && after.7 == before.7) || ((T5::registered_id() != id / 65536 || call_ensures(T5::enabled, (), false)) && ((T6::registered_id() == id / 65536 && call_ensures(T6::enabled, (), true) && T6::answers(before.6, after.6, id, input_ptr, input_len, output_ptr, output_len_ptr, runtime, memory, r) && after.0 == before.0 && after.1 == before.1 && after.2 == before.2 && after.3 == before.3 && after.4 == before.4 && after.5 == before.5 && after.7 == before.7) || ((T6::registered_id() != id / 65536 || call_ensures(T6::enabled, (), false)) && ((T7::registered_id() == id / 65536 && call_ensures(T7::enabled, (), true) && T7::answers(before.7, after.7, id, input_ptr, input_len, output_ptr, output_len_ptr, runtime, memory, r) && after.0 == before.0 && after.1 == before.1 && after.2 == before.2 && after.3 == before.3 && after.4 == before.4 && after.5 == before.5 && after.6 == before.6) || ((T7::registered_id() != id / 65536 || call_ensures(T7::enabled, (), false)) && (r == Err::<RetVal, DispatchError>(DispatchError::Module(Error::NoChainExtension)) && after == before))))))))))))))))
    }

    fn call(&mut self, env: Environment<'_, InitState>) -> (r: Result<RetVal, DispatchError>)
        ensures
            T0::registered_id() != env.id() / 65536 && T1::registered_id() != env.id() / 65536 && T2::registered_id() != env.id() / 65536 && T3::registered_id() != env.id() / 65536 && T4::registered_id() != env.id() / 65536 && T5::registered_id() != env.id() / 65536 && T6::registered_id() != env.id() / 65536 && T7::registered_id() != env.id() / 65536 ==> r == Err::<RetVal, DispatchError>(DispatchError::Module(Error::NoChainExtension)),
            T0::registered_id() == env.id() / 65536 && (forall|b: bool| call_ensures(T0::enabled, (), b) ==> b) ==> T0::answers(old(self).0, final(self).0, env.id(), env.input_ptr(), env.input_len(), env.output_ptr(), env.output_len_ptr(), env.runtime(), env.memory(), r) && final(self).1 == old(self).1 && final(self).2 == old(self).2 && final(self).3 == old(self).3 && final(self).4 == old(self).4 && final(self).5 == old(self).5 && final(self).6 == old(self).6 && final(self).7 == old(self).7,
            T1::registered_id() == env.id() / 65536 && (forall|b: bool| call_ensures(T1::enabled, (), b) ==> b) && (T0::registered_id() != env.id() / 65536 || (forall|b: bool| call_ensures(T0::enabled, (), b) ==> !b)) ==> T1::answers(old(self).1, final(self).1, env.id(), env.input_ptr(), env.input_len(), env.output_ptr(), env.output_len_ptr(), env.runtime(), env.memory(), r) && final(self).0 == old(self).0 && final(self).2 == old(self).2 && final(self).3 == old(self).3 && final(self).4 == old(self).4 && final(self).5 == old(self).5 && final(self).6 == old(self).6 && final(self).7 == old(self).7,
            T2::registered_id() == env.id() / 65536 && (forall|b: bool| call_ensures(T2::enabled, (), b) ==> b) && (T0::registered_id() != env.id() / 65536 || (forall|b: bool| call_ensures(T0::enabled, (), b) ==> !b)) && (T1::registered_id() != env.id() / 65536 || (forall|b: bool| call_ensures(T1::enabled, (), b) ==> !b)) ==> T2::answers(old(self).2, final(self).2, env.id(), env.input_ptr(), env.input_len(), env.output_ptr(), env.output_len_ptr(), env.runtime(), env.memory(), r) && final(self).0 == old(self).0 && final(self).1 == old(self).1 && final(self).3 == old(self).3 && final(self).4 == old(self).4 && final(self).5 == old(self).5 && final(self).6 == old(self).6 && final(self).7 == old(self).7,
            T3::registered_id() == env.id() / 65536 && (forall|b: bool| call_ensures(T3::enabled, (), b) ==> b) && (T0::registered_id() != env.id() / 65536 || (forall|b: bool| call_ensures(T0::enabled, (), b) ==> !b)) && (T1::registered_id() != env.id() / 65536 || (forall|b: bool| call_ensures(T1::enabled, (), b) ==> !b)) && (T2::registered_id() != env.id() / 65536 || (forall|b: bool| call_ensures(T2::enabled, (), b) ==> !b)) ==> T3::answers(old(self).3, final(self).3, env.id(), env.input_ptr(), env.input_len(), env.output_ptr(), env.output_len_ptr(), env.runtime(), env.memory(), r) && final(self).0 == old(self).0 && final(self).1 == old(self).1 && final(self).2 == old(self).2 && final(self).4 == old(self).4 && final(self).5 == old(self).5 && final(self).6 == old(self).6 && final(self).7 == old(self).7,
            T4::registered_id() == env.id() / 65536 && (forall|b: bool| call_ensures(T4::enabled, (), b) ==> b) && (T0::registered_id() != env.id() / 65536 || (forall|b: bool| call_ensures(T0::enabled, (), b) ==> !b)) && (T1::registered_id() != env.id() / 65536 || (forall|b: bool| call_ensures(T1::enabled, (), b) ==> !b)) && (T2::registered_id() != env.id() / 65536 || (forall|b: bool| call_ensures(T2::enabled, (), b) ==> !b)) && (T3::registered_id() != env.id() / 65536 || (forall|b: bool| call_ensures(T3::enabled, (), b) ==> !b)) ==> T4::answers(old(self).4, final(self).4, env.id(), env.input_ptr(), env.input_len(), env.output_ptr(), env.output_len_ptr(), env.runtime(), env.memory(), r) && final(self).0 == old(self).0 && final(self).1 == old(self).1 && final(self).2 == old(self).2 && final(self).3 == old(self).3 && final(self).5 == old(self).5 && final(self).6 == old(self).6 && final(self).7 == old(self).7,
            T5::registered_id() == env.id() / 65536 && (forall|b: bool| call_ensures(T5::enabled, (), b) ==> b) && (T0::registered_id() != env.id() / 65536 || (forall|b: bool| call_ensures(T0::enabled, (), b) ==> !b)) && (T1::registered_id() != env.id() / 65536 || (forall|b: bool| call_ensures(T1::enabled, (), b) ==> !b)) && (T2::registered_id() != env.id() / 65536 || (forall|b: bool| call_ensures(T2::enabled, (), b) ==> !b)) && (T3::registered_id() != env.id() / 65536 || (forall|b: bool| call_ensures(T3::enabled, (), b) ==> !b)) && (T4::registered_id() != env.id() / 65536 || (forall|b: bool| call_ensures(T4::enabled, (), b) ==> !b)) ==> T5::answers(old(self).5, final(self).5, env.id(), env.input_ptr(), env.input_len(), env.output_ptr(), env.output_len_ptr(), env.runtime(), env.memory(), r) && final(self).0 == old(self).0 && final(self).1 == old(self).1 && final(self).2 == old(self).2 && final(self).3 == old(self).3 && final(self).4 == old(self).4 && final(self).6 == old(self).6 && final(self).7 == old(self).7,
            T6::registered_id() == env.id() / 65536 && (forall|b: bool| call_ensures(T6::enabled, (), b) ==> b) && (T0::registered_id() != env.id() / 65536 || (forall|b: bool| call_ensures(T0::enabled, (), b) ==> !b)) && (T1::registered_id() != env.id() / 65536 || (forall|b: bool| call_ensures(T1::enabled, (), b) ==> !b)) && (T2::registered_id() != env.id() / 65536 || (forall|b: bool| call_ensures(T2::enabled, (), b) ==> !b)) && (T3::registered_id() != env.id() / 65536 || (forall|b: bool| call_ensures(T3::enabled, (), b) ==> !b)) && (T4::registered_id() != env.id() / 65536 || (forall|b: bool| call_ensures(T4::enabled, (), b) ==> !b)) && (T5::registered_id() != env.id() / 65536 || (forall|b: bool| call_ensures(T5::enabled, (), b) ==> !b)) ==> T6::answers(old(self).6, final(self).6, env.id(), env.input_ptr(), env.input_len(), env.output_ptr(), env.output_len_ptr(), env.runtime(), env.memory(), r) && final(self).0 == old(self).0 && final(self).1 == old(self).1 && final(self).2 == old(self).2 && final(self).3 == old(self).3 && final(self).4 == old(self).4 && final(self).5 == old(self).5 && final(self).7 == old(self).7,
            T7::registered_id() == env.id() / 65536 && (forall|b: bool| call_ensures(T7::enabled, (), b) ==> b) && (T0::registered_id() != env.id() / 65536 || (forall|b: bool| call_ensures(T0::enabled, (), b) ==> !b)) && (T1::registered_id() != env.id() / 65536 || (forall|b: bool| call_ensures(T1::enabled, (), b) ==> !b)) && (T2::registered_id() != env.id() / 65536 || (forall|b: bool| call_ensures(T2::enabled, (), b) ==> !b)) && (T3::registered_id() != env.id() / 65536 || (forall|b: bool| call_ensures(T3::enabled, (), b) ==> !b)) && (T4::registered_id() != env.id() / 65536 || (forall|b: bool| call_ensures(T4::enabled, (), b) ==> !b)) && (T5::registered_id() != env.id() / 65536 || (forall|b: bool| call_ensures(T5::enabled, (), b) ==> !b)) && (T6::registered_id() != env.id() / 65536 || (forall|b: bool| call_ensures(T6::enabled, (), b) ==> !b)) ==> T7::answers(old(self).7, final(self).7, env.id(), env.input_ptr(), env.input_len(), env.output_ptr(), env.output_len_ptr(), env.runtime(), env.memory(), r) && final(self).0 == old(self).0 && final(self).1 == old(self).1 && final(self).2 == old(self).2 && final(self).3 == old(self).3 && final(self).4 == old(self).4 && final(self).5 == old(self).5 && final(self).6 == old(self).6,
    {
        if T0::id() == env.ext_id() && T0::enabled() {
            return self.0.call(env);
        }
        if T1::id() == env.ext_id() && T1::enabled() {
            return self.1.call(env);
        }
        if T2::id() == env.ext_id() && T2::enabled() {
            return self.2.call(env);
        }
        if T3::id() == env.ext_id() && T3::enabled() {
            return self.3.call(env);
        }
        if T4::id() == env.ext_id() && T4::enabled() {
            return self.4.call(env);
        }
        if T5::id() == env.ext_id() && T5::enabled() {
            return self.5.call(env);
        }
        if T6::id() == env.ext_id() && T6::enabled() {
            return self.6.call(env);
        }
        if T7::id() == env.ext_id() && T7::enabled() {
            return self.7.call(env);
        }
        Err(Error::NoChainExtension.into_dispatch_error())
    }

    fn enabled() -> (r: bool)
        ensures
            r ==> call_ensures(T0::enabled, (), true) || (call_ensures(T0::enabled, (), false) && (call_ensures(T1::enabled, (), true) || (call_ensures(T1::enabled, (), false) && (call_ensures(T2::enabled, (), true) || (call_ensures(T2::enabled, (), false) && (call_ensures(T3::enabled, (), true) || (call_ensures(T3::enabled, (), false) && (call_ensures(T4::enabled, (), true) || (call_ensures(T4::enabled, (), false) && (call_ensures(T5::enabled, (), true) || (call_ensures(T5::enabled, (), false) && (call_ensures(T6::enabled, (), true) || (call_ensures(T6::enabled, (), false) && (call_ensures(T7::enabled, (), true))))))))))))))),
            !r ==> call_ensures(T0::enabled, (), false) && call_ensures(T1::enabled, (), false) && call_ensures(T2::enabled, (), false) && call_ensures(T3::enabled, (), false) && call_ensures(T4::enabled, (), false) && call_ensures(T5::enabled, (), false) && call_ensures(T6::enabled, (), false) && call_ensures(T7::enabled, (), false),
    {
        if T0::enabled() {
            return true;
        }
        if T1::enabled() {
            return true;
        }
        if T2::enabled() {
            return true;
        }
        if T3::enabled() {
            return true;
        }
        if T4::enabled() {
            return true;
        }
        if T5::enabled() {
            return true;
        }
        if T6::enabled() {
            return true;
        }
        if T7::enabled() {
            return true;
        }
        false
    }
}

impl<T0: RegisteredChainExtension, T1: RegisteredChainExtension, T2: RegisteredChainExtension, T3: RegisteredChainExtension, T4: RegisteredChainExtension, T5: RegisteredChainExtension, T6: RegisteredChainExtension, T7: RegisteredChainExtension, T8: RegisteredChainExtension> ChainExtension for (T0, T1, T2, T3, T4, T5, T6, T7, T8) {
    /// The first extension whose identifier is the upper two bytes of `id` and that answers
    /// that it is enabled takes the request; the others stay as they were. Where none does,
    /// the answer is `NoChainExtension` and nothing changes.
    open spec fn answers(before: Self, after: Self, id: u32, input_ptr: u32, input_len: u32, output_ptr: u32, output_len_ptr: u32, runtime: Runtime, memory: Seq<u8>, r: Result<RetVal, DispatchError>) -> bool {
        (T0::registered_id() == id / 65536 && call_ensures(T0::enabled, (), true) && T0::answers(before.0, after.0, id, input_ptr, input_len, output_ptr, output_len_ptr, runtime, memory, r) && after.1 == before.1 && after.2 == before.2 && after.3 == before.3 && after.4 == before.4 && after.5 == before.5 && after.6 == before.6 && after.7 == before.7 && after.8 == before.8) || ((T0::registered_id() != id / 65536 || call_ensures(T0::enabled, (), false)) && ((T1::registered_id() == id / 65536 && call_ensures(T1::enabled, (), true) && T1::answers(before.1, after.1, id, input_ptr, input_len, output_ptr, output_len_ptr, runtime, memory, r) && after.0 == before.0 && after.2 == before.2 && after.3 == before.3 && after.4 == before.4 && after.5 == before.5 && after.6 == before.6 && after.7 == before.7 && after.8 == before.8) || ((T1::registered_id() != id / 65536 || call_ensures(T1::enabled, (), false)) && ((T2::registered_id() == id / 65536 && call_ensures(T2::enabled, (), true) && T2::answers(before.2, after.2, id, input_ptr, input_len, output_ptr, output_len_ptr, runtime, memory, r) && after.0 == before.0 && after.1 == before.1 && after.3 == before.3 && after.4 == before.4 && after.5 == before.5 && after.6 == before.6 && after.7 == before.7 && after.8 == before.8) || ((T2::registered_id() != id / 65536 || call_ensures(T2::enabled, (), false)) && ((T3::registered_id() == id / 65536 && call_ensures(T3::enabled, (), true) && T3::answers(before.3, after.3, id, input_ptr, input_len, output_ptr, output_len_ptr, runtime, memory, r) && after.0 == before.0 && after.1 == before.1 && after.2 == before.2 && after.4 == before.4 && after.5 == before.5 && after.6 == before.6 && after.7 == before.7 && after.8 == before.8) || ((T3::registered_id() != id / 65536 || call_ensures(T3::enabled, (), false)) && ((T4::registered_id() == id / 65536 && call_ensures(T4::enabled, (), true) && T4::answers(before.4, after.4, id, input_ptr, input_len, output_ptr, output_len_ptr, runtime, memory, r) && after.0 == before.0 && after.1 == before.1 && after.2 == before.2 && after.3 == before.3 && after.5 == before.5 && after.6 == before.6 && after.7 == before.7 && after.8 == before.8) || ((T4::registered_id() != id / 65536 || call_ensures(T4::enabled, (), false)) && ((T5::registered_id() == id / 65536 && call_ensures(T5::enabled, (), true) && T5::answers(before.5, after.5, id, input_ptr, input_len, output_ptr, output_len_ptr, runtime, memory, r) && after.0 == before.0 && after.1 == before.1 && after.2 == before.2 && after.3 == before.3 && after.4 == before.4 && after.6 == before.6 && after.7 == before.7 && after.8 == before.8) || ((T5::registered_id() != id / 65536 || call_ensures(T5::enabled, (), false)) && ((T6::registered_id() == id / 65536 && call_ensures(T6::enabled, (), true) && T6::answers(before.6, after.6, id, input_ptr, input_len, output_ptr, output_len_ptr, runtime, memory, r) && after.0 == before.0 && after.1 == before.1 && after.2 == before.2 && after.3 == before.3 && after.4 == before.4 && after.5 == before.5 && after.7 == before.7 && after.8 == before.8) || ((T6::registered_id() != id / 65536 || call_ensures(T6::enabled, (), false)) && ((T7::registered_id() == id / 65536 && call_ensures(T7::enabled, (), true) && T7::answers(before.7, after.7, id, input_ptr, input_len, output_ptr, output_len_ptr, runtime, memory, r) && after.0 == before.0 && after.1 == before.1 && after.2 == before.2 && after.3 == before.3 && after.4 == before.4 && after.5 == before.5 && after.6 == before.6 && after.8 == before.8) || ((T7::registered_id() != id / 65536 || call_ensures(T7::enabled, (), false)) && ((T8::registered_id() == id / 65536 && call_ensures(T8::enabled, (), true) && T8::answers(before.8, after.8, id, input_ptr, input_len, output_ptr, output_len_ptr, runtime, memory, r) && after.0 == before.0 && after.1 == before.1 && after.2 == before.2 && after.3 == before.3 && after.4 == before.4 && after.5 == before.5 && after.6 == before.6 && after.7 == before.7) || ((T8::registered_id() != id / 65536 || call_ensures(T8::enabled, (), false)) && (r == Err::<RetVal, DispatchError>(DispatchError::Module(Error::NoChainExtension)) && after == before))))))))))))))))))
    }

    fn call(&mut self, env: Environment<'_, InitState>) -> (r: Result<RetVal, DispatchError>)
        ensures
            T0::registered_id() != env.id() / 65536 && T1::registered_id() != env.id() / 65536 && T2::registered_id() != env.id() / 65536 && T3::registered_id() != env.id() / 65536 && T4::registered_id() != env.id() / 65536 && T5::registered_id() != env.id() / 65536 && T6::registered_id() != env.id() / 65536 && T7::registered_id() != env.id() / 65536 && T8::registered_id() != env.id() / 65536 ==> r == Err::<RetVal, DispatchError>(DispatchError::Module(Error::NoChainExtension)),
            T0::registered_id() == env.id() / 65536 && (forall|b: bool| call_ensures(T0::enabled, (), b) ==> b) ==> T0::answers(old(self).0, final(self).0, env.id(), env.input_ptr(), env.input_len(), env.output_ptr(), env.output_len_ptr(), env.runtime(), env.memory(), r) && final(self).1 == old(self).1 && final(self).2 == old(self).2 && final(self).3 == old(self).3 && final(self).4 == old(self).4 && final(self).5 == old(self).5 && final(self).6 == old(self).6 && final(self).7 == old(self).7 && final(self).8 == old(self).8,
            T1::registered_id() == env.id() / 65536 && (forall|b: bool| call_ensures(T1::enabled, (), b) ==> b) && (T0::registered_id() != env.id() / 65536 || (forall|b: bool| call_ensures(T0::enabled, (), b) ==> !b)) ==> T1::answers(old(self).1, final(self).1, env.id(), env.input_ptr(), env.input_len(), env.output_ptr(), env.output_len_ptr(), env.runtime(), env.memory(), r) && final(self).0 == old(self).0 && final(self).2 == old(self).2 && final(self).3 == old(self).3 && final(self).4 == old(self).4 && final(self).5 == old(self).5 && final(self).6 == old(self).6 && final(self).7 == old(self).7 && final(self).8 == old(self).8,
            T2::registered_id() == env.id() / 65536 && (forall|b: bool| call_ensures(T2::enabled, (), b) ==> b) && (T0::registered_id() != env.id() / 65536 || (forall|b: bool| call_ensures(T0::enabled, (), b) ==> !b)) && (T1::registered_id() != env.id() / 65536 || (forall|b: bool| call_ensures(T1::enabled, (), b) ==> !b)) ==> T2::answers(old(self).2, final(self).2, env.id(), env.input_ptr(), env.input_len(), env.output_ptr(), env.output_len_ptr(), env.runtime(), env.memory(), r) && final(self).0 == old(self).0 && final(self).1 == old(self).1 && final(self).3 == old(self).3 && final(self).4 == old(self).4 && final(self).5 == old(self).5 && final(self).6 == old(self).6 && final(self).7 == old(self).7 && final(self).8 == old(self).8,
            T3::registered_id() == env.id() / 65536 && (forall|b: bool| call_ensures(T3::enabled, (), b) ==> b) && (T0::registered_id() != env.id() / 65536 || (forall|b: bool| call_ensures(T0::enabled, (), b) ==> !b)) && (T1::registered_id() != env.id() / 65536 || (forall|b: bool| call_ensures(T1::enabled, (), b) ==> !b)) && (T2::registered_id() != env.id() / 65536 || (forall|b: bool| call_ensures(T2::enabled, (), b) ==> !b)) ==> T3::answers(old(self).3, final(self).3, env.id(), env.input_ptr(), env.input_len(), env.output_ptr(), env.output_len_ptr(), env.runtime(), env.memory(), r) && final(self).0 == old(self).0 && final(self).1 == old(self).1 && final(self).2 == old(self).2 && final(self).4 == old(self).4 && final(self).5 == old(self).5 && final(self).6 == old(self).6 && final(self).7 == old(self).7 && final(self).8 == old(self).8,
            T4::registered_id() == env.id() / 65536 && (forall|b: bool| call_ensures(T4::enabled, (), b) ==> b) && (T0::registered_id() != env.id() / 65536 || (forall|b: bool| call_ensures(T0::enabled, (), b) ==> !b)) && (T1::registered_id() != env.id() / 65536 || (forall|b: bool| call_ensures(T1::enabled, (), b) ==> !b)) && (T2::registered_id() != env.id() / 65536 || (forall|b: bool| call_ensures(T2::enabled, (), b) ==> !b)) && (T3::registered_id() != env.id() / 65536 || (forall|b: bool| call_ensures(T3::enabled, (), b) ==> !b)) ==> T4::answers(old(self).4, final(self).4, env.id(), env.input_ptr(), env.input_len(), env.output_ptr(), env.output_len_ptr(), env.runtime(), env.memory(), r) && final(self).0 == old(self).0 && final(self).1 == old(self).1 && final(self).2 == old(self).2 && final(self).3 == old(self).3 && final(self).5 == old(self).5 && final(self).6 == old(self).6 && final(self).7 == old(self).7 && final(self).8 == old(self).8,
            T5::registered_id() == env.id() / 65536 && (forall|b: bool| call_ensures(T5::enabled, (), b) ==> b) && (T0::registered_id() != env.id() / 65536 || (forall|b: bool| call_ensures(T0::enabled, (), b) ==> !b)) && (T1::registered_id() != env.id() / 65536 || (forall|b: bool| call_ensures(T1::enabled, (), b) ==> !b)) && (T2::registered_id() != env.id() / 65536 || (forall|b: bool| call_ensures(T2::enabled, (), b) ==> !b)) && (T3::registered_id() != env.id() / 65536 || (forall|b: bool| call_ensures(T3::enabled, (), b) ==> !b)) && (T4::registered_id() != env.id() / 65536 || (forall|b: bool| call_ensures(T4::enabled, (), b) ==> !b)) ==> T5::answers(old(self).5, final(self).5, env.id(), env.input_ptr(), env.input_len(), env.output_ptr(), env.output_len_ptr(), env.runtime(), env.memory(), r) && final(self).0 == old(self).0 && final(self).1 == old(self).1 && final(self).2 == old(self).2 && final(self).3 == old(self).3 && final(self).4 == old(self).4 && final(self).6 == old(self).6 && final(self).7 == old(self).7 && final(self).8 == old(self).8,
            T6::registered_id() == env.id() / 65536 && (forall|b: bool| call_ensures(T6::enabled, (), b) ==> b) && (T0::registered_id() != env.id() / 65536 || (forall|b: bool| call_ensures(T0::enabled, (), b) ==> !b)) && (T1::registered_id() != env.id() / 65536 || (forall|b: bool| call_ensures(T1::enabled, (), b) ==> !b)) && (T2::registered_id() != env.id() / 65536 || (forall|b: bool| call_ensures(T2::enabled, (), b) ==> !b)) && (T3::registered_id() != env.id() / 65536 || (forall|b: bool| call_ensures(T3::enabled, (), b) ==> !b)) && (T4::registered_id() != env.id() / 65536 || (forall|b: bool| call_ensures(T4::enabled, (), b) ==> !b)) && (T5::registered_id() != env.id() / 65536 || (forall|b: bool| call_ensures(T5::enabled, (), b) ==> !b)) ==> T6::answers(old(self).6, final(self).6, env.id(), env.input_ptr(), env.input_len(), env.output_ptr(), env.output_len_ptr(), env.runtime(), env.memory(), r) && final(self).0 == old(self).0 && final(self).1 == old(self).1 && final(self).2 == old(self).2 && final(self).3 == old(self).3 && final(self).4 == old(self).4 && final(self).5 == old(self).5 && final(self).7 == old(self).7 && final(self).8 == old(self).8,
            T7::registered_id() == env.id() / 65536 && (forall|b: bool| call_ensures(T7::enabled, (), b) ==> b) && (T0::registered_id() != env.id() / 65536 || (forall|b: bool| call_ensures(T0::enabled, (), b) ==> !b)) && (T1::registered_id() != env.id() / 65536 || (forall|b: bool| call_ensures(T1::enabled, (), b) ==> !b)) && (T2::registered_id() != env.id() / 65536 || (forall|b: bool| call_ensures(T2::enabled, (), b) ==> !b)) && (T3::registered_id() != env.id() / 65536 || (forall|b: bool| call_ensures(T3::enabled, (), b) ==> !b)) && (T4::registered_id() != env.id() / 65536 || (forall|b: bool| call_ensures(T4::enabled, (), b) ==> !b)) && (T5::registered_id() != env.id() / 65536 || (forall|b: bool| call_ensures(T5::enabled, (), b) ==> !b)) && (T6::registered_id() != env.id() / 65536 || (forall|b: bool| call_ensures(T6::enabled, (), b) ==> !b)) ==> T7::answers(old(self).7, final(self).7, env.id(), env.input_ptr(), env.input_len(), env.output_ptr(), env.output_len_ptr(), env.runtime(), env.memory(), r) && final(self).0 == old(self).0 && final(self).1 == old(self).1 && final(self).2 == old(self).2 && final(self).3 == old(self).3 && final(self).4 == old(self).4 && final(self).5 == old(self).5 && final(self).6 == old(self).6 && final(self).8 == old(self).8,
            T8::registered_id() == env.id() / 65536 && (forall|b: bool| call_ensures(T8::enabled, (), b) ==> b) && (T0::registered_id() != env.id() / 65536 || (forall|b: bool| call_ensures(T0::enabled, (), b) ==> !b)) && (T1::registered_id() != env.id() / 65536 || (forall|b: bool| call_ensures(T1::enabled, (), b) ==> !b)) && (T2::registered_id() != env.id() / 65536 || (forall|b: bool| call_ensures(T2::enabled, (), b) ==> !b)) && (T3::registered_id() != env.id() / 65536 || (forall|b: bool| call_ensures(T3::enabled, (), b) ==> !b)) && (T4::registered_id() != env.id() / 65536 || (forall|b: bool| call_ensures(T4::enabled, (), b) ==> !b)) && (T5::registered_id() != env.id() / 65536 || (forall|b: bool| call_ensures(T5::enabled, (), b) ==> !b)) && (T6::registered_id() != env.id() / 65536 || (forall|b: bool| call_ensures(T6::enabled, (), b) ==> !b)) && (T7::registered_id() != env.id() / 65536 || (forall|b: bool| call_ensures(T7::enabled, (), b) ==> !b)) ==> T8::answers(old(self).8, final(self).8, env.id(), env.input_ptr(), env.input_len(), env.output_ptr(), env.output_len_ptr(), env.runtime(), env.memory(), r) && final(self).0 == old(self).0 && final(self).1 == old(self).1 && final(self).2 == old(self).2 && final(self).3 == old(self).3 && final(self).4 == old(self).4 && final(self).5 == old(self).5 && final(self).6 == old(self).6 && final(self).7 == old(self).7,
    {
        if T0::id() == env.ext_id() && T0::enabled() {
            return self.0.call(env);
        }
        if T1::id() == env.ext_id() && T1::enabled() {
            return self.1.call(env);
        }
        if T2::id() == env.ext_id() && T2::enabled() {
            return self.2.call(env);
        }
        if T3::id() == env.ext_id() && T3::enabled() {
            return self.3.call(env);
        }
        if T4::id() == env.ext_id() && T4::enabled() {
            return self.4.call(env);
        }
        if T5::id() == env.ext_id() && T5::enabled() {
            return self.5.call(env);
        }
        if T6::id() == env.ext_id() && T6::enabled() {
            return self.6.call(env);
        }
        if T7::id() == env.ext_id() && T7::enabled() {
            return self.7.call(env);
        }
        if T8::id() == env.ext_id() && T8::enabled() {
            return self.8.call(env);
        }
        Err(Error::NoChainExtension.into_dispatch_error())
    }

    fn enabled() -> (r: bool)
        ensures
            r ==> call_ensures(T0::enabled, (), true) || (call_ensures(T0::enabled, (), false) && (call_ensures(T1::enabled, (), true) || (call_ensures(T1::enabled, (), false) && (call_ensures(T2::enabled, (), true) || (call_ensures(T2::enabled, (), false) && (call_ensures(T3::enabled, (), true) || (call_ensures(T3::enabled, (), false) && (call_ensures(T4::enabled, (), true) || (call_ensures(T4::enabled, (), false) && (call_ensures(T5::enabled, (), true) || (call_ensures(T5::enabled, (), false) && (call_ensures(T6::enabled, (), true) || (call_ensures(T6::enabled, (), false) && (call_ensures(T7::enabled, (), true) || (call_ensures(T7::enabled, (), false) && (call_ensures(T8::enabled, (), true))))))))))))))))),
            !r ==> call_ensures(T0::enabled, (), false) && call_ensures(T1::enabled, (), false) && call_ensures(T2::enabled, (), false) && call_ensures(T3::enabled, (), false) && call_ensures(T4::enabled, (), false) && call_ensures(T5::enabled, (), false) && call_ensures(T6::enabled, (), false) && call_ensures(T7::enabled, (), false) && call_ensures(T8::enabled, (), false),
    {
        if T0::enabled() {
            return true;
        }
        if T1::enabled() {
            return true;
        }
        if T2::enabled() {
            return true;
        }
        if T3::enabled() {
            return true;
        }
        if T4::enabled() {
            return true;
        }
        if T5::enabled() {
            return true;
        }
        if T6::enabled() {
            return true;
        }
        if T7::enabled() {
            return true;
        }
        if T8::enabled() {
            return true;
        }
        false
    }
}

impl<T0: RegisteredChainExtension, T1: RegisteredChainExtension, T2: RegisteredChainExtension, T3: RegisteredChainExtension, T4: RegisteredChainExtension, T5: RegisteredChainExtension, T6: RegisteredChainExtension, T7: RegisteredChainExtension, T8: RegisteredChainExtension, T9: RegisteredChainExtension> ChainExtension for (T0, T1, T2, T3, T4, T5, T6, T7, T8, T9) {
    /// The first extension whose identifier is the upper two bytes of `id` and that answers
    /// that it is enabled takes the request; the others stay as they were. Where none does,
    /// the answer is `NoChainExtension` and nothing changes.
    open spec fn answers(before: Self, after: Self, id: u32, input_ptr: u32, input_len: u32, output_ptr: u32, output_len_ptr: u32, runtime: Runtime, memory: Seq<u8>, r: Result<RetVal, DispatchError>) -> bool {
        (T0::registered_id() == id / 65536 && call_ensures(T0::enabled, (), true) && T0::answers(before.0, after.0, id, input_ptr, input_len, output_ptr, output_len_ptr, runtime, memory, r) && after.1 == before.1 && after.2 == before.2 && after.3 == before.3 && after.4 == before.4 && after.5 == before.5 && after.6 == before.6 && after.7 == before.7 && after.8 == before.8 && after.9 == before.9) || ((T0::registered_id() != id / 65536 || call_ensures(T0::enabled, (), false)) && ((T1::registered_id() == id / 65536 && call_ensures(T1::enabled, (), true) && T1::answers(before.1, after.1, id, input_ptr, input_len, output_ptr, output_len_ptr, runtime, memory, r) && after.0 == before.0 && after.2 == before.2 && after.3 == before.3 && after.4 == before.4 && after.5 == before.5 && after.6 == before.6 && after.7 == before.7 && after.8 == before.8 && after.9 == before.9) || ((T1::registered_id() != id / 65536 || call_ensures(T1::enabled, (), false)) && ((T2::registered_id() == id / 65536 && call_ensures(T2::enabled, (), true) && T2::answers(before.2, after.2, id, input_ptr, input_len, output_ptr, output_len_ptr, runtime, memory, r) && after.0 == before.0 && after.1 == before.1 && after.3 == before.3 && after.4 == before.4 && after.5 == before.5 && after.6 == before.6 && after.7 == before.7 && after.8 == before.8 && after.9 == before.9) || ((T2::registered_id() != id / 65536 || call_ensures(T2::enabled, (), false)) && ((T3::registered_id() == id / 65536 && call_ensures(T3::enabled, (), true) && T3::answers(before.3, after.3, id, input_ptr, input_len, output_ptr, output_len_ptr, runtime, memory, r) && after.0 == before.0 && after.1 == before.1 && after.2 == before.2 && after.4 == before.4 && after.5 == before.5 && after.6 == before.6 && after.7 == before.7 && after.8 == before.8 && after.9 == before.9) || ((T3::registered_id() != id / 65536 || call_ensures(T3::enabled, (), false)) && ((T4::registered_id() == id / 65536 && call_ensures(T4::enabled, (), true) && T4::answers(before.4, after.4, id, input_ptr, input_len, output_ptr, output_len_ptr, runtime, memory, r) && after.0 == before.0 && after.1 == before.1 && after.2 == before.2 && after.3 == before.3 && after.5 == before.5 && after.6 == before.6 && after.7 == before.7 && after.8 == before.8 && after.9 == before.9) || ((T4::registered_id() != id / 65536 || call_ensures(T4::enabled, (), false)) && ((T5::registered_id() == id / 65536 && call_ensures(T5::enabled, (), true) && T5::answers(before.5, after.5, id, input_ptr, input_len, output_ptr, output_len_ptr, runtime, memory, r) && after.0 == before.0 && after.1 == before.1 && after.2 == before.2 && after.3 == before.3 && after.4 == before.4 && after.6 == before.6 && after.7 == before.7 && after.8 == before.8 && after.9 == before.9) || ((T5::registered_id() != id / 65536 || call_ensures(T5::enabled, (), false)) && ((T6::registered_id() == id / 65536 && call_ensures(T6::enabled, (), true) && T6::answers(before.6, after.6, id, input_ptr, input_len, output_ptr, output_len_ptr, runtime, memory, r) && after.0 == before.0 && after.1 == before.1 && after.2 == before.2 && after.3 == before.3 && after.4 == before.4 && after.5 == before.5 && after.7 == before.7 && after.8 == before.8 && after.9 == before.9) || ((T6::registered_id() != id / 65536 || call_ensures(T6::enabled, (), false)) && ((T7::registered_id() == id / 65536 && call_ensures(T7::enabled, (), true) && T7::answers(before.7, after.7, id, input_ptr, input_len, output_ptr, output_len_ptr, runtime, memory, r) && after.0 == before.0 && after.1 == before.1 && after.2 == before.2 && after.3 == before.3 && after.4 == before.4 && after.5 == before.5 && after.6 == before.6 && after.8 == before.8 && after.9 == before.9) || ((T7::registered_id() != id / 65536 || call_ensures(T7::enabled, (), false)) && ((T8::registered_id() == id / 65536 && call_ensures(T8::enabled, (), true) && T8::answers(before.8, after.8, id, input_ptr, input_len, output_ptr, output_len_ptr, runtime, memory, r) && after.0 == before.0 && after.1 == before.1 && after.2 == before.2 && after.3 == before.3 && after.4 == before.4 && after.5 == before.5 && after.6 == before.6 && after.7 == before.7 && after.9 == before.9) || ((T8::registered_id() != id / 65536 || call_ensures(T8::enabled, (), false)) && ((T9::registered_id() == id / 65536 && call_ensures(T9::enabled, (), true) && T9::answers(before.9, after.9, id, input_ptr, input_len, output_ptr, output_len_ptr, runtime, memory, r) && after.0 == before.0 && after.1 == before.1 && after.2 == before.2 && after.3 == before.3 && after.4 == before.4 && after.5 == before.5 && after.6 == before.6 && after.7 == before.7 && after.8 == before.8) || ((T9::registered_id() != id / 65536 || call_ensures(T9::enabled, (), false)) && (r == Err::<RetVal, DispatchError>(DispatchError::Module(Error::NoChainExtension)) && after == before))))))))))))))))))))
    }

    fn call(&mut self, env: Environment<'_, InitState>) -> (r: Result<RetVal, DispatchError>)
        ensures
            T0::registered_id() != env.id() / 65536 && T1::registered_id() != env.id() / 65536 && T2::registered_id() != env.id() / 65536 && T3::registered_id() != env.id() / 65536 && T4::registered_id() != env.id() / 65536 && T5::registered_id() != env.id() / 65536 && T6::registered_id() != env.id() / 65536 && T7::registered_id() != env.id() / 65536 && T8::registered_id() != env.id() / 65536 && T9::registered_id() != env.id() / 65536 ==> r == Err::<RetVal, DispatchError>(DispatchError::Module(Error::NoChainExtension)),
            T0::registered_id() == env.id() / 65536 && (forall|b: bool| call_ensures(T0::enabled, (), b) ==> b) ==> T0::answers(old(self).0, final(self).0, env.id(), env.input_ptr(), env.input_len(), env.output_ptr(), env.output_len_ptr(), env.runtime(), env.memory(), r) && final(self).1 == old(self).1 && final(self).2 == old(self).2 && final(self).3 == old(self).3 && final(self).4 == old(self).4 && final(self).5 == old(self).5 && final(self).6 == old(self).6 && final(self).7 == old(self).7 && final(self).8 == old(self).8 && final(self).9 == old(self).9,
            T1::registered_id() == env.id() / 65536 && (forall|b: bool| call_ensures(T1::enabled, (), b) ==> b) && (T0::registered_id() != env.id() / 65536 || (forall|b: bool| call_ensures(T0::enabled, (), b) ==> !b)) ==> T1::answers(old(self).1, final(self).1, env.id(), env.input_ptr(), env.input_len(), env.output_ptr(), env.output_len_ptr(), env.runtime(), env.memory(), r) && final(self).0 == old(self).0 && final(self).2 == old(self).2 && final(self).3 == old(self).3 && final(self).4 == old(self).4 && final(self).5 == old(self).5 && final(self).6 == old(self).6 && final(self).7 == old(self).7 && final(self).8 == old(self).8 && final(self).9 == old(self).9,
            T2::registered_id() == env.id() / 65536 && (forall|b: bool| call_ensures(T2::enabled, (), b) ==> b) && (T0::registered_id() != env.id() / 65536 || (forall|b: bool| call_ensures(T0::enabled, (), b) ==> !b)) && (T1::registered_id() != env.id() / 65536 || (forall|b: bool| call_ensures(T1::enabled, (), b) ==> !b)) ==> T2::answers(old(self).2, final(self).2, env.id(), env.input_ptr(), env.input_len(), env.output_ptr(), env.output_len_ptr(), env.runtime(), env.memory(), r) && final(self).0 == old(self).0 && final(self).1 == old(self).1 && final(self).3 == old(self).3 && final(self).4 == old(self).4 && final(self).5 == old(self).5 && final(self).6 == old(self).6 && final(self).7 == old(self).7 && final(self).8 == old(self).8 && final(self).9 == old(self).9,
            T3::registered_id() == env.id() / 65536 && (forall|b: bool| call_ensures(T3::enabled, (), b) ==> b) && (T0::registered_id() != env.id() / 65536 || (forall|b: bool| call_ensures(T0::enabled, (), b) ==> !b)) && (T1::registered_id() != env.id() / 65536 || (forall|b: bool| call_ensures(T1::enabled, (), b) ==> !b)) && (T2::registered_id() != env.id() / 65536 || (forall|b: bool| call_ensures(T2::enabled, (), b) ==> !b)) ==> T3::answers(old(self).3, final(self).3, env.id(), env.input_ptr(), env.input_len(), env.output_ptr(), env.output_len_ptr(), env.runtime(), env.memory(), r) && final(self).0 == old(self).0 && final(self).1 == old(self).1 && final(self).2 == old(self).2 && final(self).4 == old(self).4 && final(self).5 == old(self).5 && final(self).6 == old(self).6 && final(self).7 == old(self).7 && final(self).8 == old(self).8 && final(self).9 == old(self).9,
            T4::registered_id() == env.id() / 65536 && (forall|b: bool| call_ensures(T4::enabled, (), b) ==> b) && (T0::registered_id() != env.id() / 65536 || (forall|b: bool| call_ensures(T0::enabled, (), b) ==> !b)) && (T1::registered_id() != env.id() / 65536 || (forall|b: bool| call_ensures(T1::enabled, (), b) ==> !b)) && (T2::registered_id() != env.id() / 65536 || (forall|b: bool| call_ensures(T2::enabled, (), b) ==> !b)) && (T3::registered_id() != env.id() / 65536 || (forall|b: bool| call_ensures(T3::enabled, (), b) ==> !b)) ==> T4::answers(old(self).4, final(self).4, env.id(), env.input_ptr(), env.input_len(), env.output_ptr(), env.output_len_ptr(), env.runtime(), env.memory(), r) && final(self).0 == old(self).0 && final(self).1 == old(self).1 && final(self).2 == old(self).2 && final(self).3 == old(self).3 && final(self).5 == old(self).5 && final(self).6 == old(self).6 && final(self).7 == old(self).7 && final(self).8 == old(self).8 && final(self).9 == old(self).9,
            T5::registered_id() == env.id() / 65536 && (forall|b: bool| call_ensures(T5::enabled, (), b) ==> b) && (T0::registered_id() != env.id() / 65536 || (forall|b: bool| call_ensures(T0::enabled, (), b) ==> !b)) && (T1::registered_id() != env.id() / 65536 || (forall|b: bool| call_ensures(T1::enabled, (), b) ==> !b)) && (T2::registered_id() != env.id() / 65536 || (forall|b: bool| call_ensures(T2::enabled, (), b) ==> !b)) && (T3::registered_id() != env.id() / 65536 || (forall|b: bool| call_ensures(T3::enabled, (), b) ==> !b)) && (T4::registered_id() != env.id() / 65536 || (forall|b: bool| call_ensures(T4::enabled, (), b) ==> !b)) ==> T5::answers(old(self).5, final(self).5, env.id(), env.input_ptr(), env.input_len(), env.output_ptr(), env.output_len_ptr(), env.runtime(), env.memory(), r) && final(self).0 == old(self).0 && final(self).1 == old(self).1 && final(self).2 == old(self).2 && final(self).3 == old(self).3 && final(self).4 == old(self).4 && final(self).6 == old(self).6 && final(self).7 == old(self).7 && final(self).8 == old(self).8 && final(self).9 == old(self).9,
            T6::registered_id() == env.id() / 65536 && (forall|b: bool| call_ensures(T6::enabled, (), b) ==> b) && (T0::registered_id() != env.id() / 65536 || (forall|b: bool| call_ensures(T0::enabled, (), b) ==> !b)) && (T1::registered_id() != env.id() / 65536 || (forall|b: bool| call_ensures(T1::enabled, (), b) ==> !b)) && (T2::registered_id() != env.id() / 65536 || (forall|b: bool| call_ensures(T2::enabled, (), b) ==> !b)) && (T3::registered_id() != env.id() / 65536 || (forall|b: bool| call_ensures(T3::enabled, (), b) ==> !b)) && (T4::registered_id() != env.id() / 65536 || (forall|b: bool| call_ensures(T4::enabled, (), b) ==> !b)) && (T5::registered_id() != env.id() / 65536 || (forall|b: bool| call_ensures(T5::enabled, (), b) ==> !b)) ==> T6::answers(old(self).6, final(self).6, env.id(), env.input_ptr(), env.input_len(), env.output_ptr(), env.output_len_ptr(), env.runtime(), env.memory(), r) && final(self).0 == old(self).0 && final(self).1 == old(self).1 && final(self).2 == old(self).2 && final(self).3 == old(self).3 && final(self).4 == old(self).4 && final(self).5 == old(self).5 && final(self).7 == old(self).7 && final(self).8 == old(self).8 && final(self).9 == old(self).9,
            T7::registered_id() == env.id() / 65536 && (forall|b: bool| call_ensures(T7::enabled, (), b) ==> b) && (T0::registered_id() != env.id() / 65536 || (forall|b: bool| call_ensures(T0::enabled, (), b) ==> !b)) && (T1::registered_id() != env.id() / 65536 || (forall|b: bool| call_ensures(T1::enabled, (), b) ==> !b)) && (T2::registered_id() != env.id() / 65536 || (forall|b: bool| call_ensures(T2::enabled, (), b) ==> !b)) && (T3::registered_id() != env.id() / 65536 || (forall|b: bool| call_ensures(T3::enabled, (), b) ==> !b)) && (T4::registered_id() != env.id() / 65536 || (forall|b: bool| call_ensures(T4::enabled, (), b) ==> !b)) && (T5::registered_id() != env.id() / 65536 || (forall|b: bool| call_ensures(T5::enabled, (), b) ==> !b)) && (T6::registered_id() != env.id() / 65536 || (forall|b: bool| call_ensures(T6::enabled, (), b) ==> !b)) ==> T7::answers(old(self).7, final(self).7, env.id(), env.input_ptr(), env.input_len(), env.output_ptr(), env.output_len_ptr(), env.runtime(), env.memory(), r) && final(self).0 == old(self).0 && final(self).1 == old(self).1 && final(self).2 == old(self).2 && final(self).3 == old(self).3 && final(self).4 == old(self).4 && final(self).5 == old(self).5 && final(self).6 == old(self).6 && final(self).8 == old(self).8 && final(self).9 == old(self).9,
            T8::registered_id() == env.id() / 65536 && (forall|b: bool| call_ensures(T8::enabled, (), b) ==> b) && (T0::registered_id() != env.id() / 65536 || (forall|b: bool| call_ensures(T0::enabled, (), b) ==> !b)) && (T1::registered_id() != env.id() / 65536 || (forall|b: bool| call_ensures(T1::enabled, (), b) ==> !b)) && (T2::registered_id() != env.id() / 65536 || (forall|b: bool| call_ensures(T2::enabled, (), b) ==> !b)) && (T3::registered_id() != env.id() / 65536 || (forall|b: bool| call_ensures(T3::enabled, (), b) ==> !b)) && (T4::registered_id() != env.id() / 65536 || (forall|b: bool| call_ensures(T4::enabled, (), b) ==> !b)) && (T5::registered_id() != env.id() / 65536 || (forall|b: bool| call_ensures(T5::enabled, (), b) ==> !b)) && (T6::registered_id() != env.id() / 65536 || (forall|b: bool| call_ensures(T6::enabled, (), b) ==> !b)) && (T7::registered_id() != env.id() / 65536 || (forall|b: bool| call_ensures(T7::enabled, (), b) ==> !b)) ==> T8::answers(old(self).8, final(self).8, env.id(), env.input_ptr(), env.input_len(), env.output_ptr(), env.output_len_ptr(), env.runtime(), env.memory(), r) && final(self).0 == old(self).0 && final(self).1 == old(self).1 && final(self).2 == old(self).2 && final(self).3 == old(self).3 && final(self).4 == old(self).4 && final(self).5 == old(self).5 && final(self).6 == old(self).6 && final(self).7 == old(self).7 && final(self).9 == old(self).9,
            T9::registered_id() == env.id() / 65536 && (forall|b: bool| call_ensures(T9::enabled, (), b) ==> b) && (T0::registered_id() != env.id() / 65536 || (forall|b: bool| call_ensures(T0::enabled, (), b) ==> !b)) && (T1::registered_id() != env.id() / 65536 || (forall|b: bool| call_ensures(T1::enabled, (), b) ==> !b)) && (T2::registered_id() != env.id() / 65536 || (forall|b: bool| call_ensures(T2::enabled, (), b) ==> !b)) && (T3::registered_id() != env.id() / 65536 || (forall|b: bool| call_ensures(T3::enabled, (), b) ==> !b)) && (T4::registered_id() != env.id() / 65536 || (forall|b: bool| call_ensures(T4::enabled, (), b) ==> !b)) && (T5::registered_id() != env.id() / 65536 || (forall|b: bool| call_ensures(T5::enabled, (), b) ==> !b)) && (T6::registered_id() != env.id() / 65536 || (forall|b: bool| call_ensures(T6::enabled, (), b) ==> !b)) && (T7::registered_id() != env.id() / 65536 || (forall|b: bool| call_ensures(T7::enabled, (), b) ==> !b)) && (T8::registered_id() != env.id() / 65536 || (forall|b: bool| call_ensures(T8::enabled, (), b) ==> !b)) ==> T9::answers(old(self).9, final(self).9, env.id(), env.input_ptr(), env.input_len(), env.output_ptr(), env.output_len_ptr(), env.runtime(), env.memory(), r) && final(self).0 == old(self).0 && final(self).1 == old(self).1 && final(self).2 == old(self).2 && final(self).3 == old(self).3 && final(self).4 == old(self).4 && final(self).5 == old(self).5 && final(self).6 == old(self).6 && final(self).7 == old(self).7 && final(self).8 == old(self).8,
    {
        if T0::id() == env.ext_id() && T0::enabled() {
            return self.0.call(env);
        }
        if T1::id() == env.ext_id() && T1::enabled() {
            return self.1.call(env);
        }
        if T2::id() == env.ext_id() && T2::enabled() {
            return self.2.call(env);
        }
        if T3::id() == env.ext_id() && T3::enabled() {
            return self.3.call(env);
        }
        if T4::id() == env.ext_id() && T4::enabled() {
            return self.4.call(env);
        }
        if T5::id() == env.ext_id() && T5::enabled() {
            return self.5.call(env);
        }
        if T6::id() == env.ext_id() && T6::enabled() {
            return self.6.call(env);
        }
        if T7::id() == env.ext_id() && T7::enabled() {
            return self.7.call(env);
        }
        if T8::id() == env.ext_id() && T8::enabled() {
            return self.8.call(env);
        }
        if T9::id() == env.ext_id() && T9::enabled() {
            return self.9.call(env);
        }
        Err(Error::NoChainExtension.into_dispatch_error())
    }

    fn enabled() -> (r: bool)
        ensures
            r ==> call_ensures(T0::enabled, (), true) || (call_ensures(T0::enabled, (), false) && (call_ensures(T1::enabled, (), true) || (call_ensures(T1::enabled, (), false) && (call_ensures(T2::enabled, (), true) || (call_ensures(T2::enabled, (), false) && (call_ensures(T3::enabled, (), true) || (call_ensures(T3::enabled, (), false) && (call_ensures(T4::enabled, (), true) || (call_ensures(T4::enabled, (), false) && (call_ensures(T5::enabled, (), true) || (call_ensures(T5::enabled, (), false) && (call_ensures(T6::enabled, (), true) || (call_ensures(T6::enabled, (), false) && (call_ensures(T7::enabled, (), true) || (call_ensures(T7::enabled, (), false) && (call_ensures(T8::enabled, (), true) || (call_ensures(T8::enabled, (), false) && (call_ensures(T9::enabled, (), true))))))))))))))))))),
            !r ==> call_ensures(T0::enabled, (), false) && call_ensures(T1::enabled, (), false) && call_ensures(T2::enabled, (), false) && call_ensures(T3::enabled, (), false) && call_ensures(T4::enabled, (), false) && call_ensures(T5::enabled, (), false) && call_ensures(T6::enabled, (), false) && call_ensures(T7::enabled, (), false) && call_ensures(T8::enabled, (), false) && call_ensures(T9::enabled, (), false),
    {
        if T0::enabled() {
            return true;
        }
        if T1::enabled() {
            return true;
        }
        if T2::enabled() {
            return true;
        }
        if T3::enabled() {
            return true;
        }
        if T4::enabled() {
            return true;
        }
        if T5::enabled() {
            return true;
        }
        if T6::enabled() {
            return true;
        }
        if T7::enabled() {
            return true;
        }
        if T8::enabled() {
            return true;
        }
        if T9::enabled() {
            return true;
        }
        false
    }
}

/// Determines the exit behaviour and return value of a chain extension.
#[derive(Clone, Debug)]
pub enum RetVal {
    /// The chain extension returns the supplied value to its calling contract.
    Converging(u32),
    /// The control does **not** return to the calling contract: as with `seal_return`, the
    /// caller of the current contract gets the supplied buffer and flags.
    Diverging { flags: ReturnFlags, data: Vec<u8> },
}

/// Any state of an [`Environment`] implements this trait.
pub trait State: sealed::Sealed {}

/// A state that uses primitive inputs.
pub trait PrimIn: State {}

/// A state that uses primitive outputs.
pub trait PrimOut: State {}

/// A state that uses a buffer as input.
pub trait BufIn: State {}

/// A state that uses a buffer as output.
pub trait BufOut: State {}

/// The initial state of an [`Environment`].
pub enum InitState {
    Marker,
}

/// A state that uses all arguments as primitive inputs.
pub enum OnlyInState {
    Marker,
}

/// A state that uses two arguments as primitive inputs and the other two as buffer output.
pub enum PrimInBufOutState {
    Marker,
}

/// Uses a buffer for input and a buffer for output.
pub enum BufInBufOutState {
    Marker,
}

impl sealed::Sealed for InitState {}

impl sealed::Sealed for OnlyInState {}

impl sealed::Sealed for PrimInBufOutState {}

impl sealed::Sealed for BufInBufOutState {}

impl State for InitState {}

impl State for OnlyInState {}

impl State for PrimInBufOutState {}

impl State for BufInBufOutState {}

impl PrimIn for OnlyInState {}

impl PrimOut for OnlyInState {}

impl PrimIn for PrimInBufOutState {}

impl BufOut for PrimInBufOutState {}

impl BufIn for BufInBufOutState {}

impl BufOut for BufInBufOutState {}

/// The actual data of an `Environment`.
pub(crate) struct Inner<'a> {
    /// The runtime of the running contract.
    pub(crate) runtime: &'a mut Runtime,
    /// The contract's memory.
    pub(crate) memory: &'a mut Vec<u8>,
    /// Verbatim argument passed to `seal_call_chain_extension`.
    pub(crate) id: u32,
    /// Verbatim argument passed to `seal_call_chain_extension`.
    pub(crate) input_ptr: u32,
    /// Verbatim argument passed to `seal_call_chain_extension`.
    pub(crate) input_len: u32,
    /// Verbatim argument passed to `seal_call_chain_extension`.
    pub(crate) output_ptr: u32,
    /// Verbatim argument passed to `seal_call_chain_extension`.
    pub(crate) output_len_ptr: u32,
}

/// Grants the chain extension access to its parameters and execution environment.
///
/// The state `S` enforces, in the type system, how the parameters may be used.
pub struct Environment<'a, S: State> {
    pub(crate) inner: Inner<'a>,
    phantom: PhantomData<S>,
}

/// Functions that are available in every state of this type.
impl<'a, S: State> Environment<'a, S> {
    /// The `id` passed by the contract.
    pub closed spec fn id(&self) -> u32 {
        self.inner.id
    }

    /// The `input_ptr` argument.
    pub closed spec fn input_ptr(&self) -> u32 {
        self.inner.input_ptr
    }

    /// The `input_len` argument.
    pub closed spec fn input_len(&self) -> u32 {
        self.inner.input_len
    }

    /// The `output_ptr` argument.
    pub closed spec fn output_ptr(&self) -> u32 {
        self.inner.output_ptr
    }

    /// The `output_len_ptr` argument.
    pub closed spec fn output_len_ptr(&self) -> u32 {
        self.inner.output_len_ptr
    }

    /// The runtime of the running contract.
    pub closed spec fn runtime(&self) -> Runtime {
        *self.inner.runtime
    }

    /// The contract's memory.
    pub closed spec fn memory(&self) -> Seq<u8> {
        self.inner.memory@
    }

    /// `other` has the same arguments as `self`.
    pub open spec fn same_args<T: State>(&self, other: &Environment<'a, T>) -> bool {
        &&& self.id() == other.id()
        &&& self.input_ptr() == other.input_ptr()
        &&& self.input_len() == other.input_len()
        &&& self.output_ptr() == other.output_ptr()
        &&& self.output_len_ptr() == other.output_len_ptr()
    }

    /// The function id: the two least significant bytes of the `id` passed by the contract.
    pub fn func_id(&self) -> (r: u16)
        ensures
            r as int == self.id() as int % 65536,
    {
        let id = self.inner.id;
        assert(id & 0x0000FFFF == id % 65536) by (bit_vector);
        (id & 0x0000FFFF) as u16
    }

    /// The chain extension id: the two most significant bytes of the `id` passed by the
    /// contract.
    pub fn ext_id(&self) -> (r: u16)
        ensures
            r as int == self.id() as int / 65536,
    {
        let id = self.inner.id;
        assert(id >> 16 == id / 65536) by (bit_vector);
        (id >> 16) as u16
    }

    /// Charges `amount` of weight from the overall limit: `Ok` when the remaining weight
    /// covers it, `Err` otherwise, in which case the extension should abort and pass the
    /// error through.
    pub fn charge_weight(&mut self, amount: Weight) -> (r: Result<ChargedAmount, DispatchError>)
        ensures
            final(self).same_args(old(self)),
            final(self).memory() == old(self).memory(),
            can_charge(old(self).runtime(), RuntimeCosts::ChainExtension(amount)) ==> r == Ok::<ChargedAmount, DispatchError>(ChargedAmount { amount })
                && final(self).runtime() == after_charge(old(self).runtime(), RuntimeCosts::ChainExtension(amount)),
            !can_charge(old(self).runtime(), RuntimeCosts::ChainExtension(amount)) ==> r == Err::<ChargedAmount, DispatchError>(DispatchError::Module(Error::OutOfGas))
                && final(self).runtime() == old(self).runtime(),
    {
        self.inner.runtime.charge_gas(RuntimeCosts::ChainExtension(amount))
    }

    /// Adjusts a previously charged amount down to `actual_weight`, refunding the rest.
    pub fn adjust_weight(&mut self, charged: ChargedAmount, actual_weight: Weight)
        ensures
            final(self).same_args(old(self)),
            final(self).memory() == old(self).memory(),
            final(self).runtime() == (Runtime {
                gas_meter: crate::gas::GasMeter { gas_left: weight_add(old(self).runtime().gas_meter.gas_left, weight_sub(charged.amount, actual_weight)) },
                ..old(self).runtime()
            }),
    {
        self.inner.runtime.adjust_gas(charged, RuntimeCosts::ChainExtension(actual_weight))
    }
}

/// Functions that are only available in the initial state: they decide how the arguments to
/// the chain extension are consumed.
impl<'a> Environment<'a, InitState> {
    /// Creates a new environment for consumption by a chain extension.
    pub(crate) fn new(
        runtime: &'a mut Runtime,
        memory: &'a mut Vec<u8>,
        id: u32,
        input_ptr: u32,
        input_len: u32,
        output_ptr: u32,
        output_len_ptr: u32,
    ) -> (r: Self)
        ensures
            r.id() == id,
            r.input_ptr() == input_ptr,
            r.input_len() == input_len,
            r.output_ptr() == output_ptr,
            r.output_len_ptr() == output_len_ptr,
            r.runtime() == *old(runtime),
            r.memory() == old(memory)@,
    {
        Environment {
            inner: Inner { runtime, memory, id, input_ptr, input_len, output_ptr, output_len_ptr },
            phantom: PhantomData,
        }
    }

    /// Use all arguments as integer values.
    pub fn only_in(self) -> (r: Environment<'a, OnlyInState>)
        ensures
            r.same_args(&self),
            r.runtime() == self.runtime(),
            r.memory() == self.memory(),
    {
        Environment { inner: self.inner, phantom: PhantomData }
    }

    /// Use input arguments as integer and output arguments as pointer to a buffer.
    pub fn prim_in_buf_out(self) -> (r: Environment<'a, PrimInBufOutState>)
        ensures
            r.same_args(&self),
            r.runtime() == self.runtime(),
            r.memory() == self.memory(),
    {
        Environment { inner: self.inner, phantom: PhantomData }
    }

    /// Use input and output arguments as pointers to a buffer.
    pub fn buf_in_buf_out(self) -> (r: Environment<'a, BufInBufOutState>)
        ensures
            r.same_args(&self),
            r.runtime() == self.runtime(),
            r.memory() == self.memory(),
    {
        Environment { inner: self.inner, phantom: PhantomData }
    }
}

/// Functions to use the input arguments as integers.
impl<'a, S: PrimIn> Environment<'a, S> {
    /// The `input_ptr` argument.
    pub fn val0(&self) -> (r: u32)
        ensures
            r == self.input_ptr(),
    {
        self.inner.input_ptr
    }

    /// The `input_len` argument.
    pub fn val1(&self) -> (r: u32)
        ensures
            r == self.input_len(),
    {
        self.inner.input_len
    }
}

/// Functions to use the output arguments as integers.
impl<'a, S: PrimOut> Environment<'a, S> {
    /// The `output_ptr` argument.
    pub fn val2(&self) -> (r: u32)
        ensures
            r == self.output_ptr(),
    {
        self.inner.output_ptr
    }

    /// The `output_len_ptr` argument.
    pub fn val3(&self) -> (r: u32)
        ensures
            r == self.output_len_ptr(),
    {
        self.inner.output_len_ptr
    }
}

/// Functions to use the input arguments as pointer to a buffer.
impl<'a, S: BufIn> Environment<'a, S> {
    /// Reads `min(max_len, in_len)` bytes of input from contract memory.
    ///
    /// This does **not** charge any weight: the caller charges before reading, either for
    /// `max_len` (worst case) or for [`in_len`](Self::in_len).
    pub fn read(&self, max_len: u32) -> (r: Result<Vec<u8>, DispatchError>)
        ensures
            ({
                let len = if self.input_len() < max_len { self.input_len() } else { max_len };
                &&& (r is Ok <==> len <= self.runtime().schedule.limits.max_memory_size
                    && fits(self.memory().len() as int, self.input_ptr() as int, len as int))
                &&& (r matches Ok(v) ==> v@ == chunk(self.memory(), self.input_ptr() as int, len as int))
                &&& (r matches Err(e) ==> e == DispatchError::Module(Error::OutOfBounds))
            }),
    {
        let len = if self.inner.input_len < max_len { self.inner.input_len } else { max_len };
        self.inner.runtime.read_sandbox_memory(self.inner.memory, self.inner.input_ptr, len)
    }

    /// Reads `min(buffer.len(), in_len)` bytes of input into the slice `buffer` and shrinks
    /// it to the data read. On error `buffer` is left an empty slice; the memory it referred to
    /// keeps its bytes.
    pub fn read_into(&self, buffer: &mut &mut [u8]) -> (r: Result<(), DispatchError>)
        ensures
            ({
                let len = if old(buffer)@.len() < self.input_len() { old(buffer)@.len() as int } else { self.input_len() as int };
                let data = chunk(self.memory(), self.input_ptr() as int, len);
                &&& (r is Ok <==> fits(self.memory().len() as int, self.input_ptr() as int, len))
                &&& (r is Ok ==> final(buffer)@ == data)
                &&& (r is Err ==> final(buffer)@.len() == 0 && r == Err::<(), DispatchError>(DispatchError::Module(Error::OutOfBounds)))
                &&& (r is Ok ==> final(*old(buffer))@ == final(*final(buffer))@ + old(buffer)@.skip(len))
                &&& (r is Err ==> final(*old(buffer))@ == old(buffer)@)
            }),
    {
        let in_len = self.inner.input_len as usize;
        let len = if buffer.len() < in_len { buffer.len() } else { in_len };
        let mut taken: &mut [u8] = &mut [];
        std::mem::swap(buffer, &mut taken);
        if !range_fits(self.inner.memory.len(), self.inner.input_ptr, len) {
            return Err(Error::OutOfBounds.into_dispatch_error());
        }
        let (sliced, _rest) = taken.split_at_mut(len);
        let start = self.inner.input_ptr as usize;
        let memory: &Vec<u8> = self.inner.memory;
        let mlen = memory.len();
        let mut i: usize = 0;
        while i < len
            invariant
                mlen == memory@.len(),
                memory@ == self.memory(),
                start == self.input_ptr(),
                fits(memory@.len() as int, start as int, len as int),
                len == sliced@.len(),
                i <= len,
                forall|k: int| 0 <= k < i ==> sliced@[k] == memory@[start + k],
            decreases len - i,
        {
            sliced[i] = memory[start + i];
            i = i + 1;
        }
        assert(sliced@ =~= chunk(memory@, start as int, len as int));
        *buffer = sliced;
        Ok(())
    }

    /// Reads the `max_encoded_len` bytes from which a value of a type of that fixed maximum
    /// size decodes.
    pub fn read_as(&mut self, max_encoded_len: u32) -> (r: Result<Vec<u8>, DispatchError>)
        ensures
            *final(self) == *old(self),
            r is Ok <==> fits(old(self).memory().len() as int, old(self).input_ptr() as int, max_encoded_len as int),
            r matches Ok(v) ==> v@ == chunk(old(self).memory(), old(self).input_ptr() as int, max_encoded_len as int),
            r matches Err(e) ==> e == DispatchError::Module(Error::OutOfBounds),
    {
        self.inner.runtime.read_sandbox_memory_as(self.inner.memory, self.inner.input_ptr, max_encoded_len)
    }

    /// Reads the `len` bytes from which a value of a type of dynamic size decodes. The caller
    /// includes `len` in its weight calculations.
    pub fn read_as_unbounded(&mut self, len: u32) -> (r: Result<Vec<u8>, DispatchError>)
        ensures
            *final(self) == *old(self),
            r is Ok <==> fits(old(self).memory().len() as int, old(self).input_ptr() as int, len as int),
            r matches Ok(v) ==> v@ == chunk(old(self).memory(), old(self).input_ptr() as int, len as int),
            r matches Err(e) ==> e == DispatchError::Module(Error::OutOfBounds),
    {
        self.inner.runtime.read_sandbox_memory_as(self.inner.memory, self.inner.input_ptr, len)
    }

    /// The length of the input as passed in as `input_len`, from which an extension computes
    /// the dynamic part of its weight.
    pub fn in_len(&self) -> (r: u32)
        ensures
            r == self.input_len(),
    {
        self.inner.input_len
    }
}

/// Functions to use the output arguments as pointer to a buffer.
impl<'a, S: BufOut> Environment<'a, S> {
    /// Writes `buffer` to contract memory.
    ///
    /// A contract-supplied buffer smaller than `buffer` is an error. With `allow_skip` the
    /// contract may skip the copy by passing `SENTINEL` as `out_ptr`. `weight_per_byte` is
    /// charged only when the write actually happens.
    pub fn write(&mut self, buffer: &[u8], allow_skip: bool, weight_per_byte: Option<Weight>) -> (r: Result<(), DispatchError>)
        requires
            buffer@.len() <= u32::MAX,
        ensures
            final(self).same_args(old(self)),
            ({
                let charge = match weight_per_byte {
                    Some(w) => OutputCharge::ChainExtensionPerByte(w),
                    None => OutputCharge::AlreadyCharged,
                };
                (r, final(self).runtime(), final(self).memory()) == output_outcome(old(self).runtime(), old(self).memory(),
                    old(self).output_ptr(), old(self).output_len_ptr(), buffer@, allow_skip, charge)
            }),
    {
        let charge = match weight_per_byte {
            Some(w) => OutputCharge::ChainExtensionPerByte(w),
            None => OutputCharge::AlreadyCharged,
        };
        self.inner.runtime.write_sandbox_output(
            self.inner.memory,
            self.inner.output_ptr,
            self.inner.output_len_ptr,
            buffer,
            allow_skip,
            charge,
        )
    }
}

/// Whether `r` is what the contract gets from the chain extension's answer `res`: the value of
/// a converging extension, the trap that hands a diverging extension's flags and data on to
/// the caller, or the trap of the extension's error.
pub open spec fn ret_val_matches(res: Result<RetVal, DispatchError>, r: Result<u32, TrapReason>) -> bool {
    match res {
        Ok(RetVal::Converging(v)) => r == Ok::<u32, TrapReason>(v),
        Ok(RetVal::Diverging { flags, data }) => r matches Err(TrapReason::Return(rd)) && rd.flags == flags.bits && rd.data@ == data@,
        Err(e) => r matches Err(TrapReason::SupervisorError(e2)) && e2 == e,
    }
}

/// What the contract gets from the chain extension's answer: the value of a converging
/// extension, or the trap that hands a diverging extension's flags and data on to the caller.
pub fn ret_val_outcome(res: Result<RetVal, DispatchError>) -> (r: Result<u32, TrapReason>)
    ensures
        ret_val_matches(res, r),
{
    match res {
        Ok(RetVal::Converging(val)) => Ok(val),
        Ok(RetVal::Diverging { flags, data }) => Err(TrapReason::Return(ReturnData { flags: flags.bits(), data })),
        Err(e) => Err(TrapReason::SupervisorError(e)),
    }
}

/// `seal_call_chain_extension`: refuses with `NoChainExtension`, changing nothing, when the
/// chain's extensions answer that they are disabled; otherwise hands the extension an
/// environment with the five arguments and the runtime and memory as they are, and maps its
/// answer by `ret_val_outcome`.
pub fn call_chain_extension<C: ChainExtension>(
    extension: &mut C,
    runtime: &mut Runtime,
    memory: &mut Vec<u8>,
    id: u32,
    input_ptr: u32,
    input_len: u32,
    output_ptr: u32,
    output_len_ptr: u32,
) -> (r: Result<u32, TrapReason>)
    ensures
        ({
            &&& call_ensures(C::enabled, (), false)
            &&& r matches Err(TrapReason::SupervisorError(e)) && e == DispatchError::Module(Error::NoChainExtension)
            &&& *final(extension) == *old(extension)
            &&& *final(runtime) == *old(runtime)
            &&& final(memory)@ == old(memory)@
        }) || ({
            &&& call_ensures(C::enabled, (), true)
            &&& exists|res: Result<RetVal, DispatchError>| {
                &&& C::answers(*old(extension), *final(extension), id, input_ptr, input_len, output_ptr,
                    output_len_ptr, *old(runtime), old(memory)@, res)
                &&& #[trigger] ret_val_matches(res, r)
            }
        }),
{
    if !C::enabled() {
        return Err(TrapReason::SupervisorError(Error::NoChainExtension.into_dispatch_error()));
    }
    let env = Environment::new(runtime, memory, id, input_ptr, input_len, output_ptr, output_len_ptr);
    let res = extension.call(env);
    let r = ret_val_outcome(res);
    assert(ret_val_matches(res, r));
    r
}

} // verus!
