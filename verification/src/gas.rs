//! The gas meter that host functions charge.
use crate::costs::{costs_weight, HostFnWeights, RuntimeCosts};
use crate::errors::{DispatchError, Error};
use crate::weight::{weight_add, weight_le, weight_sub, Weight};
use vstd::prelude::*;

verus! {

/// The weight that a successful charge took from the meter, to be adjusted later.
#[derive(Clone, Copy, PartialEq, Eq, Structural, Debug)]
pub struct ChargedAmount {
    pub amount: Weight,
}

impl ChargedAmount {
    /// The weight that was charged.
    pub fn amount(&self) -> (r: Weight)
        ensures
            r == self.amount,
    {
        self.amount
    }
}

/// Tracks the weight that is left of an execution's budget.
#[derive(Clone, Copy, PartialEq, Eq, Structural, Debug)]
pub struct GasMeter {
    pub gas_left: Weight,
}

impl GasMeter {
    /// A meter with `gas_limit` left.
    pub fn new(gas_limit: Weight) -> (r: GasMeter)
        ensures
            r.gas_left == gas_limit,
    {
        GasMeter { gas_left: gas_limit }
    }

    /// The weight that is left.
    pub fn gas_left(&self) -> (r: Weight)
        ensures
            r == self.gas_left,
    {
        self.gas_left
    }

    /// Charges `amount`: succeeds when what is left covers it in both components, and fails
    /// with `OutOfGas`, leaving the meter as it was, otherwise.
    pub fn charge(&mut self, amount: Weight) -> (r: Result<ChargedAmount, DispatchError>)
        ensures
            weight_le(amount, old(self).gas_left) ==> r == Ok::<ChargedAmount, DispatchError>(
                ChargedAmount { amount },
            ) && final(self).gas_left == weight_sub(old(self).gas_left, amount),
            !weight_le(amount, old(self).gas_left) ==> r == Err::<ChargedAmount, DispatchError>(
                DispatchError::Module(Error::OutOfGas),
            ) && *final(self) == *old(self),
    {
        if amount.all_lte(&self.gas_left) {
            self.gas_left = self.gas_left.saturating_sub(amount);
            Ok(ChargedAmount { amount })
        } else {
            Err(DispatchError::Module(Error::OutOfGas))
        }
    }

    /// Refunds what `charged` took beyond `actual`, in each component.
    pub fn adjust_gas(&mut self, charged: ChargedAmount, actual: Weight)
        ensures
            final(self).gas_left == weight_add(old(self).gas_left, weight_sub(charged.amount, actual)),
    {
        let refund = charged.amount.saturating_sub(actual);
        self.gas_left = self.gas_left.saturating_add(refund);
    }
}

} // verus!
