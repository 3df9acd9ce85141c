//! The caller's resource budget: charged before work is done, adjusted after.

use crate::error::Error;
use crate::weight::Weight;
use vstd::prelude::*;

verus! {

/// What a budget holds: the limit it started from and what is left of it.
pub struct GasMeterView {
    pub gas_limit: Weight,
    pub gas_left: Weight,
}

impl GasMeterView {
    /// What is left never exceeds the limit.
    pub open spec fn wf(self) -> bool {
        self.gas_left.spec_all_lte(self.gas_limit)
    }

    /// The budget after `amount` was charged, or `None` where it does not
    /// cover `amount` in both dimensions.
    pub open spec fn charge(self, amount: Weight) -> Option<GasMeterView> {
        match self.gas_left.spec_checked_sub(amount) {
            Some(left) => Some(GasMeterView { gas_limit: self.gas_limit, gas_left: left }),
            None => None,
        }
    }

    /// The budget after the unused part of `charged` came back: what was
    /// charged less `actual`, never past the limit.
    pub open spec fn adjust(self, charged: Weight, actual: Weight) -> GasMeterView
        recommends
            actual.spec_all_lte(charged),
    {
        GasMeterView {
            gas_limit: self.gas_limit,
            gas_left: self.gas_left.spec_saturating_add(
                Weight {
                    ref_time: (charged.ref_time - actual.ref_time) as u64,
                    proof_size: (charged.proof_size - actual.proof_size) as u64,
                },
            ).spec_min(self.gas_limit),
        }
    }
}

/// The receipt of a charge, to be handed back when the actual cost is known.
///
/// It is not `Clone`: one charge is adjusted once.
#[derive(Debug)]
pub struct ChargedAmount {
    amount: Weight,
}

impl View for ChargedAmount {
    type V = Weight;

    closed spec fn view(&self) -> Weight {
        self.amount
    }
}

impl ChargedAmount {
    /// The amount that was charged.
    pub fn amount(&self) -> (amount: Weight)
        ensures
            amount == self@,
    {
        self.amount
    }
}

/// The meter of the caller's budget.
#[derive(Debug)]
pub struct GasMeter {
    gas_limit: Weight,
    gas_left: Weight,
}

impl View for GasMeter {
    type V = GasMeterView;

    closed spec fn view(&self) -> GasMeterView {
        GasMeterView { gas_limit: self.gas_limit, gas_left: self.gas_left }
    }
}

impl GasMeter {
    /// A full budget of `gas_limit`.
    pub fn new(gas_limit: Weight) -> (meter: GasMeter)
        ensures
            meter@ == (GasMeterView { gas_limit, gas_left: gas_limit }),
            meter@.wf(),
    {
        GasMeter { gas_limit, gas_left: gas_limit }
    }

    pub fn gas_limit(&self) -> (limit: Weight)
        ensures
            limit == self@.gas_limit,
    {
        self.gas_limit
    }

    pub fn gas_left(&self) -> (left: Weight)
        ensures
            left == self@.gas_left,
    {
        self.gas_left
    }

    /// Charges `amount` against the budget.
    ///
    /// Fails with `OutOfGas`, charging nothing, exactly when the budget does
    /// not cover `amount` in both dimensions.
    pub fn charge_weight(&mut self, amount: Weight) -> (result: Result<ChargedAmount, Error>)
        requires
            old(self)@.wf(),
        ensures
            final(self)@.wf(),
            match old(self)@.charge(amount) {
                Some(after) => final(self)@ == after && (result matches Ok(charged) && charged@
                    == amount),
                None => final(self)@ == old(self)@ && result == Err::<ChargedAmount, Error>(
                    Error::OutOfGas,
                ),
            },
    {
        match self.gas_left.checked_sub(amount) {
            Some(left) => {
                self.gas_left = left;
                Ok(ChargedAmount { amount })
            },
            None => Err(Error::OutOfGas),
        }
    }

    /// Gives back what `charged` holds beyond `actual`.
    ///
    /// A consumption above what was charged is a fault of the accounting, not
    /// of the caller: it is no admissible argument.
    pub fn adjust_weight(&mut self, charged: ChargedAmount, actual: Weight)
        requires
            old(self)@.wf(),
            actual.spec_all_lte(charged@),
        ensures
            final(self)@.wf(),
            final(self)@ == old(self)@.adjust(charged@, actual),
    {
        let unused = Weight {
            ref_time: charged.amount.ref_time - actual.ref_time,
            proof_size: charged.amount.proof_size - actual.proof_size,
        };
        self.gas_left = self.gas_left.saturating_add(unused).min(self.gas_limit);
    }
}

/// A charge takes exactly the amount from what is left, and leaves the limit.
pub proof fn lemma_charge_takes_amount(meter: GasMeterView, amount: Weight)
    requires
        meter.wf(),
        amount.spec_all_lte(meter.gas_left),
    ensures
        meter.charge(amount) matches Some(after) && after.wf() && after.gas_limit
            == meter.gas_limit && after.gas_left.ref_time == meter.gas_left.ref_time
            - amount.ref_time && after.gas_left.proof_size == meter.gas_left.proof_size
            - amount.proof_size,
{
}

/// After a charge of the quoted cost and an adjustment to the actual
/// consumption, the budget is lower by exactly the actual consumption: by
/// less than the quote wherever the consumption was less.
pub proof fn lemma_charge_then_adjust_costs_actual(
    meter: GasMeterView,
    quoted: Weight,
    actual: Weight,
)
    requires
        meter.wf(),
        quoted.spec_all_lte(meter.gas_left),
        actual.spec_all_lte(quoted),
    ensures
        meter.charge(quoted) matches Some(charged) && ({
            let settled = charged.adjust(quoted, actual);
            &&& settled.wf()
            &&& settled.gas_limit == meter.gas_limit
            &&& settled.gas_left.ref_time == meter.gas_left.ref_time - actual.ref_time
            &&& settled.gas_left.proof_size == meter.gas_left.proof_size - actual.proof_size
        }),
{
}

} // verus!
