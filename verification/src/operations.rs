//! Operation classification and reduction: how a transaction history becomes
//! an instrument's extra-income and fee totals.
use crate::currency::Currency;
use crate::decimal::DEC_LIMIT;
use crate::money::{spec_money, Money};
use crate::raw::{OperationKind, RawOperation};
use crate::sums::{
    lemma_sum_permutation, lemma_sum_take_all, lemma_sum_take_step, prefix_sums_in, sum_by,
};
use crate::{spec_money_of_raw, spec_quote_val, to_money};
use vstd::prelude::*;

verus! {

broadcast use crate::decimal::lemma_spec_dec_view, crate::decimal::lemma_dec_roundtrip;

/// How one operation type bears on an instrument's totals.
#[derive(Clone, Copy, PartialEq, Eq, Structural, Debug)]
pub enum OperationInfluence {
    /// Anything that affects the dividend or coupon figure, including the
    /// negative adjustments (taxes withheld) on them, so the displayed
    /// number is post-tax net income.
    PureIncome,
    /// Commissions and other pure losses; these never net against income.
    Fees,
    /// Everything else (buys, sells, transfers): excluded from both totals.
    Unspecified,
}

/// The fixed classification table over the closed set of operation codes.
pub open spec fn spec_influence(op: OperationKind) -> OperationInfluence {
    match op {
        OperationKind::DividendTax
        | OperationKind::DividendTaxProgressive
        | OperationKind::BondTax
        | OperationKind::BondTaxProgressive
        | OperationKind::Coupon
        | OperationKind::BenefitTax
        | OperationKind::BenefitTaxProgressive
        | OperationKind::Overnight
        | OperationKind::Tax
        | OperationKind::Dividend => OperationInfluence::PureIncome,
        OperationKind::ServiceFee
        | OperationKind::MarginFee
        | OperationKind::BrokerFee
        | OperationKind::SuccessFee
        | OperationKind::TrackMfee
        | OperationKind::TrackPfee
        | OperationKind::CashFee
        | OperationKind::OutFee
        | OperationKind::OutStampDuty
        | OperationKind::AdviceFee
        | OperationKind::OutputPenalty => OperationInfluence::Fees,
        _ => OperationInfluence::Unspecified,
    }
}

/// Maps an operation type to the totals bucket it belongs to; the mapping is
/// fixed data and total over the closed enum.
pub fn to_influence(op: OperationKind) -> (r: OperationInfluence)
    ensures
        r == spec_influence(op),
{
    match op {
        OperationKind::DividendTax
        | OperationKind::DividendTaxProgressive
        | OperationKind::BondTax
        | OperationKind::BondTaxProgressive
        | OperationKind::Coupon
        | OperationKind::BenefitTax
        | OperationKind::BenefitTaxProgressive
        | OperationKind::Overnight
        | OperationKind::Tax
        | OperationKind::Dividend => OperationInfluence::PureIncome,
        OperationKind::ServiceFee
        | OperationKind::MarginFee
        | OperationKind::BrokerFee
        | OperationKind::SuccessFee
        | OperationKind::TrackMfee
        | OperationKind::TrackPfee
        | OperationKind::CashFee
        | OperationKind::OutFee
        | OperationKind::OutStampDuty
        | OperationKind::AdviceFee
        | OperationKind::OutputPenalty => OperationInfluence::Fees,
        _ => OperationInfluence::Unspecified,
    }
}

/// Per-instrument rollup of the cash flows that are not price-driven.
pub struct Totals {
    /// Dividends, coupons and their tax adjustments: extra value the
    /// instrument earned beyond price movement.
    pub additional_profit: Money,
    /// Taxes and fees.
    pub fees: Money,
}

/// The payment an operation carries, when present and readable: its value as
/// a scaled mantissa.
pub open spec fn spec_payment_val(op: RawOperation) -> Option<int> {
    match op.payment {
        Some(m) => if spec_money_of_raw(m) is Some {
            Some(spec_quote_val(m.units as int, m.nano as int))
        } else {
            None
        },
        None => None,
    }
}

/// What one operation contributes to the additional-profit total.
pub open spec fn spec_income_part(op: RawOperation) -> int {
    match spec_payment_val(op) {
        Some(v) => if spec_influence(op.operation_type) is PureIncome {
            v
        } else {
            0
        },
        None => 0,
    }
}

/// What one operation contributes to the fee total.
pub open spec fn spec_fee_part(op: RawOperation) -> int {
    match spec_payment_val(op) {
        Some(v) => if spec_influence(op.operation_type) is Fees {
            v
        } else {
            0
        },
        None => 0,
    }
}

/// The additional-profit contribution, as a function value shared by every
/// contract that sums it.
pub open spec fn income_part_fn() -> spec_fn(RawOperation) -> int {
    |op: RawOperation| spec_income_part(op)
}

/// The fee contribution, as a function value shared by every contract that
/// sums it.
pub open spec fn fee_part_fn() -> spec_fn(RawOperation) -> int {
    |op: RawOperation| spec_fee_part(op)
}

/// Folds an instrument's operation history into its totals: payments of
/// pure-income operations accumulate into additional profit, payments of fee
/// operations into fees, and everything else is skipped, as is any operation
/// without a readable payment.  Both accumulators start at zero in the
/// requested currency and keep it, whatever currencies the payments carry.
pub fn reduce(operations: &Vec<RawOperation>, currency: Currency) -> (r: Totals)
    requires
        prefix_sums_in(operations@, income_part_fn(), DEC_LIMIT as int),
        prefix_sums_in(operations@, fee_part_fn(), DEC_LIMIT as int),
    ensures
        r.additional_profit == spec_money(sum_by(operations@, income_part_fn()), currency),
        r.fees == spec_money(sum_by(operations@, fee_part_fn()), currency),
{
    let mut additional_profit = Money::zero(currency);
    let mut fees = Money::zero(currency);
    let mut i: usize = 0;
    proof {
        assert(operations@.take(0) =~= Seq::<RawOperation>::empty());
    }
    while i < operations.len()
        invariant
            0 <= i <= operations.len(),
            prefix_sums_in(operations@, income_part_fn(), DEC_LIMIT as int),
            prefix_sums_in(operations@, fee_part_fn(), DEC_LIMIT as int),
            additional_profit == spec_money(
                sum_by(operations@.take(i as int), income_part_fn()),
                currency,
            ),
            fees == spec_money(sum_by(operations@.take(i as int), fee_part_fn()), currency),
        decreases operations.len() - i,
    {
        let op = &operations[i];
        proof {
            lemma_sum_take_step(operations@, income_part_fn(), i as int);
            lemma_sum_take_step(operations@, fee_part_fn(), i as int);
            assert(sum_by(operations@.take(i as int + 1), income_part_fn()) <= DEC_LIMIT as int);
            assert(-(DEC_LIMIT as int) <= sum_by(operations@.take(i as int + 1), income_part_fn()));
            assert(sum_by(operations@.take(i as int + 1), fee_part_fn()) <= DEC_LIMIT as int);
            assert(-(DEC_LIMIT as int) <= sum_by(operations@.take(i as int + 1), fee_part_fn()));
        }
        proof {
            assert(operations@[i as int] == *op);
        }
        if let Some(payment) = to_money(op.payment.as_ref()) {
            proof {
                assert(spec_payment_val(*op) == Some(payment.value@));
                assert(income_part_fn()(*op) == spec_income_part(*op));
                assert(fee_part_fn()(*op) == spec_fee_part(*op));
            }
            match to_influence(op.operation_type) {
                OperationInfluence::PureIncome => {
                    proof {
                        assert(spec_income_part(*op) == payment.value@);
                        assert(spec_fee_part(*op) == 0);
                    }
                    additional_profit.add_assign(payment);
                },
                OperationInfluence::Fees => {
                    proof {
                        assert(spec_income_part(*op) == 0);
                        assert(spec_fee_part(*op) == payment.value@);
                    }
                    fees.add_assign(payment);
                },
                OperationInfluence::Unspecified => {
                    proof {
                        assert(spec_income_part(*op) == 0);
                        assert(spec_fee_part(*op) == 0);
                    }
                },
            }
        } else {
            proof {
                assert(spec_payment_val(*op) is None);
                assert(income_part_fn()(*op) == 0);
                assert(fee_part_fn()(*op) == 0);
            }
        }
        i = i + 1;
    }
    proof {
        lemma_sum_take_all(operations@, income_part_fn());
        lemma_sum_take_all(operations@, fee_part_fn());
    }
    Totals { additional_profit, fees }
}

/// Law: the reduction is order-independent.  Operation lists that hold the
/// same operations, in any order and with duplicates counted alike, give the
/// same additional-profit and fee totals.
pub proof fn lemma_reduce_order_independent(l1: Seq<RawOperation>, l2: Seq<RawOperation>)
    requires
        l1.to_multiset() == l2.to_multiset(),
    ensures
        sum_by(l1, income_part_fn()) == sum_by(l2, income_part_fn()),
        sum_by(l1, fee_part_fn()) == sum_by(l2, fee_part_fn()),
{
    lemma_sum_permutation(l1, l2, income_part_fn());
    lemma_sum_permutation(l1, l2, fee_part_fn());
}

} // verus!
