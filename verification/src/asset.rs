//! Asset: an ordered collection of papers of one profit kind, with
//! fold-based aggregates.
//!
//! Every total is a pure function of the current paper list, summed with the
//! zero of the asset's currency as seed, so papers can be appended
//! incrementally without recomputing earlier contributions.  All papers are
//! assumed to share one currency, taken from the first paper (an empty asset
//! falls back to the ruble); summing mislabels nothing but the currency tag
//! when that assumption is broken.
use crate::currency::{Currency, RUB_NUMERIC};
use crate::decimal::{dec_in_range, DEC_LIMIT};
use crate::income::{spec_income, Income};
use crate::money::{spec_money, Money};
use crate::paper::{spec_balance_val, spec_current_val, spec_dividents_val, Paper, Profit};
use crate::sums::{
    lemma_sum_take_all, lemma_sum_take_step, prefix_sums_in, sum_by, vals_in_range,
};
use vstd::prelude::*;

verus! {

broadcast use crate::decimal::lemma_spec_dec_view, crate::decimal::lemma_dec_roundtrip;

/// A paper's cost basis, as a summable contribution.
pub open spec fn balance_fn<P: Profit>() -> spec_fn(Paper<P>) -> int {
    |p: Paper<P>| spec_balance_val(p)
}

/// A paper's current value, as a summable contribution.
pub open spec fn current_fn<P: Profit>() -> spec_fn(Paper<P>) -> int {
    |p: Paper<P>| spec_current_val(p)
}

/// A paper's dividends or coupons, as a summable contribution.
pub open spec fn dividents_fn<P: Profit>() -> spec_fn(Paper<P>) -> int {
    |p: Paper<P>| spec_dividents_val(p)
}

/// A paper's current value plus its dividends: the current side of the
/// total-income aggregate.
pub open spec fn total_income_fn<P: Profit>() -> spec_fn(Paper<P>) -> int {
    |p: Paper<P>| spec_current_val(p) + spec_dividents_val(p)
}

/// The currency an asset reports in: its first paper's, or the ruble when it
/// is empty.
pub open spec fn spec_asset_currency<P: Profit>(papers: Seq<Paper<P>>) -> Currency {
    if papers.len() == 0 {
        Currency { numeric: RUB_NUMERIC }
    } else {
        papers[0].position.currency
    }
}


/// What the balance aggregate asks of the papers: every product and every
/// running sum stays within the mantissa range.
pub open spec fn balance_req<P: Profit>(papers: Seq<Paper<P>>) -> bool {
    &&& vals_in_range(papers, balance_fn::<P>(), DEC_LIMIT as int)
    &&& prefix_sums_in(papers, balance_fn::<P>(), DEC_LIMIT as int)
}

/// What the current-value aggregate asks of the papers.
pub open spec fn current_req<P: Profit>(papers: Seq<Paper<P>>) -> bool {
    &&& vals_in_range(papers, current_fn::<P>(), DEC_LIMIT as int)
    &&& prefix_sums_in(papers, current_fn::<P>(), DEC_LIMIT as int)
}

/// What the dividends aggregate asks of the papers.
pub open spec fn dividents_req<P: Profit>(papers: Seq<Paper<P>>) -> bool {
    prefix_sums_in(papers, dividents_fn::<P>(), DEC_LIMIT as int)
}

/// What the total-income aggregate asks of the papers.
pub open spec fn total_income_req<P: Profit>(papers: Seq<Paper<P>>) -> bool {
    &&& balance_req::<P>(papers)
    &&& vals_in_range(papers, current_fn::<P>(), DEC_LIMIT as int)
    &&& vals_in_range(papers, total_income_fn::<P>(), DEC_LIMIT as int)
    &&& prefix_sums_in(papers, total_income_fn::<P>(), DEC_LIMIT as int)
}

/// An ordered collection of papers of one profit kind.
pub struct Asset<P: Profit> {
    pub name: &'static str,
    pub papers: Vec<Paper<P>>,
    pub profit: P,
    /// Whether the asset's papers are printed one by one; when false they
    /// only count toward the aggregates.
    pub output_papers: bool,
}

impl<P: Profit> Asset<P> {
    /// The papers, as the sequence every aggregate contract sums over.
    pub open spec fn spec_papers(&self) -> Seq<Paper<P>> {
        self.papers@
    }

    pub fn new(name: &'static str, profit: P, output_papers: bool) -> (r: Asset<P>)
        ensures
            r.spec_papers() == Seq::<Paper<P>>::empty(),
            r.name == name,
            r.profit == profit,
            r.output_papers == output_papers,
    {
        let r = Asset { papers: Vec::new(), name, output_papers, profit };
        proof {
            assert(r.spec_papers() =~= Seq::<Paper<P>>::empty());
        }
        r
    }

    /// Appends a paper; papers are never removed or reordered.
    pub fn add_paper(&mut self, paper: Paper<P>)
        ensures
            final(self).spec_papers() == old(self).spec_papers().push(paper),
            final(self).name == old(self).name,
            final(self).output_papers == old(self).output_papers,
            final(self).profit == old(self).profit,
    {
        self.papers.push(paper);
    }

    pub fn is_empty(&self) -> (r: bool)
        ensures
            r <==> self.spec_papers().len() == 0,
    {
        self.papers.len() == 0
    }

    /// How many papers the asset holds.
    pub fn len(&self) -> (r: usize)
        ensures
            r == self.spec_papers().len(),
    {
        self.papers.len()
    }

    /// A borrow of one paper, for rendering.
    pub fn paper_at(&self, i: usize) -> (r: &Paper<P>)
        requires
            i < self.spec_papers().len(),
        ensures
            *r == self.spec_papers()[i as int],
    {
        &self.papers[i]
    }

    /// The asset's reporting currency: the first paper's, or the ruble.
    pub fn currency(&self) -> (r: Currency)
        ensures
            r == spec_asset_currency(self.spec_papers()),
    {
        if self.papers.len() == 0 {
            Currency::rub()
        } else {
            self.papers[0].currency()
        }
    }

    /// Total cost basis: the sum of every paper's balance value.
    pub fn balance(&self) -> (r: Money)
        requires
            balance_req::<P>(self.spec_papers()),
        ensures
            r == spec_money(
                sum_by(self.spec_papers(), balance_fn::<P>()),
                spec_asset_currency(self.spec_papers()),
            ),
    {
        let ghost s = self.spec_papers();
        let mut acc = Money::zero(self.currency());
        let mut i: usize = 0;
        proof {
            assert(s.take(0) =~= Seq::<Paper<P>>::empty());
        }
        while i < self.papers.len()
            invariant
                0 <= i <= self.papers.len(),
                s == self.spec_papers(),
                vals_in_range(s, balance_fn::<P>(), DEC_LIMIT as int),
                prefix_sums_in(s, balance_fn::<P>(), DEC_LIMIT as int),
                acc == spec_money(sum_by(s.take(i as int), balance_fn::<P>()), spec_asset_currency(s)),
            decreases self.papers.len() - i,
        {
            proof {
                lemma_sum_take_step(s, balance_fn::<P>(), i as int);
                assert(balance_fn::<P>()(s[i as int]) == spec_balance_val(s[i as int]));
            }
            acc.add_assign(self.papers[i].balance());
            i = i + 1;
        }
        proof {
            lemma_sum_take_all(s, balance_fn::<P>());
        }
        acc
    }

    /// Total current value: the sum of every paper's current value.
    pub fn current(&self) -> (r: Money)
        requires
            current_req::<P>(self.spec_papers()),
        ensures
            r == spec_money(
                sum_by(self.spec_papers(), current_fn::<P>()),
                spec_asset_currency(self.spec_papers()),
            ),
    {
        let ghost s = self.spec_papers();
        let mut acc = Money::zero(self.currency());
        let mut i: usize = 0;
        proof {
            assert(s.take(0) =~= Seq::<Paper<P>>::empty());
        }
        while i < self.papers.len()
            invariant
                0 <= i <= self.papers.len(),
                s == self.spec_papers(),
                vals_in_range(s, current_fn::<P>(), DEC_LIMIT as int),
                prefix_sums_in(s, current_fn::<P>(), DEC_LIMIT as int),
                acc == spec_money(sum_by(s.take(i as int), current_fn::<P>()), spec_asset_currency(s)),
            decreases self.papers.len() - i,
        {
            proof {
                lemma_sum_take_step(s, current_fn::<P>(), i as int);
                assert(current_fn::<P>()(s[i as int]) == spec_current_val(s[i as int]));
            }
            acc.add_assign(self.papers[i].current());
            i = i + 1;
        }
        proof {
            lemma_sum_take_all(s, current_fn::<P>());
        }
        acc
    }

    /// Total dividends and coupons: the sum of every paper's extra profit.
    pub fn dividents(&self) -> (r: Money)
        requires
            dividents_req::<P>(self.spec_papers()),
        ensures
            r == spec_money(
                sum_by(self.spec_papers(), dividents_fn::<P>()),
                spec_asset_currency(self.spec_papers()),
            ),
    {
        let ghost s = self.spec_papers();
        let mut acc = Money::zero(self.currency());
        let mut i: usize = 0;
        proof {
            assert(s.take(0) =~= Seq::<Paper<P>>::empty());
        }
        while i < self.papers.len()
            invariant
                0 <= i <= self.papers.len(),
                s == self.spec_papers(),
                prefix_sums_in(s, dividents_fn::<P>(), DEC_LIMIT as int),
                acc == spec_money(
                    sum_by(s.take(i as int), dividents_fn::<P>()),
                    spec_asset_currency(s),
                ),
            decreases self.papers.len() - i,
        {
            proof {
                lemma_sum_take_step(s, dividents_fn::<P>(), i as int);
                assert(dividents_fn::<P>()(s[i as int]) == spec_dividents_val(s[i as int]));
                self.papers@[i as int].totals.additional_profit.value.lemma_view_roundtrip();
            }
            acc.add_assign(self.papers[i].dividents());
            i = i + 1;
        }
        proof {
            lemma_sum_take_all(s, dividents_fn::<P>());
        }
        acc
    }

    /// Income from price movement: component-wise sum of every paper's
    /// income, as one current-against-balance figure.
    pub fn income(&self) -> (r: Income)
        requires
            balance_req::<P>(self.spec_papers()),
            current_req::<P>(self.spec_papers()),
        ensures
            r == spec_income(
                sum_by(self.spec_papers(), current_fn::<P>()),
                sum_by(self.spec_papers(), balance_fn::<P>()),
                spec_asset_currency(self.spec_papers()),
            ),
    {
        let ghost s = self.spec_papers();
        let mut acc = Income::zero(self.currency());
        let mut i: usize = 0;
        proof {
            assert(s.take(0) =~= Seq::<Paper<P>>::empty());
        }
        while i < self.papers.len()
            invariant
                0 <= i <= self.papers.len(),
                s == self.spec_papers(),
                vals_in_range(s, balance_fn::<P>(), DEC_LIMIT as int),
                prefix_sums_in(s, balance_fn::<P>(), DEC_LIMIT as int),
                vals_in_range(s, current_fn::<P>(), DEC_LIMIT as int),
                prefix_sums_in(s, current_fn::<P>(), DEC_LIMIT as int),
                acc == spec_income(
                    sum_by(s.take(i as int), current_fn::<P>()),
                    sum_by(s.take(i as int), balance_fn::<P>()),
                    spec_asset_currency(s),
                ),
            decreases self.papers.len() - i,
        {
            proof {
                lemma_sum_take_step(s, balance_fn::<P>(), i as int);
                lemma_sum_take_step(s, current_fn::<P>(), i as int);
                assert(balance_fn::<P>()(s[i as int]) == spec_balance_val(s[i as int]));
                assert(current_fn::<P>()(s[i as int]) == spec_current_val(s[i as int]));
            }
            acc.add_assign(self.papers[i].income());
            i = i + 1;
        }
        proof {
            lemma_sum_take_all(s, balance_fn::<P>());
            lemma_sum_take_all(s, current_fn::<P>());
        }
        acc
    }

    /// Income including dividends and coupons: they raise the current side
    /// of every paper's figure while the cost basis stays.
    pub fn total_income(&self) -> (r: Income)
        requires
            total_income_req::<P>(self.spec_papers()),
        ensures
            r == spec_income(
                sum_by(self.spec_papers(), total_income_fn::<P>()),
                sum_by(self.spec_papers(), balance_fn::<P>()),
                spec_asset_currency(self.spec_papers()),
            ),
    {
        let ghost s = self.spec_papers();
        let mut acc = Income::zero(self.currency());
        let mut i: usize = 0;
        proof {
            assert(s.take(0) =~= Seq::<Paper<P>>::empty());
        }
        while i < self.papers.len()
            invariant
                0 <= i <= self.papers.len(),
                s == self.spec_papers(),
                vals_in_range(s, balance_fn::<P>(), DEC_LIMIT as int),
                prefix_sums_in(s, balance_fn::<P>(), DEC_LIMIT as int),
                vals_in_range(s, current_fn::<P>(), DEC_LIMIT as int),
                vals_in_range(s, total_income_fn::<P>(), DEC_LIMIT as int),
                prefix_sums_in(s, total_income_fn::<P>(), DEC_LIMIT as int),
                acc == spec_income(
                    sum_by(s.take(i as int), total_income_fn::<P>()),
                    sum_by(s.take(i as int), balance_fn::<P>()),
                    spec_asset_currency(s),
                ),
            decreases self.papers.len() - i,
        {
            proof {
                lemma_sum_take_step(s, balance_fn::<P>(), i as int);
                lemma_sum_take_step(s, total_income_fn::<P>(), i as int);
                assert(balance_fn::<P>()(s[i as int]) == spec_balance_val(s[i as int]));
                assert(current_fn::<P>()(s[i as int]) == spec_current_val(s[i as int]));
                assert(total_income_fn::<P>()(s[i as int]) == spec_current_val(s[i as int])
                    + spec_dividents_val(s[i as int]));
            }
            acc.add_assign(self.papers[i].total_income());
            i = i + 1;
        }
        proof {
            lemma_sum_take_all(s, balance_fn::<P>());
            lemma_sum_take_all(s, total_income_fn::<P>());
        }
        acc
    }
}

/// Law: the aggregates are deterministic folds over the paper list alone —
/// two assets holding equal paper lists have identical totals, however and
/// whenever each was built.
pub proof fn lemma_asset_fold_deterministic<P: Profit>(a: Asset<P>, b: Asset<P>)
    requires
        a.spec_papers() == b.spec_papers(),
    ensures
        sum_by(a.spec_papers(), balance_fn::<P>()) == sum_by(b.spec_papers(), balance_fn::<P>()),
        sum_by(a.spec_papers(), current_fn::<P>()) == sum_by(b.spec_papers(), current_fn::<P>()),
        sum_by(a.spec_papers(), dividents_fn::<P>()) == sum_by(
            b.spec_papers(),
            dividents_fn::<P>(),
        ),
        sum_by(a.spec_papers(), total_income_fn::<P>()) == sum_by(
            b.spec_papers(),
            total_income_fn::<P>(),
        ),
        spec_asset_currency(a.spec_papers()) == spec_asset_currency(b.spec_papers()),
{
}

} // verus!
