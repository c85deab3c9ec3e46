//! Portfolio: the fixed set of asset groups — bonds, shares, etfs,
//! currencies, futures — with cross-asset aggregation.
//!
//! Each group is initialized empty and populated once per run; portfolio
//! totals are the sums of the five per-group totals, tagged with the bonds
//! group's currency (the leftmost operand, as everywhere in this library).
use crate::asset::{
    balance_fn, balance_req, current_fn, current_req, dividents_fn, dividents_req,
    spec_asset_currency, total_income_fn, total_income_req, Asset,
};
use crate::decimal::dec_in_range;
use crate::income::{spec_income, Income};
use crate::money::{spec_money, Money};
use crate::operations::{fee_part_fn, income_part_fn};
use crate::paper::{
    create_paper_from_position, spec_paper_built, CouponProfit, DividentProfit, Instrument,
    NoneProfit,
};
use crate::position::spec_position_of;
use crate::raw::{InstrumentKind, RawOperation, RawPosition};
use crate::sums::{lemma_sum_in_range, prefix_sums_in, sum_by};
use vstd::prelude::*;

verus! {

broadcast use crate::decimal::lemma_spec_dec_view, crate::decimal::lemma_dec_roundtrip;

/// The fixed set of asset groups of one account.
pub struct Portfolio {
    pub bonds: Asset<CouponProfit>,
    pub shares: Asset<DividentProfit>,
    pub etfs: Asset<NoneProfit>,
    pub currencies: Asset<NoneProfit>,
    pub futures: Asset<NoneProfit>,
}

/// Every intermediate left-to-right sum of five contributions stays in the
/// mantissa range.
pub open spec fn spec_chain_ok(a: int, b: int, c: int, d: int, e: int) -> bool {
    &&& dec_in_range(a + b)
    &&& dec_in_range(a + b + c)
    &&& dec_in_range(a + b + c + d)
    &&& dec_in_range(a + b + c + d + e)
}

/// Total cost basis over all five groups.
pub open spec fn spec_portfolio_balance(p: Portfolio) -> int {
    sum_by(p.bonds.spec_papers(), balance_fn::<CouponProfit>()) + sum_by(
        p.shares.spec_papers(),
        balance_fn::<DividentProfit>(),
    ) + sum_by(p.currencies.spec_papers(), balance_fn::<NoneProfit>()) + sum_by(
        p.etfs.spec_papers(),
        balance_fn::<NoneProfit>(),
    ) + sum_by(p.futures.spec_papers(), balance_fn::<NoneProfit>())
}

/// Total current value over all five groups.
pub open spec fn spec_portfolio_current(p: Portfolio) -> int {
    sum_by(p.bonds.spec_papers(), current_fn::<CouponProfit>()) + sum_by(
        p.shares.spec_papers(),
        current_fn::<DividentProfit>(),
    ) + sum_by(p.currencies.spec_papers(), current_fn::<NoneProfit>()) + sum_by(
        p.etfs.spec_papers(),
        current_fn::<NoneProfit>(),
    ) + sum_by(p.futures.spec_papers(), current_fn::<NoneProfit>())
}

/// Total dividends and coupons over all five groups.
pub open spec fn spec_portfolio_dividents(p: Portfolio) -> int {
    sum_by(p.bonds.spec_papers(), dividents_fn::<CouponProfit>()) + sum_by(
        p.shares.spec_papers(),
        dividents_fn::<DividentProfit>(),
    ) + sum_by(p.currencies.spec_papers(), dividents_fn::<NoneProfit>()) + sum_by(
        p.etfs.spec_papers(),
        dividents_fn::<NoneProfit>(),
    ) + sum_by(p.futures.spec_papers(), dividents_fn::<NoneProfit>())
}

/// The current side of total income over all five groups.
pub open spec fn spec_portfolio_total_income_current(p: Portfolio) -> int {
    sum_by(p.bonds.spec_papers(), total_income_fn::<CouponProfit>()) + sum_by(
        p.shares.spec_papers(),
        total_income_fn::<DividentProfit>(),
    ) + sum_by(p.currencies.spec_papers(), total_income_fn::<NoneProfit>()) + sum_by(
        p.etfs.spec_papers(),
        total_income_fn::<NoneProfit>(),
    ) + sum_by(p.futures.spec_papers(), total_income_fn::<NoneProfit>())
}

impl Portfolio {
    /// Five empty groups; `output_papers` decides whether single papers are
    /// printed or only the aggregates.
    pub fn new(output_papers: bool) -> (r: Portfolio)
        ensures
            r.bonds.spec_papers().len() == 0,
            r.shares.spec_papers().len() == 0,
            r.etfs.spec_papers().len() == 0,
            r.currencies.spec_papers().len() == 0,
            r.futures.spec_papers().len() == 0,
            r.bonds.output_papers == output_papers,
            r.shares.output_papers == output_papers,
            r.etfs.output_papers == output_papers,
            r.currencies.output_papers == output_papers,
            r.futures.output_papers == output_papers,
    {
        Portfolio {
            bonds: Asset::new("Bonds", CouponProfit, output_papers),
            shares: Asset::new("Shares", DividentProfit, output_papers),
            etfs: Asset::new("Etfs", NoneProfit, output_papers),
            currencies: Asset::new("Currencies", NoneProfit, output_papers),
            futures: Asset::new("Futures", NoneProfit, output_papers),
        }
    }

    /// Income from price movement over the whole portfolio, in the bonds
    /// group's currency.
    pub fn income(&self) -> (r: Income)
        requires
            balance_req::<CouponProfit>(self.bonds.spec_papers()),
            current_req::<CouponProfit>(self.bonds.spec_papers()),
            balance_req::<DividentProfit>(self.shares.spec_papers()),
            current_req::<DividentProfit>(self.shares.spec_papers()),
            balance_req::<NoneProfit>(self.currencies.spec_papers()),
            current_req::<NoneProfit>(self.currencies.spec_papers()),
            balance_req::<NoneProfit>(self.etfs.spec_papers()),
            current_req::<NoneProfit>(self.etfs.spec_papers()),
            balance_req::<NoneProfit>(self.futures.spec_papers()),
            current_req::<NoneProfit>(self.futures.spec_papers()),
            spec_chain_ok(
                sum_by(self.bonds.spec_papers(), balance_fn::<CouponProfit>()),
                sum_by(self.shares.spec_papers(), balance_fn::<DividentProfit>()),
                sum_by(self.currencies.spec_papers(), balance_fn::<NoneProfit>()),
                sum_by(self.etfs.spec_papers(), balance_fn::<NoneProfit>()),
                sum_by(self.futures.spec_papers(), balance_fn::<NoneProfit>()),
            ),
            spec_chain_ok(
                sum_by(self.bonds.spec_papers(), current_fn::<CouponProfit>()),
                sum_by(self.shares.spec_papers(), current_fn::<DividentProfit>()),
                sum_by(self.currencies.spec_papers(), current_fn::<NoneProfit>()),
                sum_by(self.etfs.spec_papers(), current_fn::<NoneProfit>()),
                sum_by(self.futures.spec_papers(), current_fn::<NoneProfit>()),
            ),
        ensures
            r == spec_income(
                spec_portfolio_current(*self),
                spec_portfolio_balance(*self),
                spec_asset_currency(self.bonds.spec_papers()),
            ),
    {
        proof {
            lemma_sum_in_range(self.bonds.spec_papers(), balance_fn::<CouponProfit>(), crate::decimal::DEC_LIMIT as int);
            lemma_sum_in_range(self.shares.spec_papers(), balance_fn::<DividentProfit>(), crate::decimal::DEC_LIMIT as int);
            lemma_sum_in_range(self.currencies.spec_papers(), balance_fn::<NoneProfit>(), crate::decimal::DEC_LIMIT as int);
            lemma_sum_in_range(self.etfs.spec_papers(), balance_fn::<NoneProfit>(), crate::decimal::DEC_LIMIT as int);
            lemma_sum_in_range(self.futures.spec_papers(), balance_fn::<NoneProfit>(), crate::decimal::DEC_LIMIT as int);
            lemma_sum_in_range(self.bonds.spec_papers(), current_fn::<CouponProfit>(), crate::decimal::DEC_LIMIT as int);
            lemma_sum_in_range(self.shares.spec_papers(), current_fn::<DividentProfit>(), crate::decimal::DEC_LIMIT as int);
            lemma_sum_in_range(self.currencies.spec_papers(), current_fn::<NoneProfit>(), crate::decimal::DEC_LIMIT as int);
            lemma_sum_in_range(self.etfs.spec_papers(), current_fn::<NoneProfit>(), crate::decimal::DEC_LIMIT as int);
            lemma_sum_in_range(self.futures.spec_papers(), current_fn::<NoneProfit>(), crate::decimal::DEC_LIMIT as int);
        }
        self.bonds.income().add(self.shares.income()).add(self.currencies.income()).add(
            self.etfs.income(),
        ).add(self.futures.income())
    }

    /// Income including dividends and coupons over the whole portfolio.
    pub fn total_income(&self) -> (r: Income)
        requires
            total_income_req::<CouponProfit>(self.bonds.spec_papers()),
            total_income_req::<DividentProfit>(self.shares.spec_papers()),
            total_income_req::<NoneProfit>(self.currencies.spec_papers()),
            total_income_req::<NoneProfit>(self.etfs.spec_papers()),
            total_income_req::<NoneProfit>(self.futures.spec_papers()),
            spec_chain_ok(
                sum_by(self.bonds.spec_papers(), balance_fn::<CouponProfit>()),
                sum_by(self.shares.spec_papers(), balance_fn::<DividentProfit>()),
                sum_by(self.currencies.spec_papers(), balance_fn::<NoneProfit>()),
                sum_by(self.etfs.spec_papers(), balance_fn::<NoneProfit>()),
                sum_by(self.futures.spec_papers(), balance_fn::<NoneProfit>()),
            ),
            spec_chain_ok(
                sum_by(self.bonds.spec_papers(), total_income_fn::<CouponProfit>()),
                sum_by(self.shares.spec_papers(), total_income_fn::<DividentProfit>()),
                sum_by(self.currencies.spec_papers(), total_income_fn::<NoneProfit>()),
                sum_by(self.etfs.spec_papers(), total_income_fn::<NoneProfit>()),
                sum_by(self.futures.spec_papers(), total_income_fn::<NoneProfit>()),
            ),
        ensures
            r == spec_income(
                spec_portfolio_total_income_current(*self),
                spec_portfolio_balance(*self),
                spec_asset_currency(self.bonds.spec_papers()),
            ),
    {
        proof {
            lemma_sum_in_range(self.bonds.spec_papers(), balance_fn::<CouponProfit>(), crate::decimal::DEC_LIMIT as int);
            lemma_sum_in_range(self.shares.spec_papers(), balance_fn::<DividentProfit>(), crate::decimal::DEC_LIMIT as int);
            lemma_sum_in_range(self.currencies.spec_papers(), balance_fn::<NoneProfit>(), crate::decimal::DEC_LIMIT as int);
            lemma_sum_in_range(self.etfs.spec_papers(), balance_fn::<NoneProfit>(), crate::decimal::DEC_LIMIT as int);
            lemma_sum_in_range(self.futures.spec_papers(), balance_fn::<NoneProfit>(), crate::decimal::DEC_LIMIT as int);
            lemma_sum_in_range(self.bonds.spec_papers(), total_income_fn::<CouponProfit>(), crate::decimal::DEC_LIMIT as int);
            lemma_sum_in_range(self.shares.spec_papers(), total_income_fn::<DividentProfit>(), crate::decimal::DEC_LIMIT as int);
            lemma_sum_in_range(self.currencies.spec_papers(), total_income_fn::<NoneProfit>(), crate::decimal::DEC_LIMIT as int);
            lemma_sum_in_range(self.etfs.spec_papers(), total_income_fn::<NoneProfit>(), crate::decimal::DEC_LIMIT as int);
            lemma_sum_in_range(self.futures.spec_papers(), total_income_fn::<NoneProfit>(), crate::decimal::DEC_LIMIT as int);
        }
        self.bonds.total_income().add(self.shares.total_income()).add(
            self.currencies.total_income(),
        ).add(self.etfs.total_income()).add(self.futures.total_income())
    }

    /// Total cost basis over the whole portfolio.
    pub fn balance(&self) -> (r: Money)
        requires
            balance_req::<CouponProfit>(self.bonds.spec_papers()),
            balance_req::<DividentProfit>(self.shares.spec_papers()),
            balance_req::<NoneProfit>(self.currencies.spec_papers()),
            balance_req::<NoneProfit>(self.etfs.spec_papers()),
            balance_req::<NoneProfit>(self.futures.spec_papers()),
            spec_chain_ok(
                sum_by(self.bonds.spec_papers(), balance_fn::<CouponProfit>()),
                sum_by(self.shares.spec_papers(), balance_fn::<DividentProfit>()),
                sum_by(self.currencies.spec_papers(), balance_fn::<NoneProfit>()),
                sum_by(self.etfs.spec_papers(), balance_fn::<NoneProfit>()),
                sum_by(self.futures.spec_papers(), balance_fn::<NoneProfit>()),
            ),
        ensures
            r == spec_money(
                spec_portfolio_balance(*self),
                spec_asset_currency(self.bonds.spec_papers()),
            ),
    {
        proof {
            lemma_sum_in_range(self.bonds.spec_papers(), balance_fn::<CouponProfit>(), crate::decimal::DEC_LIMIT as int);
            lemma_sum_in_range(self.shares.spec_papers(), balance_fn::<DividentProfit>(), crate::decimal::DEC_LIMIT as int);
            lemma_sum_in_range(self.currencies.spec_papers(), balance_fn::<NoneProfit>(), crate::decimal::DEC_LIMIT as int);
            lemma_sum_in_range(self.etfs.spec_papers(), balance_fn::<NoneProfit>(), crate::decimal::DEC_LIMIT as int);
            lemma_sum_in_range(self.futures.spec_papers(), balance_fn::<NoneProfit>(), crate::decimal::DEC_LIMIT as int);
        }
        self.bonds.balance().add(self.shares.balance()).add(self.currencies.balance()).add(
            self.etfs.balance(),
        ).add(self.futures.balance())
    }

    /// Total current value over the whole portfolio.
    pub fn current(&self) -> (r: Money)
        requires
            current_req::<CouponProfit>(self.bonds.spec_papers()),
            current_req::<DividentProfit>(self.shares.spec_papers()),
            current_req::<NoneProfit>(self.currencies.spec_papers()),
            current_req::<NoneProfit>(self.etfs.spec_papers()),
            current_req::<NoneProfit>(self.futures.spec_papers()),
            spec_chain_ok(
                sum_by(self.bonds.spec_papers(), current_fn::<CouponProfit>()),
                sum_by(self.shares.spec_papers(), current_fn::<DividentProfit>()),
                sum_by(self.currencies.spec_papers(), current_fn::<NoneProfit>()),
                sum_by(self.etfs.spec_papers(), current_fn::<NoneProfit>()),
                sum_by(self.futures.spec_papers(), current_fn::<NoneProfit>()),
            ),
        ensures
            r == spec_money(
                spec_portfolio_current(*self),
                spec_asset_currency(self.bonds.spec_papers()),
            ),
    {
        proof {
            lemma_sum_in_range(self.bonds.spec_papers(), current_fn::<CouponProfit>(), crate::decimal::DEC_LIMIT as int);
            lemma_sum_in_range(self.shares.spec_papers(), current_fn::<DividentProfit>(), crate::decimal::DEC_LIMIT as int);
            lemma_sum_in_range(self.currencies.spec_papers(), current_fn::<NoneProfit>(), crate::decimal::DEC_LIMIT as int);
            lemma_sum_in_range(self.etfs.spec_papers(), current_fn::<NoneProfit>(), crate::decimal::DEC_LIMIT as int);
            lemma_sum_in_range(self.futures.spec_papers(), current_fn::<NoneProfit>(), crate::decimal::DEC_LIMIT as int);
        }
        self.bonds.current().add(self.shares.current()).add(self.currencies.current()).add(
            self.etfs.current(),
        ).add(self.futures.current())
    }

    /// Total dividends and coupons over all five groups.
    pub fn dividents(&self) -> (r: Money)
        requires
            dividents_req::<CouponProfit>(self.bonds.spec_papers()),
            dividents_req::<DividentProfit>(self.shares.spec_papers()),
            dividents_req::<NoneProfit>(self.currencies.spec_papers()),
            dividents_req::<NoneProfit>(self.etfs.spec_papers()),
            dividents_req::<NoneProfit>(self.futures.spec_papers()),
            spec_chain_ok(
                sum_by(self.bonds.spec_papers(), dividents_fn::<CouponProfit>()),
                sum_by(self.shares.spec_papers(), dividents_fn::<DividentProfit>()),
                sum_by(self.currencies.spec_papers(), dividents_fn::<NoneProfit>()),
                sum_by(self.etfs.spec_papers(), dividents_fn::<NoneProfit>()),
                sum_by(self.futures.spec_papers(), dividents_fn::<NoneProfit>()),
            ),
        ensures
            r == spec_money(
                spec_portfolio_dividents(*self),
                spec_asset_currency(self.bonds.spec_papers()),
            ),
    {
        proof {
            lemma_sum_in_range(self.bonds.spec_papers(), dividents_fn::<CouponProfit>(), crate::decimal::DEC_LIMIT as int);
            lemma_sum_in_range(self.shares.spec_papers(), dividents_fn::<DividentProfit>(), crate::decimal::DEC_LIMIT as int);
            lemma_sum_in_range(self.currencies.spec_papers(), dividents_fn::<NoneProfit>(), crate::decimal::DEC_LIMIT as int);
            lemma_sum_in_range(self.etfs.spec_papers(), dividents_fn::<NoneProfit>(), crate::decimal::DEC_LIMIT as int);
            lemma_sum_in_range(self.futures.spec_papers(), dividents_fn::<NoneProfit>(), crate::decimal::DEC_LIMIT as int);
        }
        self.bonds.dividents().add(self.shares.dividents()).add(
            self.currencies.dividents(),
        ).add(self.etfs.dividents()).add(self.futures.dividents())
    }

    /// How many of the five groups hold at least one paper.
    pub fn count_not_empty_assets(&self) -> (r: usize)
        ensures
            r == (if self.bonds.spec_papers().len() > 0 {
                1int
            } else {
                0int
            }) + (if self.shares.spec_papers().len() > 0 {
                1int
            } else {
                0int
            }) + (if self.currencies.spec_papers().len() > 0 {
                1int
            } else {
                0int
            }) + (if self.etfs.spec_papers().len() > 0 {
                1int
            } else {
                0int
            }) + (if self.futures.spec_papers().len() > 0 {
                1int
            } else {
                0int
            }),
    {
        let mut count: usize = 0;
        if !self.bonds.is_empty() {
            count = count + 1;
        }
        if !self.shares.is_empty() {
            count = count + 1;
        }
        if !self.currencies.is_empty() {
            count = count + 1;
        }
        if !self.etfs.is_empty() {
            count = count + 1;
        }
        if !self.futures.is_empty() {
            count = count + 1;
        }
        count
    }

    /// Routes one raw position into the group its instrument class names:
    /// the paper is built from the position, the catalog identity and the
    /// reduced operation history, and appended there; an unreadable position
    /// or a missing identity appends nothing.  Returns whether a paper was
    /// added.
    pub fn add_position(
        &mut self,
        kind: InstrumentKind,
        instrument: Option<&Instrument>,
        raw: &RawPosition,
        operations: &Vec<RawOperation>,
    ) -> (added: bool)
        requires
            prefix_sums_in(operations@, income_part_fn(), crate::decimal::DEC_LIMIT as int),
            prefix_sums_in(operations@, fee_part_fn(), crate::decimal::DEC_LIMIT as int),
        ensures
            added <==> (instrument is Some && spec_position_of(*raw) is Ok),
            !added ==> *final(self) == *old(self),
            added ==> (match kind {
                InstrumentKind::Bond => {
                    &&& final(self).bonds.spec_papers().len() == old(
                        self,
                    ).bonds.spec_papers().len() + 1
                    &&& final(self).bonds.spec_papers().drop_last() == old(
                        self,
                    ).bonds.spec_papers()
                    &&& spec_paper_built(
                        final(self).bonds.spec_papers().last(),
                        *instrument->0,
                        *raw,
                        operations@,
                        spec_position_of(*raw)->Ok_0,
                        CouponProfit,
                    )
                    &&& final(self).shares == old(self).shares
                    &&& final(self).etfs == old(self).etfs
                    &&& final(self).currencies == old(self).currencies
                    &&& final(self).futures == old(self).futures
                },
                InstrumentKind::Share => {
                    &&& final(self).shares.spec_papers().len() == old(
                        self,
                    ).shares.spec_papers().len() + 1
                    &&& final(self).shares.spec_papers().drop_last() == old(
                        self,
                    ).shares.spec_papers()
                    &&& spec_paper_built(
                        final(self).shares.spec_papers().last(),
                        *instrument->0,
                        *raw,
                        operations@,
                        spec_position_of(*raw)->Ok_0,
                        DividentProfit,
                    )
                    &&& final(self).bonds == old(self).bonds
                    &&& final(self).etfs == old(self).etfs
                    &&& final(self).currencies == old(self).currencies
                    &&& final(self).futures == old(self).futures
                },
                InstrumentKind::Etf => {
                    &&& final(self).etfs.spec_papers().len() == old(
                        self,
                    ).etfs.spec_papers().len() + 1
                    &&& final(self).etfs.spec_papers().drop_last() == old(self).etfs.spec_papers()
                    &&& spec_paper_built(
                        final(self).etfs.spec_papers().last(),
                        *instrument->0,
                        *raw,
                        operations@,
                        spec_position_of(*raw)->Ok_0,
                        NoneProfit,
                    )
                    &&& final(self).bonds == old(self).bonds
                    &&& final(self).shares == old(self).shares
                    &&& final(self).currencies == old(self).currencies
                    &&& final(self).futures == old(self).futures
                },
                InstrumentKind::Currency => {
                    &&& final(self).currencies.spec_papers().len() == old(
                        self,
                    ).currencies.spec_papers().len() + 1
                    &&& final(self).currencies.spec_papers().drop_last() == old(
                        self,
                    ).currencies.spec_papers()
                    &&& spec_paper_built(
                        final(self).currencies.spec_papers().last(),
                        *instrument->0,
                        *raw,
                        operations@,
                        spec_position_of(*raw)->Ok_0,
                        NoneProfit,
                    )
                    &&& final(self).bonds == old(self).bonds
                    &&& final(self).shares == old(self).shares
                    &&& final(self).etfs == old(self).etfs
                    &&& final(self).futures == old(self).futures
                },
                InstrumentKind::Futures => {
                    &&& final(self).futures.spec_papers().len() == old(
                        self,
                    ).futures.spec_papers().len() + 1
                    &&& final(self).futures.spec_papers().drop_last() == old(
                        self,
                    ).futures.spec_papers()
                    &&& spec_paper_built(
                        final(self).futures.spec_papers().last(),
                        *instrument->0,
                        *raw,
                        operations@,
                        spec_position_of(*raw)->Ok_0,
                        NoneProfit,
                    )
                    &&& final(self).bonds == old(self).bonds
                    &&& final(self).shares == old(self).shares
                    &&& final(self).etfs == old(self).etfs
                    &&& final(self).currencies == old(self).currencies
                },
            }),
    {
        match kind {
            InstrumentKind::Bond => {
                match create_paper_from_position(instrument, raw, operations, CouponProfit) {
                    Some(p) => {
                        self.bonds.add_paper(p);
                        true
                    },
                    None => false,
                }
            },
            InstrumentKind::Share => {
                match create_paper_from_position(instrument, raw, operations, DividentProfit) {
                    Some(p) => {
                        self.shares.add_paper(p);
                        true
                    },
                    None => false,
                }
            },
            InstrumentKind::Etf => {
                match create_paper_from_position(instrument, raw, operations, NoneProfit) {
                    Some(p) => {
                        self.etfs.add_paper(p);
                        true
                    },
                    None => false,
                }
            },
            InstrumentKind::Currency => {
                match create_paper_from_position(instrument, raw, operations, NoneProfit) {
                    Some(p) => {
                        self.currencies.add_paper(p);
                        true
                    },
                    None => false,
                }
            },
            InstrumentKind::Futures => {
                match create_paper_from_position(instrument, raw, operations, NoneProfit) {
                    Some(p) => {
                        self.futures.add_paper(p);
                        true
                    },
                    None => false,
                }
            },
        }
    }
}

impl Default for Portfolio {
    /// A portfolio that prints its papers, as `new(true)` builds it.
    fn default() -> (r: Portfolio)
        ensures
            r.bonds.spec_papers().len() == 0,
            r.shares.spec_papers().len() == 0,
            r.etfs.spec_papers().len() == 0,
            r.currencies.spec_papers().len() == 0,
            r.futures.spec_papers().len() == 0,
    {
        Portfolio::new(true)
    }
}

} // verus!
