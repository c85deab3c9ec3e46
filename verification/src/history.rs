//! History: the chronological transaction ledger of one instrument, with
//! expense/profit/balance rollups.
//!
//! A ledger is built once from a raw operation list: duplicates (from
//! overlapping queries) are dropped by operation id with the first occurrence
//! winning, the remainder is sorted ascending by timestamp, and the first
//! item's payment currency anchors the ledger.
use crate::currency::{spec_from_code, Currency, RUB_NUMERIC};
use crate::decimal::{dec_in_range, DEC_LIMIT};
use crate::money::{spec_money, Money};
use crate::raw::{InstrumentShort, OperationState, RawOperation};
use crate::sums::{
    lemma_sum_in_range, lemma_sum_take_all, lemma_sum_take_step, prefix_sums_in, sum_by,
};
use crate::{spec_money_of_raw, spec_timestamp_norm, to_datetime_utc, to_money};
use vstd::prelude::*;

verus! {

broadcast use
    crate::decimal::lemma_spec_dec_view,
    crate::decimal::lemma_dec_roundtrip,
    vstd::seq_lib::group_to_multiset_ensures;

/// One ledger line.
pub struct HistoryItem {
    /// Unix seconds of the operation.
    pub datetime: i64,
    pub quantity: i64,
    pub quantity_rest: i64,
    pub price: Money,
    pub payment: Money,
    pub description: String,
    pub operation_state: String,
}

/// The chronological, deduplicated ledger of one instrument.
pub struct History {
    pub name: String,
    pub ticker: String,
    pub figi: String,
    pub currency: Currency,
    pub items: Vec<HistoryItem>,
}

/// The label the ledger shows for an operation state.
pub open spec fn spec_state_label(s: OperationState) -> Seq<char> {
    match s {
        OperationState::Unspecified => "Not specified"@,
        OperationState::Executed => "Executed"@,
        OperationState::Canceled => "Canceled"@,
        OperationState::Progress => "In progress"@,
    }
}

/// The currency an operation's own code resolves to, the ruble as fallback.
pub open spec fn spec_op_currency(op: RawOperation) -> Currency {
    match spec_from_code(op.currency@) {
        Some(c) => c,
        None => Currency { numeric: RUB_NUMERIC },
    }
}

/// The payment a ledger line shows: the operation's payment, or zero in the
/// operation's own (fallback) currency when it is absent or unreadable.
pub open spec fn spec_item_payment(op: RawOperation) -> Money {
    match op.payment {
        Some(m) => match spec_money_of_raw(m) {
            Some(mo) => mo,
            None => spec_money(0, spec_op_currency(op)),
        },
        None => spec_money(0, spec_op_currency(op)),
    }
}

/// The price a ledger line shows, with the same fallback as the payment.
pub open spec fn spec_item_price(op: RawOperation) -> Money {
    match op.price {
        Some(m) => match spec_money_of_raw(m) {
            Some(mo) => mo,
            None => spec_money(0, spec_op_currency(op)),
        },
        None => spec_money(0, spec_op_currency(op)),
    }
}

/// That `it` is exactly the ledger line read from `op`.
pub open spec fn spec_item_of(it: HistoryItem, op: RawOperation) -> bool {
    &&& it.datetime as int == (match op.date {
        Some(t) => spec_timestamp_norm(t.seconds as int),
        None => 0,
    })
    &&& it.quantity == op.quantity
    &&& it.quantity_rest == op.quantity_rest
    &&& it.price == spec_item_price(op)
    &&& it.payment == spec_item_payment(op)
    &&& it.description@ == op.type_text@
    &&& it.operation_state@ == spec_state_label(op.state)
}

/// Whether some operation in `s` carries the id `id`.
pub open spec fn spec_has_id(s: Seq<RawOperation>, id: Seq<char>) -> bool {
    exists|j: int| 0 <= j < s.len() && s[j].id@ == id
}

/// The operation list with later repetitions of an id removed: the first
/// occurrence wins, wherever in the list the repetitions stand.
pub open spec fn spec_dedup(s: Seq<RawOperation>) -> Seq<RawOperation>
    decreases s.len(),
{
    if s.len() == 0 {
        Seq::empty()
    } else if spec_has_id(s.drop_last(), s.last().id@) {
        spec_dedup(s.drop_last())
    } else {
        spec_dedup(s.drop_last()).push(s.last())
    }
}

/// Deduplicating a nonempty list leaves at least one operation.
proof fn lemma_dedup_nonempty(s: Seq<RawOperation>)
    requires
        s.len() > 0,
    ensures
        spec_dedup(s).len() > 0,
    decreases s.len(),
{
    if spec_has_id(s.drop_last(), s.last().id@) {
        lemma_dedup_nonempty(s.drop_last());
    }
}

/// Ascending by timestamp.
pub open spec fn spec_sorted_by_datetime(s: Seq<HistoryItem>) -> bool {
    forall|i: int, j: int| 0 <= i < j < s.len() ==> s[i].datetime <= s[j].datetime
}

/// A ledger line's expense contribution: its payment when negative.
pub open spec fn expense_fn() -> spec_fn(HistoryItem) -> int {
    |it: HistoryItem|
        if it.payment.value@ < 0 {
            it.payment.value@
        } else {
            0
        }
}

/// A ledger line's profit contribution: its payment when nonnegative.
pub open spec fn profit_fn() -> spec_fn(HistoryItem) -> int {
    |it: HistoryItem|
        if it.payment.value@ >= 0 {
            it.payment.value@
        } else {
            0
        }
}

/// The label the ledger shows for an operation state.
fn state_label(s: OperationState) -> (r: String)
    ensures
        r@ == spec_state_label(s),
{
    match s {
        OperationState::Unspecified => "Not specified".to_owned(),
        OperationState::Executed => "Executed".to_owned(),
        OperationState::Canceled => "Canceled".to_owned(),
        OperationState::Progress => "In progress".to_owned(),
    }
}

impl HistoryItem {
    /// Reads one ledger line from a raw operation.  An absent or unreadable
    /// payment or price shows as zero in the operation's own currency (the
    /// ruble when even that code is unknown); nothing here skips a line.
    pub fn from(op: &RawOperation) -> (r: HistoryItem)
        ensures
            spec_item_of(r, *op),
    {
        let currency = match Currency::from_code(op.currency.as_str()) {
            Some(c) => c,
            None => Currency::rub(),
        };
        let payment = match to_money(op.payment.as_ref()) {
            Some(p) => p,
            None => Money::zero(currency),
        };
        let price = match to_money(op.price.as_ref()) {
            Some(p) => p,
            None => Money::zero(currency),
        };
        let state = state_label(op.state);
        let dt = to_datetime_utc(op.date.as_ref());
        HistoryItem {
            datetime: dt,
            quantity: op.quantity,
            quantity_rest: op.quantity_rest,
            price,
            payment,
            description: op.type_text.clone(),
            operation_state: state,
        }
    }
}

/// Builds one ledger line per first occurrence of an operation id, in the
/// order the operations arrived.
fn dedup_items(operations: &Vec<RawOperation>) -> (r: Vec<HistoryItem>)
    ensures
        r@.len() == spec_dedup(operations@).len(),
        forall|k: int|
            0 <= k < r@.len() ==> spec_item_of(#[trigger] r@[k], spec_dedup(operations@)[k]),
{
    let mut out: Vec<HistoryItem> = Vec::new();
    let mut i: usize = 0;
    proof {
        assert(operations@.take(0) =~= Seq::<RawOperation>::empty());
    }
    while i < operations.len()
        invariant
            0 <= i <= operations.len(),
            out@.len() == spec_dedup(operations@.take(i as int)).len(),
            forall|k: int|
                0 <= k < out@.len() ==> spec_item_of(
                    #[trigger] out@[k],
                    spec_dedup(operations@.take(i as int))[k],
                ),
        decreases operations.len() - i,
    {
        let mut seen = false;
        let mut j: usize = 0;
        while j < i
            invariant
                0 <= j <= i < operations.len(),
                seen <==> exists|k: int|
                    0 <= k < j && operations@[k].id@ == operations@[i as int].id@,
            decreases i - j,
        {
            if operations[j].id == operations[i].id {
                seen = true;
            }
            j = j + 1;
        }
        proof {
            assert(operations@.take(i as int + 1).drop_last() =~= operations@.take(i as int));
            assert(operations@.take(i as int + 1).last() == operations@[i as int]);
            assert(seen <==> spec_has_id(
                operations@.take(i as int),
                operations@[i as int].id@,
            )) by {
                if seen {
                    let k = choose|k: int|
                        0 <= k < i && operations@[k].id@ == operations@[i as int].id@;
                    assert(operations@.take(i as int)[k] == operations@[k]);
                } else {
                    if spec_has_id(operations@.take(i as int), operations@[i as int].id@) {
                        let k = choose|k: int|
                            0 <= k < operations@.take(i as int).len() && operations@.take(
                                i as int,
                            )[k].id@ == operations@[i as int].id@;
                        assert(operations@[k].id@ == operations@[i as int].id@);
                    }
                }
            }
        }
        if !seen {
            out.push(HistoryItem::from(&operations[i]));
        }
        i = i + 1;
    }
    proof {
        assert(operations@.take(operations@.len() as int) =~= operations@);
    }
    out
}

/// Sorts ledger lines ascending by timestamp (selection sort: repeatedly
/// extract a minimum).
fn sort_by_datetime(items: Vec<HistoryItem>) -> (r: Vec<HistoryItem>)
    ensures
        spec_sorted_by_datetime(r@),
        r@.to_multiset() == items@.to_multiset(),
{
    let mut src = items;
    let mut out: Vec<HistoryItem> = Vec::new();
    proof {
        assert(out@.to_multiset().add(src@.to_multiset()) =~= items@.to_multiset());
    }
    while src.len() > 0
        invariant
            out@.to_multiset().add(src@.to_multiset()) == items@.to_multiset(),
            spec_sorted_by_datetime(out@),
            forall|x: int, y: int|
                0 <= x < out@.len() && 0 <= y < src@.len() ==> out@[x].datetime
                    <= src@[y].datetime,
        decreases src.len(),
    {
        let mut min: usize = 0;
        let mut j: usize = 1;
        while j < src.len()
            invariant
                0 <= min < j <= src.len(),
                forall|k: int| 0 <= k < j ==> src@[min as int].datetime <= src@[k].datetime,
            decreases src.len() - j,
        {
            if src[j].datetime < src[min].datetime {
                min = j;
            }
            j = j + 1;
        }
        let ghost old_src = src@;
        let ghost old_out = out@;
        let picked = src.remove(min);
        out.push(picked);
        proof {
            assert(old_src.remove(min as int).to_multiset() =~= old_src.to_multiset().remove(
                old_src[min as int],
            ));
            assert(out@.to_multiset() =~= old_out.to_multiset().insert(picked));
            assert(out@.to_multiset().add(src@.to_multiset()) =~= items@.to_multiset());
            assert forall|x: int, y: int|
                0 <= x < out@.len() && 0 <= y < src@.len() implies out@[x].datetime
                <= src@[y].datetime by {
                if y < min {
                    assert(src@[y] == old_src[y]);
                } else {
                    assert(src@[y] == old_src[y + 1]);
                }
            }
        }
    }
    out
}

impl History {
    /// Builds the ledger: duplicates dropped by id (first occurrence wins),
    /// lines sorted ascending by timestamp, the first line's payment currency
    /// anchoring the ledger.  An empty operation list gives `None`: there is
    /// no currency to anchor the report on.
    pub fn new(operations: Vec<RawOperation>, instrument: &InstrumentShort) -> (r: Option<
        History,
    >)
        ensures
            r is Some <==> operations@.len() > 0,
            r matches Some(h) ==> {
                &&& h.name == instrument.name
                &&& h.ticker == instrument.ticker
                &&& h.figi == instrument.figi
                &&& h.items@.len() == spec_dedup(operations@).len()
                &&& spec_sorted_by_datetime(h.items@)
                &&& h.items@.len() > 0
                &&& h.currency == h.items@[0].payment.currency
                &&& exists|pre: Seq<HistoryItem>|
                    {
                        &&& #[trigger] pre.to_multiset() == h.items@.to_multiset()
                        &&& pre.len() == spec_dedup(operations@).len()
                        &&& forall|k: int|
                            0 <= k < pre.len() ==> spec_item_of(
                                #[trigger] pre[k],
                                spec_dedup(operations@)[k],
                            )
                    }
            },
    {
        let unsorted = dedup_items(&operations);
        let ghost pre = unsorted@;
        let items = sort_by_datetime(unsorted);
        proof {
            items@.to_multiset_ensures();
            pre.to_multiset_ensures();
            assert(items@.len() == pre.len());
            if operations@.len() > 0 {
                lemma_dedup_nonempty(operations@);
            }
        }
        if items.len() == 0 {
            return None;
        }
        let currency = items[0].payment.currency;
        Some(
            History {
                name: instrument.name.clone(),
                ticker: instrument.ticker.clone(),
                figi: instrument.figi.clone(),
                currency,
                items,
            },
        )
    }

    /// Sum of the negative payments.
    pub fn expenses(&self) -> (r: Money)
        requires
            prefix_sums_in(self.items@, expense_fn(), DEC_LIMIT as int),
        ensures
            r == spec_money(sum_by(self.items@, expense_fn()), self.currency),
    {
        let ghost s = self.items@;
        let mut acc = Money::zero(self.currency);
        let mut i: usize = 0;
        proof {
            assert(s.take(0) =~= Seq::<HistoryItem>::empty());
        }
        while i < self.items.len()
            invariant
                0 <= i <= self.items.len(),
                s == self.items@,
                acc == spec_money(sum_by(s.take(i as int), expense_fn()), self.currency),
                prefix_sums_in(s, expense_fn(), DEC_LIMIT as int),
            decreases self.items.len() - i,
        {
            proof {
                lemma_sum_take_step(s, expense_fn(), i as int);
                self.items@[i as int].payment.value.lemma_view_roundtrip();
            }
            if self.items[i].payment.is_negative() {
                acc.add_assign(self.items[i].payment);
            }
            i = i + 1;
        }
        proof {
            lemma_sum_take_all(s, expense_fn());
        }
        acc
    }

    /// Sum of the nonnegative payments.
    pub fn profit(&self) -> (r: Money)
        requires
            prefix_sums_in(self.items@, profit_fn(), DEC_LIMIT as int),
        ensures
            r == spec_money(sum_by(self.items@, profit_fn()), self.currency),
    {
        let ghost s = self.items@;
        let mut acc = Money::zero(self.currency);
        let mut i: usize = 0;
        proof {
            assert(s.take(0) =~= Seq::<HistoryItem>::empty());
        }
        while i < self.items.len()
            invariant
                0 <= i <= self.items.len(),
                s == self.items@,
                acc == spec_money(sum_by(s.take(i as int), profit_fn()), self.currency),
                prefix_sums_in(s, profit_fn(), DEC_LIMIT as int),
            decreases self.items.len() - i,
        {
            proof {
                lemma_sum_take_step(s, profit_fn(), i as int);
                self.items@[i as int].payment.value.lemma_view_roundtrip();
            }
            if !self.items[i].payment.is_negative() {
                acc.add_assign(self.items[i].payment);
            }
            i = i + 1;
        }
        proof {
            lemma_sum_take_all(s, profit_fn());
        }
        acc
    }

    /// Expenses plus profit: the net cash flow of the ledger.
    pub fn balance(&self) -> (r: Money)
        requires
            prefix_sums_in(self.items@, expense_fn(), DEC_LIMIT as int),
            prefix_sums_in(self.items@, profit_fn(), DEC_LIMIT as int),
            dec_in_range(sum_by(self.items@, expense_fn()) + sum_by(self.items@, profit_fn())),
        ensures
            r == spec_money(
                sum_by(self.items@, expense_fn()) + sum_by(self.items@, profit_fn()),
                self.currency,
            ),
    {
        proof {
            lemma_sum_in_range(self.items@, expense_fn(), DEC_LIMIT as int);
            lemma_sum_in_range(self.items@, profit_fn(), DEC_LIMIT as int);
        }
        self.expenses().add(self.profit())
    }
}

} // verus!
