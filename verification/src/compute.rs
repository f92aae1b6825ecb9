//! The derived fields: the total of each line and the total of the invoice.
//!
//! The library holds decimals as encodings and does no arithmetic on them,
//! so the product and the sum of two decimals are passed in. What is stated
//! here is which operation is applied to which fields, and in which order.

use vstd::prelude::*;
use crate::decimal::{Decimal, ZERO_BITS};
use crate::model::{Invoice, Product};

verus! {

/// Whether `sum` is a sum of `terms`, taken in order from zero: each term is
/// added to the sum of those before it.
pub open spec fn summed<P: Fn(Decimal, Decimal) -> Decimal>(
    plus: &P,
    terms: Seq<Decimal>,
    sum: Decimal,
) -> bool
    decreases terms.len(),
{
    if terms.len() == 0 {
        sum == Decimal::zero()
    } else {
        exists|before: Decimal|
            #![trigger plus.ensures((before, terms.last()), sum)]
            summed(plus, terms.drop_last(), before) && plus.ensures((before, terms.last()), sum)
    }
}

/// The totals of the lines, in order.
pub open spec fn line_totals(lines: Seq<Product>) -> Seq<Decimal> {
    Seq::new(lines.len(), |i: int| lines[i].total)
}

impl Product {
    /// Whether the total of the line is its amount times its unit price.
    pub open spec fn total_holds<M: Fn(Decimal, Decimal) -> Decimal>(self, times: &M) -> bool {
        times.ensures((self.amount, self.unit_price), self.total)
    }

    /// Whether two lines agree in all that a document gives.
    pub open spec fn same_entry(self, other: Product) -> bool {
        &&& self.description == other.description
        &&& self.amount == other.amount
        &&& self.unit == other.unit
        &&& self.unit_price == other.unit_price
    }

    /// Computes the total of the line: the amount times the unit price.
    pub fn compute<M: Fn(Decimal, Decimal) -> Decimal>(&mut self, times: &M)
        requires
            times.requires((old(self).amount, old(self).unit_price)),
        ensures
            final(self).same_entry(*old(self)),
            final(self).total_holds(times),
    {
        self.total = times(self.amount, self.unit_price);
    }
}

impl Invoice {
    /// Whether every derived field holds what it is derived from: the total
    /// of each line is its amount times its unit price, and the total of the
    /// invoice is the sum of the lines' totals, in order.
    pub open spec fn totals_hold<
        M: Fn(Decimal, Decimal) -> Decimal,
        P: Fn(Decimal, Decimal) -> Decimal,
    >(self, times: &M, plus: &P) -> bool {
        &&& forall|i: int|
            0 <= i < self.detail@.len() ==> (#[trigger] self.detail@[i]).total_holds(times)
        &&& summed(plus, line_totals(self.detail@), self.total)
    }

    /// Whether two invoices agree in all that a document gives: they differ
    /// at most in their derived fields.
    pub open spec fn same_entries(self, other: Invoice) -> bool {
        &&& self.number == other.number
        &&& self.issued == other.issued
        &&& self.shipped == other.shipped
        &&& self.company == other.company
        &&& self.client == other.client
        &&& self.payment == other.payment
        &&& self.detail@.len() == other.detail@.len()
        &&& forall|i: int|
            0 <= i < self.detail@.len() ==> (#[trigger] self.detail@[i]).same_entry(
                other.detail@[i],
            )
    }

    /// Computes every derived field, in place: first the total of each line,
    /// in order, and from these the total of the invoice. Nothing that the
    /// document gave changes, and no line is added or removed. There is no
    /// invoice on which this fails.
    pub fn compute<M: Fn(Decimal, Decimal) -> Decimal, P: Fn(Decimal, Decimal) -> Decimal>(
        &mut self,
        times: &M,
        plus: &P,
    )
        requires
            forall|a: Decimal, b: Decimal| times.requires((a, b)),
            forall|a: Decimal, b: Decimal| plus.requires((a, b)),
        ensures
            final(self).same_entries(*old(self)),
            final(self).totals_hold(times, plus),
    {
        let n: usize = self.detail.len();
        let mut i: usize = 0;
        while i < n
            invariant
                i <= n,
                n == self.detail@.len(),
                self.same_entries(*old(self)),
                forall|a: Decimal, b: Decimal| times.requires((a, b)),
                forall|k: int| 0 <= k < i ==> (#[trigger] self.detail@[k]).total_holds(times),
            decreases n - i,
        {
            self.detail[i].compute(times);
            i += 1;
        }
        let mut total: Decimal = Decimal::from_bits(ZERO_BITS);
        let mut j: usize = 0;
        assert(line_totals(self.detail@).take(0) =~= Seq::empty());
        while j < n
            invariant
                j <= n,
                n == self.detail@.len(),
                forall|a: Decimal, b: Decimal| plus.requires((a, b)),
                summed(plus, line_totals(self.detail@).take(j as int), total),
            decreases n - j,
        {
            let ghost before = total;
            total = plus(total, self.detail[j].total);
            proof {
                let terms = line_totals(self.detail@).take(j + 1);
                assert(terms.drop_last() =~= line_totals(self.detail@).take(j as int));
                assert(plus.ensures((before, terms.last()), total));
            }
            j += 1;
        }
        assert(line_totals(self.detail@).take(n as int) =~= line_totals(self.detail@));
        self.total = total;
    }
}

} // verus!
