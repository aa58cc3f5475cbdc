//! The funds ledger: an append-only log of signed transactions and the
//! balance they sum to.  Amounts are cents; each transaction populates
//! exactly one of its credit and debit sides, and is never mutated or
//! deleted once appended.

use vstd::prelude::*;

verus! {

/// One ledger entry.  Exactly one of `funds_added` and `funds_subtracted`
/// is populated — never both, never neither — and both sides store a
/// non-negative magnitude in cents.
#[derive(Clone, Copy, Debug)]
pub struct Transaction {
    /// When the entry was appended, as Unix-epoch seconds.
    pub timestamp: i64,
    /// Cents credited, for a non-negative amount.
    pub funds_added: Option<i64>,
    /// Cents debited, for a negative amount; holds the magnitude.
    pub funds_subtracted: Option<i64>,
}

impl Transaction {
    /// Exactly one side populated, with a non-negative magnitude; a debit
    /// is always at least one cent, since a zero amount is recorded as a
    /// credit.
    pub open spec fn wf(self) -> bool {
        match (self.funds_added, self.funds_subtracted) {
            (Some(v), None) => v >= 0,
            (None, Some(v)) => v >= 1,
            _ => false,
        }
    }

    /// The entry's contribution to the balance: credits positive, debits
    /// negative.
    pub open spec fn signed_amount(self) -> int {
        match (self.funds_added, self.funds_subtracted) {
            (Some(v), None) => v as int,
            (None, Some(v)) => -(v as int),
            _ => 0,
        }
    }
}

/// The entry that recording `amount` cents at time `now` produces: credits
/// keep their sign, debits are stored as a positive magnitude.
pub open spec fn entry_for(now: i64, amount: i64) -> Transaction {
    if amount >= 0 {
        Transaction { timestamp: now, funds_added: Some(amount), funds_subtracted: None }
    } else {
        Transaction { timestamp: now, funds_added: None, funds_subtracted: Some((-amount) as i64) }
    }
}

/// The balance of a transaction log: all credits minus all debits, in
/// order.  The order cannot change the sum, but it is preserved in the log
/// for auditability.
pub open spec fn balance_of(s: Seq<Transaction>) -> int
    decreases s.len(),
{
    if s.len() == 0 {
        0
    } else {
        balance_of(s.drop_last()) + s.last().signed_amount()
    }
}

/// The append-only transaction log.
pub struct Ledger {
    pub transactions: Vec<Transaction>,
}

impl Ledger {
    /// Every entry in the log is well-formed.
    pub open spec fn wf(self) -> bool {
        forall|i: int|
            0 <= i < self.transactions@.len() ==> (#[trigger] self.transactions@[i]).wf()
    }

    /// An empty ledger: no transactions, zero balance.
    pub fn new() -> (l: Ledger)
        ensures
            l.wf(),
            l.transactions@.len() == 0,
            balance_of(l.transactions@) == 0,
    {
        Ledger { transactions: Vec::new() }
    }

    /// Record `amount` cents at time `now`: a non-negative amount becomes a
    /// credit, a negative one a debit of its magnitude.  Exactly one entry
    /// is appended, everything already in the log stays as it is, and the
    /// balance moves by exactly `amount`.
    pub fn append(&mut self, now: i64, amount: i64)
        requires
            old(self).wf(),
            amount > i64::MIN,
        ensures
            final(self).wf(),
            final(self).transactions@ == old(self).transactions@.push(entry_for(now, amount)),
            balance_of(final(self).transactions@) == balance_of(old(self).transactions@)
                + amount,
    {
        let tx = if amount >= 0 {
            Transaction { timestamp: now, funds_added: Some(amount), funds_subtracted: None }
        } else {
            Transaction { timestamp: now, funds_added: None, funds_subtracted: Some(-amount) }
        };
        self.transactions.push(tx);
        proof {
            assert(self.transactions@.drop_last() =~= old(self).transactions@);
        }
    }

    /// The current balance, in cents.
    pub fn balance(&self) -> (total: i128)
        requires
            self.wf(),
        ensures
            total == balance_of(self.transactions@),
    {
        calc_funds(&self.transactions)
    }
}

/// Sum a transaction log: all credits minus all debits, in cents.  The
/// 128-bit result cannot overflow, whatever the log holds.
pub fn calc_funds(transactions: &Vec<Transaction>) -> (total: i128)
    requires
        forall|i: int| 0 <= i < transactions@.len() ==> (#[trigger] transactions@[i]).wf(),
    ensures
        total == balance_of(transactions@),
{
    let mut total: i128 = 0;
    let mut i: usize = 0;
    while i < transactions.len()
        invariant
            forall|j: int| 0 <= j < transactions@.len() ==> (#[trigger] transactions@[j]).wf(),
            i <= transactions@.len(),
            total == balance_of(transactions@.take(i as int)),
            -0x8000000000000000 * (i as int) <= total <= 0x7fffffffffffffff * (i as int),
        decreases transactions@.len() - i,
    {
        proof {
            assert(transactions@.take(i as int + 1).drop_last() =~= transactions@.take(i as int));
            assert(transactions@.take(i as int + 1).last() == transactions@[i as int]);
        }
        let tx = &transactions[i];
        match (tx.funds_added, tx.funds_subtracted) {
            (Some(v), None) => {
                total = total + (v as i128);
            },
            (None, Some(v)) => {
                total = total - (v as i128);
            },
            _ => {
                // unreachable for well-formed entries; contributes nothing
            },
        }
        i = i + 1;
    }
    proof {
        assert(transactions@.take(transactions@.len() as int) =~= transactions@);
    }
    total
}

} // verus!
