use vstd::prelude::*;

use crate::timestamp::{local_now, Timestamp};

verus! {

/// Whether a transaction adds to the balance or takes from it.
#[derive(Clone, Copy, Debug, PartialEq, Eq, Structural)]
pub enum TransactionType {
    Income,
    Expense,
}

/// One recorded monetary event. The amount is in whole cents and is kept as
/// given, whatever its sign.
#[derive(Debug)]
pub struct Transaction {
    pub id: u32,
    pub date: Timestamp,
    pub amount: i64,
    pub description: String,
    pub t_type: TransactionType,
}

/// The amount of a transaction as it counts towards the balance.
pub open spec fn signed_amount(t: Transaction) -> int {
    match t.t_type {
        TransactionType::Income => t.amount as int,
        TransactionType::Expense => -(t.amount as int),
    }
}

/// The balance of a sequence of transactions: incomes added, expenses
/// subtracted, from left to right.
pub open spec fn balance_of(s: Seq<Transaction>) -> int
    decreases s.len(),
{
    if s.len() == 0 {
        0
    } else {
        balance_of(s.drop_last()) + signed_amount(s.last())
    }
}

/// The largest identifier in a sequence of transactions, or 0 when it is empty.
pub open spec fn max_id(s: Seq<Transaction>) -> nat
    decreases s.len(),
{
    if s.len() == 0 {
        0
    } else {
        let m = max_id(s.drop_last());
        if s.last().id as nat > m {
            s.last().id as nat
        } else {
            m
        }
    }
}

/// What a ledger holds: its records in insertion order, and the identifier
/// that the next record will get.
pub struct LedgerView {
    pub transactions: Seq<Transaction>,
    pub next_id: nat,
}

/// The ledger store: an ordered list of transactions and the counter that
/// hands out their identifiers.
pub struct BudgetManager {
    transactions: Vec<Transaction>,
    next_id: u64,
}

impl View for BudgetManager {
    type V = LedgerView;

    closed spec fn view(&self) -> LedgerView {
        LedgerView { transactions: self.transactions@, next_id: self.next_id as nat }
    }
}

impl BudgetManager {
    /// The counter lies above every identifier present.
    pub open spec fn wf(&self) -> bool {
        &&& self@.next_id >= 1
        &&& forall|i: int|
            0 <= i < self@.transactions.len() ==> (#[trigger] self@.transactions[i]).id
                < self@.next_id
    }

    /// An empty ledger whose first record will have identifier 1.
    pub fn new() -> (r: Self)
        ensures
            r.wf(),
            r@.transactions.len() == 0,
            r@.next_id == 1,
    {
        BudgetManager { transactions: Vec::new(), next_id: 1 }
    }

    /// The identifier that the next record will get.
    pub fn next_id(&self) -> (r: u64)
        ensures
            r == self@.next_id,
    {
        self.next_id
    }

    /// Whether identifiers remain for another record.
    pub fn can_add(&self) -> (r: bool)
        ensures
            r == (self@.next_id <= u32::MAX),
    {
        self.next_id <= u32::MAX as u64
    }

    /// Appends a record dated `date` with the next identifier, moves the
    /// counter on by one, and returns the identifier of the new record.
    pub fn add_transaction_at(
        &mut self,
        amount: i64,
        description: String,
        t_type: TransactionType,
        date: Timestamp,
    ) -> (r: u32)
        requires
            old(self)@.next_id <= u32::MAX,
        ensures
            r == old(self)@.next_id,
            final(self)@.next_id == old(self)@.next_id + 1,
            final(self)@.transactions == old(self)@.transactions.push(
                Transaction { id: old(self)@.next_id as u32, date, amount, description, t_type },
            ),
            old(self).wf() ==> final(self).wf(),
            old(self).wf() ==> forall|i: int|
                #![trigger old(self)@.transactions[i]]
                0 <= i < old(self)@.transactions.len() ==> old(self)@.transactions[i].id
                    != old(self)@.next_id,
    {
        let transaction = Transaction {
            id: self.next_id as u32,
            date,
            amount,
            description,
            t_type,
        };
        let id = transaction.id;
        self.transactions.push(transaction);
        self.next_id = self.next_id + 1;
        id
    }

    /// Appends a record dated now with the next identifier, moves the counter
    /// on by one, and returns the identifier of the new record. The record
    /// holds what was given; only its date comes from the clock.
    pub fn add_transaction(
        &mut self,
        amount: i64,
        description: String,
        t_type: TransactionType,
    ) -> (r: u32)
        requires
            old(self)@.next_id <= u32::MAX,
        ensures
            r == old(self)@.next_id,
            final(self)@.next_id == old(self)@.next_id + 1,
            final(self)@.transactions.len() == old(self)@.transactions.len() + 1,
            final(self)@.transactions.drop_last() == old(self)@.transactions,
            final(self)@.transactions.last().id == old(self)@.next_id,
            final(self)@.transactions.last().amount == amount,
            final(self)@.transactions.last().description == description,
            final(self)@.transactions.last().t_type == t_type,
            final(self)@.transactions.last().date.wf(),
            balance_of(final(self)@.transactions) == balance_of(old(self)@.transactions)
                + signed_amount(final(self)@.transactions.last()),
            old(self).wf() ==> final(self).wf(),
            old(self).wf() ==> forall|i: int|
                #![trigger old(self)@.transactions[i]]
                0 <= i < old(self)@.transactions.len() ==> old(self)@.transactions[i].id
                    != old(self)@.next_id,
    {
        let date = local_now();
        let id = self.add_transaction_at(amount, description, t_type, date);
        proof {
            assert(self@.transactions.drop_last() =~= old(self)@.transactions);
        }
        id
    }

    /// Replaces every record by `records`, and sets the counter one past the
    /// largest identifier among them (1 when there are none).
    pub fn replace_all(&mut self, records: Vec<Transaction>)
        ensures
            final(self)@.transactions == records@,
            final(self)@.next_id == max_id(records@) + 1,
            final(self).wf(),
    {
        let mut max: u32 = 0;
        let mut i: usize = 0;
        while i < records.len()
            invariant
                i <= records.len(),
                max as nat == max_id(records@.take(i as int)),
                forall|j: int| 0 <= j < i ==> (#[trigger] records@[j]).id <= max,
            decreases records.len() - i,
        {
            proof {
                let s = records@;
                assert(s.take(i + 1).drop_last() =~= s.take(i as int));
                assert(s.take(i + 1).last() == s[i as int]);
            }
            if records[i].id > max {
                max = records[i].id;
            }
            i = i + 1;
        }
        assert(records@.take(i as int) =~= records@);
        self.transactions = records;
        self.next_id = max as u64 + 1;
    }

    /// The balance in cents: incomes added, expenses subtracted.
    pub fn get_balance(&self) -> (r: i128)
        ensures
            r == balance_of(self@.transactions),
    {
        let mut acc: i128 = 0;
        let mut i: usize = 0;
        while i < self.transactions.len()
            invariant
                i <= self.transactions.len(),
                acc == balance_of(self.transactions@.take(i as int)),
                -(i as int) * 0x8000_0000_0000_0000 <= acc <= (i as int) * 0x8000_0000_0000_0000,
            decreases self.transactions.len() - i,
        {
            let t = &self.transactions[i];
            proof {
                let s = self.transactions@;
                assert(s.take(i + 1).drop_last() =~= s.take(i as int));
                assert(s.take(i + 1).last() == s[i as int]);
                assert((i as int) * 0x8000_0000_0000_0000 <= 0xffff_ffff_ffff_ffff
                    * 0x8000_0000_0000_0000) by (nonlinear_arith)
                    requires
                        i <= 0xffff_ffff_ffff_ffff,
                ;
            }
            match t.t_type {
                TransactionType::Income => {
                    acc = acc + t.amount as i128;
                },
                TransactionType::Expense => {
                    acc = acc - t.amount as i128;
                },
            }
            i = i + 1;
        }
        assert(self.transactions@.take(i as int) =~= self.transactions@);
        acc
    }

    /// All records, in insertion order.
    pub fn list(&self) -> (r: &Vec<Transaction>)
        ensures
            r@ == self@.transactions,
    {
        &self.transactions
    }
}

} // verus!
