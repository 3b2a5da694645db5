use vstd::prelude::*;

use vstd::multiset::group_multiset_axioms;
use vstd::seq_lib::{to_multiset_build, to_multiset_contains, to_multiset_len, to_multiset_remove};

use crate::budget_manager::{balance_of, max_id, signed_amount, Transaction, TransactionType};

verus! {

/// The sum of the amounts of the incomes in `s`.
pub open spec fn income_total(s: Seq<Transaction>) -> int
    decreases s.len(),
{
    if s.len() == 0 {
        0
    } else {
        income_total(s.drop_last()) + if s.last().t_type == TransactionType::Income {
            s.last().amount as int
        } else {
            0
        }
    }
}

/// The sum of the amounts of the expenses in `s`.
pub open spec fn expense_total(s: Seq<Transaction>) -> int
    decreases s.len(),
{
    if s.len() == 0 {
        0
    } else {
        expense_total(s.drop_last()) + if s.last().t_type == TransactionType::Expense {
            s.last().amount as int
        } else {
            0
        }
    }
}

/// The balance is the sum of the incomes less the sum of the expenses.
pub proof fn balance_is_income_minus_expense(s: Seq<Transaction>)
    ensures
        balance_of(s) == income_total(s) - expense_total(s),
    decreases s.len(),
{
    if s.len() > 0 {
        balance_is_income_minus_expense(s.drop_last());
    }
}

/// The balance of two runs of records one after the other is the sum of their
/// balances.
pub proof fn balance_of_concat(a: Seq<Transaction>, b: Seq<Transaction>)
    ensures
        balance_of(a + b) == balance_of(a) + balance_of(b),
    decreases b.len(),
{
    if b.len() > 0 {
        assert((a + b).drop_last() =~= a + b.drop_last());
        assert((a + b).last() == b.last());
        balance_of_concat(a, b.drop_last());
    }
}

/// The order in which records were added does not change the balance: two runs
/// of records give the same balance whichever is added first.
pub proof fn balance_order_free(a: Seq<Transaction>, b: Seq<Transaction>)
    ensures
        balance_of(a + b) == balance_of(b + a),
{
    balance_of_concat(a, b);
    balance_of_concat(b, a);
}

/// No record of `s` has an identifier at or above `max_id(s) + 1`: the
/// identifier handed out after the records are loaded collides with none of
/// them, and neither does any later one.
pub proof fn fresh_id_after_replace(s: Seq<Transaction>, k: nat)
    requires
        k > max_id(s),
    ensures
        forall|i: int| 0 <= i < s.len() ==> (#[trigger] s[i]).id != k,
    decreases s.len(),
{
    if s.len() > 0 {
        fresh_id_after_replace(s.drop_last(), k);
        assert forall|i: int| 0 <= i < s.len() implies (#[trigger] s[i]).id != k by {
            if i < s.len() - 1 {
                assert(s[i] == s.drop_last()[i]);
            }
        }
    }
}

/// The balance does not depend on the order of the records: any rearrangement
/// of the same records has the same balance.
pub proof fn balance_permutation_free(a: Seq<Transaction>, b: Seq<Transaction>)
    requires
        a.to_multiset() == b.to_multiset(),
    ensures
        balance_of(a) == balance_of(b),
    decreases a.len(),
{
    broadcast use group_multiset_axioms;

    to_multiset_len(a);
    to_multiset_len(b);
    if a.len() == 0 {
        assert(b =~= Seq::<Transaction>::empty());
    } else {
        let x = a.last();
        let rest = a.drop_last();
        assert(rest.push(x) =~= a);
        to_multiset_build(rest, x);
        to_multiset_contains(b, x);
        let j = choose|j: int| 0 <= j < b.len() && b[j] == x;
        to_multiset_remove(b, j);
        assert(rest.to_multiset() =~= b.remove(j).to_multiset());
        balance_permutation_free(rest, b.remove(j));
        let front = b.take(j);
        let back = b.skip(j + 1);
        assert(b.remove(j) =~= front + back);
        assert(b =~= front + seq![x] + back);
        assert(seq![x].drop_last() =~= Seq::<Transaction>::empty());
        assert(balance_of(Seq::<Transaction>::empty()) == 0);
        assert(seq![x].last() == x);
        assert(balance_of(seq![x]) == signed_amount(x));
        balance_of_concat(front, seq![x]);
        balance_of_concat(front + seq![x], back);
        balance_of_concat(front, back);
    }
}

/// After the records `loaded` are put in place, the records added one by one
/// get the identifiers `max_id(loaded) + 1`, `+ 2`, and so on: none of them
/// equals an identifier of the loaded records, and no two of them are equal.
pub proof fn ids_after_reload(loaded: Seq<Transaction>, added: Seq<Transaction>)
    requires
        forall|k: int| 0 <= k < added.len() ==> (#[trigger] added[k]).id == max_id(loaded) + 1 + k,
    ensures
        forall|k: int, i: int|
            0 <= k < added.len() && 0 <= i < loaded.len() ==> (#[trigger] added[k]).id
                != (#[trigger] loaded[i]).id,
        forall|k: int, l: int|
            0 <= k < added.len() && 0 <= l < added.len() && k != l ==> (#[trigger] added[k]).id
                != (#[trigger] added[l]).id,
{
    lemma_max_id_bounds(loaded);
}

/// Every identifier of `s` is at most `max_id(s)`.
pub proof fn lemma_max_id_bounds(s: Seq<Transaction>)
    ensures
        forall|i: int| 0 <= i < s.len() ==> (#[trigger] s[i]).id <= max_id(s),
    decreases s.len(),
{
    if s.len() > 0 {
        lemma_max_id_bounds(s.drop_last());
        assert forall|i: int| 0 <= i < s.len() implies (#[trigger] s[i]).id <= max_id(s) by {
            if i < s.len() - 1 {
                assert(s[i] == s.drop_last()[i]);
            }
        }
    }
}

} // verus!
