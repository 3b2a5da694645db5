//! A personal ledger of income and expense transactions: an in-memory store
//! with monotonic identifiers, a running balance in whole cents, and the text
//! lines that describe each record.

mod budget_manager;
mod laws;
mod listing;
mod timestamp;

pub use budget_manager::{
    balance_of, max_id, signed_amount, BudgetManager, LedgerView, Transaction, TransactionType,
};
pub use laws::{
    balance_is_income_minus_expense, balance_of_concat, balance_order_free, fresh_id_after_replace,
    balance_permutation_free, expense_total, ids_after_reload, income_total, lemma_max_id_bounds,
};
pub use listing::{
    amount_text, amount_to_text, date_text, decimal, digit_char, kind_text,
    line_text, year_text, zero_padded,
};
pub use timestamp::Timestamp;
