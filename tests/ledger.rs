use budget_manager::{amount_to_text, BudgetManager, Timestamp, Transaction, TransactionType};

fn stamp() -> Timestamp {
    Timestamp {
        year: 2024,
        month: 3,
        day: 7,
        hour: 9,
        minute: 5,
        second: 2,
        nanosecond: 123_456_789,
        offset_seconds: 3600,
    }
}

fn record(id: u32, amount: i64, description: &str, t_type: TransactionType) -> Transaction {
    Transaction { id, date: stamp(), amount, description: description.to_string(), t_type }
}

#[test]
fn empty_store_lists_nothing_and_balances_to_zero() {
    let m = BudgetManager::new();
    assert!(m.list().is_empty());
    assert_eq!(m.get_balance(), 0);
    assert_eq!(m.next_id(), 1);
    assert!(m.list_transactions().is_empty());
}

#[test]
fn salary_and_food_scenario() {
    let mut m = BudgetManager::new();
    assert_eq!(m.add_transaction(10_000, "salary".to_string(), TransactionType::Income), 1);
    assert_eq!(m.add_transaction(3_000, "food".to_string(), TransactionType::Expense), 2);
    assert_eq!(m.get_balance(), 7_000);
    let ids: Vec<u32> = m.list().iter().map(|t| t.id).collect();
    assert_eq!(ids, vec![1, 2]);
    assert_eq!(m.list()[0].description, "salary");
    assert_eq!(m.list()[1].t_type, TransactionType::Expense);

    let copy: Vec<Transaction> = m
        .list()
        .iter()
        .map(|t| Transaction {
            id: t.id,
            date: t.date,
            amount: t.amount,
            description: t.description.clone(),
            t_type: t.t_type,
        })
        .collect();
    let mut reloaded = BudgetManager::new();
    reloaded.replace_all(copy);
    assert_eq!(reloaded.get_balance(), 7_000);
    assert_eq!(reloaded.next_id(), 3);
    reloaded.add_transaction(500, "coffee".to_string(), TransactionType::Expense);
    assert_eq!(reloaded.list()[2].id, 3);
    assert_eq!(reloaded.get_balance(), 6_500);
}

#[test]
fn balance_does_not_depend_on_order() {
    let mut a = BudgetManager::new();
    a.add_transaction(250, "gift".to_string(), TransactionType::Income);
    a.add_transaction(-40, "refund".to_string(), TransactionType::Expense);
    a.add_transaction(1_000, "rent".to_string(), TransactionType::Expense);
    let mut b = BudgetManager::new();
    b.add_transaction(1_000, "rent".to_string(), TransactionType::Expense);
    b.add_transaction(250, "gift".to_string(), TransactionType::Income);
    b.add_transaction(-40, "refund".to_string(), TransactionType::Expense);
    assert_eq!(a.get_balance(), 250 + 40 - 1_000);
    assert_eq!(a.get_balance(), b.get_balance());
}

#[test]
fn balance_of_extreme_amounts_is_exact() {
    let mut m = BudgetManager::new();
    m.add_transaction(i64::MAX, "a".to_string(), TransactionType::Income);
    m.add_transaction(i64::MAX, "b".to_string(), TransactionType::Income);
    m.add_transaction(i64::MIN, "c".to_string(), TransactionType::Expense);
    assert_eq!(m.get_balance(), 2 * (i64::MAX as i128) - (i64::MIN as i128));
}

#[test]
fn replace_all_counts_from_the_largest_id() {
    let mut m = BudgetManager::new();
    m.replace_all(vec![
        record(4, 100, "x", TransactionType::Income),
        record(9, 200, "y", TransactionType::Expense),
        record(2, 300, "z", TransactionType::Income),
    ]);
    assert_eq!(m.next_id(), 10);
    assert_eq!(m.get_balance(), 200);
    m.add_transaction(1, "w".to_string(), TransactionType::Income);
    let ids: Vec<u32> = m.list().iter().map(|t| t.id).collect();
    assert_eq!(ids, vec![4, 9, 2, 10]);
}

#[test]
fn replace_all_with_nothing_restarts_at_one() {
    let mut m = BudgetManager::new();
    m.add_transaction(1, "w".to_string(), TransactionType::Income);
    m.replace_all(Vec::new());
    assert_eq!(m.next_id(), 1);
    assert!(m.list().is_empty());
    assert_eq!(m.get_balance(), 0);
}

#[test]
fn largest_id_exhausts_the_counter() {
    let mut m = BudgetManager::new();
    m.replace_all(vec![record(u32::MAX, 1, "last", TransactionType::Income)]);
    assert_eq!(m.next_id(), u32::MAX as u64 + 1);
    assert!(!m.can_add());
    m.replace_all(vec![record(u32::MAX - 1, 1, "almost", TransactionType::Income)]);
    assert!(m.can_add());
}

#[test]
fn added_record_is_dated_by_the_clock() {
    let mut m = BudgetManager::new();
    m.add_transaction(10, "now".to_string(), TransactionType::Income);
    let d = m.list()[0].date;
    assert!(d.year >= 2024);
    assert!((1..=12).contains(&d.month));
    assert!((1..=31).contains(&d.day));
    assert!(d.hour < 24 && d.minute < 60 && d.second < 60);
}

#[test]
fn line_of_a_record() {
    let t = record(12, 3_000, "food and drink", TransactionType::Expense);
    assert_eq!(
        t.line(),
        "ID: 12, Date: 2024-03-07 09:05:02, Type: Expense, Amount: 30.00, Description: food and drink"
    );
}

#[test]
fn listing_has_one_line_per_record() {
    let mut m = BudgetManager::new();
    m.replace_all(vec![
        record(1, 10_000, "salary", TransactionType::Income),
        record(2, 3_000, "food", TransactionType::Expense),
    ]);
    assert_eq!(
        m.list_transactions(),
        vec![
            "ID: 1, Date: 2024-03-07 09:05:02, Type: Income, Amount: 100.00, Description: salary"
                .to_string(),
            "ID: 2, Date: 2024-03-07 09:05:02, Type: Expense, Amount: 30.00, Description: food"
                .to_string(),
        ]
    );
}

#[test]
fn amounts_have_two_decimals() {
    assert_eq!(amount_to_text(0), "0.00");
    assert_eq!(amount_to_text(5), "0.05");
    assert_eq!(amount_to_text(-5), "-0.05");
    assert_eq!(amount_to_text(123_456), "1234.56");
    assert_eq!(amount_to_text(-100), "-1.00");
    assert_eq!(amount_to_text(i64::MIN), "-92233720368547758.08");
}

#[test]
fn dates_pad_their_fields() {
    let mut d = stamp();
    d.year = 987;
    assert_eq!(d.to_text(), "0987-03-07 09:05:02");
    d.year = -44;
    assert_eq!(d.to_text(), "-0044-03-07 09:05:02");
    d.year = 12_345;
    d.month = 12;
    d.day = 31;
    d.hour = 23;
    d.minute = 59;
    d.second = 59;
    d.nanosecond = 1_500_000_000;
    assert_eq!(d.to_text(), "+12345-12-31 23:59:60");
}

#[test]
fn kinds_have_names() {
    assert_eq!(TransactionType::Income.name(), "Income");
    assert_eq!(TransactionType::Expense.name(), "Expense");
}

#[test]
fn balance_is_the_same_for_a_rearrangement() {
    let mut a = BudgetManager::new();
    a.replace_all(vec![
        record(1, 700, "a", TransactionType::Income),
        record(2, 250, "b", TransactionType::Expense),
        record(3, 40, "c", TransactionType::Expense),
        record(4, 5, "d", TransactionType::Income),
    ]);
    let mut b = BudgetManager::new();
    b.replace_all(vec![
        record(3, 40, "c", TransactionType::Expense),
        record(4, 5, "d", TransactionType::Income),
        record(1, 700, "a", TransactionType::Income),
        record(2, 250, "b", TransactionType::Expense),
    ]);
    assert_eq!(a.get_balance(), 415);
    assert_eq!(a.get_balance(), b.get_balance());
}

#[test]
fn ids_keep_counting_after_a_reload() {
    let mut m = BudgetManager::new();
    m.replace_all(vec![
        record(7, 1, "x", TransactionType::Income),
        record(3, 1, "y", TransactionType::Income),
    ]);
    let added: Vec<u32> = (0..3)
        .map(|k| m.add_transaction(k, "more".to_string(), TransactionType::Expense))
        .collect();
    assert_eq!(added, vec![8, 9, 10]);
    assert_eq!(m.next_id(), 11);
}
