use vstd::prelude::*;
use vstd::string::*;

use crate::budget_manager::{BudgetManager, Transaction, TransactionType};
use crate::timestamp::Timestamp;

verus! {

/// The character of a decimal digit.
pub open spec fn digit_char(d: nat) -> char {
    seq!['0', '1', '2', '3', '4', '5', '6', '7', '8', '9'][(d % 10) as int]
}

/// The decimal digits of `n`, most significant first, with no leading zero.
pub open spec fn decimal(n: nat) -> Seq<char>
    decreases n,
{
    if n < 10 {
        seq![digit_char(n)]
    } else {
        decimal(n / 10).push(digit_char(n % 10))
    }
}

/// The decimal digits of `n`, led by zeros up to `width` characters.
pub open spec fn zero_padded(n: nat, width: nat) -> Seq<char> {
    if decimal(n).len() >= width {
        decimal(n)
    } else {
        Seq::new((width - decimal(n).len()) as nat, |i: int| '0') + decimal(n)
    }
}

/// A year as four digits when it lies in 0..=9999, else signed with at least
/// four digits.
pub open spec fn year_text(y: int) -> Seq<char> {
    if 0 <= y < 10000 {
        zero_padded(y as nat, 4)
    } else if y < 0 {
        "-"@ + zero_padded((-y) as nat, 4)
    } else {
        "+"@ + zero_padded(y as nat, 4)
    }
}

/// A timestamp as `YYYY-MM-DD hh:mm:ss` in its own local time; a leap second
/// shows as second 60.
pub open spec fn date_text(t: Timestamp) -> Seq<char> {
    year_text(t.year as int) + "-"@ + zero_padded(t.month as nat, 2) + "-"@ + zero_padded(
        t.day as nat,
        2,
    ) + " "@ + zero_padded(t.hour as nat, 2) + ":"@ + zero_padded(t.minute as nat, 2) + ":"@
        + zero_padded(
        (t.second + t.nanosecond / 1_000_000_000) as nat,
        2,
    )
}

/// An amount in cents as units and exactly two decimals, with a minus sign
/// when it is negative.
pub open spec fn amount_text(cents: int) -> Seq<char> {
    let a = if cents < 0 {
        -cents
    } else {
        cents
    };
    (if cents < 0 {
        "-"@
    } else {
        Seq::empty()
    }) + decimal((a / 100) as nat) + "."@ + zero_padded((a % 100) as nat, 2)
}

/// The name of a kind of transaction.
pub open spec fn kind_text(k: TransactionType) -> Seq<char> {
    match k {
        TransactionType::Income => "Income"@,
        TransactionType::Expense => "Expense"@,
    }
}

/// The line that describes one transaction.
pub open spec fn line_text(t: Transaction) -> Seq<char> {
    "ID: "@ + decimal(t.id as nat) + ", Date: "@ + date_text(t.date) + ", Type: "@ + kind_text(
        t.t_type,
    ) + ", Amount: "@ + amount_text(t.amount as int) + ", Description: "@ + t.description@
}

fn digit_str(d: u64) -> (r: &'static str)
    requires
        d < 10,
    ensures
        r@ == seq![digit_char(d as nat)],
{
    proof {
        reveal_strlit("0");
        reveal_strlit("1");
        reveal_strlit("2");
        reveal_strlit("3");
        reveal_strlit("4");
        reveal_strlit("5");
        reveal_strlit("6");
        reveal_strlit("7");
        reveal_strlit("8");
        reveal_strlit("9");
    }
    let r = match d {
        0 => "0",
        1 => "1",
        2 => "2",
        3 => "3",
        4 => "4",
        5 => "5",
        6 => "6",
        7 => "7",
        8 => "8",
        _ => "9",
    };
    assert(r@ =~= seq![digit_char(d as nat)]);
    r
}

fn push_decimal(s: &mut String, n: u64)
    ensures
        final(s)@ == old(s)@ + decimal(n as nat),
    decreases n,
{
    if n >= 10 {
        push_decimal(s, n / 10);
    }
    s.append(digit_str(n % 10));
    assert(final(s)@ =~= old(s)@ + decimal(n as nat));
}

fn decimal_len(n: u64) -> (r: usize)
    ensures
        r == decimal(n as nat).len(),
        1 <= r <= 20,
    decreases n,
{
    if n < 10 {
        1
    } else {
        proof {
            assert(n / 10 < 0x2000_0000_0000_0000);
            lemma_decimal_len_bound((n / 10) as nat);
        }
        decimal_len(n / 10) + 1
    }
}

proof fn lemma_decimal_len_bound(n: nat)
    requires
        n < 0x2000_0000_0000_0000,
    ensures
        decimal(n).len() <= 19,
{
    assert(pow10(19) == 10_000_000_000_000_000_000) by {
        reveal_with_fuel(pow10, 20);
    }
    lemma_decimal_len_below(n, 19);
}

proof fn lemma_decimal_len_below(n: nat, k: nat)
    requires
        k >= 1,
        n < 0x2000_0000_0000_0000,
        n < pow10(k),
    ensures
        decimal(n).len() <= k,
    decreases n,
{
    if n >= 10 {
        assert(k >= 2) by {
            if k == 1 {
                assert(pow10(1) == 10) by {
                    reveal_with_fuel(pow10, 2);
                }
            }
        }
        assert(n / 10 < pow10((k - 1) as nat)) by {
            assert(pow10(k) == 10 * pow10((k - 1) as nat));
        }
        lemma_decimal_len_below(n / 10, (k - 1) as nat);
    }
}

spec fn pow10(k: nat) -> nat
    decreases k,
{
    if k == 0 {
        1
    } else {
        10 * pow10((k - 1) as nat)
    }
}

fn push_zero_padded(s: &mut String, n: u64, width: usize)
    ensures
        final(s)@ == old(s)@ + zero_padded(n as nat, width as nat),
{
    let len = decimal_len(n);
    if len < width {
        let mut k: usize = len;
        while k < width
            invariant
                len <= k <= width,
                s@ == old(s)@ + Seq::new((k - len) as nat, |i: int| '0'),
            decreases width - k,
        {
            proof {
                reveal_strlit("0");
            }
            s.append("0");
            k = k + 1;
            assert(s@ =~= old(s)@ + Seq::new((k - len) as nat, |i: int| '0'));
        }
    }
    push_decimal(s, n);
    assert(final(s)@ =~= old(s)@ + zero_padded(n as nat, width as nat));
}

fn push_year(s: &mut String, y: i32)
    ensures
        final(s)@ == old(s)@ + year_text(y as int),
{
    if 0 <= y && y < 10000 {
        push_zero_padded(s, y as u64, 4);
    } else if y < 0 {
        s.append("-");
        push_zero_padded(s, (-(y as i64)) as u64, 4);
    } else {
        s.append("+");
        push_zero_padded(s, y as u64, 4);
    }
    assert(final(s)@ =~= old(s)@ + year_text(y as int));
}

impl Timestamp {
    /// The timestamp as `YYYY-MM-DD hh:mm:ss`.
    pub fn to_text(&self) -> (r: String)
        ensures
            r@ == date_text(*self),
    {
        let mut s = String::new();
        push_year(&mut s, self.year);
        s.append("-");
        push_zero_padded(&mut s, self.month as u64, 2);
        s.append("-");
        push_zero_padded(&mut s, self.day as u64, 2);
        s.append(" ");
        push_zero_padded(&mut s, self.hour as u64, 2);
        s.append(":");
        push_zero_padded(&mut s, self.minute as u64, 2);
        s.append(":");
        let sec: u64 = self.second as u64 + (self.nanosecond / 1_000_000_000) as u64;
        push_zero_padded(&mut s, sec, 2);
        assert(s@ =~= date_text(*self));
        s
    }
}

/// Writes an amount in cents as units and two decimals.
pub fn amount_to_text(cents: i64) -> (r: String)
    ensures
        r@ == amount_text(cents as int),
{
    let mut s = String::new();
    let a: u64 = if cents < 0 {
        s.append("-");
        (-(cents as i128)) as u64
    } else {
        cents as u64
    };
    push_decimal(&mut s, a / 100);
    s.append(".");
    push_zero_padded(&mut s, a % 100, 2);
    assert(s@ =~= amount_text(cents as int));
    s
}

impl TransactionType {
    /// The name of the kind.
    pub fn name(&self) -> (r: &'static str)
        ensures
            r@ == kind_text(*self),
    {
        match self {
            TransactionType::Income => "Income",
            TransactionType::Expense => "Expense",
        }
    }
}

impl Transaction {
    /// The line that describes this transaction.
    pub fn line(&self) -> (r: String)
        ensures
            r@ == line_text(*self),
    {
        let mut s = String::from_str("ID: ");
        push_decimal(&mut s, self.id as u64);
        s.append(", Date: ");
        let date = self.date.to_text();
        s.append(date.as_str());
        s.append(", Type: ");
        s.append(self.t_type.name());
        s.append(", Amount: ");
        let amount = amount_to_text(self.amount);
        s.append(amount.as_str());
        s.append(", Description: ");
        s.append(self.description.as_str());
        assert(s@ =~= line_text(*self));
        s
    }
}

impl BudgetManager {
    /// The lines that list the ledger: one per record, in insertion order; none
    /// for an empty ledger.
    pub fn list_transactions(&self) -> (r: Vec<String>)
        ensures
            r@.len() == self@.transactions.len(),
            forall|i: int|
                0 <= i < r@.len() ==> (#[trigger] r@[i])@ == line_text(self@.transactions[i]),
    {
        let records = self.list();
        let mut lines: Vec<String> = Vec::new();
        let mut i: usize = 0;
        while i < records.len()
            invariant
                i <= records.len(),
                records@ == self@.transactions,
                lines@.len() == i,
                forall|j: int| 0 <= j < i ==> (#[trigger] lines@[j])@ == line_text(records@[j]),
            decreases records.len() - i,
        {
            lines.push(records[i].line());
            i = i + 1;
        }
        lines
    }
}

} // verus!
