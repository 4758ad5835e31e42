use vstd::prelude::*;

use crate::expense::Expense;
use crate::text::{decimal, u16_text};

verus! {

/// The line that shows one expense: `<id>: <description> - $<amount> - <date>`.
pub open spec fn line_text(id: u16, description: Seq<char>, amount: Seq<char>, date: Seq<char>) -> Seq<char> {
    decimal(id as nat) + ": "@ + description + " - $"@ + amount + " - "@ + date
}

/// The line that shows `e`, whose amount is already written out.
pub fn expense_line(e: &Expense<String>) -> (r: String)
    ensures
        r@ == line_text(e.id, e.description@, e.amount@, e.date@),
{
    let mut r = u16_text(e.id);
    r.append(": ");
    r.append(e.description.as_str());
    r.append(" - $");
    r.append(e.amount.as_str());
    r.append(" - ");
    r.append(e.date.as_str());
    r
}

/// One line per expense, in table order.
pub fn list_expenses(expenses: &Vec<Expense<String>>) -> (r: Vec<String>)
    ensures
        r@.len() == expenses@.len(),
        forall|i: int|
            0 <= i < r@.len() ==> (#[trigger] r@[i])@ == line_text(
                expenses@[i].id,
                expenses@[i].description@,
                expenses@[i].amount@,
                expenses@[i].date@,
            ),
{
    let mut r: Vec<String> = Vec::new();
    let mut i: usize = 0;
    while i < expenses.len()
        invariant
            i <= expenses.len(),
            r@.len() == i,
            forall|k: int|
                0 <= k < i ==> (#[trigger] r@[k])@ == line_text(
                    expenses@[k].id,
                    expenses@[k].description@,
                    expenses@[k].amount@,
                    expenses@[k].date@,
                ),
        decreases expenses.len() - i,
    {
        r.push(expense_line(&expenses[i]));
        i = i + 1;
    }
    r
}

} // verus!
