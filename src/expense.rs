use vstd::prelude::*;

verus! {

/// The most entries a table can hold: each new entry's id is the table's
/// length plus one, and ids are `u16`.
pub const MAX_EXPENSES: usize = 65535;

/// One recorded expense. The amount's type is left open: the store moves
/// amounts around but never looks inside one.
pub struct Expense<A> {
    pub id: u16,
    pub description: String,
    pub amount: A,
    pub date: String,
}

/// The table after one entry is appended: its id is the new 1-based
/// position.
pub open spec fn added<A>(t: Seq<Expense<A>>, description: String, amount: A, date: String) -> Seq<
    Expense<A>,
> {
    t.push(Expense { id: (t.len() + 1) as u16, description, amount, date })
}

/// Why an operation on the store did not go through.
#[derive(Debug, Clone, Copy, PartialEq, Eq)]
pub enum StoreError {
    /// The persisted table could not be read or written, or is malformed.
    Storage,
    /// No expense carries the requested id.
    NotFound,
}

/// Relies on chrono's `Local::now` and `DelayedFormat::to_string`: today's
/// local date written as `%Y-%m-%d`. It depends on the clock and the time
/// zone, so nothing is promised of it.
#[verifier::external_body]
fn today() -> (r: String) {
    chrono::Local::now().format("%Y-%m-%d").to_string()
}

impl<A> Expense<A> {
    /// A new expense dated today.
    pub fn new(description: String, amount: A, id: u16) -> (r: Expense<A>)
        ensures
            r.id == id,
            r.description == description,
            r.amount == amount,
    {
        Expense { description, amount, date: today(), id }
    }
}

/// Appends a new expense dated `date`, with the next id in line.
pub fn add_expense_on<A>(expenses: &mut Vec<Expense<A>>, description: String, amount: A, date: String)
    requires
        old(expenses).len() < MAX_EXPENSES,
    ensures
        final(expenses)@ == added(old(expenses)@, description, amount, date),
{
    let id: u16 = (expenses.len() + 1) as u16;
    expenses.push(Expense { id, description, amount, date });
}

/// Appends a new expense dated today, with the next id in line.
pub fn add_expense<A>(expenses: &mut Vec<Expense<A>>, description: String, amount: A)
    requires
        old(expenses).len() < MAX_EXPENSES,
    ensures
        final(expenses)@ == added(old(expenses)@, description, amount, final(expenses)@.last().date),
{
    let id: u16 = (expenses.len() + 1) as u16;
    let expense = Expense::new(description, amount, id);
    expenses.push(expense);
}

/// Whether some expense of the table carries `id`.
pub open spec fn holds_id<A>(t: Seq<Expense<A>>, id: u16) -> bool {
    exists|i: int| 0 <= i < t.len() && #[trigger] t[i].id == id
}

/// `i` is the position of the first expense that carries `id`.
pub open spec fn first_with_id<A>(t: Seq<Expense<A>>, id: u16, i: int) -> bool {
    &&& 0 <= i < t.len()
    &&& t[i].id == id
    &&& forall|j: int| 0 <= j < i ==> #[trigger] t[j].id != id
}

/// The position of the first expense that carries `id`, if any.
pub fn find_expense<A>(expenses: &Vec<Expense<A>>, id: u16) -> (r: Option<usize>)
    ensures
        match r {
            Some(i) => first_with_id(expenses@, id, i as int),
            None => !holds_id(expenses@, id),
        },
{
    let mut i: usize = 0;
    while i < expenses.len()
        invariant
            i <= expenses.len(),
            forall|j: int| 0 <= j < i ==> #[trigger] expenses@[j].id != id,
        decreases expenses.len() - i,
    {
        if expenses[i].id == id {
            return Some(i);
        }
        i = i + 1;
    }
    None
}

/// Removes the first expense that carries `id`. Where none does, the table
/// is left as it was and the answer is `NotFound`.
pub fn delete<A>(expenses: &mut Vec<Expense<A>>, id: u16) -> (r: Result<(), StoreError>)
    ensures
        r is Ok <==> holds_id(old(expenses)@, id),
        r is Ok ==> exists|i: int|
            first_with_id(old(expenses)@, id, i) && final(expenses)@ == old(expenses)@.remove(i),
        r is Err ==> r == Err::<(), StoreError>(StoreError::NotFound) && final(expenses)@ == old(
            expenses,
        )@,
{
    match find_expense(expenses, id) {
        Some(i) => {
            expenses.remove(i);
            Ok(())
        },
        None => Err(StoreError::NotFound),
    }
}

} // verus!
