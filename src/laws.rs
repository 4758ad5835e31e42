use vstd::prelude::*;

use crate::expense::{added, first_with_id, holds_id, Expense, MAX_EXPENSES};

verus! {

/// The table after each `(description, amount, date)` of `items` is added in
/// turn.
pub open spec fn add_all<A>(t: Seq<Expense<A>>, items: Seq<(String, A, String)>) -> Seq<Expense<A>>
    decreases items.len(),
{
    if items.len() == 0 {
        t
    } else {
        let rest = items.drop_last();
        let (description, amount, date) = items.last();
        added(add_all(t, rest), description, amount, date)
    }
}

/// Adding `n` expenses to a table lengthens it by `n`, keeps what was there,
/// and gives each new entry its 1-based position as id and the given fields.
pub proof fn lemma_add_all<A>(t: Seq<Expense<A>>, items: Seq<(String, A, String)>)
    requires
        t.len() + items.len() <= MAX_EXPENSES,
    ensures
        add_all(t, items).len() == t.len() + items.len(),
        add_all(t, items).subrange(0, t.len() as int) == t,
        forall|k: int|
            0 <= k < items.len() ==> {
                let e = #[trigger] add_all(t, items)[t.len() + k];
                &&& e.id == t.len() + k + 1
                &&& e.description == items[k].0
                &&& e.amount == items[k].1
                &&& e.date == items[k].2
            },
    decreases items.len(),
{
    if items.len() > 0 {
        let rest = items.drop_last();
        lemma_add_all(t, rest);
        let r = add_all(t, items);
        assert(r.subrange(0, t.len() as int) =~= t) by {
            assert(add_all(t, rest).subrange(0, t.len() as int) == t);
        }
        assert forall|k: int| 0 <= k < items.len() implies {
            let e = #[trigger] r[t.len() + k];
            &&& e.id == t.len() + k + 1
            &&& e.description == items[k].0
            &&& e.amount == items[k].1
            &&& e.date == items[k].2
        } by {
            if k < rest.len() {
                assert(rest[k] == items[k]);
                assert(r[t.len() + k] == add_all(t, rest)[t.len() + k]);
            }
        }
    }
}

/// In a table built by adds alone, starting empty, each id is carried by at
/// most one entry: deleting the first entry with an id leaves none with it,
/// and every other entry stays, in order.
pub proof fn lemma_delete_in_added<A>(items: Seq<(String, A, String)>, id: u16, i: int)
    requires
        items.len() <= MAX_EXPENSES,
        first_with_id(add_all(Seq::<Expense<A>>::empty(), items), id, i),
    ensures
        !holds_id(add_all(Seq::<Expense<A>>::empty(), items).remove(i), id),
        add_all(Seq::<Expense<A>>::empty(), items).remove(i).len() + 1 == items.len(),
        forall|j: int|
            0 <= j < items.len() - 1 ==> #[trigger] add_all(
                Seq::<Expense<A>>::empty(),
                items,
            ).remove(i)[j] == add_all(Seq::<Expense<A>>::empty(), items)[if j < i {
                j
            } else {
                j + 1
            }],
{
    let e = Seq::<Expense<A>>::empty();
    let t = add_all(e, items);
    lemma_add_all(e, items);
    assert forall|k: int| 0 <= k < t.len() implies #[trigger] t[k].id == k + 1 by {
        assert(t[0 + k].id == 0 + k + 1);
    }
    let r = t.remove(i);
    if holds_id(r, id) {
        let j = choose|j: int| 0 <= j < r.len() && #[trigger] r[j].id == id;
        if j < i {
            assert(r[j] == t[j]);
        } else {
            assert(r[j] == t[j + 1]);
        }
    }
}

} // verus!
