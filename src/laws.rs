use vstd::prelude::*;
use crate::todo::{TodoView, seed};
use crate::response::{reply_single, reply_multiple, reply_not_found, reply_missing_field};
use crate::handlers::{FieldsView, all_todos_reply, todo_by_id_reply, update_reply, create_reply, delete_reply};

verus! {

/// Listing always answers 200 with exactly the two seed records, ids 1 then 2:
/// the reply depends on no input and on no earlier request.
pub proof fn lemma_list_is_seed()
    ensures
        all_todos_reply() == reply_multiple(seed()),
        seed().len() == 2,
        seed()[0].id == 1,
        seed()[1].id == 2,
{
}

/// Looking up id 1 or 2 answers 200 with the seed record of that id.
pub proof fn lemma_seed_id_found(id: u64)
    requires
        id == 1 || id == 2,
    ensures
        todo_by_id_reply(id) == reply_single(seed()[id - 1]),
        seed()[id - 1].id == id,
{
    reveal_with_fuel(crate::todo::find_by_id, 3);
}

/// Looking up any id other than 1 and 2 answers 404 `"Data not found"`.
pub proof fn lemma_other_id_not_found(id: u64)
    requires
        id != 1,
        id != 2,
    ensures
        todo_by_id_reply(id) == reply_not_found(),
{
    reveal_with_fuel(crate::todo::find_by_id, 3);
}

/// Deleting answers exactly what looking up the same id answers: the matched
/// seed record, or 404.
pub proof fn lemma_delete_answers_as_lookup(id: u64)
    ensures
        delete_reply(id) == todo_by_id_reply(id),
{
}

/// Updating id 1 or 2 answers 200 with the seed record of that id, its title and
/// flag replaced where the body supplies them; other ids answer 404.
pub proof fn lemma_update_merges(id: u64, u: FieldsView)
    ensures
        (id == 1 || id == 2) ==> update_reply(id, u) == reply_single(
            TodoView {
                id,
                title: match u.title {
                    Some(s) => s,
                    None => seed()[id - 1].title,
                },
                completed: match u.completed {
                    Some(c) => c,
                    None => seed()[id - 1].completed,
                },
            },
        ),
        (id != 1 && id != 2) ==> update_reply(id, u) == reply_not_found(),
{
    reveal_with_fuel(crate::todo::find_by_id, 3);
}

/// Creating with both fields answers 200 with a record of id 3 (one past the
/// last seed id) holding those fields; with either field missing, 400.
pub proof fn lemma_create_next_id(c: FieldsView)
    ensures
        (c.title is Some && c.completed is Some) ==> create_reply(c) == reply_single(
            TodoView { id: 3, title: c.title->0, completed: c.completed->0 },
        ),
        (c.title is None || c.completed is None) ==> create_reply(c) == reply_missing_field(),
{
}

} // verus!
