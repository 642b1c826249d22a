//! A store of to-do items that lives in memory. It never fails for a reason
//! of its own.

use crate::clock::utc_now_micros;
use crate::error::ModelError;
use crate::table::{
    distinct_keys, entry_is_row, has_key, keyed, place_of, push_is_insert, remove_is_remove,
    row_is_entry, update_is_insert,
};
use crate::todo::{lists_all_of, owns, todo_views, Todo, TodoRepository, TodoView, Todos};
use vstd::prelude::*;

verus! {

/// The key of a to-do item: its identifier.
pub open spec fn todo_key() -> spec_fn(TodoView) -> u128 {
    |item: TodoView| item.id
}

/// The items that a table holds.
pub open spec fn todos_of(rows: Seq<TodoView>) -> Todos {
    keyed(rows, todo_key())
}

/// Whether `picked` names, in rising order, exactly the rows among the
/// first `upto` that belong to the user.
pub open spec fn picks_all_of(rows: Seq<TodoView>, user_id: u128, upto: int, picked: Seq<int>) -> bool {
    &&& forall|k: int|
        0 <= k < picked.len() ==> 0 <= (#[trigger] picked[k]) < upto && rows[picked[k]].user_id
            == user_id
    &&& forall|a: int, b: int| 0 <= a < b < picked.len() ==> picked[a] < picked[b]
    &&& forall|j: int|
        0 <= j < upto && (#[trigger] rows[j]).user_id == user_id ==> exists|k: int|
            0 <= k < picked.len() && picked[k] == j
}

/// The rows picked out of a table with distinct keys, where they are all of
/// the user's, list the user's items.
pub proof fn picked_rows_list_all(
    rows: Seq<TodoView>,
    user_id: u128,
    picked: Seq<int>,
    items: Seq<TodoView>,
)
    requires
        distinct_keys(rows, todo_key()),
        picks_all_of(rows, user_id, rows.len() as int, picked),
        items.len() == picked.len(),
        forall|k: int| 0 <= k < items.len() ==> #[trigger] items[k] == rows[picked[k]],
    ensures
        lists_all_of(todos_of(rows), user_id, items),
{
    let todos = todos_of(rows);
    assert forall|i: int| 0 <= i < items.len() implies owns(
        todos,
        user_id,
        (#[trigger] items[i]).id,
    ) && todos[items[i].id] == items[i] by {
        row_is_entry(rows, todo_key(), picked[i]);
    }
    assert forall|i: int, j: int| 0 <= i < j < items.len() implies items[i].id != items[j].id by {
        assert(items[i] == rows[picked[i]] && items[j] == rows[picked[j]]);
        assert(picked[i] < picked[j]);
        assert(todo_key()(rows[picked[i]]) != todo_key()(rows[picked[j]]));
    }
    assert forall|id: u128| owns(todos, user_id, id) implies exists|i: int|
        0 <= i < items.len() && (#[trigger] items[i]).id == id by {
        entry_is_row(rows, todo_key(), id);
        let j = place_of(rows, todo_key(), id);
        assert(rows[j].user_id == user_id);
        let k = choose|k: int| 0 <= k < picked.len() && picked[k] == j;
        assert(items[k] == rows[picked[k]]);
        assert(items[k].id == id);
    }
}

/// A store that keeps its items in a vector.
pub struct InMemoryTodoRepository {
    rows: Vec<Todo>,
}

impl InMemoryTodoRepository {
    #[verifier::type_invariant]
    spec fn well_kept(self) -> bool {
        distinct_keys(todo_views(self.rows@), todo_key())
    }

    /// An empty store.
    pub fn new() -> (r: InMemoryTodoRepository)
        ensures
            r.todos() == Map::<u128, TodoView>::empty(),
            r.dependable(),
    {
        let r = InMemoryTodoRepository { rows: Vec::new() };
        assert(todos_of(todo_views(r.rows@)) =~= Map::<u128, TodoView>::empty());
        r
    }

    /// The place of the row under the identifier.
    fn place_of_id(&self, id: u128) -> (r: Option<usize>)
        ensures
            match r {
                Some(i) => i < self.rows@.len() && self.rows@[i as int].id == id,
                None => !has_key(todo_views(self.rows@), todo_key(), id),
            },
    {
        let mut i: usize = 0;
        while i < self.rows.len()
            invariant
                i <= self.rows@.len(),
                forall|k: int| 0 <= k < i ==> self.rows@[k].id != id,
            decreases self.rows@.len() - i,
        {
            if self.rows[i].id == id {
                return Some(i);
            }
            i += 1;
        }
        None
    }

    /// Takes the rows out and leaves an empty table.
    fn take_rows(&mut self) -> (rows: Vec<Todo>)
        ensures
            rows == old(self).rows,
            final(self).rows@.len() == 0,
    {
        let mut rows: Vec<Todo> = Vec::new();
        core::mem::swap(&mut self.rows, &mut rows);
        rows
    }

    /// Puts rows into an empty table.
    fn put_rows(&mut self, rows: Vec<Todo>)
        requires
            distinct_keys(todo_views(rows@), todo_key()),
        ensures
            final(self).rows == rows,
    {
        let mut rows = rows;
        core::mem::swap(&mut self.rows, &mut rows);
    }

    /// Puts `item` in the place of the row at `i`, which has its identifier.
    fn replace_row(&mut self, i: usize, item: Todo)
        requires
            i < old(self).rows@.len(),
            old(self).rows@[i as int].id == item.id,
        ensures
            final(self).todos() == old(self).todos().insert(item.id, item@),
    {
        proof {
            use_type_invariant(&*self);
            update_is_insert(todo_views(self.rows@), todo_key(), i as int, item@);
        }
        let ghost before = todo_views(self.rows@);
        let mut rows = self.take_rows();
        rows.set(i, item);
        proof {
            assert(todo_views(rows@) =~= before.update(i as int, item@));
        }
        self.put_rows(rows);
    }
}

impl TodoRepository for InMemoryTodoRepository {
    closed spec fn todos(&self) -> Todos {
        todos_of(todo_views(self.rows@))
    }

    open spec fn dependable(&self) -> bool {
        true
    }

    fn create(&mut self, todo: &Todo) -> (r: Result<(), ModelError>) {
        proof {
            use_type_invariant(&*self);
        }
        let ghost before = todo_views(self.rows@);
        if let Some(i) = self.place_of_id(todo.id) {
            proof {
                row_is_entry(before, todo_key(), i as int);
            }
            return Err(ModelError::Conflict);
        }
        proof {
            push_is_insert(before, todo_key(), todo@);
        }
        let mut rows = self.take_rows();
        rows.push(todo.duplicate());
        proof {
            assert(todo_views(rows@) =~= before.push(todo@));
        }
        self.put_rows(rows);
        Ok(())
    }

    fn update(&mut self, id: u128, title: String, description: String) -> (r: Result<
        (),
        ModelError,
    >) {
        proof {
            use_type_invariant(&*self);
        }
        let ghost before = todo_views(self.rows@);
        let i = match self.place_of_id(id) {
            Some(i) => i,
            None => {
                return Err(ModelError::NotFound);
            },
        };
        proof {
            row_is_entry(before, todo_key(), i as int);
        }
        let now = utc_now_micros();
        let row = &self.rows[i];
        let item = Todo {
            id: row.id,
            user_id: row.user_id,
            title,
            description,
            is_completed: row.is_completed,
            created_at: row.created_at,
            updated_at: now,
        };
        assert(item@ == before[i as int].rewritten(title@, description@, now));
        self.replace_row(i, item);
        Ok(())
    }

    fn delete(&mut self, id: u128) -> (r: Result<(), ModelError>) {
        proof {
            use_type_invariant(&*self);
        }
        let ghost before = todo_views(self.rows@);
        let i = match self.place_of_id(id) {
            Some(i) => i,
            None => {
                return Err(ModelError::NotFound);
            },
        };
        proof {
            row_is_entry(before, todo_key(), i as int);
            remove_is_remove(before, todo_key(), i as int);
        }
        let mut rows = self.take_rows();
        let _ = rows.remove(i);
        proof {
            assert(todo_views(rows@) =~= before.remove(i as int));
        }
        self.put_rows(rows);
        Ok(())
    }

    fn toggle(&mut self, user_id: u128, id: u128) -> (r: Result<(), ModelError>) {
        proof {
            use_type_invariant(&*self);
        }
        let ghost before = todo_views(self.rows@);
        let i = match self.place_of_id(id) {
            Some(i) => i,
            None => {
                return Err(ModelError::NotFound);
            },
        };
        proof {
            row_is_entry(before, todo_key(), i as int);
        }
        let row = &self.rows[i];
        if row.user_id != user_id {
            return Err(ModelError::NotFound);
        }
        let item = Todo {
            id: row.id,
            user_id: row.user_id,
            title: row.title.clone(),
            description: row.description.clone(),
            is_completed: !row.is_completed,
            created_at: row.created_at,
            updated_at: row.updated_at,
        };
        assert(item@ == before[i as int].toggled());
        self.replace_row(i, item);
        Ok(())
    }

    fn find_all(&self, user_id: u128) -> (r: Result<Vec<Todo>, ModelError>)
        ensures
            r is Ok,
    {
        proof {
            use_type_invariant(self);
        }
        let ghost table = todo_views(self.rows@);
        let ghost mut picked: Seq<int> = Seq::empty();
        let mut items: Vec<Todo> = Vec::new();
        let mut i: usize = 0;
        while i < self.rows.len()
            invariant
                i <= self.rows@.len(),
                table == todo_views(self.rows@),
                items@.len() == picked.len(),
                picks_all_of(table, user_id, i as int, picked),
                forall|k: int| 0 <= k < items@.len() ==> (#[trigger] items@[k])@ == table[picked[k]],
            decreases self.rows@.len() - i,
        {
            let ghost earlier = picked;
            if self.rows[i].user_id == user_id {
                items.push(self.rows[i].duplicate());
                proof {
                    picked = picked.push(i as int);
                }
            }
            proof {
                assert forall|j: int|
                    0 <= j < i + 1 && (#[trigger] table[j]).user_id == user_id implies exists|
                    k: int,
                | 0 <= k < picked.len() && picked[k] == j by {
                    if j < i {
                        let k = choose|k: int| 0 <= k < earlier.len() && earlier[k] == j;
                        assert(picked[k] == j);
                    } else {
                        assert(picked[earlier.len() as int] == j);
                    }
                }
            }
            i += 1;
        }
        proof {
            let views = todo_views(items@);
            assert forall|k: int| 0 <= k < views.len() implies #[trigger] views[k]
                == table[picked[k]] by {
                assert(views[k] == items@[k]@);
            }
            picked_rows_list_all(table, user_id, picked, views);
        }
        Ok(items)
    }

    fn find_by_id(&self, user_id: u128, id: u128) -> (r: Result<Option<Todo>, ModelError>)
        ensures
            r is Ok,
    {
        proof {
            use_type_invariant(self);
        }
        match self.place_of_id(id) {
            Some(i) => {
                proof {
                    row_is_entry(todo_views(self.rows@), todo_key(), i as int);
                }
                if self.rows[i].user_id == user_id {
                    Ok(Some(self.rows[i].duplicate()))
                } else {
                    Ok(None)
                }
            },
            None => Ok(None),
        }
    }
}

} // verus!
