//! A store of user records that lives in memory: the store of tests and of
//! a service without a database. It never fails for a reason of its own.

use crate::error::ModelError;
use crate::repository::{
    consistent, email_taken, email_taken_by_other, token_held, Records, UserRepository,
};
use crate::table::{
    distinct_keys, entry_is_row, has_key, keyed, place_of, push_is_insert, remove_is_remove,
    row_is_entry, update_is_insert,
};
use crate::text::same_text;
use crate::user::{User, UserView};
use vstd::prelude::*;
use vstd::string::StringExecFns;

verus! {

/// The rows of a table as plain values.
pub open spec fn views(rows: Seq<User>) -> Seq<UserView> {
    rows.map_values(|user: User| user@)
}

/// The key of a user record: its identifier.
pub open spec fn user_key() -> spec_fn(UserView) -> u128 {
    |user: UserView| user.id
}

/// Whether no two rows share an identifier or an address.
pub open spec fn tidy(rows: Seq<UserView>) -> bool {
    &&& distinct_keys(rows, user_key())
    &&& forall|i: int, j: int|
        0 <= i < j < rows.len() ==> (#[trigger] rows[i]).email != (#[trigger] rows[j]).email
}

/// The records that a table holds.
pub open spec fn records_of(rows: Seq<UserView>) -> Records {
    keyed(rows, user_key())
}

/// The records of a tidy table are consistent.
pub proof fn tidy_is_consistent(rows: Seq<UserView>)
    requires
        tidy(rows),
    ensures
        consistent(records_of(rows)),
{
    let records = records_of(rows);
    assert forall|id: u128| records.dom().contains(id) implies #[trigger] records[id].id == id by {
        entry_is_row(rows, user_key(), id);
    }
    assert forall|a: u128, b: u128|
        records.dom().contains(a) && records.dom().contains(b) && #[trigger] records[a].email
            == #[trigger] records[b].email implies a == b by {
        entry_is_row(rows, user_key(), a);
        entry_is_row(rows, user_key(), b);
        let i = place_of(rows, user_key(), a);
        let j = place_of(rows, user_key(), b);
        if i < j {
            assert(rows[i].email != rows[j].email);
        } else if j < i {
            assert(rows[j].email != rows[i].email);
        }
    }
}

/// An address is taken in the records exactly when a row carries it.
pub proof fn email_taken_in_rows(rows: Seq<UserView>, email: Seq<char>)
    requires
        tidy(rows),
    ensures
        email_taken(records_of(rows), email) <==> exists|i: int|
            0 <= i < rows.len() && (#[trigger] rows[i]).email == email,
{
    if email_taken(records_of(rows), email) {
        let id = choose|id: u128|
            records_of(rows).dom().contains(id) && #[trigger] records_of(rows)[id].email == email;
        entry_is_row(rows, user_key(), id);
        assert(rows[place_of(rows, user_key(), id)].email == email);
    }
    if exists|i: int| 0 <= i < rows.len() && (#[trigger] rows[i]).email == email {
        let i = choose|i: int| 0 <= i < rows.len() && (#[trigger] rows[i]).email == email;
        row_is_entry(rows, user_key(), i);
        assert(records_of(rows)[rows[i].id].email == email);
    }
}

/// A bound value is held in the records exactly when a row holds it.
pub proof fn token_held_in_rows(rows: Seq<UserView>, token: Seq<char>)
    requires
        tidy(rows),
    ensures
        token_held(records_of(rows), token) <==> exists|i: int|
            0 <= i < rows.len() && (#[trigger] rows[i]).token == Some(token),
{
    if token_held(records_of(rows), token) {
        let id = choose|id: u128|
            records_of(rows).dom().contains(id) && #[trigger] records_of(rows)[id].token == Some(
                token,
            );
        entry_is_row(rows, user_key(), id);
        assert(rows[place_of(rows, user_key(), id)].token == Some(token));
    }
    if exists|i: int| 0 <= i < rows.len() && (#[trigger] rows[i]).token == Some(token) {
        let i = choose|i: int| 0 <= i < rows.len() && (#[trigger] rows[i]).token == Some(token);
        row_is_entry(rows, user_key(), i);
        assert(records_of(rows)[rows[i].id].token == Some(token));
    }
}

/// Whether a search leaves the row at place `k` aside.
pub open spec fn left_aside(skip: Option<usize>, k: int) -> bool {
    match skip {
        Some(place) => place == k,
        None => false,
    }
}

/// A store that keeps its records in a vector.
pub struct InMemoryUserRepository {
    rows: Vec<User>,
}

impl InMemoryUserRepository {
    #[verifier::type_invariant]
    spec fn well_kept(self) -> bool {
        tidy(views(self.rows@))
    }

    /// An empty store.
    pub fn new() -> (r: InMemoryUserRepository)
        ensures
            r.records() == Map::<u128, UserView>::empty(),
            r.dependable(),
            consistent(r.records()),
    {
        let r = InMemoryUserRepository { rows: Vec::new() };
        assert(records_of(views(r.rows@)) =~= Map::<u128, UserView>::empty());
        r
    }

    /// The place of the row under the identifier.
    fn place_of_id(&self, id: u128) -> (r: Option<usize>)
        ensures
            match r {
                Some(i) => i < self.rows@.len() && self.rows@[i as int].id == id,
                None => !has_key(views(self.rows@), user_key(), id),
            },
    {
        let mut i: usize = 0;
        while i < self.rows.len()
            invariant
                i <= self.rows@.len(),
                forall|k: int| 0 <= k < i ==> self.rows@[k].id != id,
            decreases self.rows@.len() - i,
        {
            if self.rows[i].id == id {
                return Some(i);
            }
            i += 1;
        }
        None
    }

    /// The place of a row that carries the address, the row at `skip` left
    /// aside.
    fn place_of_email(&self, email: &str, skip: Option<usize>) -> (r: Option<usize>)
        ensures
            match r {
                Some(i) => i < self.rows@.len() && self.rows@[i as int].email@ == email@
                    && !left_aside(skip, i as int),
                None => forall|k: int|
                    0 <= k < self.rows@.len() && !left_aside(skip, k) ==> (
                    #[trigger] self.rows@[k]).email@ != email@,
            },
    {
        let mut i: usize = 0;
        while i < self.rows.len()
            invariant
                i <= self.rows@.len(),
                forall|k: int|
                    0 <= k < i && !left_aside(skip, k) ==> (#[trigger] self.rows@[k]).email@
                        != email@,
            decreases self.rows@.len() - i,
        {
            let skipped = match skip {
                Some(s) => s == i,
                None => false,
            };
            if !skipped && same_text(self.rows[i].email.as_str(), email) {
                return Some(i);
            }
            i += 1;
        }
        None
    }

    /// The place of a row that holds the bound value.
    fn place_of_token(&self, token: &str) -> (r: Option<usize>)
        ensures
            match r {
                Some(i) => i < self.rows@.len() && self.rows@[i as int]@.token == Some(token@),
                None => forall|k: int|
                    0 <= k < self.rows@.len() ==> (#[trigger] self.rows@[k])@.token != Some(
                        token@,
                    ),
            },
    {
        let mut i: usize = 0;
        while i < self.rows.len()
            invariant
                i <= self.rows@.len(),
                forall|k: int| 0 <= k < i ==> (#[trigger] self.rows@[k])@.token != Some(token@),
            decreases self.rows@.len() - i,
        {
            let held = match &self.rows[i].token {
                Some(bound) => same_text(bound.as_str(), token),
                None => false,
            };
            if held {
                return Some(i);
            }
            i += 1;
        }
        None
    }
}

impl InMemoryUserRepository {
    /// Takes the rows out and leaves an empty table.
    fn take_rows(&mut self) -> (rows: Vec<User>)
        ensures
            rows == old(self).rows,
            final(self).rows@.len() == 0,
    {
        let mut rows: Vec<User> = Vec::new();
        core::mem::swap(&mut self.rows, &mut rows);
        rows
    }

    /// Puts rows into an empty table.
    fn put_rows(&mut self, rows: Vec<User>)
        requires
            tidy(views(rows@)),
        ensures
            final(self).rows == rows,
    {
        let mut rows = rows;
        core::mem::swap(&mut self.rows, &mut rows);
    }
}

impl UserRepository for InMemoryUserRepository {
    closed spec fn records(&self) -> Records {
        records_of(views(self.rows@))
    }

    open spec fn dependable(&self) -> bool {
        true
    }

    fn create(&mut self, user: User) -> (r: Result<(), ModelError>)
        ensures
            consistent(final(self).records()),
    {
        proof {
            use_type_invariant(&*self);
            tidy_is_consistent(views(self.rows@));
        }
        let ghost before = views(self.rows@);
        if let Some(i) = self.place_of_id(user.id) {
            proof {
                row_is_entry(before, user_key(), i as int);
            }
            return Err(ModelError::Conflict);
        }
        if let Some(i) = self.place_of_email(user.email.as_str(), None) {
            proof {
                row_is_entry(before, user_key(), i as int);
                assert(records_of(before)[before[i as int].id].email == user@.email);
            }
            return Err(ModelError::Conflict);
        }
        proof {
            email_taken_in_rows(before, user@.email);
            assert forall|k: int| 0 <= k < before.len() implies (#[trigger] before[k]).email
                != user@.email by {
                assert(self.rows@[k].email@ != user.email@);
            }
            push_is_insert(before, user_key(), user@);
        }
        let mut rows = self.take_rows();
        rows.push(user);
        proof {
            assert(views(rows@) =~= before.push(user@));
            assert forall|a: int, b: int| 0 <= a < b < before.push(user@).len() implies (
            #[trigger] before.push(user@)[a]).id != (#[trigger] before.push(user@)[b]).id
                && before.push(user@)[a].email != before.push(user@)[b].email by {
                if b < before.len() {
                    assert(before[a].id != before[b].id && before[a].email != before[b].email);
                } else {
                    assert(before[a].id != user@.id);
                    assert(before[a].email != user@.email);
                }
            }
        }
        proof {
            tidy_is_consistent(views(rows@));
        }
        self.put_rows(rows);
        Ok(())
    }

    fn update(&mut self, user: &User) -> (r: Result<(), ModelError>)
        ensures
            consistent(final(self).records()),
    {
        proof {
            use_type_invariant(&*self);
            tidy_is_consistent(views(self.rows@));
        }
        let ghost before = views(self.rows@);
        let i = match self.place_of_id(user.id) {
            Some(i) => i,
            None => {
                return Ok(());
            },
        };
        proof {
            row_is_entry(before, user_key(), i as int);
        }
        if let Some(j) = self.place_of_email(user.email.as_str(), Some(i)) {
            proof {
                row_is_entry(before, user_key(), j as int);
                if j < i {
                    assert(before[j as int].id != before[i as int].id);
                } else {
                    assert(before[i as int].id != before[j as int].id);
                }
                assert(records_of(before)[before[j as int].id].email == user@.email);
            }
            return Err(ModelError::Database(String::from_str("address already in use")));
        }
        proof {
            if email_taken_by_other(records_of(before), user.id, user@.email) {
                let other = choose|other: u128|
                    other != user.id && records_of(before).dom().contains(other)
                        && #[trigger] records_of(before)[other].email == user@.email;
                entry_is_row(before, user_key(), other);
                let k = place_of(before, user_key(), other);
                assert(before[k].id == other);
                assert(!left_aside(Some(i), k));
                assert(self.rows@[k].email@ != user.email@);
            }
            update_is_insert(before, user_key(), i as int, user@);
        }
        let mut rows = self.take_rows();
        rows.set(i, user.duplicate());
        proof {
            let changed = before.update(i as int, user@);
            assert(views(rows@) =~= changed);
            assert forall|a: int, b: int| 0 <= a < b < changed.len() implies (
            #[trigger] changed[a]).id != (#[trigger] changed[b]).id && changed[a].email
                != changed[b].email by {
                assert(before[a].id != before[b].id && before[a].email != before[b].email);
                if a == i {
                    assert(!left_aside(Some(i), b));
                    assert(old(self).rows@[b].email@ != user.email@);
                } else if b == i {
                    assert(!left_aside(Some(i), a));
                    assert(old(self).rows@[a].email@ != user.email@);
                }
            }
        }
        proof {
            tidy_is_consistent(views(rows@));
        }
        self.put_rows(rows);
        Ok(())
    }

    fn delete(&mut self, id: u128) -> (r: Result<(), ModelError>)
        ensures
            consistent(final(self).records()),
    {
        proof {
            use_type_invariant(&*self);
            tidy_is_consistent(views(self.rows@));
        }
        let ghost before = views(self.rows@);
        let i = match self.place_of_id(id) {
            Some(i) => i,
            None => {
                return Err(ModelError::NotFound);
            },
        };
        proof {
            row_is_entry(before, user_key(), i as int);
            remove_is_remove(before, user_key(), i as int);
        }
        let mut rows = self.take_rows();
        let _ = rows.remove(i);
        proof {
            assert(views(rows@) =~= before.remove(i as int));
        }
        proof {
            tidy_is_consistent(views(rows@));
        }
        self.put_rows(rows);
        Ok(())
    }

    fn find_all(&self) -> (r: Result<Vec<User>, ModelError>)
        ensures
            r is Ok,
            consistent(self.records()),
    {
        proof {
            use_type_invariant(self);
            tidy_is_consistent(views(self.rows@));
        }
        let ghost table = views(self.rows@);
        let mut users: Vec<User> = Vec::new();
        let mut i: usize = 0;
        while i < self.rows.len()
            invariant
                i <= self.rows@.len(),
                users@.len() == i,
                forall|k: int| 0 <= k < i ==> (#[trigger] users@[k])@ == self.rows@[k]@,
            decreases self.rows@.len() - i,
        {
            users.push(self.rows[i].duplicate());
            i += 1;
        }
        proof {
            assert forall|k: int| 0 <= k < users@.len() implies records_of(table).dom().contains(
                (#[trigger] users@[k]).id,
            ) && records_of(table)[users@[k].id] == users@[k]@ by {
                row_is_entry(table, user_key(), k);
                assert(users@[k]@ == table[k]);
            }
            assert forall|a: int, b: int| 0 <= a < b < users@.len() implies users@[a].id
                != users@[b].id by {
                assert(users@[a]@ == table[a] && users@[b]@ == table[b]);
                assert(table[a].id != table[b].id);
            }
            assert forall|id: u128| records_of(table).dom().contains(id) implies exists|k: int|
                0 <= k < users@.len() && (#[trigger] users@[k]).id == id by {
                entry_is_row(table, user_key(), id);
                let k = place_of(table, user_key(), id);
                assert(users@[k]@ == table[k]);
                assert(users@[k].id == id);
            }
        }
        Ok(users)
    }

    fn find_by_id(&self, id: u128) -> (r: Result<Option<User>, ModelError>)
        ensures
            r is Ok,
            consistent(self.records()),
    {
        proof {
            use_type_invariant(self);
            tidy_is_consistent(views(self.rows@));
        }
        match self.place_of_id(id) {
            Some(i) => {
                proof {
                    row_is_entry(views(self.rows@), user_key(), i as int);
                }
                Ok(Some(self.rows[i].duplicate()))
            },
            None => Ok(None),
        }
    }

    fn find_by_email(&self, email: &str) -> (r: Result<Option<User>, ModelError>)
        ensures
            r is Ok,
            consistent(self.records()),
    {
        proof {
            use_type_invariant(self);
            tidy_is_consistent(views(self.rows@));
        }
        match self.place_of_email(email, None) {
            Some(i) => {
                proof {
                    row_is_entry(views(self.rows@), user_key(), i as int);
                }
                Ok(Some(self.rows[i].duplicate()))
            },
            None => {
                proof {
                    email_taken_in_rows(views(self.rows@), email@);
                    assert forall|k: int| 0 <= k < views(self.rows@).len() implies (
                    #[trigger] views(self.rows@)[k]).email != email@ by {
                        assert(self.rows@[k].email@ != email@);
                    }
                }
                Ok(None)
            },
        }
    }

    fn find_by_token(&self, token: &str) -> (r: Result<Option<User>, ModelError>)
        ensures
            r is Ok,
            consistent(self.records()),
    {
        proof {
            use_type_invariant(self);
            tidy_is_consistent(views(self.rows@));
        }
        match self.place_of_token(token) {
            Some(i) => {
                proof {
                    row_is_entry(views(self.rows@), user_key(), i as int);
                }
                Ok(Some(self.rows[i].duplicate()))
            },
            None => {
                proof {
                    token_held_in_rows(views(self.rows@), token@);
                    assert forall|k: int| 0 <= k < views(self.rows@).len() implies (
                    #[trigger] views(self.rows@)[k]).token != Some(token@) by {
                        assert(self.rows@[k]@.token != Some(token@));
                    }
                }
                Ok(None)
            },
        }
    }
}

} // verus!
