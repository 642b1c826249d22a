//! The store of user records, as the services see it: a map from a user's
//! identifier to the record, in which no two records share an address.

use crate::error::ModelError;
use crate::user::{User, UserView};
use vstd::prelude::*;

verus! {

/// The records of a store, each under its user's identifier.
pub type Records = Map<u128, UserView>;

/// Whether some record carries the address.
pub open spec fn email_taken(records: Records, email: Seq<char>) -> bool {
    exists|id: u128| records.dom().contains(id) && #[trigger] records[id].email == email
}

/// Whether some record holds the bound value in its session slot.
pub open spec fn token_held(records: Records, token: Seq<char>) -> bool {
    exists|id: u128| records.dom().contains(id) && #[trigger] records[id].token == Some(token)
}

/// Whether a record other than `id`'s carries the address.
pub open spec fn email_taken_by_other(records: Records, id: u128, email: Seq<char>) -> bool {
    exists|other: u128|
        other != id && records.dom().contains(other) && #[trigger] records[other].email == email
}

/// What holds of every store: each record lies under its own identifier,
/// and no two records share an address.
pub open spec fn consistent(records: Records) -> bool {
    &&& forall|id: u128| records.dom().contains(id) ==> #[trigger] records[id].id == id
    &&& forall|a: u128, b: u128|
        records.dom().contains(a) && records.dom().contains(b) && #[trigger] records[a].email
            == #[trigger] records[b].email ==> a == b
}

/// Whether the store can take the record as a new one: its identifier and
/// its address are both free.
pub open spec fn admits(records: Records, user: UserView) -> bool {
    !records.dom().contains(user.id) && !email_taken(records, user.email)
}

/// What `create` may do. A success adds the record, and only where the
/// store admits it; a failure changes nothing. A dependable store fails
/// only where it cannot admit the record, and then with a conflict.
pub open spec fn create_outcome(
    before: Records,
    after: Records,
    user: UserView,
    result: Result<(), ModelError>,
    dependable: bool,
) -> bool {
    match result {
        Ok(()) => admits(before, user) && after == before.insert(user.id, user),
        Err(e) => after == before && (dependable ==> !admits(before, user) && e
            is Conflict),
    }
}

/// What `update` may do. A success replaces the record under the user's
/// identifier, if there is one, and only where no other record carries the
/// new address; a failure changes nothing. A dependable store fails only
/// on such a clash.
pub open spec fn update_outcome(
    before: Records,
    after: Records,
    user: UserView,
    result: Result<(), ModelError>,
    dependable: bool,
) -> bool {
    let clash = before.dom().contains(user.id) && email_taken_by_other(before, user.id, user.email);
    match result {
        Ok(()) => !clash && after == (if before.dom().contains(user.id) {
            before.insert(user.id, user)
        } else {
            before
        }),
        Err(e) => after == before && (dependable ==> clash && e is Database),
    }
}

/// What `delete` may do. A success removes the record that was there; a
/// failure changes nothing. A dependable store fails only where there is no
/// such record, and says so.
pub open spec fn delete_outcome(
    before: Records,
    after: Records,
    id: u128,
    result: Result<(), ModelError>,
    dependable: bool,
) -> bool {
    match result {
        Ok(()) => before.dom().contains(id) && after == before.remove(id),
        Err(e) => after == before && (dependable ==> !before.dom().contains(id) && e
            is NotFound),
    }
}

/// What `find_all` may return: every record once, in any order. A
/// dependable store always answers.
pub open spec fn find_all_outcome(
    records: Records,
    result: Result<Vec<User>, ModelError>,
    dependable: bool,
) -> bool {
    match result {
        Ok(users) => {
            &&& forall|i: int|
                0 <= i < users@.len() ==> records.dom().contains(#[trigger] users@[i].id)
                    && records[users@[i].id] == users@[i]@
            &&& forall|i: int, j: int|
                0 <= i < j < users@.len() ==> users@[i].id != users@[j].id
            &&& forall|id: u128|
                records.dom().contains(id) ==> exists|i: int|
                    0 <= i < users@.len() && #[trigger] users@[i].id == id
        },
        Err(_) => !dependable,
    }
}

/// What `find_by_id` may return: the record under the identifier, or that
/// there is none. A dependable store always answers.
pub open spec fn find_by_id_outcome(
    records: Records,
    id: u128,
    result: Result<Option<User>, ModelError>,
    dependable: bool,
) -> bool {
    match result {
        Ok(Some(user)) => user.id == id && records.dom().contains(id) && records[id] == user@,
        Ok(None) => !records.dom().contains(id),
        Err(e) => if e is NotFound {
            !records.dom().contains(id)
        } else {
            !dependable
        },
    }
}

/// What `find_by_email` may return: a record that carries the address, or
/// that there is none. A dependable store always answers.
pub open spec fn find_by_email_outcome(
    records: Records,
    email: Seq<char>,
    result: Result<Option<User>, ModelError>,
    dependable: bool,
) -> bool {
    match result {
        Ok(Some(user)) => records.dom().contains(user.id) && records[user.id] == user@
            && user.email@ == email,
        Ok(None) => !email_taken(records, email),
        Err(e) => if e is NotFound {
            !email_taken(records, email)
        } else {
            !dependable
        },
    }
}

/// What `find_by_token` may return: a record of the store, or that no
/// record holds the bound value. Only a dependable store is taken at its
/// word that the record it returns holds the value; a dependable store
/// always answers.
pub open spec fn find_by_token_outcome(
    records: Records,
    token: Seq<char>,
    result: Result<Option<User>, ModelError>,
    dependable: bool,
) -> bool {
    match result {
        Ok(Some(user)) => records.dom().contains(user.id) && records[user.id] == user@ && (
        dependable ==> user@.token == Some(token)),
        Ok(None) => !token_held(records, token),
        Err(e) => if e is NotFound {
            !token_held(records, token)
        } else {
            !dependable
        },
    }
}

/// A store of user records.
///
/// `records` is what the store holds; `dependable` says that the store never
/// fails for a reason of its own. An implementation that is not verified
/// keeps the defaults, and so promises no dependability.
pub trait UserRepository {
    /// The records that the store holds.
    open spec fn records(&self) -> Records {
        arbitrary()
    }

    /// Whether the store fails only where a record is missing or clashes.
    open spec fn dependable(&self) -> bool {
        false
    }

    /// Adds a new record.
    fn create(&mut self, user: User) -> (r: Result<(), ModelError>)
        ensures
            final(self).dependable() == old(self).dependable(),
            create_outcome(
                old(self).records(),
                final(self).records(),
                user@,
                r,
                old(self).dependable(),
            ),
    ;

    /// Replaces the record under the user's identifier.
    fn update(&mut self, user: &User) -> (r: Result<(), ModelError>)
        ensures
            final(self).dependable() == old(self).dependable(),
            update_outcome(
                old(self).records(),
                final(self).records(),
                user@,
                r,
                old(self).dependable(),
            ),
    ;

    /// Removes the record under the identifier.
    fn delete(&mut self, id: u128) -> (r: Result<(), ModelError>)
        ensures
            final(self).dependable() == old(self).dependable(),
            delete_outcome(
                old(self).records(),
                final(self).records(),
                id,
                r,
                old(self).dependable(),
            ),
    ;

    /// All the records.
    fn find_all(&self) -> (r: Result<Vec<User>, ModelError>)
        ensures
            find_all_outcome(self.records(), r, self.dependable()),
    ;

    /// The record under the identifier.
    fn find_by_id(&self, id: u128) -> (r: Result<Option<User>, ModelError>)
        ensures
            find_by_id_outcome(self.records(), id, r, self.dependable()),
    ;

    /// The record that carries the address.
    fn find_by_email(&self, email: &str) -> (r: Result<Option<User>, ModelError>)
        ensures
            find_by_email_outcome(self.records(), email@, r, self.dependable()),
    ;

    /// A record that holds the bound value in its session slot.
    fn find_by_token(&self, token: &str) -> (r: Result<Option<User>, ModelError>)
        ensures
            find_by_token_outcome(self.records(), token@, r, self.dependable()),
    ;
}

/// Adding an admitted record keeps a store consistent.
pub proof fn create_keeps_consistent(before: Records, user: UserView)
    requires
        consistent(before),
        admits(before, user),
    ensures
        consistent(before.insert(user.id, user)),
{
    let after = before.insert(user.id, user);
    assert forall|a: u128, b: u128|
        after.dom().contains(a) && after.dom().contains(b) && #[trigger] after[a].email
            == #[trigger] after[b].email implies a == b by {
        if a != b {
            if a == user.id {
                assert(before.dom().contains(b) && before[b].email == user.email);
            } else if b == user.id {
                assert(before.dom().contains(a) && before[a].email == user.email);
            } else {
                assert(before[a].email == before[b].email);
            }
        }
    }
}

/// Replacing a record by one with the same identifier and an address that
/// no other record carries keeps a store consistent.
pub proof fn update_keeps_consistent(before: Records, user: UserView)
    requires
        consistent(before),
        before.dom().contains(user.id),
        !email_taken_by_other(before, user.id, user.email),
    ensures
        consistent(before.insert(user.id, user)),
{
    let after = before.insert(user.id, user);
    assert forall|a: u128, b: u128|
        after.dom().contains(a) && after.dom().contains(b) && #[trigger] after[a].email
            == #[trigger] after[b].email implies a == b by {
        if a != b {
            if a == user.id {
                assert(before.dom().contains(b) && before[b].email == user.email);
            } else if b == user.id {
                assert(before.dom().contains(a) && before[a].email == user.email);
            } else {
                assert(before[a].email == before[b].email);
            }
        }
    }
}

/// In a consistent store a record keeps its address to itself: changing
/// only its session slot clashes with no other record.
pub proof fn own_email_clashes_with_none(records: Records, id: u128)
    requires
        consistent(records),
        records.dom().contains(id),
    ensures
        !email_taken_by_other(records, id, records[id].email),
{
    if email_taken_by_other(records, id, records[id].email) {
        let other = choose|other: u128|
            other != id && records.dom().contains(other) && #[trigger] records[other].email
                == records[id].email;
        assert(records[other].email == records[id].email);
    }
}

} // verus!
