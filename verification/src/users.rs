//! The account administration: listing, showing and deleting user records.

use crate::error::UserError;
use crate::repository::{Records, UserRepository};
use crate::user::UserResponse;
use vstd::prelude::*;

verus! {

/// Whether the responses show every record once, in any order.
pub open spec fn shows_all(records: Records, responses: Seq<UserResponse>) -> bool {
    &&& forall|i: int|
        0 <= i < responses.len() ==> records.dom().contains((#[trigger] responses[i]).id)
            && responses[i]@ == records[responses[i].id].shown()
    &&& forall|i: int, j: int| 0 <= i < j < responses.len() ==> responses[i].id != responses[j].id
    &&& forall|id: u128|
        records.dom().contains(id) ==> exists|i: int|
            0 <= i < responses.len() && (#[trigger] responses[i]).id == id
}

/// What deleting a user may do. It succeeds only by removing the record
/// that was there; a failure changes nothing. On a dependable store it
/// fails only where there is no such record, with `NotFound`.
pub open spec fn delete_user_outcome(
    before: Records,
    after: Records,
    id: u128,
    result: Result<(), UserError>,
    dependable: bool,
) -> bool {
    match result {
        Ok(()) => before.dom().contains(id) && after == before.remove(id),
        Err(e) => after == before && (dependable ==> e == UserError::NotFound
            && !before.dom().contains(id)),
    }
}

/// What listing the users may return: every record once. A dependable
/// store always answers.
pub open spec fn find_all_users_outcome(
    records: Records,
    result: Result<Vec<UserResponse>, UserError>,
    dependable: bool,
) -> bool {
    match result {
        Ok(responses) => shows_all(records, responses@),
        Err(_) => !dependable,
    }
}

/// What showing a user may return: the shown part of the record under the
/// identifier, or that there is none, as `None` or as `NotFound`. On a
/// dependable store nothing else.
pub open spec fn find_user_outcome(
    records: Records,
    id: u128,
    result: Result<Option<UserResponse>, UserError>,
    dependable: bool,
) -> bool {
    match result {
        Ok(Some(response)) => records.dom().contains(id) && response@ == records[id].shown(),
        Ok(None) => !records.dom().contains(id),
        Err(UserError::NotFound) => !records.dom().contains(id),
        Err(_) => !dependable,
    }
}

/// The account administration over a store `T`.
pub struct UserUseCase<T: UserRepository> {
    user: T,
}

impl<T: UserRepository> UserUseCase<T> {
    /// The store that the service works on.
    pub closed spec fn store(&self) -> T {
        self.user
    }

    /// A service over the store.
    pub fn new(user: T) -> (r: Self)
        ensures
            r.store() == user,
    {
        UserUseCase { user }
    }

    /// Deletes the user under the identifier.
    pub fn delete_user(&mut self, id: u128) -> (r: Result<(), UserError>)
        ensures
            final(self).store().dependable() == old(self).store().dependable(),
            delete_user_outcome(
                old(self).store().records(),
                final(self).store().records(),
                id,
                r,
                old(self).store().dependable(),
            ),
    {
        let user = match self.user.find_by_id(id) {
            Ok(Some(user)) => user,
            Ok(None) => {
                return Err(UserError::NotFound);
            },
            Err(e) => {
                return Err(UserError::from(e));
            },
        };
        match self.user.delete(user.id) {
            Ok(()) => Ok(()),
            Err(e) => Err(UserError::from(e)),
        }
    }

    /// Lists all users.
    pub fn find_all(&self) -> (r: Result<Vec<UserResponse>, UserError>)
        ensures
            find_all_users_outcome(self.store().records(), r, self.store().dependable()),
    {
        let users = match self.user.find_all() {
            Ok(users) => users,
            Err(e) => {
                return Err(UserError::from(e));
            },
        };
        let mut responses: Vec<UserResponse> = Vec::new();
        let mut i: usize = 0;
        while i < users.len()
            invariant
                i <= users@.len(),
                responses@.len() == i,
                forall|k: int|
                    0 <= k < i ==> (#[trigger] responses@[k])@ == users@[k]@.shown(),
            decreases users@.len() - i,
        {
            let user = &users[i];
            responses.push(
                UserResponse { id: user.id, name: user.name.clone(), email: user.email.clone() },
            );
            i += 1;
        }
        proof {
            let records = self.store().records();
            assert forall|k: int| 0 <= k < responses@.len() implies records.dom().contains(
                (#[trigger] responses@[k]).id,
            ) && responses@[k]@ == records[responses@[k].id].shown() by {
                assert(responses@[k]@ == users@[k]@.shown());
                assert(records.dom().contains(users@[k].id));
            }
            assert forall|a: int, b: int| 0 <= a < b < responses@.len() implies responses@[a].id
                != responses@[b].id by {
                assert(responses@[a]@ == users@[a]@.shown());
                assert(responses@[b]@ == users@[b]@.shown());
            }
            assert forall|id: u128| records.dom().contains(id) implies exists|k: int|
                0 <= k < responses@.len() && (#[trigger] responses@[k]).id == id by {
                let k = choose|k: int| 0 <= k < users@.len() && (#[trigger] users@[k]).id == id;
                assert(responses@[k]@ == users@[k]@.shown());
                assert(responses@[k].id == id);
            }
        }
        Ok(responses)
    }

    /// Shows the user under the identifier.
    pub fn find_by_id(&self, id: u128) -> (r: Result<Option<UserResponse>, UserError>)
        ensures
            find_user_outcome(self.store().records(), id, r, self.store().dependable()),
    {
        match self.user.find_by_id(id) {
            Ok(Some(user)) => Ok(Some(UserResponse::from(user))),
            Ok(None) => Ok(None),
            Err(e) => Err(UserError::from(e)),
        }
    }
}

} // verus!
