//! The to-do items of the users, and the service that keeps them.

use crate::clock::utc_now_micros;
use crate::error::{ModelError, TodoError};
use crate::ident::{random_uuid, version_four};
use vstd::prelude::*;
use vstd::std_specs::convert::FromSpecImpl;

verus! {

/// A to-do item as the store keeps it. The two identifiers are 128-bit UUID
/// values, the two times microseconds since the Unix epoch.
#[derive(Debug)]
pub struct Todo {
    pub id: u128,
    pub user_id: u128,
    pub title: String,
    pub description: String,
    pub is_completed: bool,
    pub created_at: i64,
    pub updated_at: i64,
}

/// What a to-do item holds, as plain values.
pub struct TodoView {
    pub id: u128,
    pub user_id: u128,
    pub title: Seq<char>,
    pub description: Seq<char>,
    pub is_completed: bool,
    pub created_at: i64,
    pub updated_at: i64,
}

impl View for Todo {
    type V = TodoView;

    open spec fn view(&self) -> TodoView {
        TodoView {
            id: self.id,
            user_id: self.user_id,
            title: self.title@,
            description: self.description@,
            is_completed: self.is_completed,
            created_at: self.created_at,
            updated_at: self.updated_at,
        }
    }
}

impl Todo {
    /// A copy of the item.
    pub fn duplicate(&self) -> (r: Todo)
        ensures
            r@ == self@,
    {
        Todo {
            id: self.id,
            user_id: self.user_id,
            title: self.title.clone(),
            description: self.description.clone(),
            is_completed: self.is_completed,
            created_at: self.created_at,
            updated_at: self.updated_at,
        }
    }
}

/// What a client sends to add an item.
#[derive(Debug)]
pub struct CreateTodoDto {
    pub title: String,
    pub description: String,
}

/// What a client sends to change an item.
#[derive(Debug)]
pub struct UpdateTodoDto {
    pub title: String,
    pub description: String,
}

/// What the service shows of an item: all but its owner.
#[derive(Debug)]
pub struct TodoResponse {
    pub id: u128,
    pub title: String,
    pub description: String,
    pub is_completed: bool,
    pub created_at: i64,
    pub updated_at: i64,
}

/// What such a response holds, as plain values.
pub struct TodoResponseView {
    pub id: u128,
    pub title: Seq<char>,
    pub description: Seq<char>,
    pub is_completed: bool,
    pub created_at: i64,
    pub updated_at: i64,
}

impl View for TodoResponse {
    type V = TodoResponseView;

    open spec fn view(&self) -> TodoResponseView {
        TodoResponseView {
            id: self.id,
            title: self.title@,
            description: self.description@,
            is_completed: self.is_completed,
            created_at: self.created_at,
            updated_at: self.updated_at,
        }
    }
}

impl TodoView {
    /// The part of the item that a response shows.
    pub open spec fn shown(self) -> TodoResponseView {
        TodoResponseView {
            id: self.id,
            title: self.title,
            description: self.description,
            is_completed: self.is_completed,
            created_at: self.created_at,
            updated_at: self.updated_at,
        }
    }

    /// The item with another title and description, changed at `at`.
    pub open spec fn rewritten(self, title: Seq<char>, description: Seq<char>, at: i64) -> TodoView {
        TodoView { title, description, updated_at: at, ..self }
    }

    /// The item done where it was open, and open where it was done.
    pub open spec fn toggled(self) -> TodoView {
        TodoView { is_completed: !self.is_completed, ..self }
    }
}

impl From<Todo> for TodoResponse {
    fn from(value: Todo) -> (r: TodoResponse) {
        TodoResponse {
            id: value.id,
            title: value.title,
            description: value.description,
            is_completed: value.is_completed,
            created_at: value.created_at,
            updated_at: value.updated_at,
        }
    }
}

impl FromSpecImpl<Todo> for TodoResponse {
    open spec fn obeys_from_spec() -> bool {
        true
    }

    open spec fn from_spec(value: Todo) -> TodoResponse {
        TodoResponse {
            id: value.id,
            title: value.title,
            description: value.description,
            is_completed: value.is_completed,
            created_at: value.created_at,
            updated_at: value.updated_at,
        }
    }
}

/// The items of a store, each under its identifier.
pub type Todos = Map<u128, TodoView>;

/// Whether the store holds the item `id` for the user.
pub open spec fn owns(todos: Todos, user_id: u128, id: u128) -> bool {
    todos.dom().contains(id) && todos[id].user_id == user_id
}

/// The item that the service adds for a user.
pub open spec fn new_todo(
    user_id: u128,
    title: Seq<char>,
    description: Seq<char>,
    id: u128,
    now: i64,
) -> TodoView {
    TodoView {
        id,
        user_id,
        title,
        description,
        is_completed: false,
        created_at: now,
        updated_at: now,
    }
}

/// What adding an item to a store may do. A success adds it under a free
/// identifier; a failure changes nothing, and on a dependable store it is a
/// conflict, met only where the identifier is taken.
pub open spec fn create_todo_outcome(
    before: Todos,
    after: Todos,
    todo: TodoView,
    result: Result<(), ModelError>,
    dependable: bool,
) -> bool {
    match result {
        Ok(()) => !before.dom().contains(todo.id) && after == before.insert(todo.id, todo),
        Err(e) => after == before && (dependable ==> before.dom().contains(todo.id) && e
            is Conflict),
    }
}

/// What adding an item through the service may do. A success adds it under
/// a free identifier; a failure changes nothing, and on a dependable store
/// it is `BussinerError`, met only where the identifier is taken.
pub open spec fn add_todo_outcome(
    before: Todos,
    after: Todos,
    todo: TodoView,
    result: Result<(), TodoError>,
    dependable: bool,
) -> bool {
    match result {
        Ok(()) => !before.dom().contains(todo.id) && after == before.insert(todo.id, todo),
        Err(e) => after == before && (dependable ==> before.dom().contains(todo.id) && e
            == TodoError::BussinerError),
    }
}

/// What adding an item under a fresh identifier may do. A success adds an
/// open item of the user with the title and description given, under an
/// identifier with the marks of a random UUID that was free, with both
/// times the time of the call. A failure changes nothing; on a dependable
/// store a failure that is no general error is `BussinerError`, met only
/// where the identifier drawn was taken.
pub open spec fn add_fresh_todo_outcome(
    before: Todos,
    after: Todos,
    user_id: u128,
    title: Seq<char>,
    description: Seq<char>,
    result: Result<(), TodoError>,
    dependable: bool,
) -> bool {
    match result {
        Ok(()) => exists|id: u128, now: i64|
            {
                &&& version_four(id)
                &&& !before.dom().contains(id)
                &&& after == before.insert(
                    id,
                    #[trigger] new_todo(user_id, title, description, id, now),
                )
            },
        Err(e) => after == before && (dependable && e != TodoError::GeneralError ==> e
            == TodoError::BussinerError && exists|id: u128|
            version_four(id) && before.dom().contains(id)),
    }
}

/// What rewriting an item may do. A success gives the item that was there
/// the new title and description and a new time of change; a failure
/// changes nothing, and on a dependable store it means that there is no
/// such item.
pub open spec fn rewrite_outcome<E>(
    before: Todos,
    after: Todos,
    id: u128,
    title: Seq<char>,
    description: Seq<char>,
    result: Result<(), E>,
    dependable: bool,
) -> bool {
    match result {
        Ok(()) => before.dom().contains(id) && exists|at: i64|
            after == before.insert(id, #[trigger] before[id].rewritten(title, description, at)),
        Err(_) => after == before && (dependable ==> !before.dom().contains(id)),
    }
}

/// What removing an item may do. A success removes the item that was
/// there; a failure changes nothing, and on a dependable store it means
/// that there is no such item.
pub open spec fn remove_outcome<E>(
    before: Todos,
    after: Todos,
    id: u128,
    result: Result<(), E>,
    dependable: bool,
) -> bool {
    match result {
        Ok(()) => before.dom().contains(id) && after == before.remove(id),
        Err(_) => after == before && (dependable ==> !before.dom().contains(id)),
    }
}

/// What toggling an item may do. A success toggles the user's item; a
/// failure changes nothing, and on a dependable store it means that the
/// user has no such item.
pub open spec fn toggle_outcome<E>(
    before: Todos,
    after: Todos,
    user_id: u128,
    id: u128,
    result: Result<(), E>,
    dependable: bool,
) -> bool {
    match result {
        Ok(()) => owns(before, user_id, id) && after == before.insert(id, before[id].toggled()),
        Err(_) => after == before && (dependable ==> !owns(before, user_id, id)),
    }
}

/// Whether the items are all those of the user, each once, in any order.
pub open spec fn lists_all_of(todos: Todos, user_id: u128, items: Seq<TodoView>) -> bool {
    &&& forall|i: int|
        0 <= i < items.len() ==> owns(todos, user_id, (#[trigger] items[i]).id)
            && todos[items[i].id] == items[i]
    &&& forall|i: int, j: int| 0 <= i < j < items.len() ==> items[i].id != items[j].id
    &&& forall|id: u128|
        owns(todos, user_id, id) ==> exists|i: int|
            0 <= i < items.len() && (#[trigger] items[i]).id == id
}

/// The items as plain values.
pub open spec fn todo_views(items: Seq<Todo>) -> Seq<TodoView> {
    items.map_values(|item: Todo| item@)
}

/// What a store may return for all items of a user. A dependable store
/// always answers.
pub open spec fn find_all_todos_outcome(
    todos: Todos,
    user_id: u128,
    result: Result<Vec<Todo>, ModelError>,
    dependable: bool,
) -> bool {
    match result {
        Ok(items) => lists_all_of(todos, user_id, todo_views(items@)),
        Err(_) => !dependable,
    }
}

/// What a store may return for one item of a user: the item, or that the
/// user has none under the identifier. A dependable store always answers.
pub open spec fn find_todo_outcome(
    todos: Todos,
    user_id: u128,
    id: u128,
    result: Result<Option<Todo>, ModelError>,
    dependable: bool,
) -> bool {
    match result {
        Ok(Some(item)) => item.id == id && owns(todos, user_id, id) && todos[id] == item@,
        Ok(None) => !owns(todos, user_id, id),
        Err(e) => if e is NotFound {
            !owns(todos, user_id, id)
        } else {
            !dependable
        },
    }
}

/// A store of to-do items.
///
/// `todos` is what the store holds; `dependable` says that the store never
/// fails for a reason of its own. An implementation that is not verified
/// keeps the defaults, and so promises no dependability.
pub trait TodoRepository {
    /// The items that the store holds.
    open spec fn todos(&self) -> Todos {
        arbitrary()
    }

    /// Whether the store fails only where an item is missing or clashes.
    open spec fn dependable(&self) -> bool {
        false
    }

    /// Adds a new item.
    fn create(&mut self, todo: &Todo) -> (r: Result<(), ModelError>)
        ensures
            final(self).dependable() == old(self).dependable(),
            create_todo_outcome(
                old(self).todos(),
                final(self).todos(),
                todo@,
                r,
                old(self).dependable(),
            ),
    ;

    /// Gives the item a new title and description, and stamps the change.
    fn update(&mut self, id: u128, title: String, description: String) -> (r: Result<
        (),
        ModelError,
    >)
        ensures
            final(self).dependable() == old(self).dependable(),
            rewrite_outcome(
                old(self).todos(),
                final(self).todos(),
                id,
                title@,
                description@,
                r,
                old(self).dependable(),
            ),
    ;

    /// Removes the item.
    fn delete(&mut self, id: u128) -> (r: Result<(), ModelError>)
        ensures
            final(self).dependable() == old(self).dependable(),
            remove_outcome(old(self).todos(), final(self).todos(), id, r, old(self).dependable()),
    ;

    /// Toggles the user's item between open and done.
    fn toggle(&mut self, user_id: u128, id: u128) -> (r: Result<(), ModelError>)
        ensures
            final(self).dependable() == old(self).dependable(),
            toggle_outcome(
                old(self).todos(),
                final(self).todos(),
                user_id,
                id,
                r,
                old(self).dependable(),
            ),
    ;

    /// All items of the user.
    fn find_all(&self, user_id: u128) -> (r: Result<Vec<Todo>, ModelError>)
        ensures
            find_all_todos_outcome(self.todos(), user_id, r, self.dependable()),
    ;

    /// The user's item under the identifier.
    fn find_by_id(&self, user_id: u128, id: u128) -> (r: Result<Option<Todo>, ModelError>)
        ensures
            find_todo_outcome(self.todos(), user_id, id, r, self.dependable()),
    ;
}

/// Whether the responses show all items of the user, each once, in any
/// order.
pub open spec fn shows_all_of(todos: Todos, user_id: u128, responses: Seq<TodoResponse>) -> bool {
    &&& forall|i: int|
        0 <= i < responses.len() ==> owns(todos, user_id, (#[trigger] responses[i]).id)
            && responses[i]@ == todos[responses[i].id].shown()
    &&& forall|i: int, j: int| 0 <= i < j < responses.len() ==> responses[i].id != responses[j].id
    &&& forall|id: u128|
        owns(todos, user_id, id) ==> exists|i: int|
            0 <= i < responses.len() && (#[trigger] responses[i]).id == id
}

/// What the service may return for all items of a user. A dependable store
/// always answers.
pub open spec fn list_outcome(
    todos: Todos,
    user_id: u128,
    result: Result<Vec<TodoResponse>, TodoError>,
    dependable: bool,
) -> bool {
    match result {
        Ok(responses) => shows_all_of(todos, user_id, responses@),
        Err(_) => !dependable,
    }
}

/// What the service may return for one item of a user: the shown part of
/// the item, or that the user has none under the identifier, as `None` or
/// as `NotFound`. On a dependable store nothing else.
pub open spec fn show_outcome(
    todos: Todos,
    user_id: u128,
    id: u128,
    result: Result<Option<TodoResponse>, TodoError>,
    dependable: bool,
) -> bool {
    match result {
        Ok(Some(response)) => owns(todos, user_id, id) && response@ == todos[id].shown(),
        Ok(None) => !owns(todos, user_id, id),
        Err(TodoError::NotFound) => !owns(todos, user_id, id),
        Err(_) => !dependable,
    }
}

/// What rewriting or removing a user's item may do beyond what the store
/// does: it touches only an item that the user owns, and where the user
/// owns none under the identifier, a dependable store says `NotFound`.
pub open spec fn guarded_by_owner(
    before: Todos,
    user_id: u128,
    id: u128,
    result: Result<(), TodoError>,
    dependable: bool,
) -> bool {
    match result {
        Ok(()) => owns(before, user_id, id),
        Err(e) => dependable ==> e == TodoError::NotFound && !owns(before, user_id, id),
    }
}

/// The to-do service over a store `T`.
pub struct TodoUseCase<T: TodoRepository> {
    todo: T,
}

impl<T: TodoRepository> TodoUseCase<T> {
    /// The store that the service works on.
    pub closed spec fn store(&self) -> T {
        self.todo
    }

    /// A service over the store.
    pub fn new(todo: T) -> (r: Self)
        ensures
            r.store() == todo,
    {
        TodoUseCase { todo }
    }

    /// Adds an open item for the user, under the identifier and with the
    /// time given.
    pub fn create_todo_as(&mut self, user_id: u128, dto: CreateTodoDto, id: u128, now: i64) -> (r:
        Result<(), TodoError>)
        ensures
            final(self).store().dependable() == old(self).store().dependable(),
            add_todo_outcome(
                old(self).store().todos(),
                final(self).store().todos(),
                new_todo(user_id, dto.title@, dto.description@, id, now),
                r,
                old(self).store().dependable(),
            ),
    {
        let todo = Todo {
            id,
            user_id,
            title: dto.title,
            description: dto.description,
            is_completed: false,
            created_at: now,
            updated_at: now,
        };
        match self.todo.create(&todo) {
            Ok(()) => Ok(()),
            Err(e) => Err(TodoError::from(e)),
        }
    }

    /// Adds an open item for the user, under a fresh identifier. It is a
    /// general error where the system gives no random bytes for one.
    pub fn create_todo(&mut self, user_id: u128, dto: CreateTodoDto) -> (r: Result<(), TodoError>)
        ensures
            final(self).store().dependable() == old(self).store().dependable(),
            add_fresh_todo_outcome(
                old(self).store().todos(),
                final(self).store().todos(),
                user_id,
                dto.title@,
                dto.description@,
                r,
                old(self).store().dependable(),
            ),
    {
        let id = match random_uuid() {
            Some(id) => id,
            None => {
                return Err(TodoError::GeneralError);
            },
        };
        let now = utc_now_micros();
        let ghost title = dto.title@;
        let ghost description = dto.description@;
        let r = self.create_todo_as(user_id, dto, id, now);
        proof {
            if r is Ok {
                assert(self.store().todos() == old(self).store().todos().insert(
                    id,
                    new_todo(user_id, title, description, id, now),
                ));
            }
        }
        r
    }

    /// Gives the user's item a new title and description.
    pub fn update_todo(&mut self, user_id: u128, id: u128, dto: UpdateTodoDto) -> (r: Result<
        (),
        TodoError,
    >)
        ensures
            final(self).store().dependable() == old(self).store().dependable(),
            rewrite_outcome(
                old(self).store().todos(),
                final(self).store().todos(),
                id,
                dto.title@,
                dto.description@,
                r,
                false,
            ),
            guarded_by_owner(old(self).store().todos(), user_id, id, r, old(self).store().dependable()),
    {
        let todo = match self.todo.find_by_id(user_id, id) {
            Ok(Some(todo)) => todo,
            Ok(None) => {
                return Err(TodoError::NotFound);
            },
            Err(e) => {
                return Err(TodoError::from(e));
            },
        };
        match self.todo.update(todo.id, dto.title, dto.description) {
            Ok(()) => Ok(()),
            Err(e) => Err(TodoError::from(e)),
        }
    }

    /// Toggles the user's item between open and done.
    pub fn toggle_todo(&mut self, user_id: u128, id: u128) -> (r: Result<(), TodoError>)
        ensures
            final(self).store().dependable() == old(self).store().dependable(),
            toggle_outcome(
                old(self).store().todos(),
                final(self).store().todos(),
                user_id,
                id,
                r,
                old(self).store().dependable(),
            ),
    {
        match self.todo.toggle(user_id, id) {
            Ok(()) => Ok(()),
            Err(e) => Err(TodoError::from(e)),
        }
    }

    /// Removes the user's item.
    pub fn delete_todo(&mut self, user_id: u128, id: u128) -> (r: Result<(), TodoError>)
        ensures
            final(self).store().dependable() == old(self).store().dependable(),
            remove_outcome(old(self).store().todos(), final(self).store().todos(), id, r, false),
            guarded_by_owner(old(self).store().todos(), user_id, id, r, old(self).store().dependable()),
    {
        let todo = match self.todo.find_by_id(user_id, id) {
            Ok(Some(todo)) => todo,
            Ok(None) => {
                return Err(TodoError::NotFound);
            },
            Err(e) => {
                return Err(TodoError::from(e));
            },
        };
        match self.todo.delete(todo.id) {
            Ok(()) => Ok(()),
            Err(e) => Err(TodoError::from(e)),
        }
    }

    /// Lists the user's items.
    pub fn find_all(&self, user_id: u128) -> (r: Result<Vec<TodoResponse>, TodoError>)
        ensures
            list_outcome(self.store().todos(), user_id, r, self.store().dependable()),
    {
        let items = match self.todo.find_all(user_id) {
            Ok(items) => items,
            Err(e) => {
                return Err(TodoError::from(e));
            },
        };
        let mut responses: Vec<TodoResponse> = Vec::new();
        let mut i: usize = 0;
        while i < items.len()
            invariant
                i <= items@.len(),
                responses@.len() == i,
                forall|k: int| 0 <= k < i ==> (#[trigger] responses@[k])@ == items@[k]@.shown(),
            decreases items@.len() - i,
        {
            let item = &items[i];
            responses.push(
                TodoResponse {
                    id: item.id,
                    title: item.title.clone(),
                    description: item.description.clone(),
                    is_completed: item.is_completed,
                    created_at: item.created_at,
                    updated_at: item.updated_at,
                },
            );
            i += 1;
        }
        proof {
            let todos = self.store().todos();
            let views = todo_views(items@);
            assert forall|k: int| 0 <= k < responses@.len() implies owns(
                todos,
                user_id,
                (#[trigger] responses@[k]).id,
            ) && responses@[k]@ == todos[responses@[k].id].shown() by {
                assert(responses@[k]@ == items@[k]@.shown());
                assert(views[k] == items@[k]@);
                assert(owns(todos, user_id, views[k].id));
            }
            assert forall|a: int, b: int| 0 <= a < b < responses@.len() implies responses@[a].id
                != responses@[b].id by {
                assert(responses@[a]@ == items@[a]@.shown());
                assert(responses@[b]@ == items@[b]@.shown());
                assert(views[a] == items@[a]@ && views[b] == items@[b]@);
            }
            assert forall|id: u128| owns(todos, user_id, id) implies exists|k: int|
                0 <= k < responses@.len() && (#[trigger] responses@[k]).id == id by {
                let k = choose|k: int| 0 <= k < views.len() && (#[trigger] views[k]).id == id;
                assert(views[k] == items@[k]@);
                assert(responses@[k]@ == items@[k]@.shown());
                assert(responses@[k].id == id);
            }
            assert(shows_all_of(todos, user_id, responses@));
        }
        Ok(responses)
    }

    /// Shows the user's item under the identifier.
    pub fn find_by_id(&self, user_id: u128, id: u128) -> (r: Result<
        Option<TodoResponse>,
        TodoError,
    >)
        ensures
            show_outcome(self.store().todos(), user_id, id, r, self.store().dependable()),
    {
        match self.todo.find_by_id(user_id, id) {
            Ok(Some(todo)) => Ok(Some(TodoResponse::from(todo))),
            Ok(None) => Ok(None),
            Err(e) => Err(TodoError::from(e)),
        }
    }
}

} // verus!
