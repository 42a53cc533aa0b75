use vstd::prelude::*;

use vstd::pervasive::VecAdditionalExecFns;

use crate::errors::ServiceError;
use crate::pagination::effective_limit;
use crate::pagination::effective_offset;
use crate::pagination::effective_params;
use crate::pagination::GetTodosQueryParam;

verus! {

/// A stored todo row. `user_id` is the owner and never changes.
#[derive(Debug)]
pub struct Todo {
    pub completed: bool,
    pub description: String,
    pub id: u64,
    pub user_id: u64,
    pub title: String,
    pub created_at: u64,
    pub updated_at: u64,
}

impl Clone for Todo {
    fn clone(&self) -> (r: Self)
        ensures
            r == *self,
    {
        Todo {
            completed: self.completed,
            description: self.description.clone(),
            id: self.id,
            user_id: self.user_id,
            title: self.title.clone(),
            created_at: self.created_at,
            updated_at: self.updated_at,
        }
    }
}

/// The result row of a count query.
#[derive(Clone, Copy, Debug, PartialEq, Eq)]
pub struct Count {
    pub count: Option<i64>,
}

/// A creation request body.
#[derive(Debug)]
pub struct CreateTodo {
    pub description: String,
    pub title: String,
}

/// A partial-patch request body: absent fields keep their stored value.
#[derive(Debug)]
pub struct UpdateTodo {
    pub completed: Option<bool>,
    pub description: Option<String>,
    pub title: Option<String>,
}

/// One page of a listing, together with the paging arithmetic the
/// client sees.
#[derive(Debug)]
pub struct GetTodosSuccess {
    pub todos: Vec<Todo>,
    pub total: i64,
    pub page: i64,
    pub per_page: i64,
    pub total_pages: i64,
}

/// The caller's todos, in storage order.
pub open spec fn owned_todos(todos: Seq<Todo>, owner: u64) -> Seq<Todo>
    decreases todos.len(),
{
    if todos.len() == 0 {
        Seq::empty()
    } else {
        let prefix = owned_todos(todos.drop_last(), owner);
        if todos.last().user_id == owner {
            prefix.push(todos.last())
        } else {
            prefix
        }
    }
}

/// Whether the caller owns a todo with this id.
pub open spec fn todo_exists(todos: Seq<Todo>, id: u64, owner: u64) -> bool {
    exists|i: int| 0 <= i < todos.len() && todos[i].id == id && todos[i].user_id == owner
}

/// The index of the caller's todo with this id; meaningful only when
/// `todo_exists` holds (and then unique, ids being unique).
pub open spec fn todo_index(todos: Seq<Todo>, id: u64, owner: u64) -> int {
    choose|i: int| 0 <= i < todos.len() && todos[i].id == id && todos[i].user_id == owner
}

/// No two stored todos share an id.
pub open spec fn unique_ids(todos: Seq<Todo>) -> bool {
    forall|i: int, j: int| 0 <= i < j < todos.len() ==> todos[i].id != todos[j].id
}

/// A partial patch applied to a stored row: present fields overwrite,
/// absent fields keep their value, and `updated_at` is always refreshed.
pub open spec fn apply_patch(t: Todo, patch: UpdateTodo, now: u64) -> Todo {
    Todo {
        completed: if patch.completed is Some {
            patch.completed.unwrap()
        } else {
            t.completed
        },
        description: if patch.description is Some {
            patch.description.unwrap()
        } else {
            t.description
        },
        id: t.id,
        user_id: t.user_id,
        title: if patch.title is Some {
            patch.title.unwrap()
        } else {
            t.title
        },
        created_at: t.created_at,
        updated_at: now,
    }
}

proof fn lemma_owned_take_step(todos: Seq<Todo>, owner: u64, i: int)
    requires
        0 <= i < todos.len(),
    ensures
        owned_todos(todos.take(i + 1), owner) == if todos[i].user_id == owner {
            owned_todos(todos.take(i), owner).push(todos[i])
        } else {
            owned_todos(todos.take(i), owner)
        },
{
    assert(todos.take(i + 1).drop_last() =~= todos.take(i));
    assert(todos.take(i + 1).last() == todos[i]);
}

/// Every todo a listing hands out belongs to the caller: the owner-scoped
/// selection contains rows of that owner and no one else's.
pub proof fn lemma_owned_todos_belong_to_owner(todos: Seq<Todo>, owner: u64)
    ensures
        forall|i: int|
            0 <= i < owned_todos(todos, owner).len() ==> #[trigger] owned_todos(todos, owner)[i]
                .user_id == owner,
    decreases todos.len(),
{
    if todos.len() > 0 {
        lemma_owned_todos_belong_to_owner(todos.drop_last(), owner);
        let prefix = owned_todos(todos.drop_last(), owner);
        let s = owned_todos(todos, owner);
        assert forall|i: int| 0 <= i < s.len() implies #[trigger] s[i].user_id == owner by {
            if todos.last().user_id == owner {
                assert(s == prefix.push(todos.last()));
                if i < prefix.len() {
                    assert(s[i] == prefix[i]);
                } else {
                    assert(s[i] == todos.last());
                }
            } else {
                assert(s == prefix);
            }
        }
    }
}

proof fn lemma_owned_len_le(todos: Seq<Todo>, owner: u64)
    ensures
        owned_todos(todos, owner).len() <= todos.len(),
    decreases todos.len(),
{
    if todos.len() > 0 {
        lemma_owned_len_le(todos.drop_last(), owner);
    }
}

/// The todo store. Ids are assigned from a counter, so they are unique;
/// every lookup here is scoped by owner, which is what keeps tenants
/// isolated from one another.
pub struct TodoStore {
    pub todos: Vec<Todo>,
    pub next_id: u64,
}

pub open spec fn todos_wf(todos: Seq<Todo>, next_id: u64) -> bool {
    &&& unique_ids(todos)
    &&& forall|i: int| 0 <= i < todos.len() ==> todos[i].id < next_id
    &&& todos.len() <= i64::MAX
}

impl TodoStore {
    pub open spec fn wf(self) -> bool {
        todos_wf(self.todos@, self.next_id)
    }

    pub fn new() -> (r: Self)
        ensures
            r.wf(),
            r.todos@ =~= Seq::<Todo>::empty(),
            r.next_id == 0,
    {
        TodoStore { todos: Vec::new(), next_id: 0 }
    }

    /// The index of the caller's todo with this id, if any.
    fn find_index(&self, id: u64, owner: u64) -> (r: Option<usize>)
        requires
            self.wf(),
        ensures
            r is Some <==> todo_exists(self.todos@, id, owner),
            r matches Some(i) ==> i < self.todos@.len() && i as int == todo_index(
                self.todos@,
                id,
                owner,
            ),
    {
        let n = self.todos.len();
        let mut i: usize = 0;
        while i < n
            invariant
                n == self.todos@.len(),
                0 <= i <= n,
                self.wf(),
                forall|j: int|
                    0 <= j < i ==> !(self.todos@[j].id == id && self.todos@[j].user_id == owner),
            decreases n - i,
        {
            if self.todos[i].id == id && self.todos[i].user_id == owner {
                proof {
                    let k = todo_index(self.todos@, id, owner);
                    assert(0 <= k < self.todos@.len() && self.todos@[k].id == id
                        && self.todos@[k].user_id == owner);
                    assert(k == i as int);
                }
                return Some(i);
            }
            i = i + 1;
        }
        None
    }

    /// How many todos the caller owns, as the count row the listing
    /// query reads.
    pub fn count_for_owner(&self, owner: u64) -> (r: Count)
        requires
            self.wf(),
        ensures
            r.count == Some(owned_todos(self.todos@, owner).len() as i64),
    {
        let n = self.todos.len();
        let mut cnt: usize = 0;
        let mut i: usize = 0;
        while i < n
            invariant
                n == self.todos@.len(),
                0 <= i <= n,
                cnt == owned_todos(self.todos@.take(i as int), owner).len(),
                cnt <= i,
            decreases n - i,
        {
            proof {
                lemma_owned_take_step(self.todos@, owner, i as int);
            }
            if self.todos[i].user_id == owner {
                cnt = cnt + 1;
            }
            i = i + 1;
        }
        proof {
            assert(self.todos@.take(n as int) =~= self.todos@);
        }
        Count { count: Some(cnt as i64) }
    }

    /// The caller's todos, in storage order, as owned values.
    fn owned_vec(&self, owner: u64) -> (r: Vec<Todo>)
        ensures
            r@ == owned_todos(self.todos@, owner),
    {
        let n = self.todos.len();
        let mut r: Vec<Todo> = Vec::new();
        let mut i: usize = 0;
        while i < n
            invariant
                n == self.todos@.len(),
                0 <= i <= n,
                r@ == owned_todos(self.todos@.take(i as int), owner),
            decreases n - i,
        {
            proof {
                lemma_owned_take_step(self.todos@, owner, i as int);
            }
            if self.todos[i].user_id == owner {
                r.push(self.todos[i].clone());
            }
            i = i + 1;
        }
        proof {
            assert(self.todos@.take(n as int) =~= self.todos@);
        }
        r
    }

    /// The slice `[start, end)` of the caller's todos in storage order.
    fn owned_page(&self, owner: u64, start: usize, end: usize) -> (r: Vec<Todo>)
        requires
            start <= end <= owned_todos(self.todos@, owner).len(),
        ensures
            r@ == owned_todos(self.todos@, owner).subrange(start as int, end as int),
    {
        let all = self.owned_vec(owner);
        let mut r: Vec<Todo> = Vec::new();
        let mut j: usize = start;
        while j < end
            invariant
                start <= j <= end,
                end <= all@.len(),
                all@ == owned_todos(self.todos@, owner),
                r@ == all@.subrange(start as int, j as int),
            decreases end - j,
        {
            r.push(all[j].clone());
            proof {
                assert(all@.subrange(start as int, j + 1) =~= all@.subrange(
                    start as int,
                    j as int,
                ).push(all@[j as int]));
            }
            j = j + 1;
        }
        r
    }
}

/// Fetch one todo by id, scoped to its owner. A wrong id and a todo
/// owned by someone else are indistinguishable: both are not-found.
pub fn get_todo(store: &TodoStore, owner: u64, id: u64) -> (r: Result<Todo, ServiceError>)
    requires
        store.wf(),
    ensures
        r is Ok <==> todo_exists(store.todos@, id, owner),
        r matches Ok(t) ==> t == store.todos@[todo_index(store.todos@, id, owner)],
        r is Err ==> r == Err::<Todo, ServiceError>(ServiceError::TodoNotFound { id }),
{
    match store.find_index(id, owner) {
        Some(i) => Ok(store.todos[i].clone()),
        None => Err(ServiceError::TodoNotFound { id }),
    }
}

/// List the caller's todos with pagination. Unusable paging parameters
/// fall back to the defaults; an empty collection is not-found; an offset
/// at or past the end is refused before any row is fetched.
pub fn get_todos(store: &TodoStore, owner: u64, query: &GetTodosQueryParam) -> (r: Result<
    GetTodosSuccess,
    ServiceError,
>)
    requires
        store.wf(),
    ensures
        ({
            let total = owned_todos(store.todos@, owner).len() as int;
            let lim = effective_limit(*query) as int;
            let off = effective_offset(*query) as int;
            &&& (r == Err::<GetTodosSuccess, ServiceError>(ServiceError::NoTodos) <==> total == 0)
            &&& (r == Err::<GetTodosSuccess, ServiceError>(ServiceError::OffsetBeyondEnd) <==> (
            total > 0 && off >= total))
            &&& (r is Ok <==> total > 0 && off < total)
            &&& (r matches Ok(p) ==> {
                &&& p.todos@ == owned_todos(store.todos@, owner).subrange(
                    off,
                    if off + lim <= total {
                        off + lim
                    } else {
                        total
                    },
                )
                &&& p.total as int == total
                &&& p.page as int == off / lim + 1
                &&& p.per_page as int == lim
                &&& p.total_pages as int == total / lim + 1
            })
        }),
{
    let (limit, offset) = effective_params(query);
    let n = store.todos.len();
    proof {
        lemma_owned_len_le(store.todos@, owner);
    }
    let count = store.count_for_owner(owner);
    let total = match count.count {
        Some(c) => c,
        None => 0,
    };
    if total <= 0 {
        return Err(ServiceError::NoTodos);
    }
    if offset >= total {
        return Err(ServiceError::OffsetBeyondEnd);
    }
    let end = if total - offset < limit {
        total
    } else {
        offset + limit
    };
    let items = store.owned_page(owner, offset as usize, end as usize);
    proof {
        vstd::arithmetic::div_mod::lemma_div_nonincreasing(offset as int, limit as int);
        if offset > 0 {
            vstd::arithmetic::div_mod::lemma_div_decreases(offset as int, limit as int);
        }
        vstd::arithmetic::div_mod::lemma_div_decreases(total as int, limit as int);
    }
    let page = offset / limit + 1;
    let total_pages = total / limit + 1;
    Ok(GetTodosSuccess { todos: items, total, page, per_page: limit, total_pages })
}

/// Create a todo owned by the caller, not yet completed, with
/// server-assigned id and timestamps.
pub fn create_todo(store: &mut TodoStore, owner: u64, dto: CreateTodo, now: u64) -> (r: Result<
    Todo,
    ServiceError,
>)
    requires
        old(store).wf(),
    ensures
        final(store).wf(),
        r is Ok <==> (old(store).next_id < u64::MAX && old(store).todos@.len() < i64::MAX),
        r matches Ok(t) ==> t == (Todo {
            completed: false,
            description: dto.description,
            id: old(store).next_id,
            user_id: owner,
            title: dto.title,
            created_at: now,
            updated_at: now,
        }) && final(store).todos@ == old(store).todos@.push(t) && final(store).next_id == old(store).next_id + 1,
        r is Err ==> r == Err::<Todo, ServiceError>(ServiceError::Internal) && *final(store)
            == *old(store),
{
    if store.next_id == u64::MAX || store.todos.len() as u64 >= i64::MAX as u64 {
        return Err(ServiceError::Internal);
    }
    let todo = Todo {
        completed: false,
        description: dto.description,
        id: store.next_id,
        user_id: owner,
        title: dto.title,
        created_at: now,
        updated_at: now,
    };
    let result = todo.clone();
    store.todos.push(todo);
    store.next_id = store.next_id + 1;
    Ok(result)
}

/// Patch one todo by id, scoped to its owner: present fields overwrite,
/// absent fields keep their stored value, `updated_at` is refreshed.
pub fn update_todo(
    store: &mut TodoStore,
    owner: u64,
    id: u64,
    dto: UpdateTodo,
    now: u64,
) -> (r: Result<Todo, ServiceError>)
    requires
        old(store).wf(),
    ensures
        final(store).wf(),
        r is Ok <==> todo_exists(old(store).todos@, id, owner),
        r is Err ==> r == Err::<Todo, ServiceError>(ServiceError::TodoNotFound { id }) && *final(store) == *old(store),
        r matches Ok(t) ==> ({
            let i = todo_index(old(store).todos@, id, owner);
            &&& t == apply_patch(old(store).todos@[i], dto, now)
            &&& final(store).todos@ == old(store).todos@.update(i, t)
            &&& final(store).next_id == old(store).next_id
        }),
{
    let i = match store.find_index(id, owner) {
        Some(i) => i,
        None => {
            return Err(ServiceError::TodoNotFound { id });
        },
    };
    let current = store.todos[i].clone();
    let updated = Todo {
        completed: match dto.completed {
            Some(c) => c,
            None => current.completed,
        },
        description: match dto.description {
            Some(d) => d,
            None => current.description,
        },
        id: current.id,
        user_id: current.user_id,
        title: match dto.title {
            Some(t) => t,
            None => current.title,
        },
        created_at: current.created_at,
        updated_at: now,
    };
    let result = updated.clone();
    store.todos.set(i, updated);
    Ok(result)
}

/// Delete one todo by id, scoped to its owner, in one operation; nothing
/// removed is not-found.
pub fn delete_todo(store: &mut TodoStore, owner: u64, id: u64) -> (r: Result<(), ServiceError>)
    requires
        old(store).wf(),
    ensures
        final(store).wf(),
        r is Ok <==> todo_exists(old(store).todos@, id, owner),
        r is Err ==> r == Err::<(), ServiceError>(ServiceError::TodoNotFound { id }) && *final(store) == *old(store),
        r is Ok ==> final(store).todos@ == old(store).todos@.remove(
            todo_index(old(store).todos@, id, owner),
        ) && final(store).next_id == old(store).next_id,
{
    let i = match store.find_index(id, owner) {
        Some(i) => i,
        None => {
            return Err(ServiceError::TodoNotFound { id });
        },
    };
    let ghost old_todos = store.todos@;
    store.todos.remove(i);
    proof {
        old_todos.remove_ensures(i as int);
        assert forall|a: int, b: int|
            0 <= a < b < final(store).todos@.len() implies final(store).todos@[a].id != final(store).todos@[b].id by {
            let sa = if a < i as int {
                a
            } else {
                a + 1
            };
            let sb = if b < i as int {
                b
            } else {
                b + 1
            };
            assert(final(store).todos@[a] == old_todos[sa]);
            assert(final(store).todos@[b] == old_todos[sb]);
        }
        assert forall|a: int| 0 <= a < final(store).todos@.len() implies final(store).todos@[a].id < final(store).next_id by {
            let sa = if a < i as int {
                a
            } else {
                a + 1
            };
            assert(final(store).todos@[a] == old_todos[sa]);
        }
    }
    Ok(())
}

/// A todo of one owner is invisible to every other principal: the
/// owner-scoped lookup that fetching, patching and deleting all go
/// through finds nothing for anyone else, so each of those calls returns
/// the same not-found outcome it gives for an id that does not exist
/// at all.
pub proof fn lemma_ownership_isolation(todos: Seq<Todo>, id: u64, owner_a: u64, owner_b: u64)
    requires
        unique_ids(todos),
        todo_exists(todos, id, owner_a),
        owner_b != owner_a,
    ensures
        !todo_exists(todos, id, owner_b),
{
    let i = todo_index(todos, id, owner_a);
    assert(0 <= i < todos.len() && todos[i].id == id && todos[i].user_id == owner_a);
    if todo_exists(todos, id, owner_b) {
        let j = todo_index(todos, id, owner_b);
        assert(0 <= j < todos.len() && todos[j].id == id && todos[j].user_id == owner_b);
        assert(i != j);
        assert(false);
    }
}

/// A patch overwrites exactly the fields it carries: absent fields keep
/// their stored value, present fields take the supplied one, identity,
/// owner and creation time never change, and `updated_at` is always
/// refreshed.
pub proof fn lemma_patch_overwrites_exactly_given_fields(t: Todo, patch: UpdateTodo, now: u64)
    ensures
        patch.title is None ==> apply_patch(t, patch, now).title == t.title,
        patch.description is None ==> apply_patch(t, patch, now).description == t.description,
        patch.completed is None ==> apply_patch(t, patch, now).completed == t.completed,
        patch.title matches Some(x) ==> apply_patch(t, patch, now).title == x,
        patch.description matches Some(x) ==> apply_patch(t, patch, now).description == x,
        patch.completed matches Some(x) ==> apply_patch(t, patch, now).completed == x,
        apply_patch(t, patch, now).id == t.id,
        apply_patch(t, patch, now).user_id == t.user_id,
        apply_patch(t, patch, now).created_at == t.created_at,
        apply_patch(t, patch, now).updated_at == now,
{
}

/// Deleting is idempotent in the not-found sense: once the caller's todo
/// with this id is removed, no todo with this id and owner remains, so a
/// second delete (like a delete of an id that never existed) meets the
/// not-found branch of `delete_todo`.
pub proof fn lemma_delete_idempotent(todos: Seq<Todo>, id: u64, owner: u64)
    requires
        unique_ids(todos),
        todo_exists(todos, id, owner),
    ensures
        !todo_exists(todos.remove(todo_index(todos, id, owner)), id, owner),
{
    let i = todo_index(todos, id, owner);
    assert(0 <= i < todos.len() && todos[i].id == id && todos[i].user_id == owner);
    todos.remove_ensures(i);
    let removed = todos.remove(i);
    if todo_exists(removed, id, owner) {
        let j = todo_index(removed, id, owner);
        assert(0 <= j < removed.len() && removed[j].id == id && removed[j].user_id == owner);
        let k = if j < i {
            j
        } else {
            j + 1
        };
        assert(removed[j] == todos[k]);
        assert(k != i);
        assert(false);
    }
}

} // verus!
