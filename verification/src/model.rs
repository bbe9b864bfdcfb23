//! The mathematical model of a todo repository.
//!
//! A repository is a finite map from identifiers to records together with
//! the identifier that the next creation will hand out. Every executable
//! repository in this crate describes itself by a [`RepositoryView`], and every
//! operation is specified as a transition of that model. The lemmas at the
//! end of the file are the facts about the model that callers rely on.

use vstd::prelude::*;

verus! {

/// A stored record, as plain values.
pub struct TodoView {
    pub id: int,
    pub text: Seq<char>,
    pub completed: bool,
}

/// The payload of a creation: only the text, never an identifier.
pub struct CreateTodoView {
    pub text: Seq<char>,
}

/// The payload of a partial update. A field that is `None` leaves the
/// record's field as it is.
pub struct UpdateTodoView {
    pub text: Option<Seq<char>>,
    pub completed: Option<bool>,
}

impl UpdateTodoView {
    /// The payload that changes nothing.
    pub open spec fn nothing() -> UpdateTodoView {
        UpdateTodoView { text: None, completed: None }
    }

    /// The payload that changes the text and nothing else.
    pub open spec fn text_only(text: Seq<char>) -> UpdateTodoView {
        UpdateTodoView { text: Some(text), completed: None }
    }

    /// The payload that changes the completion flag and nothing else.
    pub open spec fn completed_only(completed: bool) -> UpdateTodoView {
        UpdateTodoView { text: None, completed: Some(completed) }
    }

    /// The record that results from applying this payload to `todo`: each
    /// field that is present replaces the record's field, each absent one
    /// keeps it. The identifier never changes.
    pub open spec fn apply(self, todo: TodoView) -> TodoView {
        TodoView {
            id: todo.id,
            text: match self.text {
                Some(text) => text,
                None => todo.text,
            },
            completed: match self.completed {
                Some(completed) => completed,
                None => todo.completed,
            },
        }
    }
}

/// One call of a repository operation, with its arguments.
pub enum Op {
    Create(CreateTodoView),
    Find(int),
    All,
    Update(int, UpdateTodoView),
    Delete(int),
}

impl Op {
    /// Whether the operation is an update or a deletion of the record filed
    /// under `id`.
    pub open spec fn changes(self, id: int) -> bool {
        match self {
            Op::Update(target, _) => target == id,
            Op::Delete(target) => target == id,
            _ => false,
        }
    }
}

/// The state of a repository: the records by identifier, and the
/// identifier that the next creation assigns.
#[verifier::ext_equal]
pub struct RepositoryView {
    pub todos: Map<int, TodoView>,
    pub next_id: int,
}

impl RepositoryView {
    /// The repository at process start: no record, first identifier 1.
    pub open spec fn empty() -> RepositoryView {
        RepositoryView { todos: Map::empty(), next_id: 1 }
    }

    /// What holds of every state that is reached from [`Self::empty`]:
    /// finitely many records, each filed under its own identifier, and
    /// every identifier in use is positive and was handed out before.
    pub open spec fn inv(self) -> bool {
        &&& self.todos.dom().finite()
        &&& 1 <= self.next_id
        &&& forall|id: int| #[trigger]
            self.todos.contains_key(id) ==> 1 <= id < self.next_id && self.todos[id].id == id
    }

    /// Whether the next identifier still fits the executable identifier
    /// type. Identifiers are never handed out twice, so a repository that
    /// has assigned `i32::MAX` of them has none left.
    pub open spec fn has_room(self) -> bool {
        self.next_id <= i32::MAX
    }

    /// The record that a creation with `payload` stores and returns.
    pub open spec fn created(self, payload: CreateTodoView) -> TodoView {
        TodoView { id: self.next_id, text: payload.text, completed: false }
    }

    /// The state after a creation with `payload`.
    pub open spec fn create(self, payload: CreateTodoView) -> RepositoryView {
        RepositoryView {
            todos: self.todos.insert(self.next_id, self.created(payload)),
            next_id: self.next_id + 1,
        }
    }

    /// The record filed under `id`, if there is one.
    pub open spec fn find(self, id: int) -> Option<TodoView> {
        if self.todos.contains_key(id) {
            Some(self.todos[id])
        } else {
            None
        }
    }

    /// Whether `records` lists every stored record exactly once, in any
    /// order.
    pub open spec fn lists(self, records: Seq<TodoView>) -> bool {
        &&& records.len() == self.todos.len()
        &&& forall|i: int|
            0 <= i < records.len() ==> self.find(#[trigger] records[i].id) == Some(records[i])
        &&& forall|i: int, j: int|
            0 <= i < j < records.len() ==> #[trigger] records[i].id != #[trigger] records[j].id
    }

    /// The record that an update of `id` with `payload` stores and returns,
    /// where a record is filed under `id`.
    pub open spec fn updated(self, id: int, payload: UpdateTodoView) -> TodoView
        recommends
            self.todos.contains_key(id),
    {
        payload.apply(self.todos[id])
    }

    /// The state after an update of `id` with `payload`: the record is
    /// replaced in place; without a record under `id` nothing changes.
    pub open spec fn update(self, id: int, payload: UpdateTodoView) -> RepositoryView {
        if self.todos.contains_key(id) {
            RepositoryView {
                todos: self.todos.insert(id, self.updated(id, payload)),
                next_id: self.next_id,
            }
        } else {
            self
        }
    }

    /// The state after a deletion of `id`: the record is gone, and the
    /// identifier is not given back; without a record under `id` nothing
    /// changes.
    pub open spec fn delete(self, id: int) -> RepositoryView {
        if self.todos.contains_key(id) {
            RepositoryView { todos: self.todos.remove(id), next_id: self.next_id }
        } else {
            self
        }
    }

    /// The state after one operation.
    pub open spec fn apply(self, op: Op) -> RepositoryView {
        match op {
            Op::Create(payload) => self.create(payload),
            Op::Find(_) => self,
            Op::All => self,
            Op::Update(id, payload) => self.update(id, payload),
            Op::Delete(id) => self.delete(id),
        }
    }

    /// The state after the operations `ops`, applied first to last.
    pub open spec fn run(self, ops: Seq<Op>) -> RepositoryView
        decreases ops.len(),
    {
        if ops.len() == 0 {
            self
        } else {
            self.run(ops.drop_last()).apply(ops.last())
        }
    }

    /// Whether some sequence of operations leads from `self` to `later`.
    pub open spec fn reaches(self, later: RepositoryView) -> bool {
        exists|ops: Seq<Op>| #[trigger] self.run(ops) == later
    }

    /// The number of deletions among `ops`, run from `self`, that found
    /// their record and removed it.
    pub open spec fn removals(self, ops: Seq<Op>) -> nat
        decreases ops.len(),
    {
        if ops.len() == 0 {
            0
        } else {
            let before = self.run(ops.drop_last());
            let this: nat = match ops.last() {
                Op::Delete(id) => if before.todos.contains_key(id) {
                    1
                } else {
                    0
                },
                _ => 0,
            };
            self.removals(ops.drop_last()) + this
        }
    }
}

/// The number of creations among `ops`.
pub open spec fn creations(ops: Seq<Op>) -> nat
    decreases ops.len(),
{
    if ops.len() == 0 {
        0
    } else {
        creations(ops.drop_last()) + if ops.last() is Create {
            1nat
        } else {
            0nat
        }
    }
}

/// No operation leads out of the valid states.
pub proof fn lemma_apply_inv(s: RepositoryView, op: Op)
    requires
        s.inv(),
    ensures
        s.apply(op).inv(),
{
}

/// No sequence of operations leads out of the valid states.
pub proof fn lemma_run_inv(s: RepositoryView, ops: Seq<Op>)
    requires
        s.inv(),
    ensures
        s.run(ops).inv(),
    decreases ops.len(),
{
    if ops.len() > 0 {
        lemma_run_inv(s, ops.drop_last());
        lemma_apply_inv(s.run(ops.drop_last()), ops.last());
    }
}

/// Every state that is reached from the empty repository is valid.
pub proof fn lemma_reached_is_valid(ops: Seq<Op>)
    ensures
        RepositoryView::empty().run(ops).inv(),
{
    lemma_run_inv(RepositoryView::empty(), ops);
}

/// Every repository reaches itself, by doing nothing.
pub proof fn lemma_reaches_itself(s: RepositoryView)
    ensures
        s.reaches(s),
{
    assert(s.run(Seq::<Op>::empty()) == s);
}

/// What is reached stays reached after one more operation.
pub proof fn lemma_reaches_one_more(s: RepositoryView, later: RepositoryView, op: Op)
    requires
        s.reaches(later),
    ensures
        s.reaches(later.apply(op)),
{
    let ops = choose|ops: Seq<Op>| #[trigger] s.run(ops) == later;
    assert(ops.push(op).drop_last() =~= ops);
    assert(s.run(ops.push(op)) == later.apply(op));
}

/// The next identifier has grown by one for each creation, and by nothing
/// else: deletions give no identifier back.
pub proof fn lemma_next_id_counts_creations(s: RepositoryView, ops: Seq<Op>)
    ensures
        s.run(ops).next_id == s.next_id + creations(ops),
    decreases ops.len(),
{
    if ops.len() > 0 {
        lemma_next_id_counts_creations(s, ops.drop_last());
    }
}

/// What a repository reaches goes on numbering where it stood: the next
/// identifier has not fallen, and a record filed under an identifier that
/// was handed out before was there before.
pub proof fn lemma_reached_goes_on_numbering(s: RepositoryView, later: RepositoryView, id: int)
    requires
        s.reaches(later),
    ensures
        s.next_id <= later.next_id,
        later.todos.contains_key(id) && id < s.next_id ==> s.todos.contains_key(id),
{
    let ops = choose|ops: Seq<Op>| #[trigger] s.run(ops) == later;
    lemma_run_goes_on_numbering(s, ops, id);
}

/// The same of a given sequence of operations.
pub proof fn lemma_run_goes_on_numbering(s: RepositoryView, ops: Seq<Op>, id: int)
    ensures
        s.next_id <= s.run(ops).next_id,
        s.run(ops).todos.contains_key(id) && id < s.next_id ==> s.todos.contains_key(id),
    decreases ops.len(),
{
    if ops.len() > 0 {
        lemma_run_goes_on_numbering(s, ops.drop_last(), id);
    }
}

/// A longer prefix of a sequence holds at least as many creations.
pub proof fn lemma_creations_of_prefixes(ops: Seq<Op>, i: int, j: int)
    requires
        0 <= i <= j <= ops.len(),
    ensures
        creations(ops.take(i)) <= creations(ops.take(j)),
    decreases j - i,
{
    if i < j {
        lemma_creations_of_prefixes(ops, i, j - 1);
        assert(ops.take(j).drop_last() =~= ops.take(j - 1));
    }
}

/// After any sequence of operations the repository holds as many records
/// as it held before, plus one for each creation, minus one for each
/// deletion that found its record.
pub proof fn lemma_record_count(s: RepositoryView, ops: Seq<Op>)
    requires
        s.inv(),
    ensures
        s.run(ops).todos.dom().finite(),
        s.run(ops).todos.len() == s.todos.len() + creations(ops) - s.removals(ops),
    decreases ops.len(),
{
    if ops.len() > 0 {
        let before = s.run(ops.drop_last());
        lemma_record_count(s, ops.drop_last());
        lemma_run_inv(s, ops.drop_last());
        match ops.last() {
            Op::Create(payload) => {
                assert(!before.todos.contains_key(before.next_id));
            },
            Op::Update(id, payload) => {
                if before.todos.contains_key(id) {
                    assert(before.update(id, payload).todos.dom() =~= before.todos.dom());
                }
            },
            _ => {},
        }
    }
}

/// Counted from process start: whatever `all` returns after a sequence of
/// operations on a repository that began empty, it returns as many records
/// as there were creations, minus the deletions that found their record.
pub proof fn lemma_listed_count(ops: Seq<Op>, records: Seq<TodoView>)
    requires
        RepositoryView::empty().run(ops).lists(records),
    ensures
        records.len() == creations(ops) - RepositoryView::empty().removals(ops),
{
    lemma_record_count(RepositoryView::empty(), ops);
}

/// A creation returns a record that is not completed, carries the text it
/// was given, and has an identifier under which no record is filed.
pub proof fn lemma_created_is_fresh(s: RepositoryView, payload: CreateTodoView)
    requires
        s.inv(),
    ensures
        !s.created(payload).completed,
        s.created(payload).text == payload.text,
        !s.todos.contains_key(s.created(payload).id),
        s.create(payload).todos.len() == s.todos.len() + 1,
{
}

/// Once a record is created, `find` on its identifier returns that record,
/// whatever else is done to the repository, for as long as no update and
/// no deletion is made on that identifier.
pub proof fn lemma_find_after_create(s: RepositoryView, payload: CreateTodoView, ops: Seq<Op>)
    requires
        s.inv(),
        forall|k: int| 0 <= k < ops.len() ==> !(#[trigger] ops[k]).changes(s.created(payload).id),
    ensures
        s.create(payload).run(ops).find(s.created(payload).id) == Some(s.created(payload)),
    decreases ops.len(),
{
    if ops.len() > 0 {
        let earlier = ops.drop_last();
        assert forall|k: int| 0 <= k < earlier.len() implies !(#[trigger] earlier[k]).changes(
            s.created(payload).id,
        ) by {
            assert(earlier[k] == ops[k]);
        }
        lemma_find_after_create(s, payload, earlier);
        lemma_next_id_counts_creations(s.create(payload), earlier);
        assert(!ops.last().changes(s.created(payload).id)) by {
            assert(ops.last() == ops[ops.len() - 1]);
        }
    }
}

/// An update that holds only a text changes only the text; one that holds
/// only the completion flag changes only that flag; one that holds nothing
/// returns the record as it was and leaves the repository as it was.
pub proof fn lemma_update_changes_only_what_is_given(
    s: RepositoryView,
    id: int,
    text: Seq<char>,
    completed: bool,
)
    requires
        s.todos.contains_key(id),
    ensures
        s.updated(id, UpdateTodoView::text_only(text)) == (TodoView { text, ..s.todos[id] }),
        s.updated(id, UpdateTodoView::completed_only(completed)) == (TodoView {
            completed,
            ..s.todos[id]
        }),
        s.updated(id, UpdateTodoView::nothing()) == s.todos[id],
        s.update(id, UpdateTodoView::nothing()) == s,
{
    assert(s.update(id, UpdateTodoView::nothing()).todos =~= s.todos);
}

/// An update or a deletion that names an identifier without a record
/// leaves the repository as it was.
pub proof fn lemma_absent_id_changes_nothing(s: RepositoryView, id: int, payload: UpdateTodoView)
    requires
        !s.todos.contains_key(id),
    ensures
        s.update(id, payload) == s,
        s.delete(id) == s,
{
}

/// Any two creations in a sequence of operations hand out different
/// identifiers, whatever was deleted between them: the later creation gets
/// the greater one.
pub proof fn lemma_created_ids_distinct(
    s: RepositoryView,
    ops: Seq<Op>,
    i: int,
    j: int,
    first: CreateTodoView,
    second: CreateTodoView,
)
    requires
        0 <= i < j < ops.len(),
        ops[i] == Op::Create(first),
        ops[j] == Op::Create(second),
    ensures
        s.run(ops.take(i)).created(first).id < s.run(ops.take(j)).created(second).id,
{
    lemma_next_id_counts_creations(s, ops.take(i));
    lemma_next_id_counts_creations(s, ops.take(j));
    lemma_creations_of_prefixes(ops, i + 1, j);
    assert(ops.take(i + 1).drop_last() =~= ops.take(i));
    assert(ops.take(i + 1).last() == ops[i]);
}

} // verus!
