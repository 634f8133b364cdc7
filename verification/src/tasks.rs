//! The in-memory task list and its rules: submitting a name adds one task
//! unless the name is blank, and deleting an identifier removes exactly the
//! tasks that carry it.

use vstd::prelude::*;

use crate::text::is_blank;
use crate::text::is_blank_str;

verus! {

/// One to-do entry: an identifier assigned by storage and a name.
#[derive(Debug, Clone, PartialEq)]
pub struct Task {
    pub id: i64,
    pub name: String,
}

/// Some task in `s` carries the identifier `id`.
pub open spec fn has_id(s: Seq<Task>, id: i64) -> bool {
    exists|i: int| 0 <= i < s.len() && s[i].id == id
}

/// No two tasks in `s` share an identifier.
pub open spec fn unique_ids(s: Seq<Task>) -> bool {
    forall|i: int, j: int| 0 <= i < j < s.len() ==> s[i].id != s[j].id
}

/// `s` with every task that carries `id` removed, the order of the rest kept.
pub open spec fn remove_id(s: Seq<Task>, id: i64) -> Seq<Task>
    decreases s.len(),
{
    if s.len() == 0 {
        Seq::empty()
    } else {
        let rest = remove_id(s.drop_last(), id);
        if s.last().id == id {
            rest
        } else {
            rest.push(s.last())
        }
    }
}

/// `s` with every task whose identifier already occurred earlier removed:
/// the first task of each identifier survives, in order.
pub open spec fn dedup_ids(s: Seq<Task>) -> Seq<Task>
    decreases s.len(),
{
    if s.len() == 0 {
        Seq::empty()
    } else {
        let rest = dedup_ids(s.drop_last());
        if has_id(s.drop_last(), s.last().id) {
            rest
        } else {
            rest.push(s.last())
        }
    }
}

/// Removing an identifier that no task carries leaves the list as it was.
pub proof fn lemma_remove_id_absent(s: Seq<Task>, id: i64)
    requires
        !has_id(s, id),
    ensures
        remove_id(s, id) == s,
    decreases s.len(),
{
    if s.len() > 0 {
        assert(forall|i: int| 0 <= i < s.drop_last().len() ==> s.drop_last()[i] == s[i]);
        lemma_remove_id_absent(s.drop_last(), id);
        assert(s[s.len() - 1].id != id);
        assert(remove_id(s, id) =~= s);
    } else {
        assert(remove_id(s, id) =~= s);
    }
}

/// When exactly the task at index `k` carries `id`, removing `id` removes
/// that task alone.
pub proof fn lemma_remove_id_single(s: Seq<Task>, id: i64, k: int)
    requires
        0 <= k < s.len(),
        s[k].id == id,
        forall|i: int| 0 <= i < s.len() && i != k ==> s[i].id != id,
    ensures
        remove_id(s, id) == s.remove(k),
    decreases s.len(),
{
    let d = s.drop_last();
    assert(forall|i: int| 0 <= i < d.len() ==> d[i] == s[i]);
    if k == s.len() - 1 {
        assert(!has_id(d, id));
        lemma_remove_id_absent(d, id);
        assert(remove_id(s, id) =~= s.remove(k));
    } else {
        lemma_remove_id_single(d, id, k);
        assert(s.last().id != id);
        assert(remove_id(s, id) == d.remove(k).push(s.last()));
        assert(remove_id(s, id) =~= s.remove(k));
    }
}

/// Deduplication keeps exactly the identifiers of the original list, and
/// after it no identifier occurs twice.
pub proof fn lemma_dedup_ids_unique(s: Seq<Task>)
    ensures
        unique_ids(dedup_ids(s)),
        forall|id: i64| #[trigger] has_id(dedup_ids(s), id) <==> has_id(s, id),
    decreases s.len(),
{
    if s.len() > 0 {
        let d = s.drop_last();
        let r = dedup_ids(d);
        assert(forall|i: int| 0 <= i < d.len() ==> d[i] == s[i]);
        lemma_dedup_ids_unique(d);
        if !has_id(d, s.last().id) {
            assert(!has_id(r, s.last().id));
            assert(forall|i: int| 0 <= i < r.len() ==> r.push(s.last())[i] == r[i]);
            assert(r.push(s.last())[r.len() as int] == s.last());
            assert(unique_ids(r.push(s.last())));
        }
        assert forall|id: i64| #[trigger] has_id(dedup_ids(s), id) <==> has_id(s, id) by {
            if has_id(s, id) {
                let w = choose|w: int| 0 <= w < s.len() && s[w].id == id;
                if w < d.len() {
                    assert(d[w].id == id);
                    assert(has_id(d, id));
                    assert(has_id(r, id));
                    let v = choose|v: int| 0 <= v < r.len() && r[v].id == id;
                    if has_id(d, s.last().id) {
                        assert(dedup_ids(s)[v].id == id);
                    } else {
                        assert(r.push(s.last())[v].id == id);
                    }
                    assert(has_id(dedup_ids(s), id));
                } else {
                    assert(id == s.last().id);
                    if has_id(d, s.last().id) {
                        assert(has_id(r, id));
                        let v = choose|v: int| 0 <= v < r.len() && r[v].id == id;
                        assert(dedup_ids(s)[v].id == id);
                    } else {
                        assert(r.push(s.last())[r.len() as int].id == id);
                    }
                    assert(has_id(dedup_ids(s), id));
                }
            }
            if has_id(dedup_ids(s), id) {
                let w = choose|w: int| 0 <= w < dedup_ids(s).len() && dedup_ids(s)[w].id == id;
                if has_id(d, s.last().id) {
                    assert(r[w].id == id);
                    assert(has_id(r, id));
                    assert(has_id(d, id));
                    let v = choose|v: int| 0 <= v < d.len() && d[v].id == id;
                    assert(s[v].id == id);
                } else {
                    if w < r.len() {
                        assert(r[w].id == id);
                        assert(has_id(r, id));
                        assert(has_id(d, id));
                        let v = choose|v: int| 0 <= v < d.len() && d[v].id == id;
                        assert(s[v].id == id);
                    } else {
                        assert(id == s.last().id);
                        assert(s[s.len() - 1].id == id);
                    }
                }
                assert(has_id(s, id));
            }
        }
    }
}

/// Deleting an identifier that a unique-id list displays removes exactly one
/// task: the count drops by one, the identifier is gone, and the remaining
/// tasks still share no identifier.
pub proof fn lemma_remove_id_unique(s: Seq<Task>, id: i64)
    requires
        unique_ids(s),
        has_id(s, id),
    ensures
        remove_id(s, id).len() == s.len() - 1,
        unique_ids(remove_id(s, id)),
        !has_id(remove_id(s, id), id),
{
    let k = choose|k: int| 0 <= k < s.len() && s[k].id == id;
    assert(forall|i: int| 0 <= i < s.len() && i != k ==> s[i].id != id);
    lemma_remove_id_single(s, id, k);
    let r = s.remove(k);
    assert(forall|j: int| 0 <= j < r.len() ==> r[j] == (if j < k {
        s[j]
    } else {
        s[j + 1]
    }));
    assert(unique_ids(r));
    assert(!has_id(r, id)) by {
        if has_id(r, id) {
            let w = choose|w: int| 0 <= w < r.len() && r[w].id == id;
            assert(r[w].id == id);
        }
    }
}

/// Deleting one identifier never disturbs another: a different identifier is
/// displayed after the removal exactly when it was displayed before.
pub proof fn lemma_remove_id_keeps_others(s: Seq<Task>, id: i64, other: i64)
    requires
        unique_ids(s),
        other != id,
    ensures
        has_id(remove_id(s, id), other) == has_id(s, other),
{
    if has_id(s, id) {
        let k = choose|k: int| 0 <= k < s.len() && s[k].id == id;
        assert(forall|i: int| 0 <= i < s.len() && i != k ==> s[i].id != id);
        lemma_remove_id_single(s, id, k);
        let r = s.remove(k);
        assert(forall|j: int| 0 <= j < r.len() ==> r[j] == (if j < k {
            s[j]
        } else {
            s[j + 1]
        }));
        if has_id(s, other) {
            let w = choose|w: int| 0 <= w < s.len() && s[w].id == other;
            if w < k {
                assert(r[w].id == other);
            } else {
                assert(r[w - 1].id == other);
            }
            assert(has_id(r, other));
        }
        if has_id(r, other) {
            let w = choose|w: int| 0 <= w < r.len() && r[w].id == other;
            if w < k {
                assert(s[w].id == other);
            } else {
                assert(s[w + 1].id == other);
            }
            assert(has_id(s, other));
        }
    } else {
        lemma_remove_id_absent(s, id);
    }
}

/// Rows that already share no identifier — as rows this library wrote do,
/// under the table's primary key — are rebuilt into exactly the same tasks,
/// in the same order: the in-memory half of the persistence round trip, for
/// whatever rows storage hands back unchanged.
pub proof fn lemma_load_reproduces_unique_rows(rows: Seq<Task>)
    requires
        unique_ids(rows),
    ensures
        dedup_ids(rows) == rows,
    decreases rows.len(),
{
    if rows.len() > 0 {
        let d = rows.drop_last();
        assert(forall|i: int| 0 <= i < d.len() ==> d[i] == rows[i]);
        assert(unique_ids(d));
        assert(!has_id(d, rows.last().id)) by {
            if has_id(d, rows.last().id) {
                let w = choose|w: int| 0 <= w < d.len() && d[w].id == rows.last().id;
                assert(rows[w].id == rows[rows.len() - 1].id);
            }
        }
        lemma_load_reproduces_unique_rows(d);
        assert(dedup_ids(rows) =~= rows);
    } else {
        assert(dedup_ids(rows) =~= rows);
    }
}

/// One user action at the view: submitting a name (with the identifier that
/// storage would assign to it) or deleting by identifier.
pub enum Action {
    Submit { id: i64, name: String },
    Delete { id: i64 },
}

/// What one action leaves on display: a submit appends one task unless its
/// name is blank; a delete removes the tasks carrying its identifier.
pub open spec fn apply_action(s: Seq<Task>, a: Action) -> Seq<Task> {
    match a {
        Action::Submit { id, name } => if is_blank(name@) {
            s
        } else {
            s.push(Task { id, name })
        },
        Action::Delete { id } => remove_id(s, id),
    }
}

/// The display after a whole sequence of actions, applied in order.
pub open spec fn run_actions(s: Seq<Task>, acts: Seq<Action>) -> Seq<Task>
    decreases acts.len(),
{
    if acts.len() == 0 {
        s
    } else {
        run_actions(apply_action(s, acts[0]), acts.drop_first())
    }
}

/// An action that takes effect on display `s`: a submit of a non-blank name
/// under an identifier not yet displayed, or a delete of a displayed one.
pub open spec fn action_effective(s: Seq<Task>, a: Action) -> bool {
    match a {
        Action::Submit { id, name } => !is_blank(name@) && !has_id(s, id),
        Action::Delete { id } => has_id(s, id),
    }
}

/// Every action of the sequence takes effect on the display it meets.
pub open spec fn all_effective(s: Seq<Task>, acts: Seq<Action>) -> bool
    decreases acts.len(),
{
    acts.len() == 0 || (action_effective(s, acts[0]) && all_effective(
        apply_action(s, acts[0]),
        acts.drop_first(),
    ))
}

/// How many of the actions are submits.
pub open spec fn count_submits(acts: Seq<Action>) -> int
    decreases acts.len(),
{
    if acts.len() == 0 {
        0
    } else {
        (if acts[0] is Submit {
            1int
        } else {
            0int
        }) + count_submits(acts.drop_first())
    }
}

/// How many of the actions are deletes.
pub open spec fn count_deletes(acts: Seq<Action>) -> int
    decreases acts.len(),
{
    if acts.len() == 0 {
        0
    } else {
        (if acts[0] is Delete {
            1int
        } else {
            0int
        }) + count_deletes(acts.drop_first())
    }
}

/// After any sequence of submits and deletes in which every submit carries a
/// non-blank name under a fresh identifier and every delete names a displayed
/// identifier, the display holds exactly the starting count, plus one task
/// per submit, minus one per delete — and still no duplicate identifier.
pub proof fn lemma_run_count(s: Seq<Task>, acts: Seq<Action>)
    requires
        unique_ids(s),
        all_effective(s, acts),
    ensures
        unique_ids(run_actions(s, acts)),
        run_actions(s, acts).len() == s.len() + count_submits(acts) - count_deletes(acts),
    decreases acts.len(),
{
    if acts.len() > 0 {
        let s1 = apply_action(s, acts[0]);
        match acts[0] {
            Action::Submit { id, name } => {
                assert(s1 == s.push(Task { id, name }));
                assert(forall|i: int| 0 <= i < s.len() ==> s1[i] == s[i]);
                assert(s1[s.len() as int] == (Task { id, name }));
                assert(unique_ids(s1));
            },
            Action::Delete { id } => {
                lemma_remove_id_unique(s, id);
            },
        }
        lemma_run_count(s1, acts.drop_first());
    }
}

/// The current snapshot of tasks, in display order.
pub struct TaskList {
    tasks: Vec<Task>,
}

impl View for TaskList {
    type V = Seq<Task>;

    closed spec fn view(&self) -> Seq<Task> {
        self.tasks@
    }
}

impl TaskList {
    /// The list never shows two tasks with one identifier.
    pub open spec fn wf(&self) -> bool {
        unique_ids(self@)
    }

    /// An empty list.
    pub fn new() -> (r: TaskList)
        ensures
            r@ == Seq::<Task>::empty(),
            r.wf(),
    {
        TaskList { tasks: Vec::new() }
    }

    /// How many tasks are displayed.
    pub fn len(&self) -> (n: usize)
        ensures
            n == self@.len(),
    {
        self.tasks.len()
    }

    /// Whether the list shows no task at all.
    pub fn is_empty(&self) -> (r: bool)
        ensures
            r == (self@.len() == 0),
    {
        self.tasks.len() == 0
    }

    /// The task at position `i`.
    pub fn get(&self, i: usize) -> (t: &Task)
        requires
            i < self@.len(),
        ensures
            *t == self@[i as int],
    {
        &self.tasks[i]
    }

    /// Whether some displayed task carries `id`.
    pub fn contains_id(&self, id: i64) -> (r: bool)
        ensures
            r == has_id(self@, id),
    {
        let n: usize = self.tasks.len();
        let mut i: usize = 0;
        while i < n
            invariant
                n == self@.len(),
                i <= n,
                forall|j: int| 0 <= j < i ==> self@[j].id != id,
            decreases n - i,
        {
            if self.tasks[i].id == id {
                return true;
            }
            i = i + 1;
        }
        false
    }

    /// Submitting a name: a blank one is refused and changes nothing; any
    /// other is appended as one new task under the fresh identifier `id`.
    pub fn submit(&mut self, id: i64, name: String) -> (added: bool)
        requires
            old(self).wf(),
            !has_id(old(self)@, id),
        ensures
            added == !is_blank(name@),
            is_blank(name@) ==> final(self)@ == old(self)@,
            !is_blank(name@) ==> final(self)@ == old(self)@.push((Task { id, name })),
            final(self).wf(),
    {
        if is_blank_str(name.as_str()) {
            return false;
        }
        let ghost pre = self.tasks@;
        self.tasks.push(Task { id, name });
        proof {
            assert(forall|i: int| 0 <= i < pre.len() ==> pre.push(Task { id, name })[i] == pre[i]);
            assert(unique_ids(self.tasks@));
        }
        true
    }

    /// Deleting an identifier: the task that carries it leaves the list, and
    /// every other task stays, in order. An absent identifier changes nothing.
    pub fn delete(&mut self, id: i64) -> (removed: bool)
        requires
            old(self).wf(),
        ensures
            final(self)@ == remove_id(old(self)@, id),
            removed == has_id(old(self)@, id),
            removed ==> final(self)@.len() == old(self)@.len() - 1,
            !removed ==> final(self)@ == old(self)@,
            final(self).wf(),
    {
        let n: usize = self.tasks.len();
        let mut i: usize = 0;
        while i < n
            invariant
                n == self@.len(),
                i <= n,
                self@ == old(self)@,
                self.wf(),
                forall|j: int| 0 <= j < i ==> self@[j].id != id,
            decreases n - i,
        {
            if self.tasks[i].id == id {
                let ghost pre = self.tasks@;
                self.tasks.remove(i);
                proof {
                    assert(forall|j: int| 0 <= j < pre.len() && j != i ==> pre[j].id != id);
                    lemma_remove_id_single(pre, id, i as int);
                    assert(forall|j: int| 0 <= j < pre.remove(i as int).len()
                        ==> pre.remove(i as int)[j] == (if j < i { pre[j] } else { pre[j + 1] }));
                    assert(unique_ids(self.tasks@));
                }
                return true;
            }
            i = i + 1;
        }
        proof {
            assert(!has_id(self@, id));
            lemma_remove_id_absent(self@, id);
        }
        false
    }

    /// Rebuilds the list from stored rows: every row becomes a task, except
    /// that a row whose identifier already occurred is dropped, so the list
    /// is well formed whatever storage returned.
    pub fn load(rows: &Vec<Task>) -> (r: TaskList)
        ensures
            r@ == dedup_ids(rows@),
            r.wf(),
    {
        let n: usize = rows.len();
        let mut list = TaskList::new();
        let mut i: usize = 0;
        while i < n
            invariant
                n == rows@.len(),
                i <= n,
                list@ == dedup_ids(rows@.take(i as int)),
                list.wf(),
            decreases n - i,
        {
            let ghost prefix = rows@.take(i as int);
            proof {
                assert(rows@.take(i as int + 1).drop_last() =~= prefix);
                assert(rows@.take(i as int + 1).last() == rows@[i as int]);
                lemma_dedup_ids_unique(prefix);
            }
            let t = &rows[i];
            if !list.contains_id(t.id) {
                let ghost pre_list = list@;
                list.tasks.push(Task { id: t.id, name: t.name.clone() });
                proof {
                    assert(!has_id(prefix, rows@[i as int].id));
                    assert(list@ == pre_list.push(rows@[i as int]));
                    assert(list@ =~= dedup_ids(rows@.take(i as int + 1)));
                    assert(forall|j: int| 0 <= j < pre_list.len() ==> list@[j] == pre_list[j]);
                    assert(unique_ids(list@));
                }
            } else {
                proof {
                    assert(has_id(prefix, rows@[i as int].id));
                    assert(list@ =~= dedup_ids(rows@.take(i as int + 1)));
                }
            }
            i = i + 1;
        }
        proof {
            assert(rows@.take(n as int) =~= rows@);
        }
        list
    }
}

} // verus!
