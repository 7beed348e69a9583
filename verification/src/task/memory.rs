//! Task memory: the tasks Karta remembers, and queries over them.
//!
//! The store keeps tasks in a hash map by identifier. Listings that are not
//! sorted come out in the order in which the map hands its tasks out; sorted
//! listings put the most recently updated first and keep that order among
//! tasks updated at the same moment.

use std::collections::hash_map::Entry;
use std::collections::HashMap;

use vstd::prelude::*;
use vstd::std_specs::hash::{into_iter, spec_hash_map_iter};
use vstd::std_specs::iter::IteratorSpec;

use crate::task::task::{
    state_is_active, state_is_complete, Task, TaskState, TaskStateView, TaskType, TaskTypeView,
    TaskView,
};
use crate::task::id::{id_string, id_text};
use crate::text::{has_prefix, lowercase_text, str_contains, str_starts_with, text_contains, to_lowercase};

verus! {

broadcast use {vstd::seq_lib::group_seq_properties, vstd::std_specs::hash::group_hash_axioms};

// ---------------------------------------------------------------------------
// Views of task lists
// ---------------------------------------------------------------------------

/// The tasks that a list of references points to.
pub open spec fn views_of(s: Seq<&Task>) -> Seq<TaskView> {
    s.map_values(|t: &Task| t@)
}

/// The tasks of a list.
pub open spec fn task_views(s: Seq<Task>) -> Seq<TaskView> {
    s.map_values(|t: Task| t@)
}

/// Tasks last updated at time `k`.
pub open spec fn updated_at_time(k: i64) -> spec_fn(TaskView) -> bool {
    |t: TaskView| t.updated_at == k
}

/// Most recently updated first.
pub open spec fn newest_first(s: Seq<TaskView>) -> bool {
    forall|i: int, j: int| 0 <= i < j < s.len() ==> s[i].updated_at >= s[j].updated_at
}

/// `a` and `b` hold the same tasks, and the tasks updated at any one moment
/// come in the same order in both.
pub open spec fn same_order_per_time(a: Seq<TaskView>, b: Seq<TaskView>) -> bool {
    forall|k: i64| #[trigger] a.filter(updated_at_time(k)) == b.filter(updated_at_time(k))
}

/// `sorted` is `s` ordered by recency, most recent first, stably.
pub open spec fn sorted_by_recency(s: Seq<TaskView>, sorted: Seq<TaskView>) -> bool {
    newest_first(sorted) && same_order_per_time(s, sorted)
}

/// The first `limit` items of a list (all of them where there are fewer).
pub open spec fn first_n<A>(s: Seq<A>, limit: nat) -> Seq<A> {
    if limit < s.len() {
        s.take(limit as int)
    } else {
        s
    }
}

// ---------------------------------------------------------------------------
// Filtering
// ---------------------------------------------------------------------------

/// The stored tasks, as values, in the order in which the map hands them out.
spec fn listed(tasks: &HashMap<u128, Task>) -> Seq<TaskView> {
    into_iter(spec_hash_map_iter(tasks)).map_values(|p: (u128, Task)| p.1@)
}

fn filter_tasks<'a, F: Fn(&Task) -> bool>(
    tasks: &'a HashMap<u128, Task>,
    keep: F,
    Ghost(pred): Ghost<spec_fn(TaskView) -> bool>,
) -> (r: Vec<&'a Task>)
    requires
        forall|t: &Task| #[trigger] keep.requires((t,)),
        forall|t: &Task, b: bool| keep.ensures((t,), b) ==> b == pred(t@),
    ensures
        views_of(r@) == listed(tasks).filter(pred),
{
    let mut r: Vec<&'a Task> = Vec::new();
    let ghost all = listed(tasks);
    assert(all.take(all.len() as int) =~= all);
    for (_id, t) in iter: tasks.iter()
        invariant
            forall|t: &Task| #[trigger] keep.requires((t,)),
            forall|t: &Task, b: bool| keep.ensures((t,), b) ==> b == pred(t@),
            all == listed(tasks),
            iter.seq().map_values(|p: (&u128, &Task)| p.1@) == all,
            views_of(r@) == all.take(iter.index() as int).filter(pred),
    {
        let ghost prev = r@;
        assert(all.take(iter.index() + 1) =~= all.take(iter.index() as int).push(t@));
        proof {
            all.take(iter.index() as int).lemma_filter_push(t@, pred);
        }
        if keep(t) {
            r.push(t);
            assert(views_of(r@) =~= views_of(prev).push(t@));
        }
    }
    r
}

// ---------------------------------------------------------------------------
// Ordering by recency
// ---------------------------------------------------------------------------

proof fn lemma_no_task_at(s: Seq<TaskView>, k: i64)
    requires
        forall|j: int| 0 <= j < s.len() ==> s[j].updated_at != k,
    ensures
        s.filter(updated_at_time(k)) == Seq::<TaskView>::empty(),
{
    let p = updated_at_time(k);
    assert(s.all(|x: TaskView| !p(x)));
    s.lemma_all_neg_filter_empty(p);
}

/// The last task of a non-empty list is kept by the filter of its own time,
/// and comes last there.
proof fn lemma_last_kept(s: Seq<TaskView>)
    requires
        s.len() > 0,
    ensures
        s.filter(updated_at_time(s.last().updated_at)).len() > 0,
        s.filter(updated_at_time(s.last().updated_at)).last() == s.last(),
{
    let p = updated_at_time(s.last().updated_at);
    assert(s.drop_last().push(s.last()) =~= s);
    s.drop_last().lemma_filter_push(s.last(), p);
}

proof fn lemma_recency_order_unique(a: Seq<TaskView>, b: Seq<TaskView>)
    requires
        newest_first(a),
        newest_first(b),
        same_order_per_time(a, b),
    ensures
        a == b,
    decreases a.len() + b.len(),
{
    if a.len() == 0 || b.len() == 0 {
        if a.len() > 0 {
            lemma_last_kept(a);
            lemma_no_task_at(b, a.last().updated_at);
            assert(a.filter(updated_at_time(a.last().updated_at)) == b.filter(updated_at_time(a.last().updated_at)));
        } else if b.len() > 0 {
            lemma_last_kept(b);
            lemma_no_task_at(a, b.last().updated_at);
            assert(a.filter(updated_at_time(b.last().updated_at)) == b.filter(updated_at_time(b.last().updated_at)));
        }
        assert(a =~= b);
    } else {
        let ma = a.last().updated_at;
        let mb = b.last().updated_at;
        lemma_last_kept(a);
        lemma_last_kept(b);
        if ma < mb {
            assert forall|j: int| 0 <= j < b.len() implies b[j].updated_at != ma by {
                assert(b[j].updated_at >= b[b.len() - 1].updated_at);
            }
            lemma_no_task_at(b, ma);
            assert(a.filter(updated_at_time(ma)) == b.filter(updated_at_time(ma)));
        }
        if mb < ma {
            assert forall|j: int| 0 <= j < a.len() implies a[j].updated_at != mb by {
                assert(a[j].updated_at >= a[a.len() - 1].updated_at);
            }
            lemma_no_task_at(a, mb);
            assert(a.filter(updated_at_time(mb)) == b.filter(updated_at_time(mb)));
        }
        assert(ma == mb);
        assert(a.filter(updated_at_time(ma)) == b.filter(updated_at_time(ma)));
        let x = a.last();
        assert(x == b.last());
        let a1 = a.drop_last();
        let b1 = b.drop_last();
        assert(a1.push(x) =~= a);
        assert(b1.push(x) =~= b);
        assert forall|k: i64| #[trigger] a1.filter(updated_at_time(k)) == b1.filter(updated_at_time(k)) by {
            let p = updated_at_time(k);
            a1.lemma_filter_push(x, p);
            b1.lemma_filter_push(x, p);
            assert(a.filter(p) == b.filter(p));
            if p(x) {
                assert(a1.filter(p).push(x).drop_last() =~= a1.filter(p));
                assert(b1.filter(p).push(x).drop_last() =~= b1.filter(p));
            }
        }
        lemma_recency_order_unique(a1, b1);
    }
}

/// Ordering by recency is unique: the newest-first order that keeps the
/// order of tasks updated at the same moment is the same however it is
/// reached, so listings sorted by recency are determined by the store.
pub proof fn law_recency_order_is_unique(s: Seq<TaskView>, a: Seq<TaskView>, b: Seq<TaskView>)
    requires
        sorted_by_recency(s, a),
        sorted_by_recency(s, b),
    ensures
        a == b,
{
    assert forall|k: i64| #[trigger] a.filter(updated_at_time(k)) == b.filter(updated_at_time(k)) by {
        assert(s.filter(updated_at_time(k)) == a.filter(updated_at_time(k)));
        assert(s.filter(updated_at_time(k)) == b.filter(updated_at_time(k)));
    }
    lemma_recency_order_unique(a, b);
}

/// Inserting `e` just after the tasks at least as recent keeps the list
/// newest-first and places `e` after the tasks of its own moment.
proof fn lemma_insert_keeps_order(res: Seq<TaskView>, e: TaskView, p: int)
    requires
        newest_first(res),
        0 <= p <= res.len(),
        forall|j: int| 0 <= j < p ==> res[j].updated_at >= e.updated_at,
        p < res.len() ==> res[p].updated_at < e.updated_at,
    ensures
        newest_first(res.insert(p, e)),
        forall|k: i64| #[trigger] res.insert(p, e).filter(updated_at_time(k)) == if k == e.updated_at {
            res.filter(updated_at_time(k)).push(e)
        } else {
            res.filter(updated_at_time(k))
        },
{
    let new = res.insert(p, e);
    let front = res.take(p);
    let back = res.skip(p);
    assert(new =~= front.push(e) + back);
    assert(res =~= front + back);
    assert forall|k: i64| #[trigger] new.filter(updated_at_time(k)) == if k == e.updated_at {
        res.filter(updated_at_time(k)).push(e)
    } else {
        res.filter(updated_at_time(k))
    } by {
        let pr = updated_at_time(k);
        Seq::filter_distributes_over_add(front.push(e), back, pr);
        Seq::filter_distributes_over_add(front, back, pr);
        front.lemma_filter_push(e, pr);
        if k == e.updated_at {
            assert forall|j: int| 0 <= j < back.len() implies back[j].updated_at < k by {
                assert(res[p].updated_at >= res[p + j].updated_at);
            }
            lemma_no_task_at(back, k);
            assert(front.filter(pr).push(e) + back.filter(pr) =~= front.filter(pr).push(e));
            assert(front.filter(pr) + back.filter(pr) =~= front.filter(pr));
        } else {
        }
    }
}

/// Orders task references by recency, most recent first, keeping the given
/// order among tasks updated at the same moment.
fn sort_by_recency<'a>(v: Vec<&'a Task>) -> (r: Vec<&'a Task>)
    ensures
        sorted_by_recency(views_of(v@), views_of(r@)),
{
    let mut r: Vec<&'a Task> = Vec::new();
    let n = v.len();
    let mut i: usize = 0;
    proof {
        reveal(Seq::filter);
        assert(views_of(v@).take(0) =~= Seq::<TaskView>::empty());
        assert(views_of(r@) =~= Seq::<TaskView>::empty());
    }
    while i < n
        invariant
            n == v@.len(),
            i <= n,
            newest_first(views_of(r@)),
            same_order_per_time(views_of(v@).take(i as int), views_of(r@)),
        decreases n - i,
    {
        let e = v[i];
        let m = r.len();
        let mut p: usize = 0;
        while p < m && r[p].updated_at >= e.updated_at
            invariant
                m == r@.len(),
                p <= m,
                forall|j: int| 0 <= j < p ==> r@[j].updated_at >= e.updated_at,
            decreases m - p,
        {
            p = p + 1;
        }
        let ghost before = views_of(r@);
        proof {
            lemma_insert_keeps_order(before, e@, p as int);
        }
        r.insert(p, e);
        assert(views_of(r@) =~= before.insert(p as int, e@));
        assert(views_of(v@).take(i + 1) =~= views_of(v@).take(i as int).push(e@));
        assert forall|k: i64| #[trigger] views_of(v@).take(i + 1).filter(updated_at_time(k))
            == views_of(r@).filter(updated_at_time(k)) by {
            views_of(v@).take(i as int).lemma_filter_push(e@, updated_at_time(k));
        }
        i = i + 1;
    }
    assert(views_of(v@).take(n as int) =~= views_of(v@));
    r
}

pub(crate) fn truncated<'a>(v: Vec<&'a Task>, limit: usize) -> (r: Vec<&'a Task>)
    ensures
        views_of(r@) == first_n(views_of(v@), limit as nat),
{
    let mut v = v;
    let ghost before = v@;
    v.truncate(limit);
    proof {
        if (limit as nat) < views_of(before).len() {
            assert(views_of(v@) =~= views_of(before).take(limit as int));
        } else {
            assert(views_of(v@) =~= views_of(before));
        }
    }
    v
}

// ---------------------------------------------------------------------------
// Predicates
// ---------------------------------------------------------------------------

pub open spec fn active_task() -> spec_fn(TaskView) -> bool {
    |t: TaskView| state_is_active(t.state)
}

pub open spec fn completed_task() -> spec_fn(TaskView) -> bool {
    |t: TaskView| state_is_complete(t.state)
}

/// Tasks that are not yet finished: neither completed, failed nor cancelled.
pub open spec fn unfinished_task() -> spec_fn(TaskView) -> bool {
    |t: TaskView| !state_is_complete(t.state)
}

pub open spec fn in_state(s: TaskStateView) -> spec_fn(TaskView) -> bool {
    |t: TaskView| t.state == s
}

/// The target's name contains the query, ignoring case.
pub open spec fn target_matches(t: TaskView, query: Seq<char>) -> bool {
    text_contains(lowercase_text(t.target.name), lowercase_text(query))
}

pub open spec fn target_matching(query: Seq<char>) -> spec_fn(TaskView) -> bool {
    |t: TaskView| target_matches(t, query)
}

/// The tasks whose identifier text begins with `prefix`.
pub open spec fn id_starting_with(prefix: Seq<char>) -> spec_fn(TaskView) -> bool {
    |t: TaskView| has_prefix(id_text(t.id), prefix)
}

impl TaskState {
    /// Whether two states are the same, as `==` compares them.
    pub fn same_as(&self, other: &TaskState) -> (b: bool)
        ensures
            b == (self@ == other@),
    {
        match (self, other) {
            (TaskState::Pending, TaskState::Pending) => true,
            (TaskState::Preparing, TaskState::Preparing) => true,
            (TaskState::InProgress, TaskState::InProgress) => true,
            (TaskState::WaitingForInput, TaskState::WaitingForInput) => true,
            (TaskState::Processing, TaskState::Processing) => true,
            (TaskState::Completed, TaskState::Completed) => true,
            (TaskState::Failed(a), TaskState::Failed(b)) => *a == *b,
            (TaskState::Cancelled, TaskState::Cancelled) => true,
            _ => false,
        }
    }
}

impl TaskType {
    /// Whether two task types are the same, as `==` compares them.
    pub fn same_as(&self, other: &TaskType) -> (b: bool)
        ensures
            b == (self@ == other@),
    {
        match (self, other) {
            (TaskType::BookAppointment, TaskType::BookAppointment) => true,
            (TaskType::RentalAgreement, TaskType::RentalAgreement) => true,
            (TaskType::Reservation, TaskType::Reservation) => true,
            (TaskType::Negotiation, TaskType::Negotiation) => true,
            (TaskType::Inquiry, TaskType::Inquiry) => true,
            (TaskType::FollowUp, TaskType::FollowUp) => true,
            (TaskType::Custom(a), TaskType::Custom(b)) => *a == *b,
            _ => false,
        }
    }
}

fn target_contains_query(t: &Task, query_lower: &String) -> (b: bool)
    ensures
        b == text_contains(lowercase_text(t@.target.name), query_lower@),
{
    let name_lower = to_lowercase(t.target.name.as_str());
    str_contains(name_lower.as_str(), query_lower.as_str())
}

// ---------------------------------------------------------------------------
// The store
// ---------------------------------------------------------------------------

/// Task memory: the tasks Karta knows of, by identifier.
pub struct TaskMemory {
    tasks: HashMap<u128, Task>,
}

impl TaskMemory {
    /// The remembered tasks by identifier.
    pub closed spec fn stored(&self) -> Map<u128, Task> {
        self.tasks@
    }

    /// The remembered tasks by identifier, as values.
    pub open spec fn by_id(&self) -> Map<u128, TaskView> {
        self.stored().map_values(|t: Task| t@)
    }

    /// The remembered tasks, in the order in which the store hands them out
    /// (an order that the map decides).
    pub closed spec fn tasks(&self) -> Seq<TaskView> {
        listed(&self.tasks)
    }

    /// An empty memory.
    pub fn new() -> (m: TaskMemory)
        ensures
            m.by_id() == Map::<u128, TaskView>::empty(),
            m.tasks() == Seq::<TaskView>::empty(),
    {
        let m = TaskMemory { tasks: HashMap::new() };
        let _ = m.tasks.iter();
        assert(m.by_id() =~= Map::<u128, TaskView>::empty());
        assert(m.tasks() =~= Seq::<TaskView>::empty());
        m
    }

    /// Remember a task under its identifier, replacing a task stored under
    /// the same identifier.
    pub fn insert(&mut self, task: Task)
        ensures
            final(self).by_id() == old(self).by_id().insert(task@.id, task@),
    {
        let ghost t = task@;
        let id = task.id;
        self.tasks.insert(id, task);
        assert(self.by_id() =~= old(self).by_id().insert(t.id, t));
    }

    /// Forget the task with identifier `id`, if there is one.
    pub fn remove(&mut self, id: u128)
        ensures
            final(self).by_id() == old(self).by_id().remove(id),
    {
        self.tasks.remove(&id);
        assert(self.by_id() =~= old(self).by_id().remove(id));
    }

    /// Get a task by ID
    pub fn get(&self, id: u128) -> (r: Option<&Task>)
        ensures
            match r {
                Some(t) => self.by_id().contains_key(id) && t@ == self.by_id()[id],
                None => !self.by_id().contains_key(id),
            },
    {
        self.tasks.get(&id)
    }

    /// Get a task by ID, to change it in place: the store then holds the
    /// changed task under that identifier, and every other task as it was.
    pub fn get_mut(&mut self, id: u128) -> (r: Option<&mut Task>)
        ensures
            match r {
                Some(t) => old(self).by_id().contains_key(id) && (*t)@ == old(self).by_id()[id]
                    && final(self).stored() == old(self).stored().insert(id, *final(t)),
                None => !old(self).by_id().contains_key(id) && final(self).stored() == old(self).stored(),
            },
    {
        match self.tasks.entry(id) {
            Entry::Occupied(e) => Some(e.into_mut()),
            Entry::Vacant(_) => {
                assert(old(self).stored().remove(id) =~= old(self).stored());
                None
            },
        }
    }

    /// List all tasks
    pub fn list(&self) -> (r: Vec<&Task>)
        ensures
            views_of(r@) == self.tasks(),
            self.tasks().len() == self.by_id().len(),
            self.tasks().to_set() == self.by_id().values(),
    {
        let it = self.tasks.iter();
        proof {
            let m = self.tasks@;
            let pairs = into_iter(spec_hash_map_iter(&self.tasks));
            let v = IteratorSpec::remaining(&spec_hash_map_iter(&self.tasks));
            assert(pairs == v.unref());
            assert(self.by_id().dom() =~= m.dom());
            assert(self.tasks().len() == pairs.len());
            assert forall|x: TaskView| #[trigger] self.tasks().to_set().contains(x) <==> self.by_id().values().contains(x) by {
                if self.tasks().to_set().contains(x) {
                    let i = choose|i: int| 0 <= i < self.tasks().len() && self.tasks()[i] == x;
                    assert(m.contains_key(*v[i].0));
                    assert(self.tasks()[i] == pairs[i].1@);
                    assert(pairs[i] == (*v[i].0, *v[i].1));
                    assert(self.by_id()[*v[i].0] == x);
                }
                if self.by_id().values().contains(x) {
                    let k = choose|k: u128| self.by_id().contains_key(k) && self.by_id()[k] == x;
                    assert(v.contains((&k, &m[k])));
                    let j = choose|j: int| 0 <= j < v.len() && v[j] == (&k, &m[k]);
                    assert(pairs[j] == (k, m[k]));
                    assert(self.tasks()[j] == x);
                }
            }
            assert(self.tasks().to_set() =~= self.by_id().values());
        }
        let r = filter_tasks(&self.tasks, |t: &Task| -> (b: bool) ensures b { true }, Ghost(|t: TaskView| true));
        proof {
            let p = |t: TaskView| true;
            let s = self.tasks();
            lemma_filter_everything(s, p);
        }
        r
    }

    /// List tasks by state
    pub fn list_by_state(&self, state: &TaskState) -> (r: Vec<&Task>)
        ensures
            views_of(r@) == self.tasks().filter(in_state(state@)),
    {
        filter_tasks(
            &self.tasks,
            |t: &Task| -> (b: bool) ensures b == (t@.state == state@) { t.state.same_as(state) },
            Ghost(in_state(state@)),
        )
    }

    /// List active tasks
    pub fn list_active(&self) -> (r: Vec<&Task>)
        ensures
            views_of(r@) == self.tasks().filter(active_task()),
    {
        filter_tasks(
            &self.tasks,
            |t: &Task| -> (b: bool) ensures b == state_is_active(t@.state) { t.is_active() },
            Ghost(active_task()),
        )
    }

    /// The tasks that are not finished, in the order in which the store hands them out.
    pub(crate) fn list_unfinished(&self) -> (r: Vec<&Task>)
        ensures
            views_of(r@) == self.tasks().filter(unfinished_task()),
    {
        filter_tasks(
            &self.tasks,
            |t: &Task| -> (b: bool) ensures b == !state_is_complete(t@.state) { !t.is_complete() },
            Ghost(unfinished_task()),
        )
    }

    /// List completed tasks
    pub fn list_completed(&self) -> (r: Vec<&Task>)
        ensures
            views_of(r@) == self.tasks().filter(completed_task()),
    {
        filter_tasks(
            &self.tasks,
            |t: &Task| -> (b: bool) ensures b == state_is_complete(t@.state) { t.is_complete() },
            Ghost(completed_task()),
        )
    }

    /// Search tasks by target name, ignoring case
    pub fn search_by_target(&self, query: &str) -> (r: Vec<&Task>)
        ensures
            views_of(r@) == self.tasks().filter(target_matching(query@)),
    {
        let query_lower = to_lowercase(query);
        filter_tasks(
            &self.tasks,
            |t: &Task| -> (b: bool) ensures b == target_matches(t@, query@) {
                target_contains_query(t, &query_lower)
            },
            Ghost(target_matching(query@)),
        )
    }

    /// The tasks whose identifier, written out, begins with `prefix` (a task
    /// is found by a leading part of its identifier).
    pub fn find_by_id_prefix(&self, prefix: &str) -> (r: Vec<&Task>)
        ensures
            views_of(r@) == self.tasks().filter(id_starting_with(prefix@)),
    {
        filter_tasks(
            &self.tasks,
            |t: &Task| -> (b: bool) ensures b == has_prefix(id_text(t@.id), prefix@) {
                let text = id_string(t.id);
                str_starts_with(text.as_str(), prefix)
            },
            Ghost(id_starting_with(prefix@)),
        )
    }

    /// Get recent tasks: the `limit` most recently updated, newest first
    pub fn recent(&self, limit: usize) -> (r: Vec<&Task>)
        ensures
            exists|sorted: Seq<TaskView>|
                #[trigger] sorted_by_recency(self.tasks(), sorted) && views_of(r@) == first_n(
                    sorted,
                    limit as nat,
                ),
    {
        let all = self.list();
        let sorted = sort_by_recency(all);
        let ghost s = views_of(sorted@);
        let r = truncated(sorted, limit);
        assert(sorted_by_recency(self.tasks(), s) && views_of(r@) == first_n(s, limit as nat));
        r
    }
}

/// A stored task is read back by its identifier, and every other task stays
/// as it was.
pub proof fn law_read_after_insert(before: &TaskMemory, after: &TaskMemory, t: TaskView)
    requires
        after.by_id() == before.by_id().insert(t.id, t),
    ensures
        after.by_id().contains_key(t.id),
        after.by_id()[t.id] == t,
        forall|id: u128| id != t.id ==> (#[trigger] after.by_id().contains_key(id)) == before.by_id().contains_key(id),
        forall|id: u128| id != t.id && before.by_id().contains_key(id) ==> #[trigger] after.by_id()[id] == before.by_id()[id],
{
}

/// Removing a task stored under a new identifier gives the store back as it
/// was, as a map from identifiers to tasks.
pub proof fn law_remove_undoes_insert(before: &TaskMemory, after_insert: &TaskMemory, after_remove: &TaskMemory, t: TaskView)
    requires
        !before.by_id().contains_key(t.id),
        after_insert.by_id() == before.by_id().insert(t.id, t),
        after_remove.by_id() == after_insert.by_id().remove(t.id),
    ensures
        after_remove.by_id() == before.by_id(),
{
    assert(before.by_id().insert(t.id, t).remove(t.id) =~= before.by_id());
}

proof fn lemma_filter_everything(s: Seq<TaskView>, p: spec_fn(TaskView) -> bool)
    requires
        forall|t: TaskView| #[trigger] p(t),
    ensures
        s.filter(p) == s,
    decreases s.len(),
{
    reveal(Seq::filter);
    if s.len() > 0 {
        lemma_filter_everything(s.drop_last(), p);
        assert(s.drop_last().push(s.last()) =~= s);
    }
}

// ---------------------------------------------------------------------------
// Queries
// ---------------------------------------------------------------------------

/// Task search query.
#[derive(Debug, Default)]
pub struct TaskQuery {
    pub target_contains: Option<String>,
    pub task_type: Option<TaskType>,
    pub include_completed: bool,
    pub limit: Option<usize>,
}

/// Whether a query keeps a task.
pub open spec fn query_accepts(q: TaskQuery, t: TaskView) -> bool {
    &&& (q.include_completed || !state_is_complete(t.state))
    &&& match q.target_contains {
        Some(s) => target_matches(t, s@),
        None => true,
    }
    &&& match q.task_type {
        Some(tt) => t.task_type == tt@,
        None => true,
    }
}

pub open spec fn accepted_by(q: TaskQuery) -> spec_fn(TaskView) -> bool {
    |t: TaskView| query_accepts(q, t)
}

/// A task in a recency ordering of a list is a task of the list, and the
/// other way round.
proof fn lemma_sorted_keeps_members(s: Seq<TaskView>, sorted: Seq<TaskView>, x: TaskView)
    requires
        sorted_by_recency(s, sorted),
    ensures
        s.contains(x) <==> sorted.contains(x),
{
    let p = updated_at_time(x.updated_at);
    if sorted.contains(x) {
        let i = choose|i: int| 0 <= i < sorted.len() && sorted[i] == x;
        sorted.lemma_filter_contains(p, i);
        assert(s.filter(p) == sorted.filter(p));
        s.lemma_filter_contains_rev(p, x);
    }
    if s.contains(x) {
        let i = choose|i: int| 0 <= i < s.len() && s[i] == x;
        s.lemma_filter_contains(p, i);
        assert(s.filter(p) == sorted.filter(p));
        sorted.lemma_filter_contains_rev(p, x);
    }
}

/// Adding a filter never adds a task: where every task that `narrow` accepts
/// is accepted by `wide`, every task of the narrow query's unlimited result is
/// in the wide query's unlimited result.
pub proof fn law_narrower_query_finds_no_more(
    tasks: Seq<TaskView>,
    wide: TaskQuery,
    narrow: TaskQuery,
    wide_result: Seq<TaskView>,
    narrow_result: Seq<TaskView>,
)
    requires
        forall|t: TaskView| query_accepts(narrow, t) ==> query_accepts(wide, t),
        sorted_by_recency(tasks.filter(accepted_by(wide)), wide_result),
        sorted_by_recency(tasks.filter(accepted_by(narrow)), narrow_result),
    ensures
        forall|i: int| 0 <= i < narrow_result.len() ==> wide_result.contains(#[trigger] narrow_result[i]),
{
    assert forall|i: int| 0 <= i < narrow_result.len() implies wide_result.contains(#[trigger] narrow_result[i]) by {
        let x = narrow_result[i];
        let fn_ = tasks.filter(accepted_by(narrow));
        let fw = tasks.filter(accepted_by(wide));
        assert(narrow_result.contains(x));
        lemma_sorted_keeps_members(fn_, narrow_result, x);
        tasks.lemma_filter_contains_rev(accepted_by(narrow), x);
        let j = choose|j: int| 0 <= j < fn_.len() && fn_[j] == x;
        tasks.lemma_filter_pred(accepted_by(narrow), j);
        let k = choose|k: int| 0 <= k < tasks.len() && tasks[k] == x;
        tasks.lemma_filter_contains(accepted_by(wide), k);
        lemma_sorted_keeps_members(fw, wide_result, x);
    }
}

/// Leaving finished tasks out, or asking for a target or a type, narrows a
/// query: the narrower query accepts only tasks the wider one accepts.
pub proof fn law_filters_narrow(q: TaskQuery, t: TaskView, target: String, task_type: TaskType)
    ensures
        query_accepts(TaskQuery { include_completed: false, ..q }, t) ==> query_accepts(
            TaskQuery { include_completed: true, ..q },
            t,
        ),
        query_accepts(TaskQuery { target_contains: Some(target), ..q }, t) ==> query_accepts(
            TaskQuery { target_contains: None, ..q },
            t,
        ),
        query_accepts(TaskQuery { task_type: Some(task_type), ..q }, t) ==> query_accepts(
            TaskQuery { task_type: None, ..q },
            t,
        ),
{
}

/// What each filter of a query does, given the others: a target text keeps
/// the tasks whose lower-cased target name contains the lower-cased text
/// anywhere (the tasks that `search_by_target` finds); a task type keeps the
/// tasks of that type; leaving completed tasks out drops the finished ones;
/// and a query with no filter keeps every task.
pub proof fn law_query_filters(q: TaskQuery, t: TaskView, target: String, task_type: TaskType)
    ensures
        query_accepts(TaskQuery { target_contains: Some(target), ..q }, t) == (query_accepts(
            TaskQuery { target_contains: None, ..q },
            t,
        ) && text_contains(lowercase_text(t.target.name), lowercase_text(target@))),
        query_accepts(TaskQuery { target_contains: Some(target), ..q }, t) == (query_accepts(
            TaskQuery { target_contains: None, ..q },
            t,
        ) && target_matching(target@)(t)),
        query_accepts(TaskQuery { task_type: Some(task_type), ..q }, t) == (query_accepts(
            TaskQuery { task_type: None, ..q },
            t,
        ) && t.task_type == task_type@),
        query_accepts(TaskQuery { include_completed: false, ..q }, t) == (query_accepts(
            TaskQuery { include_completed: true, ..q },
            t,
        ) && !(t.state is Completed || t.state is Failed || t.state is Cancelled)),
        query_accepts(
            TaskQuery { target_contains: None, task_type: None, include_completed: true, limit: q.limit },
            t,
        ),
{
}

impl TaskQuery {
    /// A query that keeps every unfinished task, of any type and target.
    pub fn new() -> (q: TaskQuery)
        ensures
            q.target_contains is None,
            q.task_type is None,
            !q.include_completed,
            q.limit is None,
    {
        TaskQuery { target_contains: None, task_type: None, include_completed: false, limit: None }
    }

    pub fn target_contains(self, query: String) -> (q: TaskQuery)
        ensures
            q == (TaskQuery { target_contains: Some(query), ..self }),
    {
        TaskQuery { target_contains: Some(query), ..self }
    }

    pub fn task_type(self, task_type: TaskType) -> (q: TaskQuery)
        ensures
            q == (TaskQuery { task_type: Some(task_type), ..self }),
    {
        TaskQuery { task_type: Some(task_type), ..self }
    }

    pub fn include_completed(self, completed_too: bool) -> (q: TaskQuery)
        ensures
            q == (TaskQuery { include_completed: completed_too, ..self }),
    {
        TaskQuery { include_completed: completed_too, ..self }
    }

    pub fn limit(self, limit: usize) -> (q: TaskQuery)
        ensures
            q == (TaskQuery { limit: Some(limit), ..self }),
    {
        TaskQuery { limit: Some(limit), ..self }
    }

    fn accepts(&self, task: &Task, query_lower: &Option<String>) -> (b: bool)
        requires
            match self.target_contains {
                Some(s) => query_lower is Some && query_lower->0@ == lowercase_text(s@),
                None => query_lower is None,
            },
        ensures
            b == query_accepts(*self, task@),
    {
        if !self.include_completed && task.is_complete() {
            return false;
        }
        if let Some(q) = query_lower {
            if !target_contains_query(task, q) {
                return false;
            }
        }
        if let Some(tt) = &self.task_type {
            if !task.task_type.same_as(tt) {
                return false;
            }
        }
        true
    }

    /// Run the query: the tasks it keeps, most recently updated first (stably),
    /// cut to the limit where one is set.
    pub fn execute<'a>(&self, memory: &'a TaskMemory) -> (r: Vec<&'a Task>)
        ensures
            exists|sorted: Seq<TaskView>|
                {
                    &&& #[trigger] sorted_by_recency(memory.tasks().filter(accepted_by(*self)), sorted)
                    &&& views_of(r@) == match self.limit {
                        Some(l) => first_n(sorted, l as nat),
                        None => sorted,
                    }
                },
    {
        let query_lower = match &self.target_contains {
            Some(q) => Some(to_lowercase(q.as_str())),
            None => None,
        };
        let kept = filter_tasks(
            &memory.tasks,
            |t: &Task| -> (b: bool)
                requires
                    match self.target_contains {
                        Some(s) => query_lower is Some && query_lower->0@ == lowercase_text(s@),
                        None => query_lower is None,
                    },
                ensures b == query_accepts(*self, t@)
                { self.accepts(t, &query_lower) },
            Ghost(accepted_by(*self)),
        );
        let sorted = sort_by_recency(kept);
        let ghost s = views_of(sorted@);
        let r = match self.limit {
            Some(l) => truncated(sorted, l),
            None => sorted,
        };
        assert(sorted_by_recency(memory.tasks().filter(accepted_by(*self)), s));
        r
    }
}

} // verus!
