//! Checks of the dependencies among the tasks of a list.
//!
//! A list is built without any of these checks, and nothing here changes a
//! list: a caller that wants to know asks.

use vstd::prelude::*;
use vstd::set_lib::{lemma_int_range, lemma_len_subset, lemma_subset_equality, set_int_range};
use crate::models::{Task, TaskList, TaskModel};

verus! {

/// Whether the task at `i` names the task at `j` among its dependencies.
pub open spec fn depends_on(tasks: Seq<TaskModel>, i: int, j: int) -> bool {
    &&& 0 <= i < tasks.len()
    &&& 0 <= j < tasks.len()
    &&& tasks[i].dependencies.contains(tasks[j].id)
}

/// Whether no two tasks share an identifier.
pub open spec fn unique_ids(tasks: Seq<TaskModel>) -> bool {
    forall|i: int, j: int| 0 <= i < j < tasks.len() ==> tasks[i].id != tasks[j].id
}

/// Whether `id` is the identifier of a task.
pub open spec fn names_a_task(tasks: Seq<TaskModel>, id: Seq<char>) -> bool {
    exists|j: int| 0 <= j < tasks.len() && (#[trigger] tasks[j]).id == id
}

/// Whether every dependency of every task is the identifier of a task.
pub open spec fn all_resolved(tasks: Seq<TaskModel>) -> bool {
    forall|i: int, k: int|
        0 <= i < tasks.len() && 0 <= k < tasks[i].dependencies.len() ==> names_a_task(
            tasks,
            #[trigger] tasks[i].dependencies[k],
        )
}

/// Whether `order` lists every position of the list once, each task behind
/// all the tasks that it depends on.
pub open spec fn is_schedule(tasks: Seq<TaskModel>, order: Seq<int>) -> bool {
    &&& order.len() == tasks.len()
    &&& forall|k: int| 0 <= k < order.len() ==> 0 <= #[trigger] order[k] < tasks.len()
    &&& order.no_duplicates()
    &&& forall|a: int, b: int|
        0 <= a < order.len() && 0 <= b < order.len() && depends_on(tasks, order[a], order[b])
            ==> b < a
}

/// Whether the tasks can be brought into an order in which each comes
/// behind all the tasks that it depends on: whether no task waits, directly
/// or through others, for itself.
pub open spec fn has_schedule(tasks: Seq<TaskModel>) -> bool {
    exists|order: Seq<int>| is_schedule(tasks, order)
}

/// Whether every task that the task at `i` depends on has its place.
pub open spec fn is_ready(tasks: Seq<TaskModel>, placed: Seq<bool>, i: int) -> bool {
    forall|j: int| 0 <= j < tasks.len() && depends_on(tasks, i, j) ==> placed[j]
}

/// The positions in `order` as integers.
pub open spec fn positions(order: Seq<usize>) -> Seq<int> {
    Seq::new(order.len(), |k: int| order[k] as int)
}

/// A sequence that lists `n` different numbers below `n` lists every number
/// below `n`.
proof fn lemma_order_covers(order: Seq<int>, n: int, i: int)
    requires
        order.len() == n,
        order.no_duplicates(),
        forall|k: int| 0 <= k < order.len() ==> 0 <= #[trigger] order[k] < n,
        0 <= i < n,
    ensures
        order.contains(i),
{
    let range = set_int_range(0, n);
    lemma_int_range(0, n);
    order.unique_seq_to_set();
    lemma_subset_equality(order.to_set(), range);
    assert(range.contains(i));
}

/// Where no task that is left is ready, each task of a schedule has its
/// place already: by induction along the schedule.
proof fn lemma_schedule_is_placed(
    tasks: Seq<TaskModel>,
    placed: Seq<bool>,
    schedule: Seq<int>,
    k: int,
)
    requires
        is_schedule(tasks, schedule),
        placed.len() == tasks.len(),
        forall|i: int| 0 <= i < tasks.len() ==> placed[i] || !is_ready(tasks, placed, i),
        0 <= k < schedule.len(),
    ensures
        placed[schedule[k]],
    decreases k,
{
    let i = schedule[k];
    if !placed[i] {
        let j = choose|j: int| 0 <= j < tasks.len() && depends_on(tasks, i, j) && !placed[j];
        lemma_order_covers(schedule, tasks.len() as int, j);
        let b = choose|b: int| 0 <= b < schedule.len() && schedule[b] == j;
        lemma_schedule_is_placed(tasks, placed, schedule, b);
    }
}

/// Where some task is left and none that is left is ready, there is no
/// schedule.
proof fn lemma_stuck_has_no_schedule(tasks: Seq<TaskModel>, placed: Seq<bool>, order: Seq<int>)
    requires
        placed.len() == tasks.len(),
        order.len() < tasks.len(),
        forall|i: int| 0 <= i < tasks.len() && placed[i] ==> order.contains(i),
        forall|i: int| 0 <= i < tasks.len() ==> placed[i] || !is_ready(tasks, placed, i),
    ensures
        !has_schedule(tasks),
{
    if has_schedule(tasks) {
        let schedule = choose|schedule: Seq<int>| is_schedule(tasks, schedule);
        let n = tasks.len() as int;
        let range = set_int_range(0, n);
        lemma_int_range(0, n);
        assert forall|i: int| range.contains(i) implies order.to_set().contains(i) by {
            lemma_order_covers(schedule, n, i);
            let k = choose|k: int| 0 <= k < schedule.len() && schedule[k] == i;
            lemma_schedule_is_placed(tasks, placed, schedule, k);
        }
        order.lemma_cardinality_of_set();
        lemma_len_subset(range, order.to_set());
    }
}

/// Whether `id` is among `names`.
fn is_among(names: &Vec<String>, id: &String) -> (found: bool)
    ensures
        found == names.deep_view().contains(id@),
{
    let mut k: usize = 0;
    while k < names.len()
        invariant
            k <= names.len(),
            forall|m: int| 0 <= m < k ==> names.deep_view()[m] != id@,
        decreases names.len() - k,
    {
        assert(names.deep_view()[k as int] == names[k as int]@);
        if names[k] == *id {
            return true;
        }
        k += 1;
    }
    false
}

/// Whether `id` is the identifier of one of `tasks`.
fn is_task_id(tasks: &Vec<Task>, id: &String) -> (found: bool)
    ensures
        found == names_a_task(tasks.deep_view(), id@),
{
    let mut j: usize = 0;
    while j < tasks.len()
        invariant
            j <= tasks.len(),
            forall|m: int| 0 <= m < j ==> (#[trigger] tasks.deep_view()[m]).id != id@,
        decreases tasks.len() - j,
    {
        assert(tasks.deep_view()[j as int] == tasks[j as int]@);
        if tasks[j].id == *id {
            return true;
        }
        j += 1;
    }
    false
}

/// Whether every task that the task at `i` depends on has its place.
fn task_is_ready(tasks: &Vec<Task>, placed: &Vec<bool>, i: usize) -> (ready: bool)
    requires
        i < tasks.len(),
        placed.len() == tasks.len(),
    ensures
        ready == is_ready(tasks.deep_view(), placed@, i as int),
{
    let ghost model = tasks.deep_view();
    let mut j: usize = 0;
    while j < tasks.len()
        invariant
            j <= tasks.len(),
            i < tasks.len(),
            placed.len() == tasks.len(),
            model == tasks.deep_view(),
            forall|m: int| 0 <= m < j && depends_on(model, i as int, m) ==> placed[m],
        decreases tasks.len() - j,
    {
        if !placed[j] && is_among(&tasks[i].dependencies, &tasks[j].id) {
            return false;
        }
        j += 1;
    }
    true
}

impl TaskList {
    /// Whether no two tasks of the list share an identifier.
    pub fn has_unique_ids(&self) -> (unique: bool)
        ensures
            unique == unique_ids(self@.tasks),
    {
        let ghost model = self@.tasks;
        let mut j: usize = 0;
        while j < self.tasks.len()
            invariant
                j <= self.tasks.len(),
                model == self.tasks.deep_view(),
                forall|a: int, b: int| 0 <= a < b < j ==> model[a].id != model[b].id,
            decreases self.tasks.len() - j,
        {
            let mut i: usize = 0;
            while i < j
                invariant
                    i <= j < self.tasks.len(),
                    model == self.tasks.deep_view(),
                    forall|a: int| 0 <= a < i ==> model[a].id != model[j as int].id,
                decreases j - i,
            {
                assert(model[i as int] == self.tasks[i as int]@);
                if self.tasks[i].id == self.tasks[j].id {
                    return false;
                }
                i += 1;
            }
            j += 1;
        }
        true
    }

    /// Whether every dependency of every task is the identifier of a task
    /// of the list.
    pub fn has_resolved_dependencies(&self) -> (resolved: bool)
        ensures
            resolved == all_resolved(self@.tasks),
    {
        let ghost model = self@.tasks;
        let mut i: usize = 0;
        while i < self.tasks.len()
            invariant
                i <= self.tasks.len(),
                model == self.tasks.deep_view(),
                forall|a: int, k: int|
                    0 <= a < i && 0 <= k < model[a].dependencies.len() ==> names_a_task(
                        model,
                        #[trigger] model[a].dependencies[k],
                    ),
            decreases self.tasks.len() - i,
        {
            let dependencies = &self.tasks[i].dependencies;
            let mut k: usize = 0;
            while k < dependencies.len()
                invariant
                    k <= dependencies.len(),
                    i < self.tasks.len(),
                    model == self.tasks.deep_view(),
                    model[i as int].dependencies == dependencies.deep_view(),
                    forall|m: int|
                        0 <= m < k ==> names_a_task(model, #[trigger] model[i as int].dependencies[m]),
                decreases dependencies.len() - k,
            {
                assert(dependencies.deep_view()[k as int] == dependencies[k as int]@);
                if !is_task_id(&self.tasks, &dependencies[k]) {
                    return false;
                }
                k += 1;
            }
            i += 1;
        }
        true
    }

    /// An order in which the tasks can be worked on: the positions of the
    /// list, each task behind all the tasks that it depends on. There is
    /// none where a task waits for itself, directly or through others. A
    /// dependency that names no task holds nothing up.
    pub fn execution_order(&self) -> (order: Option<Vec<usize>>)
        ensures
            order is Some <==> has_schedule(self@.tasks),
            order matches Some(o) ==> is_schedule(self@.tasks, positions(o@)),
    {
        let ghost model = self@.tasks;
        let count = self.tasks.len();
        let mut placed: Vec<bool> = Vec::new();
        while placed.len() < count
            invariant
                placed.len() <= count,
                forall|i: int| 0 <= i < placed.len() ==> !placed[i],
            decreases count - placed.len(),
        {
            placed.push(false);
        }
        let mut order: Vec<usize> = Vec::new();
        while order.len() < count
            invariant
                count == self.tasks.len(),
                model == self.tasks.deep_view(),
                placed.len() == count,
                order.len() <= count,
                forall|k: int| 0 <= k < order.len() ==> order[k] < count && placed[order[k] as int],
                forall|i: int| 0 <= i < count && placed[i] ==> positions(order@).contains(i),
                positions(order@).no_duplicates(),
                forall|a: int, j: int|
                    0 <= a < order.len() && depends_on(model, order[a] as int, j) ==> exists|b: int|
                        0 <= b < a && order[b] == j,
            decreases count - order.len(),
        {
            let mut next: usize = 0;
            while next < count && (placed[next] || !task_is_ready(&self.tasks, &placed, next))
                invariant
                    next <= count,
                    count == self.tasks.len(),
                    model == self.tasks.deep_view(),
                    placed.len() == count,
                    forall|i: int| 0 <= i < next ==> placed[i] || !is_ready(model, placed@, i),
                decreases count - next,
            {
                next += 1;
            }
            if next == count {
                proof {
                    lemma_stuck_has_no_schedule(model, placed@, positions(order@));
                }
                return None;
            }
            let ghost before = order@;
            let ghost placed_before = placed@;
            placed.set(next, true);
            order.push(next);
            proof {
                let after = positions(order@);
                assert forall|i: int| 0 <= i < count && placed[i] implies after.contains(i) by {
                    if i == next {
                        assert(after[before.len() as int] == i);
                    } else {
                        let k = choose|k: int|
                            0 <= k < positions(before).len() && positions(before)[k] == i;
                        assert(after[k] == i);
                    }
                }
                assert forall|a: int, b: int|
                    0 <= a < after.len() && 0 <= b < after.len() && a != b implies after[a]
                    != after[b] by {
                    if a < before.len() && b < before.len() {
                        assert(positions(before)[a] != positions(before)[b]);
                    }
                }
                assert forall|a: int, j: int|
                    0 <= a < order.len() && depends_on(model, order[a] as int, j) implies exists|
                    b: int,
                | 0 <= b < a && order[b] == j by {
                    if a == before.len() {
                        assert(placed_before[j]);
                        let b = choose|b: int|
                            0 <= b < positions(before).len() && positions(before)[b] == j;
                        assert(order[b] == j);
                    } else {
                        let b = choose|b: int| 0 <= b < a && before[b] == j;
                        assert(order[b] == j);
                    }
                }
            }
        }
        proof {
            let found = positions(order@);
            assert forall|a: int, b: int|
                0 <= a < found.len() && 0 <= b < found.len() && depends_on(
                    model,
                    found[a],
                    found[b],
                ) implies b < a by {
                let c = choose|c: int| 0 <= c < a && order[c] == found[b];
                if c != b {
                    assert(found[c] == found[b]);
                }
            }
            assert(is_schedule(model, found));
        }
        Some(order)
    }
}

} // verus!
