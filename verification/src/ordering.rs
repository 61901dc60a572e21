//! Ordering of the active tasks of a list.
//!
//! Active tasks are shown by descending position. Moving a task to a new
//! index places it between two neighbours; when their positions are too close
//! the positions of the whole list are rebalanced to `n, n - 1, ..., 1` and
//! the move is tried again, a bounded number of times.

use vstd::prelude::*;

verus! {

/// How many times a move loads the active tasks before it gives up.
pub const MAX_MOVE_ATTEMPTS: u32 = 3;

/// Number of entries of `s[..j]` other than `id`.
pub open spec fn count_others(s: Seq<i64>, id: i64, j: int) -> int
    decreases j,
{
    if j <= 0 {
        0
    } else {
        count_others(s, id, j - 1) + if s[j - 1] != id {
            1int
        } else {
            0int
        }
    }
}

/// Number of entries of `s` other than `id`.
pub open spec fn others_len(s: Seq<i64>, id: i64) -> int {
    count_others(s, id, s.len() as int)
}

/// Index among the other tasks at which the moved task lands: the requested
/// index, clamped to the end of the list.
pub open spec fn target_rank(s: Seq<i64>, id: i64, new_index: int) -> int {
    if new_index <= others_len(s, id) {
        new_index
    } else {
        others_len(s, id)
    }
}

/// `s[j]` is the `k`-th entry (from 0) of `s` other than `id`.
pub open spec fn is_other_at(s: Seq<i64>, id: i64, j: int, k: int) -> bool {
    0 <= j < s.len() && s[j] != id && count_others(s, id, j) == k
}

proof fn lemma_count_others_bounds(s: Seq<i64>, id: i64, j: int)
    requires
        0 <= j <= s.len(),
    ensures
        0 <= count_others(s, id, j) <= j,
    decreases j,
{
    if j > 0 {
        lemma_count_others_bounds(s, id, j - 1);
    }
}

proof fn lemma_count_others_monotone(s: Seq<i64>, id: i64, i: int, j: int)
    requires
        0 <= i <= j <= s.len(),
    ensures
        count_others(s, id, i) <= count_others(s, id, j),
        i < j && s[i] != id ==> count_others(s, id, i) < count_others(s, id, j),
    decreases j - i,
{
    if i < j {
        lemma_count_others_monotone(s, id, i, j - 1);
        if i < j - 1 {
            lemma_count_others_monotone(s, id, i + 1, j - 1);
        }
    }
}

/// The entry other than `id` with a given rank is unique.
pub proof fn lemma_other_at_unique(s: Seq<i64>, id: i64, j1: int, j2: int, k: int)
    requires
        is_other_at(s, id, j1, k),
        is_other_at(s, id, j2, k),
    ensures
        j1 == j2,
{
    if j1 < j2 {
        lemma_count_others_monotone(s, id, j1, j2);
    } else if j2 < j1 {
        lemma_count_others_monotone(s, id, j2, j1);
    }
}

/// Where a moved task goes among the other active tasks: the indices, in the
/// list of active tasks, of the tasks just above and just below it.
#[derive(Debug, Clone, Copy, PartialEq, Eq, Structural)]
pub struct MoveSlot {
    pub before: Option<usize>,
    pub after: Option<usize>,
}

/// The neighbours of task `id` once moved to `new_index` among the active tasks
/// `active_ids` (ordered by descending position), `id` itself left out and the
/// index clamped to the end.
pub fn move_slot(active_ids: &Vec<i64>, id: i64, new_index: usize) -> (slot: MoveSlot)
    ensures
        ({
            let s = active_ids@;
            let idx = target_rank(s, id, new_index as int);
            &&& slot.before is Some <==> idx > 0
            &&& slot.before matches Some(j) ==> is_other_at(s, id, j as int, idx - 1)
            &&& slot.after is Some <==> idx < others_len(s, id)
            &&& slot.after matches Some(j) ==> is_other_at(s, id, j as int, idx)
        }),
{
    let ghost s = active_ids@;
    let n = active_ids.len();
    let mut others: usize = 0;
    let mut j: usize = 0;
    while j < n
        invariant
            n == s.len(),
            s == active_ids@,
            j <= n,
            others == count_others(s, id, j as int),
            others <= j,
        decreases n - j,
    {
        if active_ids[j] != id {
            others = others + 1;
        }
        j = j + 1;
    }
    let idx: usize = if new_index <= others {
        new_index
    } else {
        others
    };
    let mut before: Option<usize> = None;
    let mut after: Option<usize> = None;
    let mut count: usize = 0;
    let mut k: usize = 0;
    while k < n
        invariant
            n == s.len(),
            s == active_ids@,
            k <= n,
            others == others_len(s, id),
            idx <= others,
            count == count_others(s, id, k as int),
            count <= k,
            before is Some <==> (idx > 0 && count >= idx),
            before matches Some(b) ==> is_other_at(s, id, b as int, idx - 1),
            after is Some <==> count > idx,
            after matches Some(a) ==> is_other_at(s, id, a as int, idx as int),
        decreases n - k,
    {
        if active_ids[k] != id {
            if idx > 0 && count == idx - 1 {
                before = Some(k);
            }
            if count == idx {
                after = Some(k);
            }
            count = count + 1;
        }
        k = k + 1;
    }
    MoveSlot { before, after }
}

/// State of a move between attempts.
#[derive(Debug, Clone, Copy, PartialEq, Eq, Structural)]
pub struct MoveProgress {
    /// Attempts made so far.
    pub attempts: u32,
    /// Whether the positions were rebalanced on the way.
    pub rebalanced: bool,
}

/// What the caller does after an attempt placed the task.
#[derive(Debug, Clone, Copy, PartialEq, Eq, Structural)]
pub enum MoveAction {
    /// Store the new position; the move is over.
    Write { rebalanced: bool },
    /// Rebalance the positions of the list and try again.
    RebalanceAndRetry,
    /// Rebalance the positions of the list and give up.
    RebalanceAndFail,
}

/// Message of a move that found no room even after rebalancing.
pub open spec fn move_exhausted_message() -> Seq<char> {
    "failed to assign position after rebalance"@
}

/// Message of a move of a completed task.
pub open spec fn not_active_message() -> Seq<char> {
    "task is not active"@
}

impl MoveProgress {
    /// Whether the progress is one a move can reach.
    pub open spec fn reachable(self) -> bool {
        &&& self.attempts < MAX_MOVE_ATTEMPTS
        &&& self.rebalanced <==> self.attempts > 0
    }

    /// Progress of a move that has not been attempted yet; a completed task
    /// cannot be moved.
    pub fn start(task_done: bool) -> (res: Result<MoveProgress, String>)
        ensures
            res is Ok <==> !task_done,
            res matches Ok(p) ==> p.attempts == 0 && !p.rebalanced && p.reachable(),
            res matches Err(e) ==> e@ == not_active_message(),
    {
        if task_done {
            Err(String::from_str("task is not active"))
        } else {
            Ok(MoveProgress { attempts: 0, rebalanced: false })
        }
    }

    /// Decides what follows an attempt: when the new position is not crowded
    /// by its neighbours it is written; otherwise the list is rebalanced, and
    /// the move is tried again unless `MAX_MOVE_ATTEMPTS` attempts were made.
    pub fn after_attempt(&mut self, crowded: bool) -> (action: MoveAction)
        requires
            old(self).reachable(),
        ensures
            !crowded ==> action == (MoveAction::Write { rebalanced: old(self).rebalanced })
                && *final(self) == *old(self),
            crowded ==> final(self).attempts == old(self).attempts + 1 && final(self).rebalanced,
            crowded && old(self).attempts + 1 < MAX_MOVE_ATTEMPTS ==> action
                == MoveAction::RebalanceAndRetry,
            crowded && old(self).attempts + 1 >= MAX_MOVE_ATTEMPTS ==> action
                == MoveAction::RebalanceAndFail,
            action == MoveAction::RebalanceAndRetry ==> final(self).reachable(),
    {
        if !crowded {
            return MoveAction::Write { rebalanced: self.rebalanced };
        }
        self.attempts = self.attempts + 1;
        self.rebalanced = true;
        if self.attempts < MAX_MOVE_ATTEMPTS {
            MoveAction::RebalanceAndRetry
        } else {
            MoveAction::RebalanceAndFail
        }
    }

    /// Error of a move that gave up.
    pub fn exhausted_error() -> (e: String)
        ensures
            e@ == move_exhausted_message(),
    {
        String::from_str("failed to assign position after rebalance")
    }
}

/// Positions given to the active tasks `ids` (ordered by descending position)
/// by a rebalance: `n` for the first down to `1` for the last.
pub fn rebalanced_positions(ids: &Vec<i64>) -> (assigned: Vec<(i64, u64)>)
    ensures
        assigned@.len() == ids@.len(),
        forall|i: int|
            0 <= i < ids@.len() ==> (#[trigger] assigned@[i]).0 == ids@[i] && assigned@[i].1
                == ids@.len() - i,
{
    let n = ids.len();
    let mut assigned: Vec<(i64, u64)> = Vec::new();
    let mut i: usize = 0;
    while i < n
        invariant
            n == ids@.len(),
            i <= n,
            assigned@.len() == i,
            forall|k: int|
                0 <= k < i ==> (#[trigger] assigned@[k]).0 == ids@[k] && assigned@[k].1 == n
                    - k,
        decreases n - i,
    {
        assigned.push((ids[i], (n - i) as u64));
        i = i + 1;
    }
    assigned
}

/// A rebalance keeps the order of the tasks: positions strictly decrease along
/// the list, the first gets the list's length and the last gets 1.
pub proof fn lemma_rebalance_keeps_order(ids: Seq<i64>, assigned: Seq<(i64, u64)>)
    requires
        assigned.len() == ids.len(),
        forall|i: int|
            0 <= i < ids.len() ==> (#[trigger] assigned[i]).0 == ids[i] && assigned[i].1
                == ids.len() - i,
    ensures
        forall|i: int, j: int|
            0 <= i < j < ids.len() ==> (#[trigger] assigned[i]).1 > (#[trigger] assigned[j]).1,
        forall|i: int| 0 <= i < ids.len() ==> 1 <= (#[trigger] assigned[i]).1 <= ids.len(),
        ids.len() > 0 ==> assigned[0].1 == ids.len() && assigned[ids.len() - 1].1 == 1,
{
}

/// Message of an update or delete that matched no task.
pub open spec fn not_found_message() -> Seq<char> {
    "task not found"@
}

/// An update or delete that changed no row found no task.
pub fn require_changed(changed: usize) -> (res: Result<(), String>)
    ensures
        res is Ok <==> changed > 0,
        res matches Err(e) ==> e@ == not_found_message(),
{
    if changed == 0 {
        Err(String::from_str("task not found"))
    } else {
        Ok(())
    }
}

} // verus!
