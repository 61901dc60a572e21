//! Upgrades of the `tasks` table: which columns an older table lacks and which
//! steps bring it to the current layout.

use vstd::prelude::*;
use crate::text::str_equal;

verus! {

/// One step of the upgrade of the `tasks` table.
#[derive(Debug, Clone, Copy, PartialEq, Eq, Structural)]
pub enum MigrationStep {
    /// Add the `completed_at` column.
    AddCompletedAt,
    /// Stamp completed tasks that have no completion time.
    BackfillCompletedAt,
    /// Add the `position` column.
    AddPosition,
    /// Give every task its id as position.
    NumberPositions,
    /// Add the `created_at` column.
    AddCreatedAt,
    /// Stamp tasks that have no creation time.
    BackfillCreatedAt,
    /// Add the `list` column.
    AddList,
    /// Put tasks without a list into the urgent list.
    BackfillList,
}

/// Whether one of `columns` is named `name`.
pub open spec fn names_column(columns: Seq<String>, name: Seq<char>) -> bool {
    exists|i: int| 0 <= i < columns.len() && (#[trigger] columns[i])@ == name
}

/// The steps that bring a table to the current layout, given which of the
/// columns `completed_at`, `position`, `created_at` and `list` it has: each
/// missing column is added, and the backfills always run.
pub open spec fn plan_for(
    has_completed_at: bool,
    has_position: bool,
    has_created_at: bool,
    has_list: bool,
) -> Seq<MigrationStep> {
    (if has_completed_at {
        seq![]
    } else {
        seq![MigrationStep::AddCompletedAt]
    }) + seq![MigrationStep::BackfillCompletedAt] + (if has_position {
        seq![]
    } else {
        seq![MigrationStep::AddPosition, MigrationStep::NumberPositions]
    }) + (if has_created_at {
        seq![]
    } else {
        seq![MigrationStep::AddCreatedAt]
    }) + seq![MigrationStep::BackfillCreatedAt] + (if has_list {
        seq![]
    } else {
        seq![MigrationStep::AddList]
    }) + seq![MigrationStep::BackfillList]
}

/// The upgrade plan of a table whose columns are named `columns`.
pub open spec fn plan_for_columns(columns: Seq<String>) -> Seq<MigrationStep> {
    plan_for(
        names_column(columns, "completed_at"@),
        names_column(columns, "position"@),
        names_column(columns, "created_at"@),
        names_column(columns, "list"@),
    )
}

/// Place of each step in the full upgrade of the oldest table.
pub open spec fn step_rank(step: MigrationStep) -> int {
    match step {
        MigrationStep::AddCompletedAt => 0,
        MigrationStep::BackfillCompletedAt => 1,
        MigrationStep::AddPosition => 2,
        MigrationStep::NumberPositions => 3,
        MigrationStep::AddCreatedAt => 4,
        MigrationStep::BackfillCreatedAt => 5,
        MigrationStep::AddList => 6,
        MigrationStep::BackfillList => 7,
    }
}

/// What a plan must do: its steps come in the order of the full upgrade, each
/// at most once; it adds a column exactly when the column is missing; it numbers
/// the positions exactly when it adds the `position` column, right after adding
/// it; and it always runs the three backfills.
pub open spec fn plan_is_sound(
    p: Seq<MigrationStep>,
    has_completed_at: bool,
    has_position: bool,
    has_created_at: bool,
    has_list: bool,
) -> bool {
    &&& forall|i: int, j: int|
        0 <= i < j < p.len() ==> step_rank(#[trigger] p[i]) < step_rank(#[trigger] p[j])
    &&& p.contains(MigrationStep::AddCompletedAt) <==> !has_completed_at
    &&& p.contains(MigrationStep::AddPosition) <==> !has_position
    &&& p.contains(MigrationStep::NumberPositions) <==> !has_position
    &&& p.contains(MigrationStep::AddCreatedAt) <==> !has_created_at
    &&& p.contains(MigrationStep::AddList) <==> !has_list
    &&& p.contains(MigrationStep::BackfillCompletedAt)
    &&& p.contains(MigrationStep::BackfillCreatedAt)
    &&& p.contains(MigrationStep::BackfillList)
    &&& forall|i: int|
        0 <= i < p.len() && #[trigger] p[i] == MigrationStep::AddPosition ==> i + 1 < p.len()
            && p[i + 1] == MigrationStep::NumberPositions
}

/// Every plan is sound, whichever columns the table has.
pub proof fn lemma_plan_is_sound(a: bool, b: bool, c: bool, d: bool)
    ensures
        plan_is_sound(plan_for(a, b, c, d), a, b, c, d),
{
    if a && b && c && d {
        assert(plan_for(a, b, c, d) =~= seq![MigrationStep::BackfillCompletedAt, MigrationStep::BackfillCreatedAt, MigrationStep::BackfillList]);
    }
    if a && b && c && !d {
        assert(plan_for(a, b, c, d) =~= seq![MigrationStep::BackfillCompletedAt, MigrationStep::BackfillCreatedAt, MigrationStep::AddList, MigrationStep::BackfillList]);
    }
    if a && b && !c && d {
        assert(plan_for(a, b, c, d) =~= seq![MigrationStep::BackfillCompletedAt, MigrationStep::AddCreatedAt, MigrationStep::BackfillCreatedAt, MigrationStep::BackfillList]);
    }
    if a && b && !c && !d {
        assert(plan_for(a, b, c, d) =~= seq![MigrationStep::BackfillCompletedAt, MigrationStep::AddCreatedAt, MigrationStep::BackfillCreatedAt, MigrationStep::AddList, MigrationStep::BackfillList]);
    }
    if a && !b && c && d {
        assert(plan_for(a, b, c, d) =~= seq![MigrationStep::BackfillCompletedAt, MigrationStep::AddPosition, MigrationStep::NumberPositions, MigrationStep::BackfillCreatedAt, MigrationStep::BackfillList]);
    }
    if a && !b && c && !d {
        assert(plan_for(a, b, c, d) =~= seq![MigrationStep::BackfillCompletedAt, MigrationStep::AddPosition, MigrationStep::NumberPositions, MigrationStep::BackfillCreatedAt, MigrationStep::AddList, MigrationStep::BackfillList]);
    }
    if a && !b && !c && d {
        assert(plan_for(a, b, c, d) =~= seq![MigrationStep::BackfillCompletedAt, MigrationStep::AddPosition, MigrationStep::NumberPositions, MigrationStep::AddCreatedAt, MigrationStep::BackfillCreatedAt, MigrationStep::BackfillList]);
    }
    if a && !b && !c && !d {
        assert(plan_for(a, b, c, d) =~= seq![MigrationStep::BackfillCompletedAt, MigrationStep::AddPosition, MigrationStep::NumberPositions, MigrationStep::AddCreatedAt, MigrationStep::BackfillCreatedAt, MigrationStep::AddList, MigrationStep::BackfillList]);
    }
    if !a && b && c && d {
        assert(plan_for(a, b, c, d) =~= seq![MigrationStep::AddCompletedAt, MigrationStep::BackfillCompletedAt, MigrationStep::BackfillCreatedAt, MigrationStep::BackfillList]);
    }
    if !a && b && c && !d {
        assert(plan_for(a, b, c, d) =~= seq![MigrationStep::AddCompletedAt, MigrationStep::BackfillCompletedAt, MigrationStep::BackfillCreatedAt, MigrationStep::AddList, MigrationStep::BackfillList]);
    }
    if !a && b && !c && d {
        assert(plan_for(a, b, c, d) =~= seq![MigrationStep::AddCompletedAt, MigrationStep::BackfillCompletedAt, MigrationStep::AddCreatedAt, MigrationStep::BackfillCreatedAt, MigrationStep::BackfillList]);
    }
    if !a && b && !c && !d {
        assert(plan_for(a, b, c, d) =~= seq![MigrationStep::AddCompletedAt, MigrationStep::BackfillCompletedAt, MigrationStep::AddCreatedAt, MigrationStep::BackfillCreatedAt, MigrationStep::AddList, MigrationStep::BackfillList]);
    }
    if !a && !b && c && d {
        assert(plan_for(a, b, c, d) =~= seq![MigrationStep::AddCompletedAt, MigrationStep::BackfillCompletedAt, MigrationStep::AddPosition, MigrationStep::NumberPositions, MigrationStep::BackfillCreatedAt, MigrationStep::BackfillList]);
    }
    if !a && !b && c && !d {
        assert(plan_for(a, b, c, d) =~= seq![MigrationStep::AddCompletedAt, MigrationStep::BackfillCompletedAt, MigrationStep::AddPosition, MigrationStep::NumberPositions, MigrationStep::BackfillCreatedAt, MigrationStep::AddList, MigrationStep::BackfillList]);
    }
    if !a && !b && !c && d {
        assert(plan_for(a, b, c, d) =~= seq![MigrationStep::AddCompletedAt, MigrationStep::BackfillCompletedAt, MigrationStep::AddPosition, MigrationStep::NumberPositions, MigrationStep::AddCreatedAt, MigrationStep::BackfillCreatedAt, MigrationStep::BackfillList]);
    }
    if !a && !b && !c && !d {
        assert(plan_for(a, b, c, d) =~= seq![MigrationStep::AddCompletedAt, MigrationStep::BackfillCompletedAt, MigrationStep::AddPosition, MigrationStep::NumberPositions, MigrationStep::AddCreatedAt, MigrationStep::BackfillCreatedAt, MigrationStep::AddList, MigrationStep::BackfillList]);
    }
}

/// Whether one of `columns` is named `name`.
pub fn has_column(columns: &Vec<String>, name: &str) -> (r: bool)
    ensures
        r == names_column(columns@, name@),
{
    let n = columns.len();
    let mut i: usize = 0;
    while i < n
        invariant
            n == columns@.len(),
            i <= n,
            forall|j: int| 0 <= j < i ==> (#[trigger] columns@[j])@ != name@,
        decreases n - i,
    {
        if str_equal(columns[i].as_str(), name) {
            return true;
        }
        i = i + 1;
    }
    false
}

/// The steps that upgrade a table whose columns are named `columns`.
pub fn migration_plan(columns: &Vec<String>) -> (plan: Vec<MigrationStep>)
    ensures
        plan@ == plan_for_columns(columns@),
        plan_is_sound(
            plan@,
            names_column(columns@, "completed_at"@),
            names_column(columns@, "position"@),
            names_column(columns@, "created_at"@),
            names_column(columns@, "list"@),
        ),
{
    let has_completed_at = has_column(columns, "completed_at");
    let has_position = has_column(columns, "position");
    let has_created_at = has_column(columns, "created_at");
    let has_list = has_column(columns, "list");
    let mut plan: Vec<MigrationStep> = Vec::new();
    if !has_completed_at {
        plan.push(MigrationStep::AddCompletedAt);
    }
    plan.push(MigrationStep::BackfillCompletedAt);
    if !has_position {
        plan.push(MigrationStep::AddPosition);
        plan.push(MigrationStep::NumberPositions);
    }
    if !has_created_at {
        plan.push(MigrationStep::AddCreatedAt);
    }
    plan.push(MigrationStep::BackfillCreatedAt);
    if !has_list {
        plan.push(MigrationStep::AddList);
    }
    plan.push(MigrationStep::BackfillList);
    assert(plan@ =~= plan_for(has_completed_at, has_position, has_created_at, has_list));
    proof {
        lemma_plan_is_sound(has_completed_at, has_position, has_created_at, has_list);
    }
    plan
}

/// Whether a step adds a column.
pub open spec fn adds_column(step: MigrationStep) -> bool {
    step is AddCompletedAt || step is AddPosition || step is AddCreatedAt || step is AddList
}

/// A table that has all current columns is only backfilled: upgrading twice
/// adds no column the second time.
pub proof fn lemma_upgraded_table_adds_nothing(columns: Seq<String>)
    requires
        names_column(columns, "completed_at"@),
        names_column(columns, "position"@),
        names_column(columns, "created_at"@),
        names_column(columns, "list"@),
    ensures
        plan_for_columns(columns) == seq![
            MigrationStep::BackfillCompletedAt,
            MigrationStep::BackfillCreatedAt,
            MigrationStep::BackfillList,
        ],
        forall|i: int|
            0 <= i < plan_for_columns(columns).len() ==> !adds_column(
                #[trigger] plan_for_columns(columns)[i],
            ),
{
    assert(plan_for_columns(columns) =~= seq![
        MigrationStep::BackfillCompletedAt,
        MigrationStep::BackfillCreatedAt,
        MigrationStep::BackfillList,
    ]);
}

/// Each missing column is added exactly when it is missing, and the plan
/// always ends by putting list-less tasks into the urgent list.
pub proof fn lemma_plan_adds_missing_columns(a: bool, b: bool, c: bool, d: bool)
    ensures
        plan_for(a, b, c, d).contains(MigrationStep::AddCompletedAt) <==> !a,
        plan_for(a, b, c, d).contains(MigrationStep::AddPosition) <==> !b,
        plan_for(a, b, c, d).contains(MigrationStep::AddCreatedAt) <==> !c,
        plan_for(a, b, c, d).contains(MigrationStep::AddList) <==> !d,
        plan_for(a, b, c, d).last() == MigrationStep::BackfillList,
{
    let p = plan_for(a, b, c, d);
    let len = p.len();
    assert(p.last() == MigrationStep::BackfillList);
    if !a {
        assert(p[0] == MigrationStep::AddCompletedAt);
    }
    if !b {
        let k = (if a { 0int } else { 1int }) + 1;
        assert(p[k] == MigrationStep::AddPosition);
    }
    if !c {
        let k = (if a { 0int } else { 1int }) + 1 + (if b { 0int } else { 2int });
        assert(p[k] == MigrationStep::AddCreatedAt);
    }
    if !d {
        assert(p[len - 2] == MigrationStep::AddList);
    }
}

} // verus!
