//! The lists a task can belong to, and their stored names.

use vstd::prelude::*;
use crate::text::str_equal;

verus! {

/// One of the lists that hold tasks.
#[derive(Debug, Clone, Copy, PartialEq, Eq, Structural)]
pub enum TaskList {
    Urgent,
    Daily,
    Weekly,
    Backlog,
}

/// The stored name of each list.
pub open spec fn list_name(list: TaskList) -> Seq<char> {
    match list {
        TaskList::Urgent => "urgent"@,
        TaskList::Daily => "daily"@,
        TaskList::Weekly => "weekly"@,
        TaskList::Backlog => "backlog"@,
    }
}

/// The list whose stored name is `s`, if any.
pub open spec fn list_named(s: Seq<char>) -> Option<TaskList> {
    if s == "urgent"@ {
        Some(TaskList::Urgent)
    } else if s == "daily"@ {
        Some(TaskList::Daily)
    } else if s == "weekly"@ {
        Some(TaskList::Weekly)
    } else if s == "backlog"@ {
        Some(TaskList::Backlog)
    } else {
        None
    }
}

/// Message returned for a name that is not a list.
pub open spec fn invalid_list_message(s: Seq<char>) -> Seq<char> {
    "invalid task list: "@ + s
}

/// Reading back the stored name of a list gives that list, and no two lists
/// share a name.
pub proof fn lemma_list_name_round_trip(list: TaskList)
    ensures
        list_named(list_name(list)) == Some(list),
{
    reveal_strlit("urgent");
    reveal_strlit("daily");
    reveal_strlit("weekly");
    reveal_strlit("backlog");
    assert("daily"@.len() != "urgent"@.len());
    assert("weekly"@[0] != "urgent"@[0]);
    assert("weekly"@.len() != "daily"@.len());
    assert("backlog"@.len() != "urgent"@.len());
    assert("backlog"@.len() != "daily"@.len());
    assert("backlog"@.len() != "weekly"@.len());
}

impl TaskList {
    /// The stored name of the list.
    pub fn as_str(self) -> (s: &'static str)
        ensures
            s@ == list_name(self),
    {
        match self {
            TaskList::Urgent => "urgent",
            TaskList::Daily => "daily",
            TaskList::Weekly => "weekly",
            TaskList::Backlog => "backlog",
        }
    }

    /// The list stored under the name `s`; any other name is refused.
    pub fn parse(s: &str) -> (res: Result<TaskList, String>)
        ensures
            res is Ok <==> list_named(s@) is Some,
            res matches Ok(l) ==> list_named(s@) == Some(l),
            res matches Err(e) ==> e@ == invalid_list_message(s@),
    {
        if str_equal(s, "urgent") {
            Ok(TaskList::Urgent)
        } else if str_equal(s, "daily") {
            Ok(TaskList::Daily)
        } else if str_equal(s, "weekly") {
            Ok(TaskList::Weekly)
        } else if str_equal(s, "backlog") {
            Ok(TaskList::Backlog)
        } else {
            let mut msg = String::from_str("invalid task list: ");
            msg.append(s);
            Err(msg)
        }
    }
}

} // verus!
