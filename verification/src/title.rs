//! Validation of task titles.

use vstd::prelude::*;
use crate::text::{trim, trimmed, is_white_space, lemma_trimmed_shape};

verus! {

/// Message returned for a title that is empty after trimming.
pub open spec fn empty_title_message() -> Seq<char> {
    "title is empty"@
}

/// Trims a task title; a title that is empty after trimming is refused.
pub fn normalize_task_title(title: &str) -> (res: Result<&str, String>)
    ensures
        trimmed(title@).len() > 0 <==> res is Ok,
        res matches Ok(t) ==> t@ == trimmed(title@),
        res matches Err(e) ==> e@ == empty_title_message(),
{
    let trimmed_title = trim(title);
    if trimmed_title.unicode_len() == 0 {
        Err(String::from_str("title is empty"))
    } else {
        Ok(trimmed_title)
    }
}

/// A title that was accepted is accepted again, unchanged: normalizing is
/// idempotent, and an accepted title neither starts nor ends with whitespace.
pub proof fn lemma_normalized_title_is_stable(title: Seq<char>)
    requires
        trimmed(title).len() > 0,
    ensures
        trimmed(trimmed(title)) == trimmed(title),
        !is_white_space(trimmed(title)[0]),
        !is_white_space(trimmed(title).last()),
{
    lemma_trimmed_shape(title);
}

/// A title is refused exactly when it holds only whitespace.
pub proof fn lemma_title_refused_iff_blank(title: Seq<char>)
    ensures
        trimmed(title).len() == 0 <==> forall|i: int|
            0 <= i < title.len() ==> is_white_space(#[trigger] title[i]),
{
    lemma_trimmed_shape(title);
}

} // verus!
