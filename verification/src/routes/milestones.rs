//! The rule of milestone release: a milestone goes from pending to released, once.
use vstd::prelude::*;

use crate::error::AppError;
use crate::text::text_eq;

verus! {

/// The status of a milestone whose payment has been released.
pub open spec fn released_status() -> Seq<char> {
    "released"@
}

/// Only a pending milestone can be released.
pub open spec fn can_release(status: Seq<char>) -> bool {
    status == "pending"@
}

/// The status a milestone takes when it is released: a pending milestone becomes
/// "released"; any other is refused as already released.
pub fn release_milestone_status(status: &str) -> (r: Result<String, AppError>)
    ensures
        can_release(status@) ==> (r matches Ok(next) && next@ == released_status()),
        !can_release(status@) ==> (r matches Err(AppError::BadRequest(m))
            && m@ == "milestone already released"@),
{
    if text_eq(status, "pending") {
        Ok(String::from_str("released"))
    } else {
        Err(AppError::BadRequest(String::from_str("milestone already released")))
    }
}

/// A milestone is released at most once: the status that a release leaves is one
/// that no later release accepts.
pub proof fn law_release_at_most_once(status: Seq<char>)
    ensures
        can_release(status) ==> !can_release(released_status()),
        !can_release(released_status()),
{
    reveal_strlit("released");
    reveal_strlit("pending");
    assert("released"@.len() != "pending"@.len());
}

} // verus!
