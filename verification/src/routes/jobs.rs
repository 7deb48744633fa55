//! The rules of job creation: what a new job must have, and the milestones it
//! is split into.
use vstd::prelude::*;

use crate::error::AppError;
use crate::text::{decimal_text, push_decimal};

verus! {

/// A new job needs a title.
pub fn validate_create_job(title: &str) -> (r: Result<(), AppError>)
    ensures
        title@.len() == 0 ==> (r matches Err(AppError::BadRequest(m)) && m@ == "title is required"@),
        title@.len() > 0 ==> r == Ok::<(), AppError>(()),
{
    if title.unicode_len() == 0 {
        Err(AppError::BadRequest(String::from_str("title is required")))
    } else {
        Ok(())
    }
}

/// A milestone record to create for a new job.
#[derive(Debug, PartialEq, Eq)]
pub struct MilestonePlan {
    pub index: i32,
    pub title: String,
    pub amount_usdc: i64,
}

/// `budget / count`, rounded toward zero as Rust's integer division does.
pub open spec fn share_per_milestone(budget: int, count: int) -> int {
    if budget >= 0 {
        budget / count
    } else {
        -((-budget) / count)
    }
}

/// "Milestone {n}", numbering milestones from 1.
pub open spec fn milestone_title(index: nat) -> Seq<char> {
    "Milestone "@ + decimal_text(index + 1)
}

fn split_budget(budget: i64, count: i32) -> (r: i64)
    requires
        count > 0,
    ensures
        r as int == share_per_milestone(budget as int, count as int),
{
    let c: u64 = count as u64;
    if budget >= 0 {
        assert((budget as u64 / c) as int <= budget as int) by (nonlinear_arith)
            requires budget >= 0, c >= 1;
        (budget as u64 / c) as i64
    } else {
        let magnitude: u64 = (0i128 - budget as i128) as u64;
        let q: u64 = magnitude / c;
        assert(q as int <= magnitude as int) by (nonlinear_arith)
            requires q == magnitude / c, c >= 1;
        (0i128 - q as i128) as i64
    }
}

/// The milestones of a job with `milestones` of them and `budget_usdc` in all:
/// for each index from 0, titled "Milestone {index + 1}" and worth the budget
/// divided evenly (rounded toward zero). A job with no milestones gets none.
pub fn plan_milestones(budget_usdc: i64, milestones: i32) -> (r: Vec<MilestonePlan>)
    ensures
        r@.len() == if milestones > 0 { milestones as nat } else { 0 },
        forall|i: int| #![trigger r@[i]] 0 <= i < r@.len() ==> {
            &&& r@[i].index == i
            &&& r@[i].title@ == milestone_title(i as nat)
            &&& r@[i].amount_usdc == share_per_milestone(budget_usdc as int, milestones as int)
        },
{
    let mut plans: Vec<MilestonePlan> = Vec::new();
    if milestones <= 0 {
        return plans;
    }
    let amount_per = split_budget(budget_usdc, milestones);
    let mut i: i32 = 0;
    while i < milestones
        invariant
            0 <= i <= milestones,
            amount_per == share_per_milestone(budget_usdc as int, milestones as int),
            plans@.len() == i,
            forall|k: int| #![trigger plans@[k]] 0 <= k < plans@.len() ==> {
                &&& plans@[k].index == k
                &&& plans@[k].title@ == milestone_title(k as nat)
                &&& plans@[k].amount_usdc == amount_per
            },
        decreases milestones - i,
    {
        let mut title = String::from_str("Milestone ");
        push_decimal(&mut title, (i + 1) as u64);
        plans.push(MilestonePlan { index: i, title, amount_usdc: amount_per });
        i = i + 1;
    }
    plans
}

/// The milestones never pay out more than the budget, and what is left over is less
/// than one unit per milestone: for a nonnegative budget,
/// `0 <= budget - share * count < count`.
pub proof fn law_milestones_within_budget(budget: int, count: int)
    requires
        budget >= 0,
        count > 0,
    ensures
        0 <= budget - share_per_milestone(budget, count) * count < count,
{
    assert(0 <= budget - (budget / count) * count < count) by (nonlinear_arith)
        requires budget >= 0, count > 0;
}

} // verus!
