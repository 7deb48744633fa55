use backend::error::AppError;
use backend::routes::jobs::{plan_milestones, validate_create_job, MilestonePlan};
use backend::routes::milestones::release_milestone_status;
use backend::services::judge::judge_api_url;

#[test]
fn create_job_requires_title() {
    assert_eq!(validate_create_job(""), Err(AppError::BadRequest("title is required".to_string())));
    assert_eq!(validate_create_job("Logo design"), Ok(()));
}

#[test]
fn milestones_split_budget_evenly() {
    let plans = plan_milestones(1000, 3);
    assert_eq!(
        plans,
        vec![
            MilestonePlan { index: 0, title: "Milestone 1".to_string(), amount_usdc: 333 },
            MilestonePlan { index: 1, title: "Milestone 2".to_string(), amount_usdc: 333 },
            MilestonePlan { index: 2, title: "Milestone 3".to_string(), amount_usdc: 333 },
        ]
    );
}

#[test]
fn milestone_titles_count_from_one() {
    let plans = plan_milestones(120, 12);
    assert_eq!(plans.len(), 12);
    assert_eq!(plans[9].title, "Milestone 10");
    assert_eq!(plans[11].title, "Milestone 12");
    assert!(plans.iter().all(|p| p.amount_usdc == 10));
}

#[test]
fn milestones_round_toward_zero() {
    let plans = plan_milestones(-7, 2);
    assert_eq!(plans[0].amount_usdc, -7 / 2);
    assert_eq!(plans[0].amount_usdc, -3);
    let plans = plan_milestones(i64::MIN, 1);
    assert_eq!(plans[0].amount_usdc, i64::MIN);
    let plans = plan_milestones(i64::MAX, 2);
    assert_eq!(plans[1].amount_usdc, i64::MAX / 2);
}

#[test]
fn no_milestones_when_count_not_positive() {
    assert!(plan_milestones(1000, 0).is_empty());
    assert!(plan_milestones(1000, -4).is_empty());
}

#[test]
fn only_pending_milestones_release() {
    assert_eq!(release_milestone_status("pending"), Ok("released".to_string()));
    let refused = Err(AppError::BadRequest("milestone already released".to_string()));
    assert_eq!(release_milestone_status("released"), refused);
    assert_eq!(release_milestone_status("Pending"), refused);
}

#[test]
fn a_milestone_is_released_once() {
    let next = release_milestone_status("pending").unwrap();
    assert_eq!(
        release_milestone_status(&next),
        Err(AppError::BadRequest("milestone already released".to_string()))
    );
}

#[test]
fn judge_url_from_setting_or_default() {
    assert_eq!(judge_api_url(Some("http://judge:9000/v1".to_string())), "http://judge:9000/v1");
    assert_eq!(judge_api_url(None), "http://localhost:8080/judge");
}
