pub mod jobs;
pub mod milestones;
