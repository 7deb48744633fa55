//! What the dispute judge answers.
use vstd::prelude::*;

verus! {

/// The judge's ruling on a dispute: the winner ("freelancer", "client" or
/// "split"), the freelancer's share in basis points, and the reasoning.
#[derive(Debug, PartialEq, Eq)]
pub struct JudgeVerdict {
    pub winner: String,
    pub freelancer_share_bps: i32,
    pub reasoning: String,
}

/// Where the judge is reached: the `JUDGE_API_URL` setting where it is set, else the
/// local judge endpoint.
pub fn judge_api_url(setting: Option<String>) -> (u: String)
    ensures
        u@ == match setting {
            Some(s) => s@,
            None => "http://localhost:8080/judge"@,
        },
{
    match setting {
        Some(s) => s,
        None => String::from_str("http://localhost:8080/judge"),
    }
}

} // verus!
