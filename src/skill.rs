use vstd::prelude::*;

use crate::artifact::PlanArtifact;

verus! {

/// Session-state key under which an upstream skill stores the summarized profile.
pub const USER_DATA_KEY: &'static str = "user_data";

/// Role that plans are generated for unless the skill is configured otherwise.
pub const DEFAULT_ROLE: &'static str = "Software Engineer";

/// System instruction of the model-backed function that lists onboarding tasks.
pub const SYSTEM_INSTRUCTIONS: &'static str = "Generate a comprehensive list of onboarding tasks for the provided role. Include technical setup, documentation review, and team introductions.";

/// Progress update sent before the session state is consulted.
pub const LOOKUP_MESSAGE: &'static str = "Looking for user profile...";

/// Error of the failed outcome when the session holds no summarized profile.
pub const MISSING_PROFILE_MESSAGE: &'static str = "Could not find a summarized resume in the current session.";

/// Text of the progress update that announces task generation for `role`.
pub open spec fn generating_text(role: Seq<char>) -> Seq<char> {
    "Generating onboarding tasks for "@ + role + " role..."@
}

/// Text of the completion message for the user called `name`.
pub open spec fn completion_text(name: Seq<char>) -> Seq<char> {
    "Onboarding plan generated for "@ + name + "."@
}

pub fn generating_message(role: &str) -> (r: String)
    ensures
        r@ == generating_text(role@),
{
    let s = "Generating onboarding tasks for ".to_owned();
    let s = s.concat(role);
    s.concat(" role...")
}

pub fn completion_message(name: &str) -> (r: String)
    ensures
        r@ == completion_text(name@),
{
    let s = "Onboarding plan generated for ".to_owned();
    let s = s.concat(name);
    s.concat(".")
}

/// The part of the summarized profile that this skill reads.
#[derive(Debug)]
pub struct UserProfile {
    pub name: String,
}

/// The single terminal result of one invocation.
#[derive(Debug)]
pub enum Outcome {
    Completed { message: Option<String>, artifacts: Vec<PlanArtifact> },
    Failed { error: String },
}

/// Configuration of the onboarding-plan skill: the role that plans are made for.
pub struct GenerateOnboardingPlanSkill {
    pub role: String,
}

impl GenerateOnboardingPlanSkill {
    pub fn new() -> (r: Self)
        ensures
            r.role@ == DEFAULT_ROLE@,
    {
        GenerateOnboardingPlanSkill { role: DEFAULT_ROLE.to_owned() }
    }

    pub fn with_role(role: String) -> (r: Self)
        ensures
            r.role@ == role@,
    {
        GenerateOnboardingPlanSkill { role }
    }

    pub fn role(&self) -> (r: &str)
        ensures
            r@ == self.role@,
    {
        self.role.as_str()
    }
}

} // verus!
