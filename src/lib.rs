//! Decision logic of the onboarding-plan skill: a per-invocation state machine
//! that checks the session for a summarized profile, announces its progress,
//! asks a model-backed function for onboarding tasks and shapes the terminal
//! outcome.

mod artifact;
mod laws;
mod machine;
mod skill;

pub use artifact::{build_plan_artifact, PlanArtifact, PLAN_ARTIFACT_NAME};
pub use skill::{
    completion_message, completion_text, generating_message, generating_text,
    GenerateOnboardingPlanSkill, Outcome, UserProfile, DEFAULT_ROLE, LOOKUP_MESSAGE,
    MISSING_PROFILE_MESSAGE, SYSTEM_INSTRUCTIONS, USER_DATA_KEY,
};
pub use machine::{
    completes, expects, fails_missing, finish_plan, transition, Action, Event, Invocation, Phase,
};
pub use laws::{
    completed_carries_plan, fault_free, fault_propagates, missing_profile_fails,
    present_profile_runs_model_once, profile_absent, run, updates_in_order,
};
