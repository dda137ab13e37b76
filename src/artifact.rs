use vstd::prelude::*;

use radkit::agent::Artifact;
use radkit::errors::AgentError;

verus! {

#[verifier::external_type_specification]
#[verifier::external_body]
pub struct ExArtifact(Artifact);

#[verifier::external_type_specification]
#[verifier::external_body]
pub struct ExAgentError(AgentError);

/// Name under which the generated plan is attached to a completed outcome.
pub const PLAN_ARTIFACT_NAME: &'static str = "onboarding_plan.json";

/// The plan attached to a completed outcome: its name, the ordered tasks it
/// carries, and the JSON artifact for them. `build_plan_artifact` builds the
/// artifact from exactly `name` and `tasks`; no contract links the three fields
/// otherwise, so a value assembled by hand may pair them freely.
#[derive(Debug)]
pub struct PlanArtifact {
    pub name: String,
    pub tasks: Vec<String>,
    pub artifact: Artifact,
}

/// Relies on radkit::agent::Artifact::from_json: it serialises `tasks` with
/// serde_json::to_string into an artifact called `name`. Its only error comes
/// from serde_json, which fails only where a `Serialize` impl fails or a map has
/// non-string keys; a sequence of strings has neither, so the call succeeds.
#[verifier::external_body]
fn artifact_from_json(name: &str, tasks: &Vec<String>) -> (r: Result<Artifact, AgentError>)
    ensures
        r is Ok,
{
    Artifact::from_json(name, tasks)
}

/// Wraps the tasks returned by the model-backed function into the single plan
/// artifact. Serialising a sequence of strings cannot fail, so this succeeds.
pub fn build_plan_artifact(tasks: Vec<String>) -> (r: Result<PlanArtifact, AgentError>)
    ensures
        r is Ok,
        r matches Ok(p) ==> p.name@ == PLAN_ARTIFACT_NAME@ && p.tasks@ == tasks@,
{
    match artifact_from_json(PLAN_ARTIFACT_NAME, &tasks) {
        Ok(artifact) => Ok(PlanArtifact { name: PLAN_ARTIFACT_NAME.to_owned(), tasks, artifact }),
        Err(e) => Err(e),
    }
}

} // verus!
