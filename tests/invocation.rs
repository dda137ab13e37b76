use onboarding_plan::{
    build_plan_artifact, completion_message, generating_message, Action, Event,
    GenerateOnboardingPlanSkill, Invocation, Outcome, Phase, PlanArtifact, UserProfile, DEFAULT_ROLE,
    LOOKUP_MESSAGE, MISSING_PROFILE_MESSAGE, PLAN_ARTIFACT_NAME, USER_DATA_KEY,
};
use base64::engine::general_purpose::STANDARD;
use base64::Engine;
use radkit::errors::AgentError;
use radkit::models::{ContentPart, DataSource};

fn tasks() -> Vec<String> {
    vec![
        "Set up the development machine".to_string(),
        "Read the architecture notes".to_string(),
        "Meet the team".to_string(),
    ]
}

fn model_error() -> AgentError {
    AgentError::LlmProvider { provider: "anthropic".to_string(), message: "unavailable".to_string() }
}

/// Drives one invocation the way a runtime does: every update is accepted, the
/// session answers `profile`, and the model answers `generated`.
fn drive(
    skill: &GenerateOnboardingPlanSkill,
    profile: Option<&str>,
    generated: Result<Vec<String>, AgentError>,
) -> Vec<Action> {
    let mut inv = Invocation::new(skill);
    let mut actions = Vec::new();
    let mut event = Event::Begin;
    let mut generated = Some(generated);
    loop {
        assert!(inv.accepts(&event));
        let action = inv.handle(event);
        event = match &action {
            Action::SendUpdate { .. } => Event::UpdateSent,
            Action::LoadProfile { .. } => Event::ProfileLoaded {
                profile: profile.map(|n| UserProfile { name: n.to_string() }),
            },
            Action::RunModel { .. } => match generated.take().unwrap() {
                Ok(tasks) => Event::TasksGenerated { tasks },
                Err(error) => Event::Fault { error },
            },
            Action::Finish { .. } | Action::Propagate { .. } => {
                actions.push(action);
                break;
            },
        };
        actions.push(action);
    }
    assert!(inv.is_done());
    actions
}

fn updates(actions: &[Action]) -> Vec<String> {
    actions
        .iter()
        .filter_map(|a| match a {
            Action::SendUpdate { text } => Some(text.clone()),
            _ => None,
        })
        .collect()
}

fn model_calls(actions: &[Action]) -> usize {
    actions.iter().filter(|a| matches!(a, Action::RunModel { .. })).count()
}

#[test]
fn profile_present_completes_with_plan() {
    let actions = drive(&GenerateOnboardingPlanSkill::new(), Some("Alex"), Ok(tasks()));
    match actions.last().unwrap() {
        Action::Finish { outcome: Outcome::Completed { message, artifacts } } => {
            assert_eq!(message.as_deref(), Some("Onboarding plan generated for Alex."));
            assert_eq!(artifacts.len(), 1);
            assert_eq!(artifacts[0].name, "onboarding_plan.json");
            assert_eq!(artifacts[0].tasks, tasks());
        },
        other => panic!("unexpected final action {:?}", other),
    }
}

#[test]
fn empty_session_fails() {
    let actions = drive(&GenerateOnboardingPlanSkill::new(), None, Ok(tasks()));
    match actions.last().unwrap() {
        Action::Finish { outcome: Outcome::Failed { error } } => {
            assert_eq!(error, "Could not find a summarized resume in the current session.");
        },
        other => panic!("unexpected final action {:?}", other),
    }
}

#[test]
fn empty_session_calls_no_model_and_builds_no_artifact() {
    let actions = drive(&GenerateOnboardingPlanSkill::new(), None, Ok(tasks()));
    assert_eq!(actions.len(), 3);
    assert_eq!(model_calls(&actions), 0);
    assert!(!actions
        .iter()
        .any(|a| matches!(a, Action::Finish { outcome: Outcome::Completed { .. } })));
    assert!(matches!(&actions[1], Action::LoadProfile { key } if key == "user_data"));
}

#[test]
fn profile_present_calls_model_once_after_two_updates() {
    let actions = drive(&GenerateOnboardingPlanSkill::new(), Some("Alex"), Ok(tasks()));
    assert_eq!(actions.len(), 5);
    assert_eq!(model_calls(&actions), 1);
    assert!(matches!(&actions[0], Action::SendUpdate { text } if text == "Looking for user profile..."));
    assert!(matches!(&actions[1], Action::LoadProfile { key } if key == USER_DATA_KEY));
    assert!(matches!(
        &actions[2],
        Action::SendUpdate { text } if text == "Generating onboarding tasks for Software Engineer role..."
    ));
    assert!(matches!(&actions[3], Action::RunModel { input } if input == "Software Engineer"));
}

#[test]
fn updates_come_in_emission_order_once_each() {
    let actions = drive(&GenerateOnboardingPlanSkill::new(), Some("Alex"), Ok(tasks()));
    assert_eq!(
        updates(&actions),
        vec![
            LOOKUP_MESSAGE.to_string(),
            "Generating onboarding tasks for Software Engineer role...".to_string()
        ]
    );
    let missing = drive(&GenerateOnboardingPlanSkill::new(), None, Ok(tasks()));
    assert_eq!(updates(&missing), vec![LOOKUP_MESSAGE.to_string()]);
}

#[test]
fn model_failure_propagates_without_outcome() {
    let actions = drive(&GenerateOnboardingPlanSkill::new(), Some("Alex"), Err(model_error()));
    assert_eq!(actions.len(), 5);
    assert!(!actions.iter().any(|a| matches!(a, Action::Finish { .. })));
    match actions.last().unwrap() {
        Action::Propagate { error: AgentError::LlmProvider { provider, message } } => {
            assert_eq!(provider, "anthropic");
            assert_eq!(message, "unavailable");
        },
        other => panic!("unexpected final action {:?}", other),
    }
}

#[test]
fn update_fault_ends_invocation() {
    let mut inv = Invocation::new(&GenerateOnboardingPlanSkill::new());
    inv.handle(Event::Begin);
    let error = AgentError::ContextError("channel closed".to_string());
    let fault = Event::Fault { error };
    assert!(inv.accepts(&fault));
    let action = inv.handle(fault);
    assert!(matches!(action, Action::Propagate { error: AgentError::ContextError(ref m) } if m == "channel closed"));
    assert!(inv.is_done());
    assert!(!inv.accepts(&Event::UpdateSent));
}

#[test]
fn configured_role_is_announced_and_sent_to_model() {
    let skill = GenerateOnboardingPlanSkill::with_role("Data Analyst".to_string());
    assert_eq!(skill.role(), "Data Analyst");
    let actions = drive(&skill, Some("Sam"), Ok(vec![]));
    assert!(matches!(
        &actions[2],
        Action::SendUpdate { text } if text == "Generating onboarding tasks for Data Analyst role..."
    ));
    assert!(matches!(&actions[3], Action::RunModel { input } if input == "Data Analyst"));
    match actions.last().unwrap() {
        Action::Finish { outcome: Outcome::Completed { message, artifacts } } => {
            assert_eq!(message.as_deref(), Some("Onboarding plan generated for Sam."));
            assert!(artifacts[0].tasks.is_empty());
        },
        other => panic!("unexpected final action {:?}", other),
    }
}

#[test]
fn default_role_is_software_engineer() {
    assert_eq!(GenerateOnboardingPlanSkill::new().role(), DEFAULT_ROLE);
    assert_eq!(DEFAULT_ROLE, "Software Engineer");
}

#[test]
fn phases_follow_the_events() {
    let mut inv = Invocation::new(&GenerateOnboardingPlanSkill::new());
    assert!(matches!(inv.phase, Phase::Start));
    assert!(!inv.accepts(&Event::UpdateSent));
    inv.handle(Event::Begin);
    assert!(matches!(inv.phase, Phase::LookupAnnounced));
    inv.handle(Event::UpdateSent);
    assert!(matches!(inv.phase, Phase::LoadingProfile));
    inv.handle(Event::ProfileLoaded { profile: Some(UserProfile { name: "Alex".to_string() }) });
    assert!(matches!(&inv.phase, Phase::TasksAnnounced { name } if name == "Alex"));
    inv.handle(Event::UpdateSent);
    assert!(matches!(&inv.phase, Phase::Generating { name } if name == "Alex"));
    assert!(!inv.accepts(&Event::UpdateSent));
}

#[test]
fn messages_are_spelt_out() {
    assert_eq!(generating_message("Designer"), "Generating onboarding tasks for Designer role...");
    assert_eq!(completion_message("Alex"), "Onboarding plan generated for Alex.");
    assert_eq!(completion_message(""), "Onboarding plan generated for .");
    assert_eq!(MISSING_PROFILE_MESSAGE, "Could not find a summarized resume in the current session.");
}

#[test]
fn plan_artifact_is_named_and_keeps_task_order() {
    let plan = build_plan_artifact(tasks()).unwrap();
    assert_eq!(plan.name, PLAN_ARTIFACT_NAME);
    assert_eq!(plan.artifact.name(), "onboarding_plan.json");
    assert_eq!(plan.tasks, tasks());
}

/// The tasks held in the JSON payload of the radkit artifact, decoded.
fn payload_tasks(plan: &PlanArtifact) -> Vec<String> {
    let parts = plan.artifact.content().parts();
    assert_eq!(parts.len(), 1);
    match &parts[0] {
        ContentPart::Data(data) => {
            assert_eq!(data.content_type, "application/json");
            assert_eq!(data.name.as_deref(), Some("onboarding_plan.json"));
            match &data.source {
                DataSource::Base64(encoded) => {
                    let bytes = STANDARD.decode(encoded).unwrap();
                    serde_json::from_slice(&bytes).unwrap()
                },
                DataSource::Uri(_) => panic!("plan payload is not inline"),
            }
        },
        _ => panic!("plan payload is not a data part"),
    }
}

#[test]
fn plan_payload_round_trips_through_json() {
    let plan = build_plan_artifact(tasks()).unwrap();
    assert_eq!(payload_tasks(&plan), tasks());
    let odd = vec!["quote \" and \\ slash".to_string(), "tab\tnew\nline".to_string()];
    let plan = build_plan_artifact(odd.clone()).unwrap();
    assert_eq!(payload_tasks(&plan), odd);
    let empty = build_plan_artifact(vec![]).unwrap();
    assert!(payload_tasks(&empty).is_empty());
}

#[test]
fn completed_outcome_payload_is_the_model_answer() {
    let actions = drive(&GenerateOnboardingPlanSkill::new(), Some("Alex"), Ok(tasks()));
    match actions.last().unwrap() {
        Action::Finish { outcome: Outcome::Completed { artifacts, .. } } => {
            assert_eq!(payload_tasks(&artifacts[0]), tasks());
        },
        other => panic!("unexpected final action {:?}", other),
    }
}
