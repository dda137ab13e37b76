use vstd::prelude::*;

use radkit::errors::AgentError;

use crate::artifact::{build_plan_artifact, PlanArtifact, PLAN_ARTIFACT_NAME};
use crate::skill::{
    completion_message, completion_text, generating_message, generating_text,
    GenerateOnboardingPlanSkill, Outcome, UserProfile, LOOKUP_MESSAGE, MISSING_PROFILE_MESSAGE,
    USER_DATA_KEY,
};

verus! {

/// Where one invocation stands. Each phase after `Start` waits for the result
/// of the action that led into it.
#[derive(Debug)]
pub enum Phase {
    Start,
    LookupAnnounced,
    LoadingProfile,
    TasksAnnounced { name: String },
    Generating { name: String },
    Done,
}

/// What the runtime reports back to the invocation.
#[derive(Debug)]
pub enum Event {
    /// The request arrived.
    Begin,
    /// The progress channel accepted the last update.
    UpdateSent,
    /// The session state was read under the profile key.
    ProfileLoaded { profile: Option<UserProfile> },
    /// The model-backed function returned its ordered tasks.
    TasksGenerated { tasks: Vec<String> },
    /// The last action failed in the runtime.
    Fault { error: AgentError },
}

/// What the runtime is asked to do next.
#[derive(Debug)]
pub enum Action {
    /// Emit a progress update and report `UpdateSent` once the channel took it.
    SendUpdate { text: String },
    /// Read the session state under `key` and report `ProfileLoaded`.
    LoadProfile { key: String },
    /// Invoke the model-backed function on `input` and report `TasksGenerated`.
    RunModel { input: String },
    /// Return this terminal outcome to the caller.
    Finish { outcome: Outcome },
    /// Return this error to the caller as a hard invocation error.
    Propagate { error: AgentError },
}

/// The events that a phase waits for; a finished invocation takes none.
pub open spec fn expects(p: Phase, e: Event) -> bool {
    match p {
        Phase::Start => e is Begin,
        Phase::LookupAnnounced => e is UpdateSent || e is Fault,
        Phase::LoadingProfile => e is ProfileLoaded || e is Fault,
        Phase::TasksAnnounced { .. } => e is UpdateSent || e is Fault,
        Phase::Generating { .. } => e is TasksGenerated || e is Fault,
        Phase::Done => false,
    }
}

/// `a` completes the invocation with a message for `name` and the one plan
/// artifact that carries `tasks`.
pub open spec fn completes(a: Action, name: Seq<char>, tasks: Seq<String>) -> bool {
    &&& a matches Action::Finish { outcome }
    &&& outcome matches Outcome::Completed { message, artifacts }
    &&& message matches Some(m)
    &&& m@ == completion_text(name)
    &&& artifacts@.len() == 1
    &&& artifacts@[0].name@ == PLAN_ARTIFACT_NAME@
    &&& artifacts@[0].tasks@ == tasks
}

/// `a` fails the invocation because the session holds no profile.
pub open spec fn fails_missing(a: Action) -> bool {
    &&& a matches Action::Finish { outcome }
    &&& outcome matches Outcome::Failed { error }
    &&& error@ == MISSING_PROFILE_MESSAGE@
}

/// One step of an invocation for `role`: from phase `p`, event `e` leads to
/// phase `q` and action `a`.
pub open spec fn transition(role: Seq<char>, p: Phase, e: Event, q: Phase, a: Action) -> bool {
    match e {
        Event::Fault { error } => q is Done && a == (Action::Propagate { error }),
        _ => match p {
            Phase::Start => {
                &&& q is LookupAnnounced
                &&& a matches Action::SendUpdate { text }
                &&& text@ == LOOKUP_MESSAGE@
            },
            Phase::LookupAnnounced => {
                &&& q is LoadingProfile
                &&& a matches Action::LoadProfile { key }
                &&& key@ == USER_DATA_KEY@
            },
            Phase::LoadingProfile => match e {
                Event::ProfileLoaded { profile: None } => q is Done && fails_missing(a),
                Event::ProfileLoaded { profile: Some(u) } => {
                    &&& q matches Phase::TasksAnnounced { name }
                    &&& name@ == u.name@
                    &&& a matches Action::SendUpdate { text }
                    &&& text@ == generating_text(role)
                },
                _ => false,
            },
            Phase::TasksAnnounced { name } => {
                &&& q matches Phase::Generating { name: next }
                &&& next@ == name@
                &&& a matches Action::RunModel { input }
                &&& input@ == role
            },
            Phase::Generating { name } => match e {
                Event::TasksGenerated { tasks } => q is Done && completes(a, name@, tasks@),
                _ => false,
            },
            Phase::Done => false,
        },
    }
}

/// The action that ends an invocation for `name` once the plan artifact was
/// built, or its build failed.
pub fn finish_plan(name: &str, built: Result<PlanArtifact, AgentError>) -> (a: Action)
    ensures
        match built {
            Ok(p) => a matches Action::Finish { outcome } && outcome matches Outcome::Completed {
                message,
                artifacts,
            } && message matches Some(m) && m@ == completion_text(name@) && artifacts@ == seq![p],
            Err(error) => a == (Action::Propagate { error }),
        },
{
    match built {
        Ok(p) => {
            let artifacts = vec![p];
            Action::Finish {
                outcome: Outcome::Completed { message: Some(completion_message(name)), artifacts },
            }
        },
        Err(error) => Action::Propagate { error },
    }
}

/// One invocation of the skill, driven by the runtime event by event.
pub struct Invocation {
    pub role: String,
    pub phase: Phase,
}

impl Invocation {
    pub fn new(skill: &GenerateOnboardingPlanSkill) -> (r: Self)
        ensures
            r.role@ == skill.role@,
            r.phase is Start,
    {
        Invocation { role: skill.role.clone(), phase: Phase::Start }
    }

    pub fn accepts(&self, event: &Event) -> (r: bool)
        ensures
            r == expects(self.phase, *event),
    {
        match self.phase {
            Phase::Start => matches!(event, Event::Begin),
            Phase::LookupAnnounced => matches!(event, Event::UpdateSent | Event::Fault { .. }),
            Phase::LoadingProfile => matches!(event, Event::ProfileLoaded { .. } | Event::Fault { .. }),
            Phase::TasksAnnounced { .. } => matches!(event, Event::UpdateSent | Event::Fault { .. }),
            Phase::Generating { .. } => matches!(event, Event::TasksGenerated { .. } | Event::Fault { .. }),
            Phase::Done => false,
        }
    }

    pub fn is_done(&self) -> (r: bool)
        ensures
            r == self.phase is Done,
    {
        matches!(self.phase, Phase::Done)
    }

    /// Takes the runtime's report on the last action and says what to do next.
    pub fn handle(&mut self, event: Event) -> (a: Action)
        requires
            expects(old(self).phase, event),
        ensures
            transition(old(self).role@, old(self).phase, event, final(self).phase, a),
            final(self).role == old(self).role,
    {
        let mut prev = Phase::Done;
        std::mem::swap(&mut self.phase, &mut prev);
        match event {
            Event::Fault { error } => Action::Propagate { error },
            Event::Begin => {
                self.phase = Phase::LookupAnnounced;
                Action::SendUpdate { text: LOOKUP_MESSAGE.to_owned() }
            },
            Event::UpdateSent => match prev {
                Phase::LookupAnnounced => {
                    self.phase = Phase::LoadingProfile;
                    Action::LoadProfile { key: USER_DATA_KEY.to_owned() }
                },
                Phase::TasksAnnounced { name } => {
                    self.phase = Phase::Generating { name };
                    Action::RunModel { input: self.role.clone() }
                },
                // ruled out by `expects`
                _ => Action::SendUpdate { text: LOOKUP_MESSAGE.to_owned() },
            },
            Event::ProfileLoaded { profile } => match profile {
                None => Action::Finish {
                    outcome: Outcome::Failed { error: MISSING_PROFILE_MESSAGE.to_owned() },
                },
                Some(user) => {
                    self.phase = Phase::TasksAnnounced { name: user.name };
                    Action::SendUpdate { text: generating_message(self.role.as_str()) }
                },
            },
            Event::TasksGenerated { tasks } => match prev {
                Phase::Generating { name } => finish_plan(name.as_str(), build_plan_artifact(tasks)),
                // ruled out by `expects`
                _ => Action::SendUpdate { text: LOOKUP_MESSAGE.to_owned() },
            },
        }
    }
}

} // verus!
