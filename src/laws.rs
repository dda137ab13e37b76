use vstd::prelude::*;

use crate::machine::{completes, expects, fails_missing, transition, Action, Event, Phase};
use crate::skill::{generating_text, LOOKUP_MESSAGE, USER_DATA_KEY};

verus! {

/// An invocation for `role` that received `events` went through `phases` and
/// asked for `actions`: each event was one the current phase waits for, and
/// each step follows `transition`.
pub open spec fn run(
    role: Seq<char>,
    events: Seq<Event>,
    phases: Seq<Phase>,
    actions: Seq<Action>,
) -> bool {
    &&& phases.len() == events.len() + 1
    &&& actions.len() == events.len()
    &&& phases[0] is Start
    &&& forall|i: int|
        0 <= i < events.len() ==> expects(phases[i], #[trigger] events[i]) && transition(
            role,
            phases[i],
            events[i],
            phases[i + 1],
            actions[i],
        )
}

/// The session offers no profile: every load that the run saw came back empty.
pub open spec fn profile_absent(events: Seq<Event>) -> bool {
    forall|i: int|
        0 <= i < events.len() ==> (#[trigger] events[i] matches Event::ProfileLoaded { profile }
            ==> profile is None)
}

/// The runtime reported no fault during the run.
pub open spec fn fault_free(events: Seq<Event>) -> bool {
    forall|i: int| 0 <= i < events.len() ==> !(#[trigger] events[i] is Fault)
}

/// The steps of a run, spelt out one position at a time: every run is short,
/// and what happens at each position is fixed by the phase it reaches.
proof fn lemma_run_steps(role: Seq<char>, events: Seq<Event>, phases: Seq<Phase>, actions: Seq<Action>)
    requires
        run(role, events, phases, actions),
    ensures
        events.len() <= 5,
        forall|i: int| 0 <= i < events.len() ==> !(#[trigger] phases[i] is Done),
        forall|i: int|
            0 <= i < events.len() && #[trigger] events[i] is Fault ==> phases[i + 1] is Done
                && actions[i] == (Action::Propagate { error: events[i]->error }),
        events.len() > 0 ==> {
            &&& phases[1] is LookupAnnounced
            &&& actions[0] matches Action::SendUpdate { text }
            &&& text@ == LOOKUP_MESSAGE@
        },
        events.len() > 1 && !(events[1] is Fault) ==> {
            &&& phases[2] is LoadingProfile
            &&& actions[1] matches Action::LoadProfile { key }
            &&& key@ == USER_DATA_KEY@
        },
        events.len() > 2 ==> phases[2] is LoadingProfile && (events[2] is ProfileLoaded
            || events[2] is Fault),
        events.len() > 2 && events[2] is ProfileLoaded && events[2]->profile is None
            ==> phases[3] is Done && fails_missing(actions[2]),
        events.len() > 2 && events[2] is ProfileLoaded && events[2]->profile is Some
            ==> {
            &&& phases[3] matches Phase::TasksAnnounced { name }
            &&& name@ == events[2]->profile->0.name@
            &&& actions[2] matches Action::SendUpdate { text }
            &&& text@ == generating_text(role)
        },
        events.len() > 3 ==> phases[3] is TasksAnnounced,
        events.len() > 3 && !(events[3] is Fault) ==> {
            &&& phases[4] matches Phase::Generating { name }
            &&& name@ == phases[3]->TasksAnnounced_name@
            &&& actions[3] matches Action::RunModel { input }
            &&& input@ == role
        },
        events.len() > 4 ==> phases[4] is Generating,
        events.len() > 4 && !(events[4] is Fault) ==> {
            &&& events[4] matches Event::TasksGenerated { tasks }
            &&& completes(actions[4], phases[4]->Generating_name@, tasks@)
        },
{
    let n = events.len() as int;
    assert forall|i: int| 0 <= i < n implies !(#[trigger] phases[i] is Done) by {
        assert(expects(phases[i], events[i]));
    }
    assert forall|i: int| 0 <= i < n && #[trigger] events[i] is Fault implies phases[i + 1] is Done
        && actions[i] == (Action::Propagate { error: events[i]->error }) by {
        assert(transition(role, phases[i], events[i], phases[i + 1], actions[i]));
    }
    if n > 0 {
        assert(expects(phases[0], events[0]));
        assert(transition(role, phases[0], events[0], phases[1], actions[0]));
    }
    if n > 1 {
        assert(expects(phases[1], events[1]));
        assert(transition(role, phases[1], events[1], phases[2], actions[1]));
    }
    if n > 2 {
        assert(expects(phases[2], events[2]));
        assert(transition(role, phases[2], events[2], phases[3], actions[2]));
    }
    if n > 3 {
        assert(expects(phases[3], events[3]));
        assert(transition(role, phases[3], events[3], phases[4], actions[3]));
    }
    if n > 4 {
        assert(expects(phases[4], events[4]));
        assert(transition(role, phases[4], events[4], phases[5], actions[4]));
    }
    if n > 5 {
        assert(expects(phases[5], events[5]));
    }
}

} // verus!

verus! {

/// Without a profile in the session the invocation never calls the model and
/// never completes: the only outcome it can return is the failure that names the
/// missing resume, and a fault-free invocation does return it, after announcing
/// the lookup and reading the profile key.
pub proof fn missing_profile_fails(
    role: Seq<char>,
    events: Seq<Event>,
    phases: Seq<Phase>,
    actions: Seq<Action>,
)
    requires
        run(role, events, phases, actions),
        profile_absent(events),
    ensures
        forall|i: int| 0 <= i < actions.len() ==> !(#[trigger] actions[i] is RunModel),
        forall|i: int|
            0 <= i < actions.len() && #[trigger] actions[i] is Finish ==> fails_missing(actions[i]),
        phases.last() is Done && fault_free(events) ==> {
            &&& actions.len() == 3
            &&& fails_missing(actions[2])
        },
{
    lemma_run_steps(role, events, phases, actions);
    if events.len() > 2 {
        assert(events[2] matches Event::ProfileLoaded { profile } ==> profile is None);
    }
    if phases.last() is Done && fault_free(events) {
        if events.len() == 2 {
            assert(!(events[1] is Fault));
        }
    }
}

/// With a profile in the session and no fault reported, a finished invocation
/// announces the lookup, reads the profile key, announces the generation for its
/// role, calls the model once on that role, and completes with the one plan
/// for the tasks returned and a message for the profile's name.
pub proof fn present_profile_runs_model_once(
    role: Seq<char>,
    events: Seq<Event>,
    phases: Seq<Phase>,
    actions: Seq<Action>,
    k: int,
)
    requires
        run(role, events, phases, actions),
        0 <= k < events.len(),
        events[k] matches Event::ProfileLoaded { profile } && profile is Some,
        fault_free(events),
        phases.last() is Done,
    ensures
        actions.len() == 5,
        actions[0] matches Action::SendUpdate { text } && text@ == LOOKUP_MESSAGE@,
        actions[1] matches Action::LoadProfile { key } && key@ == USER_DATA_KEY@,
        actions[2] matches Action::SendUpdate { text } && text@ == generating_text(role),
        actions[3] matches Action::RunModel { input } && input@ == role,
        events[2] matches Event::ProfileLoaded { profile } && profile matches Some(u)
            && events[4] matches Event::TasksGenerated { tasks } && completes(
            actions[4],
            u.name@,
            tasks@,
        ),
{
    lemma_run_steps(role, events, phases, actions);
    assert(!(events[k] is Fault));
    let n = events.len() as int;
    if n == 2 {
        assert(!(events[1] is Fault));
    }
    if n == 3 {
        assert(events[2] matches Event::ProfileLoaded { profile } && profile is Some);
    }
    if n == 4 {
        assert(!(events[3] is Fault));
    }
    assert(!(events[4] is Fault));
}

/// The progress updates of an invocation are the lookup announcement, first,
/// and then the generation announcement for its role, each at most once: none
/// other is emitted and neither comes twice or out of order.
pub proof fn updates_in_order(
    role: Seq<char>,
    events: Seq<Event>,
    phases: Seq<Phase>,
    actions: Seq<Action>,
)
    requires
        run(role, events, phases, actions),
    ensures
        forall|i: int|
            0 <= i < actions.len() ==> (#[trigger] actions[i] matches Action::SendUpdate { text }
                ==> (i == 0 && text@ == LOOKUP_MESSAGE@) || (i == 2 && text@ == generating_text(
                role,
            ))),
{
    lemma_run_steps(role, events, phases, actions);
}

/// A fault reported by the runtime, among them a failed call of the
/// model-backed function, ends the invocation: it is handed back unchanged as
/// the last action, and no terminal outcome of either shape is produced.
pub proof fn fault_propagates(
    role: Seq<char>,
    events: Seq<Event>,
    phases: Seq<Phase>,
    actions: Seq<Action>,
    k: int,
)
    requires
        run(role, events, phases, actions),
        0 <= k < events.len(),
        events[k] is Fault,
    ensures
        actions[k] == (Action::Propagate { error: events[k]->error }),
        k == events.len() - 1,
        forall|i: int| 0 <= i < actions.len() ==> !(#[trigger] actions[i] is Finish),
{
    lemma_run_steps(role, events, phases, actions);
    assert(phases[k + 1] is Done);
    assert forall|i: int| 0 <= i < actions.len() implies !(#[trigger] actions[i] is Finish) by {
        if i < k {
            assert(!(phases[i + 1] is Done));
        }
    }
}

/// A completed outcome answers the tasks that the model-backed function
/// returned in that step: one artifact, named for the plan, carrying those
/// tasks in their order, with a message for the profile that was loaded.
pub proof fn completed_carries_plan(
    role: Seq<char>,
    events: Seq<Event>,
    phases: Seq<Phase>,
    actions: Seq<Action>,
    k: int,
)
    requires
        run(role, events, phases, actions),
        0 <= k < actions.len(),
        actions[k] matches Action::Finish { outcome } && outcome is Completed,
    ensures
        k == 4,
        events[2] matches Event::ProfileLoaded { profile } && profile matches Some(u)
            && events[4] matches Event::TasksGenerated { tasks } && completes(
            actions[4],
            u.name@,
            tasks@,
        ),
{
    lemma_run_steps(role, events, phases, actions);
    assert(!(events[k] is Fault));
    if k == 2 {
        assert(events[2] matches Event::ProfileLoaded { profile } && profile is None);
    }
    assert(phases[3] matches Phase::TasksAnnounced { name } && name@ == events[2]->profile->0.name@);
}

} // verus!
