//! The build agent. It stores freshly generated code, decides between a
//! generic improvement pass and a targeted bug-fix pass, drives the bounded
//! build-repair loop (three build attempts in total, then fatal), filters
//! the extracted endpoint inventory down to non-dynamic `"get"` routes, and
//! classifies every endpoint probe outcome.

use vstd::prelude::*;

use crate::agent_traits::{
    builder_writes_only, FactSheet, FormattedRouteObject, FormattedRouteObjectView,
};
use crate::basic_agent_traits::BasicAgentTrait;
use crate::basic_agents::{same_identity, AgentState, BasicAgent};
use crate::common::ProbeOutcome;

verus! {

/// Which pass the build agent requests from the model while in its working
/// state: a generic improvement of the current code, or a targeted fix
/// driven by the last captured build error.
#[derive(Debug, PartialEq, Eq, Structural, Clone, Copy)]
pub enum CodePass {
    Improve,
    FixBugs,
}

/// What one build attempt means for the run: carry on with unit testing,
/// go back to the working state for another repair pass, or give up — the
/// retry ceiling is exhausted and the process must abort.
#[derive(Debug, PartialEq, Eq, Structural, Clone, Copy)]
pub enum BuildVerdict {
    Proceed,
    Retry,
    Fatal,
}

/// How to react to one endpoint probe. A status of 200 passes; any other
/// status is only worth a warning; a transport-level error additionally
/// tears down the server under test. None of them stops the probe loop —
/// so after a transport error the remaining endpoints are probed against a
/// server that is no longer running. That asymmetry looks like a defect,
/// but it is the behavior the pipeline has always had, kept on purpose.
#[derive(Debug, PartialEq, Eq, Structural, Clone, Copy)]
pub enum ProbeAction {
    Pass,
    Warn,
    KillServer,
}

/// One build attempt as a transition on the retry counter: a success resets
/// the counter and proceeds; a failure bumps it and retries, unless that
/// would be the fourth attempt — then the verdict is fatal and the agent
/// stays where it is (the process aborts before any further step).
pub open spec fn spec_build_transition(bug_count: int, success: bool) -> (int, AgentState, BuildVerdict) {
    if success {
        (0, AgentState::UnitTesting, BuildVerdict::Proceed)
    } else if bug_count + 1 > 2 {
        (bug_count + 1, AgentState::UnitTesting, BuildVerdict::Fatal)
    } else {
        (bug_count + 1, AgentState::Working, BuildVerdict::Retry)
    }
}

/// Whether a route descriptor survives the endpoint filter: its method is
/// exactly the string `"get"` (case-sensitive) and its route is not dynamic
/// (the dynamic flag is exactly the string `"false"`).
pub open spec fn spec_keep_route(route_obj: FormattedRouteObjectView) -> bool {
    route_obj.method == "get"@ && route_obj.is_route_dynamic == "false"@
}

/// The endpoint inventory after filtering: exactly the descriptors with a
/// `"get"` method and a non-dynamic route, in their original order.
pub open spec fn spec_kept_routes(routes: Seq<FormattedRouteObjectView>) -> Seq<
    FormattedRouteObjectView,
>
    decreases routes.len(),
{
    if routes.len() == 0 {
        Seq::empty()
    } else {
        let rest = spec_kept_routes(routes.drop_last());
        if spec_keep_route(routes.last()) {
            rest.push(routes.last())
        } else {
            rest
        }
    }
}

/// How the build agent reacts to one probe outcome.
pub open spec fn spec_probe_action(outcome: ProbeOutcome) -> ProbeAction {
    match outcome {
        ProbeOutcome::Status(code) => if code == 200 {
            ProbeAction::Pass
        } else {
            ProbeAction::Warn
        },
        ProbeOutcome::TransportError => ProbeAction::KillServer,
    }
}

/// The build agent: generates and repairs backend code, builds it, and
/// validates the extracted endpoint inventory against the running artifact.
#[derive(Debug)]
pub struct BackendDeveloperAgent {
    pub attributes: BasicAgent,
    pub bug_error: Option<String>,
    pub bug_count: u8,
}

impl BackendDeveloperAgent {
    pub fn new() -> (agent: Self)
        ensures
            agent.attributes.objective@
                == "Develop Backend code for webserver and json database"@,
            agent.attributes.position@ == "Backend Developer"@,
            agent.attributes.state == AgentState::Discovery,
            agent.attributes.memory@ == Seq::<crate::large_language_model::Message>::empty(),
            agent.bug_error is None,
            agent.bug_count == 0,
    {
        Self {
            attributes: BasicAgent::new(
                "Develop Backend code for webserver and json database".to_owned(),
                "Backend Developer".to_owned(),
            ),
            bug_error: None,
            bug_count: 0,
        }
    }

    /// Read access to the agent's identity and lifecycle state, for whoever
    /// drives it.
    pub fn get_attributes(&self) -> (attributes: &BasicAgent)
        ensures
            attributes == &self.attributes,
    {
        &self.attributes
    }

    /// Discovery work: store the code generated from the template and the
    /// project description, and move on to the working state.
    pub fn apply_initial_backend_code(&mut self, factsheet: &mut FactSheet, backend_code: String)
        requires
            old(self).attributes.state == AgentState::Discovery,
        ensures
            final(factsheet).backend_code == Some(backend_code),
            final(self).attributes.state == AgentState::Working,
            builder_writes_only(*old(factsheet), *final(factsheet)),
            final(factsheet).api_enpoint_scheme == old(factsheet).api_enpoint_scheme,
            same_identity(old(self).attributes, final(self).attributes),
            final(self).bug_count == old(self).bug_count,
            final(self).bug_error == old(self).bug_error,
    {
        factsheet.backend_code = Some(backend_code);
        self.attributes.update_state(AgentState::Working);
    }

    /// Which pass the working state asks of the model: a generic
    /// improvement when no build has failed yet, a targeted bug fix
    /// otherwise.
    pub fn working_pass_kind(&self) -> (pass: CodePass)
        ensures
            pass == if self.bug_count == 0 {
                CodePass::Improve
            } else {
                CodePass::FixBugs
            },
    {
        if self.bug_count == 0 {
            CodePass::Improve
        } else {
            CodePass::FixBugs
        }
    }

    /// Working-state work: store the improved or repaired code — it always
    /// replaces the previous attempt — and move on to unit testing.
    pub fn apply_working_code(&mut self, factsheet: &mut FactSheet, backend_code: String)
        requires
            old(self).attributes.state == AgentState::Working,
        ensures
            final(factsheet).backend_code == Some(backend_code),
            final(self).attributes.state == AgentState::UnitTesting,
            builder_writes_only(*old(factsheet), *final(factsheet)),
            final(factsheet).api_enpoint_scheme == old(factsheet).api_enpoint_scheme,
            same_identity(old(self).attributes, final(self).attributes),
            final(self).bug_count == old(self).bug_count,
            final(self).bug_error == old(self).bug_error,
    {
        factsheet.backend_code = Some(backend_code);
        self.attributes.update_state(AgentState::UnitTesting);
    }

    /// One build attempt. On success the retry counter is reset and unit
    /// testing proceeds; on failure the tool's diagnostic output is captured
    /// and the agent goes back to the working state — unless this was the
    /// third failed attempt, which is fatal: the caller must abort the run.
    pub fn apply_build_result(&mut self, build_result: Result<(), String>) -> (verdict:
        BuildVerdict)
        requires
            old(self).attributes.state == AgentState::UnitTesting,
            old(self).bug_count < 3,
        ensures
            ({
                let (bug_count, state, expected) = spec_build_transition(
                    old(self).bug_count as int,
                    build_result is Ok,
                );
                &&& final(self).bug_count as int == bug_count
                &&& final(self).attributes.state == state
                &&& verdict == expected
            }),
            build_result matches Err(diagnostic) ==> final(self).bug_error == Some(diagnostic),
            build_result is Ok ==> final(self).bug_error == old(self).bug_error,
            same_identity(old(self).attributes, final(self).attributes),
    {
        match build_result {
            Ok(()) => {
                self.bug_count = 0;
                BuildVerdict::Proceed
            },
            Err(diagnostic) => {
                self.bug_count = self.bug_count + 1;
                self.bug_error = Some(diagnostic);
                if self.bug_count > 2 {
                    BuildVerdict::Fatal
                } else {
                    self.attributes.update_state(AgentState::Working);
                    BuildVerdict::Retry
                }
            },
        }
    }

    /// After a successful build: store the extracted endpoint inventory,
    /// keeping only the descriptors with a `"get"` method and a non-dynamic
    /// route, in their original order.
    pub fn apply_endpoint_schema(
        &mut self,
        factsheet: &mut FactSheet,
        routes: &Vec<FormattedRouteObject>,
    )
        requires
            old(self).attributes.state == AgentState::UnitTesting,
        ensures
            final(factsheet).api_enpoint_scheme matches Some(kept) && kept.deep_view()
                == spec_kept_routes(routes.deep_view()),
            final(factsheet).backend_code == old(factsheet).backend_code,
            builder_writes_only(*old(factsheet), *final(factsheet)),
            final(self).attributes.state == AgentState::UnitTesting,
            same_identity(old(self).attributes, final(self).attributes),
            final(self).bug_count == old(self).bug_count,
            final(self).bug_error == old(self).bug_error,
    {
        let kept = filter_route_objects(routes);
        factsheet.api_enpoint_scheme = Some(kept);
    }

    /// The last unit-testing step: everything validated and persisted, the
    /// agent is finished.
    pub fn complete_unit_testing(&mut self)
        requires
            old(self).attributes.state == AgentState::UnitTesting,
        ensures
            final(self).attributes.state == AgentState::Finished,
            same_identity(old(self).attributes, final(self).attributes),
            final(self).bug_count == old(self).bug_count,
            final(self).bug_error == old(self).bug_error,
    {
        self.attributes.update_state(AgentState::Finished);
    }
}

/// How to react to one endpoint probe: a non-200 status is logged and the
/// loop continues; a transport error tears down the server under test, yet
/// the loop still continues to the next endpoint.
pub fn probe_action(outcome: &ProbeOutcome) -> (action: ProbeAction)
    ensures
        action == spec_probe_action(*outcome),
{
    match outcome {
        ProbeOutcome::Status(code) => if *code == 200 {
            ProbeAction::Pass
        } else {
            ProbeAction::Warn
        },
        ProbeOutcome::TransportError => ProbeAction::KillServer,
    }
}

/// Order-preserving filter of an endpoint inventory: keeps exactly the
/// descriptors whose method is `"get"` and whose route is not dynamic.
pub fn filter_route_objects(routes: &Vec<FormattedRouteObject>) -> (kept: Vec<
    FormattedRouteObject,
>)
    ensures
        kept.deep_view() == spec_kept_routes(routes.deep_view()),
{
    let get_method: String = "get".to_owned();
    let not_dynamic: String = "false".to_owned();

    let mut kept: Vec<FormattedRouteObject> = Vec::new();
    let mut i: usize = 0;
    while i < routes.len()
        invariant
            i <= routes@.len(),
            kept.deep_view() == spec_kept_routes(routes.deep_view().take(i as int)),
            get_method@ == "get"@,
            not_dynamic@ == "false"@,
        decreases routes@.len() - i,
    {
        let ghost prev = kept.deep_view();
        let keep_it = routes[i].method == get_method && routes[i].is_route_dynamic == not_dynamic;
        if keep_it {
            kept.push(routes[i].clone());
        }
        proof {
            let r = routes.deep_view();
            assert(r.take(i + 1).drop_last() =~= r.take(i as int));
            assert(r.take(i + 1).last() == routes@[i as int]@);
            if keep_it {
                assert(kept.deep_view() =~= prev.push(routes@[i as int]@));
            }
        }
        i += 1;
    }
    proof {
        assert(routes.deep_view().take(routes@.len() as int) =~= routes.deep_view());
    }
    kept
}

/// The build-retry policy over a whole unit-testing phase. A build-tool
/// failure on the first and second attempt followed by a success on the
/// third leaves the retry counter at zero and lets unit testing proceed (it
/// then ends with `complete_unit_testing`, which leaves the agent
/// finished). A failure on all three attempts is fatal: the run aborts with
/// the agent still in unit testing, so it never reaches the finished state.
pub proof fn lemma_build_retry_policy()
    ensures
        ({
            let (count1, state1, verdict1) = spec_build_transition(0, false);
            let (count2, state2, verdict2) = spec_build_transition(count1, false);
            let (count3, state3, verdict3) = spec_build_transition(count2, true);
            &&& verdict1 == BuildVerdict::Retry && state1 == AgentState::Working
            &&& verdict2 == BuildVerdict::Retry && state2 == AgentState::Working
            &&& verdict3 == BuildVerdict::Proceed && count3 == 0
        }),
        ({
            let (count1, state1, verdict1) = spec_build_transition(0, false);
            let (count2, state2, verdict2) = spec_build_transition(count1, false);
            let (count3, state3, verdict3) = spec_build_transition(count2, false);
            &&& verdict3 == BuildVerdict::Fatal
            &&& state3 != AgentState::Finished
        }),
{
}

} // verus!
