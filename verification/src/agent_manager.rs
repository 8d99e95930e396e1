//! The orchestrator. It owns the shared task record and the fixed agent
//! sequence — the planning agent first, the build agent second — and hands
//! the record to each agent in turn until that agent is finished. The
//! driving loop performs the outside work; everything the orchestrator
//! decides is constructed and pinned down here.

use vstd::prelude::*;

use crate::agent_traits::FactSheet;
use crate::backend_agent::BackendDeveloperAgent;
use crate::basic_agent_traits::BasicAgentTrait;
use crate::basic_agents::{AgentState, BasicAgent};
use crate::solution_architect_agent::SolutionArchitect;

verus! {

/// The orchestrator: the shared task record and the fixed, ordered agent
/// configuration of one run.
#[derive(Debug)]
pub struct AgentManager {
    pub attributes: BasicAgent,
    pub factsheet: FactSheet,
    pub architect: SolutionArchitect,
    pub builder: BackendDeveloperAgent,
}

impl AgentManager {
    /// Sets up one run: a task record holding nothing but the derived
    /// project description, and both agents fresh in their discovery state.
    pub fn new(project_description: String) -> (manager: Self)
        ensures
            manager.factsheet.project_description == Some(project_description),
            manager.factsheet.project_scope is None,
            manager.factsheet.external_urls is None,
            manager.factsheet.backend_code is None,
            manager.factsheet.api_enpoint_scheme is None,
            manager.architect.attributes.state == AgentState::Discovery,
            manager.architect.attributes.position@ == "Solution Architect"@,
            manager.builder.attributes.state == AgentState::Discovery,
            manager.builder.attributes.position@ == "Backend Developer"@,
            manager.builder.bug_count == 0,
            manager.builder.bug_error is None,
            manager.attributes.position@ == "Managing Agent"@,
            manager.attributes.state == AgentState::Discovery,
    {
        let attributes = BasicAgent::new(
            "Manage all the agents who are building excellent website for the user".to_owned(),
            "Managing Agent".to_owned(),
        );

        let factsheet = FactSheet {
            project_description: Some(project_description),
            project_scope: None,
            external_urls: None,
            backend_code: None,
            api_enpoint_scheme: None,
        };

        AgentManager {
            attributes,
            factsheet,
            architect: SolutionArchitect::new(),
            builder: BackendDeveloperAgent::new(),
        }
    }

    /// Whether every agent of the fixed sequence has finished — the run is
    /// over and the task record holds everything it will ever hold.
    pub fn pipeline_finished(&self) -> (finished: bool)
        ensures
            finished == (self.architect.attributes.state == AgentState::Finished
                && self.builder.attributes.state == AgentState::Finished),
    {
        self.architect.attributes.state == AgentState::Finished
            && self.builder.attributes.state == AgentState::Finished
    }
}

} // verus!
