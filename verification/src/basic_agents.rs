//! The generic agent core shared by every concrete agent: a role, an
//! objective, a conversation memory, and the four-state lifecycle that the
//! orchestrator drives until the agent reports itself finished.

use vstd::prelude::*;

use crate::basic_agent_traits::BasicAgentTrait;
use crate::large_language_model::Message;

verus! {

/// Lifecycle of an agent. Every agent starts in `Discovery` and is discarded
/// once it reaches `Finished`; the orchestrator keeps invoking an agent's
/// work unit until that happens.
#[derive(Debug, PartialEq, Eq, Structural, Clone, Copy)]
pub enum AgentState {
    Discovery,
    Working,
    UnitTesting,
    Finished,
}

/// Identity and lifecycle position of one agent.
#[derive(Debug)]
pub struct BasicAgent {
    pub objective: String,
    pub position: String,
    pub state: AgentState,
    pub memory: Vec<Message>,
}

/// A step of an agent may move its lifecycle state, but never changes who
/// the agent is: objective, position and memory stay as they were.
pub open spec fn same_identity(pre: BasicAgent, post: BasicAgent) -> bool {
    &&& post.objective@ == pre.objective@
    &&& post.position@ == pre.position@
    &&& post.memory@ == pre.memory@
}

impl BasicAgentTrait for BasicAgent {
    open spec fn spec_objective(&self) -> Seq<char> {
        self.objective@
    }

    open spec fn spec_position(&self) -> Seq<char> {
        self.position@
    }

    open spec fn spec_state(&self) -> AgentState {
        self.state
    }

    open spec fn spec_memory(&self) -> Seq<Message> {
        self.memory@
    }

    fn new(objective: String, position: String) -> Self {
        Self { objective, position, memory: Vec::new(), state: AgentState::Discovery }
    }

    fn update_state(&mut self, new_state: AgentState) {
        self.state = new_state;
    }

    fn get_objective(&self) -> &String {
        &self.objective
    }

    fn get_position(&self) -> &String {
        &self.position
    }

    fn get_state(&self) -> &AgentState {
        &self.state
    }

    fn get_memory(&self) -> &Vec<Message> {
        &self.memory
    }
}

} // verus!
