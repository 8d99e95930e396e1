//! The capability every agent core offers: construction in the discovery
//! state, lifecycle updates, and read access to its identity and memory.

use vstd::prelude::*;

use crate::basic_agents::AgentState;
use crate::large_language_model::Message;

verus! {

pub trait BasicAgentTrait: Sized {
    /// The agent's objective, as a sequence of characters.
    spec fn spec_objective(&self) -> Seq<char>;

    /// The agent's human-readable role.
    spec fn spec_position(&self) -> Seq<char>;

    /// Where the agent stands in its lifecycle.
    spec fn spec_state(&self) -> AgentState;

    /// The conversation memory accumulated so far.
    spec fn spec_memory(&self) -> Seq<Message>;

    fn new(objective: String, position: String) -> (agent: Self)
        ensures
            agent.spec_objective() == objective@,
            agent.spec_position() == position@,
            agent.spec_state() == AgentState::Discovery,
            agent.spec_memory() == Seq::<Message>::empty(),
    ;

    fn update_state(&mut self, new_state: AgentState)
        ensures
            final(self).spec_state() == new_state,
            final(self).spec_objective() == old(self).spec_objective(),
            final(self).spec_position() == old(self).spec_position(),
            final(self).spec_memory() == old(self).spec_memory(),
    ;

    fn get_objective(&self) -> (objective: &String)
        ensures
            objective@ == self.spec_objective(),
    ;

    fn get_position(&self) -> (position: &String)
        ensures
            position@ == self.spec_position(),
    ;

    fn get_state(&self) -> (state: &AgentState)
        ensures
            *state == self.spec_state(),
    ;

    fn get_memory(&self) -> (memory: &Vec<Message>)
        ensures
            memory@ == self.spec_memory(),
    ;
}

} // verus!
