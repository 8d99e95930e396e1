//! Agent pipeline that turns a natural-language request into a backend
//! service: a planning agent derives a project scope and validates external
//! dependency URLs, a build agent generates code, drives a bounded
//! build-repair loop, and validates the extracted HTTP endpoint inventory,
//! and an orchestrator runs the agents in a fixed order over one shared
//! task record.
//!
//! Every call to an outside collaborator (language model, HTTP probe, build
//! tool, file store, user confirmation) is performed by the surrounding
//! program; the functions here take each collaborator's result as an
//! argument and make the verified decision that drives the state machines.

pub mod agent_manager;
pub mod agent_traits;
pub mod ai_functions;
pub mod backend_agent;
pub mod basic_agent_traits;
pub mod basic_agents;
pub mod command_line;
pub mod common;
pub mod large_language_model;
pub mod solution_architect_agent;
