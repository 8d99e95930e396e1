//! The shared task record threaded through every agent, the structured
//! project scope, and the endpoint descriptors extracted from generated
//! code. The write-discipline predicates at the bottom pin down which agent
//! may touch which field of the record, and the lemmas prove that over a
//! whole run each field has at most one writer.

use vstd::prelude::*;

verus! {

/// Structured capability flags of the target service, derived by the
/// planning agent from the project description.
#[derive(Debug, Clone, Copy, PartialEq, Eq, Structural)]
pub struct ProjectScope {
    pub is_crud_required: bool,
    pub is_user_login_and_logout: bool,
    pub is_external_urls_required: bool,
}

/// One route descriptor of the endpoint inventory extracted from generated
/// code. The response and request-body shapes are carried through as raw
/// JSON text; the library only ever reads the route, the method and the
/// dynamic flag.
#[derive(Debug, PartialEq)]
pub struct FormattedRouteObject {
    pub route: String,
    pub is_route_dynamic: String,
    pub method: String,
    pub response: String,
    pub request_body: String,
}

/// The mathematical value of a route descriptor: each field as its sequence
/// of characters.
pub struct FormattedRouteObjectView {
    pub route: Seq<char>,
    pub is_route_dynamic: Seq<char>,
    pub method: Seq<char>,
    pub response: Seq<char>,
    pub request_body: Seq<char>,
}

impl View for FormattedRouteObject {
    type V = FormattedRouteObjectView;

    open spec fn view(&self) -> FormattedRouteObjectView {
        FormattedRouteObjectView {
            route: self.route@,
            is_route_dynamic: self.is_route_dynamic@,
            method: self.method@,
            response: self.response@,
            request_body: self.request_body@,
        }
    }
}

impl DeepView for FormattedRouteObject {
    type V = FormattedRouteObjectView;

    open spec fn deep_view(&self) -> FormattedRouteObjectView {
        self.view()
    }
}

impl Clone for FormattedRouteObject {
    fn clone(&self) -> (cloned: Self)
        ensures
            cloned@ == self@,
    {
        FormattedRouteObject {
            route: self.route.clone(),
            is_route_dynamic: self.is_route_dynamic.clone(),
            method: self.method.clone(),
            response: self.response.clone(),
            request_body: self.request_body.clone(),
        }
    }
}

/// The shared task record: one mutable document owned by the orchestrator
/// and handed in turn to each agent, accumulating everything the run
/// produces.
#[derive(Debug, Clone, PartialEq)]
pub struct FactSheet {
    pub project_description: Option<String>,
    pub project_scope: Option<ProjectScope>,
    pub external_urls: Option<Vec<String>>,
    pub backend_code: Option<String>,
    pub api_enpoint_scheme: Option<Vec<FormattedRouteObject>>,
}

/// What the planning agent may do to the task record: write its own two
/// fields (scope and external URLs) and nothing else.
pub open spec fn planner_writes_only(pre: FactSheet, post: FactSheet) -> bool {
    &&& post.project_description == pre.project_description
    &&& post.backend_code == pre.backend_code
    &&& post.api_enpoint_scheme == pre.api_enpoint_scheme
}

/// What the build agent may do to the task record: write its own two fields
/// (generated code and endpoint schema) and nothing else.
pub open spec fn builder_writes_only(pre: FactSheet, post: FactSheet) -> bool {
    &&& post.project_description == pre.project_description
    &&& post.project_scope == pre.project_scope
    &&& post.external_urls == pre.external_urls
}

/// The planning agent's write discipline composes: any two planning phases
/// in a row still leave every field outside the planner's own untouched.
pub proof fn lemma_planner_writes_compose(f0: FactSheet, f1: FactSheet, f2: FactSheet)
    requires
        planner_writes_only(f0, f1),
        planner_writes_only(f1, f2),
    ensures
        planner_writes_only(f0, f2),
{
}

/// The build agent's write discipline composes as well.
pub proof fn lemma_builder_writes_compose(f0: FactSheet, f1: FactSheet, f2: FactSheet)
    requires
        builder_writes_only(f0, f1),
        builder_writes_only(f1, f2),
    ensures
        builder_writes_only(f0, f2),
{
}

/// Each field of the task record is written by at most one agent type
/// across a full run. A run sets the description at record creation, then
/// lets the planning agent work (`f0` to `f1`), then the build agent (`f1`
/// to `f2`): the description survives the whole run untouched, the
/// planner's fields are exactly what the planning phase left, and the
/// builder's fields were never touched before the building phase began.
pub proof fn lemma_single_writer_per_field(f0: FactSheet, f1: FactSheet, f2: FactSheet)
    requires
        planner_writes_only(f0, f1),
        builder_writes_only(f1, f2),
    ensures
        f2.project_description == f0.project_description,
        f2.project_scope == f1.project_scope,
        f2.external_urls == f1.external_urls,
        f1.backend_code == f0.backend_code,
        f1.api_enpoint_scheme == f0.api_enpoint_scheme,
{
}

} // verus!
