//! The registry of model tasks: each task the pipeline delegates to the
//! language model is named here, mapped to a static prompt template and to
//! the shape its answer is expected to decode into.

use vstd::prelude::*;

verus! {

/// Every task the pipeline hands to the model.
#[derive(Debug, PartialEq, Eq, Structural, Clone, Copy)]
pub enum AiFunction {
    ConvertUserInputToGoal,
    PrintProjectScope,
    PrintSiteUrls,
    PrintBackendWebserverCode,
    PrintImprovedWebserverCode,
    PrintFixedCode,
    PrintRestApiEndpoints,
}

/// The shape a task's answer is expected to decode into.
#[derive(Debug, PartialEq, Eq, Structural, Clone, Copy)]
pub enum OutputShape {
    PlainText,
    JsonProjectScope,
    JsonUrlList,
    JsonRouteList,
}

impl AiFunction {
    /// The prompt template the model is shown for one kind of request.
    pub open spec fn spec_template(&self) -> Seq<char> {
        match self {
            AiFunction::ConvertUserInputToGoal => "fn convert_user_input_to_goal(user_request: &str) -> String: takes a user request and rewrites it as a concise goal for a backend web service."@,
            AiFunction::PrintProjectScope => "fn print_project_scope(project_description: &str) -> ProjectScope: takes a project description and prints a JSON object with the boolean fields is_crud_required, is_user_login_and_logout and is_external_urls_required."@,
            AiFunction::PrintSiteUrls => "fn print_site_urls(project_description: &str) -> Vec<String>: takes a project description and prints a JSON array of external URLs the service will depend on."@,
            AiFunction::PrintBackendWebserverCode => "fn print_backend_webserver_code(code_template_and_description: &str) -> String: takes a code template and a project description and prints complete backend webserver code."@,
            AiFunction::PrintImprovedWebserverCode => "fn print_improved_webserver_code(code_and_description: &str) -> String: takes backend code and a project description and prints an improved version of the code."@,
            AiFunction::PrintFixedCode => "fn print_fixed_code(broken_code_and_errors: &str) -> String: takes broken backend code and its build errors and prints the corrected code, nothing else."@,
            AiFunction::PrintRestApiEndpoints => "fn print_rest_api_endpoints(code_input: &str) -> String: takes backend code and prints a JSON array of its route objects with the fields route, is_route_dynamic, method, response and request_body."@,
        }
    }

    /// The shape the model's answer decodes into.
    pub open spec fn spec_output_shape(&self) -> OutputShape {
        match self {
            AiFunction::ConvertUserInputToGoal => OutputShape::PlainText,
            AiFunction::PrintProjectScope => OutputShape::JsonProjectScope,
            AiFunction::PrintSiteUrls => OutputShape::JsonUrlList,
            AiFunction::PrintBackendWebserverCode => OutputShape::PlainText,
            AiFunction::PrintImprovedWebserverCode => OutputShape::PlainText,
            AiFunction::PrintFixedCode => OutputShape::PlainText,
            AiFunction::PrintRestApiEndpoints => OutputShape::JsonRouteList,
        }
    }

    pub fn template(&self) -> (template: &'static str)
        ensures
            template@ == self.spec_template(),
    {
        match self {
            AiFunction::ConvertUserInputToGoal => "fn convert_user_input_to_goal(user_request: &str) -> String: takes a user request and rewrites it as a concise goal for a backend web service.",
            AiFunction::PrintProjectScope => "fn print_project_scope(project_description: &str) -> ProjectScope: takes a project description and prints a JSON object with the boolean fields is_crud_required, is_user_login_and_logout and is_external_urls_required.",
            AiFunction::PrintSiteUrls => "fn print_site_urls(project_description: &str) -> Vec<String>: takes a project description and prints a JSON array of external URLs the service will depend on.",
            AiFunction::PrintBackendWebserverCode => "fn print_backend_webserver_code(code_template_and_description: &str) -> String: takes a code template and a project description and prints complete backend webserver code.",
            AiFunction::PrintImprovedWebserverCode => "fn print_improved_webserver_code(code_and_description: &str) -> String: takes backend code and a project description and prints an improved version of the code.",
            AiFunction::PrintFixedCode => "fn print_fixed_code(broken_code_and_errors: &str) -> String: takes broken backend code and its build errors and prints the corrected code, nothing else.",
            AiFunction::PrintRestApiEndpoints => "fn print_rest_api_endpoints(code_input: &str) -> String: takes backend code and prints a JSON array of its route objects with the fields route, is_route_dynamic, method, response and request_body.",
        }
    }

    pub fn output_shape(&self) -> (shape: OutputShape)
        ensures
            shape == self.spec_output_shape(),
    {
        match self {
            AiFunction::ConvertUserInputToGoal => OutputShape::PlainText,
            AiFunction::PrintProjectScope => OutputShape::JsonProjectScope,
            AiFunction::PrintSiteUrls => OutputShape::JsonUrlList,
            AiFunction::PrintBackendWebserverCode => OutputShape::PlainText,
            AiFunction::PrintImprovedWebserverCode => OutputShape::PlainText,
            AiFunction::PrintFixedCode => OutputShape::PlainText,
            AiFunction::PrintRestApiEndpoints => OutputShape::JsonRouteList,
        }
    }
}

} // verus!
