use hoppity::ai_functions::{AiFunction, OutputShape};
use hoppity::command_line::{classify_approval_choice, ActionColor, PrintCommand};
use hoppity::common::extend_ai_func;

#[test]
fn test_extend_ai_func() {
    let extended_msg = extend_ai_func(AiFunction::PrintProjectScope.template(), "dummy thing!!");

    assert_eq!(extended_msg.role, "system".to_string());
}

#[test]
fn test_extend_ai_func_content() {
    let msg = extend_ai_func("TEMPLATE", "CONTEXT");

    let expected = format!(
        "FUNCTION {}\nINSTRUCTION: You are a function printer. You ONLY print the result of functions. Nothing else. No commentary. Here is the input of the function: {}.\nPrint out what the function will return.\n",
        "TEMPLATE", "CONTEXT",
    );
    assert_eq!(msg.role, "system".to_string());
    assert_eq!(msg.content, expected);
}

#[test]
fn test_classify_approval_accepts() {
    assert_eq!(classify_approval_choice("1"), Some(true));
    assert_eq!(classify_approval_choice("y"), Some(true));
    assert_eq!(classify_approval_choice("ok"), Some(true));
}

#[test]
fn test_classify_approval_rejects() {
    assert_eq!(classify_approval_choice("2"), Some(false));
    assert_eq!(classify_approval_choice("n"), Some(false));
    assert_eq!(classify_approval_choice("no"), Some(false));
}

#[test]
fn test_classify_approval_undecided() {
    assert_eq!(classify_approval_choice("yes"), None);
    assert_eq!(classify_approval_choice(""), None);
    assert_eq!(classify_approval_choice("maybe"), None);
    assert_eq!(classify_approval_choice("12"), None);
}

#[test]
fn test_action_colors() {
    assert_eq!(PrintCommand::APICall.action_color(), ActionColor::DarkBlue);
    assert_eq!(PrintCommand::UnitTest.action_color(), ActionColor::Green);
    assert_eq!(PrintCommand::Issue.action_color(), ActionColor::Red);
}

#[test]
fn test_ai_function_registry() {
    let tasks = [
        AiFunction::ConvertUserInputToGoal,
        AiFunction::PrintProjectScope,
        AiFunction::PrintSiteUrls,
        AiFunction::PrintBackendWebserverCode,
        AiFunction::PrintImprovedWebserverCode,
        AiFunction::PrintFixedCode,
        AiFunction::PrintRestApiEndpoints,
    ];
    for task in tasks {
        assert!(!task.template().is_empty());
    }
    assert_eq!(AiFunction::ConvertUserInputToGoal.output_shape(), OutputShape::PlainText);
    assert_eq!(AiFunction::PrintProjectScope.output_shape(), OutputShape::JsonProjectScope);
    assert_eq!(AiFunction::PrintSiteUrls.output_shape(), OutputShape::JsonUrlList);
    assert_eq!(AiFunction::PrintRestApiEndpoints.output_shape(), OutputShape::JsonRouteList);
}
