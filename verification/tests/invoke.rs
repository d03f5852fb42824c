use rig_tool_macro::calculator::{add, divide, sum_numbers};
use rig_tool_macro::invoke::{invoke, normalize, ToolError};

#[test]
fn a_success_comes_back_unchanged() {
    let outcome: Result<Vec<u8>, String> = Ok(vec![1, 2, 3]);
    assert_eq!(normalize(outcome), Ok(vec![1, 2, 3]));
}

#[test]
fn a_failure_becomes_its_text() {
    let outcome: Result<u8, String> = Err("no such thing".to_string());
    assert_eq!(normalize(outcome), Err(ToolError::ExecutionError("no such thing".to_string())));
    let parsed: Result<u8, std::num::ParseIntError> = "x".parse::<u8>();
    assert_eq!(
        normalize(parsed),
        Err(ToolError::ExecutionError("invalid digit found in string".to_string()))
    );
}

#[test]
fn the_message_names_the_failure() {
    let error = ToolError::ExecutionError("attempt to divide by zero".to_string());
    assert_eq!(error.message(), "Tool execution failed: attempt to divide by zero");
}

#[test]
fn invoking_add() {
    assert_eq!(invoke(|args: (u64, u64)| add(args.0, args.1), (5, 2)), Ok(7));
}

#[test]
fn invoking_divide_by_zero() {
    let outcome = invoke(|args: (i64, i64)| divide(args.0, args.1), (5, 0));
    assert_eq!(
        outcome,
        Err(ToolError::ExecutionError("attempt to divide by zero".to_string()))
    );
    assert_eq!(invoke(|args: (i64, i64)| divide(args.0, args.1), (5, 2)), Ok(2));
}

#[test]
fn invoking_sum_numbers() {
    assert_eq!(invoke(sum_numbers, vec![1, 2, 3, 4, 5]), Ok(15));
}
