use zeroclaw_gateway::error::{error_response, StatusCode};
use zeroclaw_gateway::request::ToolFunction;
use zeroclaw_gateway::text::decimal_string;

#[test]
fn status_codes_have_three_digits() {
    for number in [0, 1, 99, 1000, u16::MAX] {
        assert!(StatusCode::from_u16(number).is_none());
    }
    for number in [100, 200, 404, 599, 999] {
        assert_eq!(StatusCode::from_u16(number).unwrap().as_u16(), number);
    }
    assert_eq!(StatusCode::bad_request().as_u16(), 400);
    assert_eq!(StatusCode::from_u16(400), Some(StatusCode::bad_request()));
}

#[test]
fn envelope_holds_what_it_is_given() {
    let status = StatusCode::from_u16(503).unwrap();
    let response = error_response(status, "server_error", "busy", Some("overloaded"), None);
    assert_eq!(response.status, status);
    let error = response.body.error;
    assert_eq!(error.message, "busy");
    assert_eq!(error.error_type, "server_error");
    assert_eq!(error.code.as_deref(), Some("overloaded"));
    assert!(error.param.is_none());
    assert_eq!(error.status, 503);

    let response = error_response(StatusCode::bad_request(), "", "", None, Some("model"));
    assert!(response.body.error.code.is_none());
    assert_eq!(response.body.error.param.as_deref(), Some("model"));
    assert_eq!(response.body.error.status, 400);
}

#[test]
fn numbers_are_written_in_base_ten() {
    for n in [0, 7, 9, 10, 19, 100, 909, 65536, usize::MAX] {
        assert_eq!(decimal_string(n), n.to_string());
    }
}

#[test]
fn a_cloned_tool_function_is_the_same() {
    let tool = ToolFunction {
        name: "lookup".to_string(),
        description: Some("finds things".to_string()),
        parameters: serde_json::from_str("{\"type\": \"object\", \"n\": [1, 2.5, null]}").unwrap(),
    };
    let copy = tool.clone();
    assert_eq!(copy.name, tool.name);
    assert_eq!(copy.description, tool.description);
    assert_eq!(copy.parameters, tool.parameters);
    assert_eq!(copy.parameters["n"][1], 2.5);
}
