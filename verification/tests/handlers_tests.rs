use foundry_mcp::handlers::anvil_start_request;
use foundry_mcp::handlers::eval_request;
use foundry_mcp::handlers::get_session_tools;
use foundry_mcp::handlers::task_failure;
use foundry_mcp::handlers::AnvilStart;
use foundry_mcp::json::JsonObject;
use foundry_mcp::json::JsonValue;
use foundry_mcp::request::RequestError;
use foundry_mcp::sessions::SessionManager;

fn text(s: &str) -> JsonValue {
    JsonValue::Text(s.to_string())
}

fn object(members: Vec<(&str, JsonValue)>) -> JsonObject {
    let mut map = JsonObject::new();
    for (key, value) in members {
        map.insert(key.to_string(), value);
    }
    map
}

#[test]
fn test_get_session_tools_count() {
    let tools = get_session_tools();
    assert_eq!(tools.len(), 7);
}

#[test]
fn test_session_tool_names() {
    let tools = get_session_tools();
    let names: Vec<String> = tools.iter().map(|t| t.name.to_string()).collect();

    assert!(names.contains(&"anvil_session_start".to_string()));
    assert!(names.contains(&"anvil_session_stop".to_string()));
    assert!(names.contains(&"anvil_session_status".to_string()));
    assert!(names.contains(&"chisel_session_start".to_string()));
    assert!(names.contains(&"chisel_session_eval".to_string()));
    assert!(names.contains(&"chisel_session_stop".to_string()));
    assert!(names.contains(&"chisel_session_status".to_string()));
}

#[test]
fn test_anvil_session_start_tool_schema() {
    let tools = get_session_tools();
    let tool = tools.iter().find(|t| t.name == "anvil_session_start").unwrap();

    assert!(tool.description.contains("Anvil"));
    assert!(tool.description.contains("background"));

    let props = tool.input_schema.get("properties").unwrap().as_object().unwrap();
    assert!(props.contains_key("port"));
    assert!(props.contains_key("fork_url"));
    assert!(props.contains_key("accounts"));
    assert!(props.contains_key("block_time"));
}

#[test]
fn test_chisel_session_eval_tool_schema() {
    let tools = get_session_tools();
    let tool = tools.iter().find(|t| t.name == "chisel_session_eval").unwrap();

    let props = tool.input_schema.get("properties").unwrap().as_object().unwrap();
    assert!(props.contains_key("code"));

    let required = tool.input_schema.get("required").unwrap().as_array().unwrap();
    assert!(required.contains(&JsonValue::Text("code".to_string())));
}

#[test]
fn test_stop_status_tools_empty_schemas() {
    let tools = get_session_tools();

    let stop_status_names = vec![
        "anvil_session_stop",
        "anvil_session_status",
        "chisel_session_stop",
        "chisel_session_status",
    ];

    for name in stop_status_names {
        let tool = tools.iter().find(|t| t.name == name).unwrap();
        let props = tool.input_schema.get("properties").unwrap().as_object().unwrap();
        assert!(props.is_empty(), "Tool {} should have empty properties", name);
    }
}

#[test]
fn test_all_tools_have_descriptions() {
    let tools = get_session_tools();

    for tool in tools {
        assert!(tool.description.len() > 10);
    }
}

#[test]
fn session_tools_come_in_order_with_exact_schemas() {
    let tools = get_session_tools();
    let names: Vec<&str> = tools.iter().map(|t| t.name.as_str()).collect();
    assert_eq!(
        names,
        vec![
            "anvil_session_start",
            "anvil_session_stop",
            "anvil_session_status",
            "chisel_session_start",
            "chisel_session_eval",
            "chisel_session_stop",
            "chisel_session_status",
        ]
    );
    let start = &tools[0];
    assert!(start.input_schema.get("required").is_none());
    let props = start.input_schema.get("properties").unwrap().as_object().unwrap();
    let keys: Vec<&str> = props.entries.iter().map(|e| e.key.as_str()).collect();
    assert_eq!(keys, vec!["port", "fork_url", "fork_block_number", "accounts", "block_time"]);
    assert_eq!(
        props.get("port"),
        Some(&JsonValue::Object(object(vec![
            ("type", text("number")),
            ("description", text("Port to listen on (default: 8545)")),
            ("default", JsonValue::Int(8545)),
        ])))
    );
    assert_eq!(
        props.get("fork_url"),
        Some(&JsonValue::Object(object(vec![
            ("type", text("string")),
            ("description", text("URL of the JSON-RPC endpoint to fork from (optional)")),
        ])))
    );
    assert_eq!(tools[1].description, "Stop the running Anvil instance");
    assert_eq!(
        tools[6].input_schema,
        object(vec![("type", text("object")), ("properties", JsonValue::Object(JsonObject::new()))])
    );
}

#[test]
fn anvil_start_request_defaults() {
    let expected = AnvilStart {
        port: 8545,
        fork_url: None,
        fork_block_number: None,
        accounts: None,
        block_time: None,
    };
    assert_eq!(anvil_start_request(&None), expected);
    assert_eq!(anvil_start_request(&Some(JsonObject::new())), expected);
    assert_eq!(
        anvil_start_request(&Some(object(vec![
            ("port", text("9999")),
            ("fork_url", JsonValue::Int(1)),
            ("fork_block_number", JsonValue::Int(-1)),
            ("accounts", JsonValue::Decimal("1.5".to_string())),
            ("block_time", JsonValue::Null),
        ]))),
        expected
    );
}

#[test]
fn anvil_start_request_reads_every_setting() {
    let request = anvil_start_request(&Some(object(vec![
        ("port", JsonValue::Int(9999)),
        ("fork_url", text("https://eth.llamarpc.com")),
        ("fork_block_number", JsonValue::Int(12345678)),
        ("accounts", JsonValue::Int(20)),
        ("block_time", JsonValue::UInt(18446744073709551615)),
    ])));
    assert_eq!(
        request,
        AnvilStart {
            port: 9999,
            fork_url: Some("https://eth.llamarpc.com".to_string()),
            fork_block_number: Some(12345678),
            accounts: Some(20),
            block_time: Some(18446744073709551615),
        }
    );
    let manager = SessionManager::new();
    let plan = manager
        .start_anvil(
            &Some("/nonexistent".to_string()),
            request.port,
            request.fork_url,
            request.fork_block_number,
            request.accounts,
            request.block_time,
        )
        .unwrap();
    assert_eq!(plan.program, "/nonexistent/anvil");
    assert_eq!(plan.args[..4], ["--port", "9999", "--fork-url", "https://eth.llamarpc.com"]);
}

#[test]
fn numbers_that_are_too_large_keep_their_low_bits() {
    let request = anvil_start_request(&Some(object(vec![
        ("port", JsonValue::Int(65536 + 8545)),
        ("accounts", JsonValue::Int(4294967296 + 7)),
    ])));
    assert_eq!(request.port, 8545);
    assert_eq!(request.accounts, Some(7));
}

#[test]
fn eval_request_needs_code() {
    assert_eq!(
        eval_request(&Some(object(vec![("code", text("uint256 x = 42;"))]))),
        Ok("uint256 x = 42;".to_string())
    );
    let missing = RequestError::InvalidParams("Missing 'code' parameter".to_string());
    assert_eq!(eval_request(&Some(JsonObject::new())), Err(RequestError::InvalidParams("Missing 'code' parameter".to_string())));
    assert_eq!(eval_request(&None), Err(RequestError::InvalidParams("Missing 'code' parameter".to_string())));
    assert_eq!(eval_request(&Some(object(vec![("code", JsonValue::Int(1))]))), Err(missing));
}

#[test]
fn task_failures_become_internal_errors() {
    assert_eq!(
        task_failure("cancelled"),
        RequestError::InternalError("Task error: cancelled".to_string())
    );
}
