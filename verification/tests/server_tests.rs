use foundry_mcp::config::Config;
use foundry_mcp::context::ContextConfig;
use foundry_mcp::conversion::get_conversion_tool;
use foundry_mcp::foundry::FoundryExecutor;
use foundry_mcp::json::JsonObject;
use foundry_mcp::json::JsonValue;
use foundry_mcp::locator::forge_probe;
use foundry_mcp::locator::install_candidates;
use foundry_mcp::request::flag_argument;
use foundry_mcp::request::number_argument;
use foundry_mcp::request::text_argument;
use foundry_mcp::request::RequestError;
use foundry_mcp::schema::SchemaFile;
use foundry_mcp::schema::ToolSchema;
use foundry_mcp::server::arguments_for;
use foundry_mcp::server::list_resources;
use foundry_mcp::server::list_tools;
use foundry_mcp::server::resource_for;
use foundry_mcp::server::route;
use foundry_mcp::server::Resource;
use foundry_mcp::server::Route;
use foundry_mcp::server::SERVER_INSTRUCTIONS;
use foundry_mcp::server::SERVER_NAME;
use foundry_mcp::server::SERVER_TITLE;
use foundry_mcp::server::SERVER_WEBSITE;

fn text(s: &str) -> JsonValue {
    JsonValue::Text(s.to_string())
}

#[test]
fn server_identity() {
    assert_eq!(SERVER_NAME, "foundry-mcp-server");
    assert_eq!(SERVER_TITLE, "Foundry MCP Server");
    assert!(SERVER_WEBSITE.contains("foundry"));
    assert!(!SERVER_INSTRUCTIONS.is_empty());
}

#[test]
fn calls_are_routed_by_name() {
    assert_eq!(route("search_rpc_url"), Route::SearchRpcUrl);
    assert_eq!(route("search_chains"), Route::SearchChains);
    assert_eq!(route("list_popular_chains"), Route::ListPopularChains);
    assert_eq!(route("search_tokens"), Route::SearchTokens);
    assert_eq!(route("get_token_by_address"), Route::GetTokenByAddress);
    assert_eq!(route("list_chain_tokens"), Route::ListChainTokens);
    assert_eq!(route("list_supported_chains"), Route::ListSupportedChains);
    assert_eq!(route("anvil_session_start"), Route::AnvilSessionStart);
    assert_eq!(route("anvil_session_stop"), Route::AnvilSessionStop);
    assert_eq!(route("anvil_session_status"), Route::AnvilSessionStatus);
    assert_eq!(route("chisel_session_start"), Route::ChiselSessionStart);
    assert_eq!(route("chisel_session_eval"), Route::ChiselSessionEval);
    assert_eq!(route("chisel_session_stop"), Route::ChiselSessionStop);
    assert_eq!(route("chisel_session_status"), Route::ChiselSessionStatus);
    assert_eq!(route("forge_build"), Route::Foundry);
    assert_eq!(route("cast_convert"), Route::Foundry);
    assert_eq!(route("Search_Chains"), Route::Foundry);
    assert_eq!(route(""), Route::Foundry);
}

#[test]
fn missing_argument_maps() {
    let missing = || Err(RequestError::InvalidParams("Missing arguments".to_string()));
    assert_eq!(arguments_for(Route::SearchRpcUrl, None), missing());
    assert_eq!(arguments_for(Route::SearchChains, None), missing());
    assert_eq!(arguments_for(Route::SearchTokens, None), missing());
    assert_eq!(arguments_for(Route::GetTokenByAddress, None), missing());
    assert_eq!(arguments_for(Route::ListChainTokens, None), missing());
    assert_eq!(arguments_for(Route::ListPopularChains, None), Ok(JsonObject::new()));
    assert_eq!(arguments_for(Route::ListSupportedChains, None), Ok(JsonObject::new()));
    let mut given = JsonObject::new();
    given.insert("chain".to_string(), text("1"));
    assert_eq!(arguments_for(Route::SearchRpcUrl, Some(given.clone())), Ok(given));
}

#[test]
fn everything_offered_is_listed_in_order() {
    let schema = SchemaFile {
        tools: vec![
            ToolSchema {
                name: "forge_build".to_string(),
                description: "Build".to_string(),
                positionals: vec![],
                options: vec![],
                flags: vec![],
            },
            ToolSchema {
                name: "anvil".to_string(),
                description: "Node".to_string(),
                positionals: vec![],
                options: vec![],
                flags: vec![],
            },
        ],
    };
    let executor =
        FoundryExecutor::with_config(schema, Config::safe_default(), ContextConfig::default(), None);
    let tools = list_tools(&executor);
    let names: Vec<&str> = tools.iter().map(|t| t.name.as_str()).collect();
    assert_eq!(
        names,
        vec![
            "forge_build",
            "search_rpc_url",
            "search_chains",
            "list_popular_chains",
            "search_tokens",
            "get_token_by_address",
            "list_chain_tokens",
            "list_supported_chains",
            "anvil_session_start",
            "anvil_session_stop",
            "anvil_session_status",
            "chisel_session_start",
            "chisel_session_eval",
            "chisel_session_stop",
            "chisel_session_status",
        ]
    );
    assert_eq!(&tools[0], &executor.tool_list()[0]);
}

#[test]
fn resources() {
    let listed = list_resources();
    assert_eq!(listed.len(), 2);
    assert_eq!(listed[0].uri, "chainlist://all");
    assert_eq!(listed[0].name, "All Blockchain Networks");
    assert_eq!(listed[0].mime_type, "application/json");
    assert_eq!(listed[1], Resource::Tokenlist.describe());
    assert_eq!(
        listed[1].description,
        "Complete list of ERC20 tokens across Ethereum and L2 networks from the Optimism token list"
    );
    assert_eq!(resource_for("chainlist://all"), Ok(Resource::Chainlist));
    assert_eq!(resource_for("tokenlist://all"), Ok(Resource::Tokenlist));
    assert_eq!(
        resource_for("tokenlist://none"),
        Err(RequestError::InvalidParams("Unknown resource URI: tokenlist://none".to_string()))
    );
}

#[test]
fn argument_readers() {
    let mut args = JsonObject::new();
    args.insert("s".to_string(), text("x"));
    args.insert("b".to_string(), JsonValue::Bool(true));
    args.insert("n".to_string(), JsonValue::Int(5));
    args.insert("m".to_string(), JsonValue::Int(-5));
    assert_eq!(text_argument(&args, "s"), Some("x"));
    assert_eq!(text_argument(&args, "b"), None);
    assert_eq!(text_argument(&args, "missing"), None);
    assert!(flag_argument(&args, "b", false));
    assert!(flag_argument(&args, "s", true));
    assert!(!flag_argument(&args, "s", false));
    assert!(flag_argument(&args, "missing", true));
    assert_eq!(number_argument(&args, "n"), Some(5));
    assert_eq!(number_argument(&args, "m"), None);
    assert_eq!(number_argument(&args, "s"), None);
}

#[test]
fn install_directories() {
    assert_eq!(
        install_candidates("/home/dev"),
        vec!["/home/dev/.foundry/bin", "/usr/local/bin", "/opt/homebrew/bin"]
    );
    assert_eq!(forge_probe("/usr/local/bin"), "/usr/local/bin/forge");
}

#[test]
fn conversion_tool_lists_every_subcommand() {
    let tool = get_conversion_tool();
    assert_eq!(tool.name, "cast_convert");
    assert!(tool.description.starts_with("Unified tool for all cast conversion operations. Supports:"));
    assert!(tool.description.ends_with("provide the required parameters for that conversion."));
    assert_eq!(
        tool.input_schema.get("required").unwrap().as_array().unwrap(),
        &vec![text("conversion_type")]
    );
    let properties = tool.input_schema.get("properties").unwrap().as_object().unwrap();
    let keys: Vec<&str> = properties.entries.iter().map(|e| e.key.as_str()).collect();
    assert_eq!(
        keys,
        vec![
            "conversion_type",
            "value",
            "values",
            "type",
            "decimals",
            "unit",
            "base",
            "base_in",
            "base_out",
            "bits",
            "chain_id",
            "as_int",
        ]
    );
    let kinds = properties.get("conversion_type").unwrap().get("enum").unwrap().as_array().unwrap();
    assert_eq!(kinds.len(), 29);
    assert_eq!(kinds[0], text("max-int"));
    assert_eq!(kinds[14], text("to-check-sum-address"));
    assert_eq!(kinds[28], text("from-rlp"));
    let values = properties.get("values").unwrap();
    assert_eq!(values.get("type").unwrap().as_str(), Some("array"));
    assert_eq!(values.get("items").unwrap().get("type").unwrap().as_str(), Some("string"));
    assert_eq!(properties.get("chain_id").unwrap().get("type").unwrap().as_str(), Some("number"));
    assert_eq!(properties.get("as_int").unwrap().get("type").unwrap().as_str(), Some("boolean"));
}
