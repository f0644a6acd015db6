use foundry_mcp::json::JsonObject;
use foundry_mcp::json::JsonValue;
use foundry_mcp::request::RequestError;
use foundry_mcp::tokenlist::address_answer;
use foundry_mcp::tokenlist::address_query;
use foundry_mcp::tokenlist::chain_id_to_name;
use foundry_mcp::tokenlist::chain_name_to_id;
use foundry_mcp::tokenlist::chain_tokens_answer;
use foundry_mcp::tokenlist::chain_tokens_query;
use foundry_mcp::tokenlist::clear_cache;
use foundry_mcp::tokenlist::fetch_failure;
use foundry_mcp::tokenlist::find_token_by_address;
use foundry_mcp::tokenlist::format_token_info;
use foundry_mcp::tokenlist::get_tokenlist_tools;
use foundry_mcp::tokenlist::get_tokens_by_chain;
use foundry_mcp::tokenlist::parse_chain_param;
use foundry_mcp::tokenlist::search_tokens;
use foundry_mcp::tokenlist::supported_chains_answer;
use foundry_mcp::tokenlist::token_query;
use foundry_mcp::tokenlist::tokens_answer;
use foundry_mcp::tokenlist::TokenInfo;
use foundry_mcp::tokenlist::TokenList;
use foundry_mcp::tokenlist::TokenListVersion;

fn text(s: &str) -> JsonValue {
    JsonValue::Text(s.to_string())
}

fn object(members: Vec<(&str, JsonValue)>) -> JsonObject {
    let mut map = JsonObject::new();
    for (key, value) in members {
        map.insert(key.to_string(), value);
    }
    map
}

fn token(chain_id: u64, address: &str, name: &str, symbol: &str, decimals: u8) -> TokenInfo {
    TokenInfo {
        chain_id,
        address: address.to_string(),
        name: name.to_string(),
        symbol: symbol.to_string(),
        decimals,
        logo_uri: None,
        extensions: None,
    }
}

fn tokens() -> Vec<TokenInfo> {
    vec![
        token(1, "0xA0b8", "USD Coin", "USDC", 6),
        token(10, "0x0b2C", "USD Coin", "USDC", 6),
        token(10, "0x7F5c", "USD Coin (Bridged)", "USDC.e", 6),
        token(1, "0xdAC1", "Tether USD", "USDT", 6),
        token(999, "0xa0B8", "Wrapped Ether", "WETH", 18),
    ]
}

#[test]
fn chain_names_and_ids() {
    assert_eq!(chain_name_to_id("ethereum"), Some(1));
    assert_eq!(chain_name_to_id("OPTIMISM"), Some(10));
    assert_eq!(chain_name_to_id("Base-Sepolia"), Some(84532));
    assert_eq!(chain_name_to_id("celo-sepolia"), Some(44787));
    assert_eq!(chain_name_to_id("metal-l2"), Some(1750));
    assert_eq!(chain_name_to_id("polygon"), None);
    assert_eq!(chain_name_to_id(""), None);
    assert_eq!(chain_name_to_id("base "), None);
    assert_eq!(chain_id_to_name(1), Some("ethereum"));
    assert_eq!(chain_id_to_name(11155111), Some("sepolia"));
    assert_eq!(chain_id_to_name(8453), Some("base"));
    assert_eq!(chain_id_to_name(11155420), Some("optimism-sepolia"));
    assert_eq!(chain_id_to_name(34443), Some("mode"));
    assert_eq!(chain_id_to_name(1135), Some("lisk"));
    assert_eq!(chain_id_to_name(4202), Some("lisk-sepolia"));
    assert_eq!(chain_id_to_name(690), Some("redstone"));
    assert_eq!(chain_id_to_name(1740), Some("metal-l2-sepolia"));
    assert_eq!(chain_id_to_name(42220), Some("celo"));
    assert_eq!(chain_id_to_name(0), None);
    assert_eq!(chain_id_to_name(137), None);
}

#[test]
fn chain_parameter_is_a_number_or_a_name() {
    assert_eq!(parse_chain_param("10"), Some(10));
    assert_eq!(parse_chain_param("137"), Some(137));
    assert_eq!(parse_chain_param("base"), Some(8453));
    assert_eq!(parse_chain_param("Mode"), Some(34443));
    assert_eq!(parse_chain_param("-1"), None);
    assert_eq!(parse_chain_param("polygon"), None);
    assert_eq!(parse_chain_param("99999999999999999999"), None);
}

#[test]
fn token_cache_is_cleared() {
    let mut cache = Some(TokenList {
        name: "list".to_string(),
        version: TokenListVersion { major: 1, minor: 2, patch: 3 },
        keywords: vec![],
        tokens: tokens(),
        timestamp: None,
        logo_uri: None,
    });
    assert_eq!(cache.as_ref().unwrap().version, TokenListVersion { major: 1, minor: 2, patch: 3 });
    clear_cache(&mut cache);
    assert!(cache.is_none());
}

#[test]
fn find_by_address_ignores_case() {
    let list = tokens();
    let chains = |address: &str, chain_id: Option<u64>| -> Vec<u64> {
        find_token_by_address(&list, address, chain_id).iter().map(|t| t.chain_id).collect()
    };
    assert_eq!(chains("0xa0b8", None), vec![1, 999]);
    assert_eq!(chains("0XA0B8", Some(999)), vec![999]);
    assert_eq!(chains("0xa0b8", Some(10)), Vec::<u64>::new());
    assert_eq!(chains("a0b8", None), Vec::<u64>::new());
}

#[test]
fn search_prefers_exact_matches() {
    let list = tokens();
    let addresses = |query: &str, chain_id: Option<u64>| -> Vec<&str> {
        search_tokens(&list, query, chain_id).iter().map(|t| t.address.as_str()).collect()
    };
    assert_eq!(addresses("usdc", None), vec!["0xA0b8", "0x0b2C"]);
    assert_eq!(addresses("USD Coin", Some(10)), vec!["0x0b2C"]);
    assert_eq!(addresses("usd", None), vec!["0xA0b8", "0x0b2C", "0x7F5c", "0xdAC1"]);
    assert_eq!(addresses("usd", Some(10)), vec!["0x0b2C", "0x7F5c"]);
    assert_eq!(addresses("ether", None), vec!["0xdAC1", "0xa0B8"]);
    assert_eq!(addresses("dai", None), Vec::<&str>::new());
    assert_eq!(addresses("", Some(1)), vec!["0xA0b8", "0xdAC1"]);

    let many: Vec<TokenInfo> =
        (0..70).map(|i| token(1, &format!("0x{}", i), "Same", &format!("S{}", i), 18)).collect();
    assert_eq!(search_tokens(&many, "same", None).len(), 50);
    assert_eq!(search_tokens(&many, "s", None).len(), 50);
    assert_eq!(search_tokens(&many, "s6", None).len(), 1);
    assert_eq!(search_tokens(&many, "6", None).len(), 16);
    assert_eq!(search_tokens(&many, "S69", None)[0].address, "0x69");
}

#[test]
fn tokens_of_a_chain() {
    let list = tokens();
    let on = |chain_id: u64| -> Vec<&str> {
        get_tokens_by_chain(&list, chain_id).iter().map(|t| t.symbol.as_str()).collect()
    };
    assert_eq!(on(1), vec!["USDC", "USDT"]);
    assert_eq!(on(10), vec!["USDC", "USDC.e"]);
    assert_eq!(on(5), Vec::<&str>::new());
}

#[test]
fn token_info_is_written_in_full() {
    let plain = token(10, "0x0b2C", "USD Coin", "USDC", 6);
    assert_eq!(
        format_token_info(&plain, false),
        "\u{2022} USD Coin (USDC)\n  Address: 0x0b2C\n  Decimals: 6\n"
    );
    assert_eq!(
        format_token_info(&plain, true),
        "\u{2022} USD Coin (USDC)\n  Address: 0x0b2C\n  Decimals: 6\n  Chain: optimism (ID: 10)\n"
    );
    let bridge = object(vec![
        ("10", JsonValue::Object(object(vec![("tokenAddress", text("0x7F5c"))]))),
        ("8453", JsonValue::Object(object(vec![("tokenAddress", JsonValue::Int(5))]))),
        ("34443", JsonValue::Object(object(vec![("other", text("x"))]))),
        ("1135", text("not an object")),
    ]);
    let rich = TokenInfo {
        logo_uri: Some("https://logo".to_string()),
        extensions: Some(object(vec![
            ("opTokenId", text("USDC")),
            ("bridgeInfo", JsonValue::Object(bridge)),
        ])),
        ..token(999, "0xA0b8", "USD Coin", "USDC", 255)
    };
    assert_eq!(
        format_token_info(&rich, true),
        "\u{2022} USD Coin (USDC)\n  Address: 0xA0b8\n  Decimals: 255\n  Chain ID: 999\n  Logo: https://logo\n  Bridge Info: Available\n    10 \u{2192} 0x7F5c\n    8453 \u{2192} N/A\n"
    );
    let odd = TokenInfo {
        extensions: Some(object(vec![("bridgeInfo", JsonValue::Bool(true))])),
        ..token(1, "0x1", "A", "B", 0)
    };
    assert_eq!(
        format_token_info(&odd, false),
        "\u{2022} A (B)\n  Address: 0x1\n  Decimals: 0\n  Bridge Info: Available\n"
    );
    let none = TokenInfo {
        extensions: Some(object(vec![("other", JsonValue::Bool(true))])),
        ..token(1, "0x1", "A", "B", 0)
    };
    assert_eq!(format_token_info(&none, false), "\u{2022} A (B)\n  Address: 0x1\n  Decimals: 0\n");
}

#[test]
fn search_answer() {
    let list = tokens();
    let query = token_query(&object(vec![("query", text("USDC")), ("chain", text("optimism"))]))
        .unwrap();
    assert_eq!(query.chain_id, Some(10));
    assert_eq!(
        tokens_answer(&list, &query),
        "Found 1 tokens matching 'USDC' on optimism\n\n\u{2022} USD Coin (USDC)\n  Address: 0x0b2C\n  Decimals: 6\n\n"
    );
    let query = token_query(&object(vec![("query", text("usdt")), ("chain", text("nowhere"))]))
        .unwrap();
    assert_eq!(query.chain_id, None);
    assert_eq!(
        tokens_answer(&list, &query),
        "Found 1 tokens matching 'usdt' across all chains\n\n\u{2022} Tether USD (USDT)\n  Address: 0xdAC1\n  Decimals: 6\n  Chain: ethereum (ID: 1)\n\n"
    );
    let query = token_query(&object(vec![("query", text("dai")), ("chain", text("137"))])).unwrap();
    assert_eq!(
        tokens_answer(&list, &query),
        "Found 0 tokens matching 'dai' on unknown\n\nNo tokens found. Try a different search term or check the chain filter.\n"
    );
    assert_eq!(
        token_query(&object(vec![("chain", text("1"))])).unwrap_err(),
        RequestError::InvalidParams("Missing or invalid 'query' parameter".to_string())
    );
}

#[test]
fn address_answer_depends_on_how_many_were_found() {
    let list = tokens();
    let query = address_query(&object(vec![("address", text("dac1"))])).unwrap();
    assert_eq!(query.address, "0xdac1");
    assert_eq!(
        address_answer(&list, &query),
        "Token found:\n\n\u{2022} Tether USD (USDT)\n  Address: 0xdAC1\n  Decimals: 6\n  Chain: ethereum (ID: 1)\n"
    );
    let query = address_query(&object(vec![("address", text("0xA0B8"))])).unwrap();
    assert_eq!(query.address, "0xA0B8");
    assert_eq!(
        address_answer(&list, &query),
        "Found 2 tokens with address 0xA0B8 on different chains:\n\n\u{2022} USD Coin (USDC)\n  Address: 0xA0b8\n  Decimals: 6\n  Chain: ethereum (ID: 1)\n\n\u{2022} Wrapped Ether (WETH)\n  Address: 0xa0B8\n  Decimals: 18\n  Chain ID: 999\n\n"
    );
    let query =
        address_query(&object(vec![("address", text("0xbeef")), ("chain", text("base"))])).unwrap();
    assert_eq!(query.chain_id, Some(8453));
    assert_eq!(
        address_answer(&list, &query),
        "No token found with address 0xbeef\n\nTip: Make sure the address is correct and exists in the token list.\n"
    );
    assert_eq!(
        address_query(&JsonObject::new()).unwrap_err(),
        RequestError::InvalidParams("Missing or invalid 'address' parameter".to_string())
    );
}

#[test]
fn chain_listing_answer() {
    let list = tokens();
    let query = chain_tokens_query(&object(vec![("chain", text("optimism"))])).unwrap();
    assert_eq!(query.chain_id, 10);
    assert_eq!(query.limit, 50);
    assert_eq!(
        chain_tokens_answer(&list, &query),
        "Found 2 tokens on optimism (Chain ID: 10)\n\n\u{2022} USD Coin (USDC)\n  Address: 0x0b2C\n  Decimals: 6\n\n\u{2022} USD Coin (Bridged) (USDC.e)\n  Address: 0x7F5c\n  Decimals: 6\n\n"
    );
    let query =
        chain_tokens_query(&object(vec![("chain", text("1")), ("limit", JsonValue::Int(1))]))
            .unwrap();
    assert_eq!(
        chain_tokens_answer(&list, &query),
        "Found 2 tokens on ethereum (Chain ID: 1)\n\n\u{2022} USD Coin (USDC)\n  Address: 0xA0b8\n  Decimals: 6\n\n\n... and 1 more tokens. Increase the limit parameter to see more.\n"
    );
    let query = chain_tokens_query(&object(vec![("chain", text("137"))])).unwrap();
    assert_eq!(
        chain_tokens_answer(&list, &query),
        "Found 0 tokens on Unknown (Chain ID: 137)\n\nNo tokens found for this chain.\n"
    );
    assert_eq!(
        chain_tokens_query(&object(vec![("chain", text("1")), ("limit", JsonValue::Int(1000))]))
            .unwrap()
            .limit,
        200
    );
    assert_eq!(
        chain_tokens_query(&object(vec![("chain", text("1")), ("limit", JsonValue::Int(0))]))
            .unwrap()
            .limit,
        0
    );
    assert_eq!(
        chain_tokens_query(&object(vec![("chain", text("1")), ("limit", text("7"))])).unwrap().limit,
        50
    );
    assert_eq!(
        chain_tokens_query(&object(vec![("limit", JsonValue::Int(5))])).unwrap_err(),
        RequestError::InvalidParams("Missing or invalid 'chain' parameter".to_string())
    );
    assert_eq!(
        chain_tokens_query(&object(vec![("chain", text("polygon"))])).unwrap_err(),
        RequestError::InvalidParams(
            "Invalid chain 'polygon'. Use chain name (e.g., 'ethereum', 'optimism') or chain ID"
                .to_string()
        )
    );
}

#[test]
fn supported_chains_are_listed() {
    let answer = supported_chains_answer();
    assert!(answer.starts_with(
        "Supported Chains:\n\n\u{2022} ethereum - Chain ID: 1\n\u{2022} optimism - Chain ID: 10\n\u{2022} sepolia - Chain ID: 11155111\n"
    ));
    assert!(answer.ends_with(
        "\u{2022} celo-sepolia - Chain ID: 44787\n\nUse these chain names or IDs with search_tokens, get_token_by_address, or list_chain_tokens.\n"
    ));
    assert_eq!(answer.lines().filter(|l| l.starts_with('\u{2022}')).count(), 14);
    assert_eq!(
        fetch_failure("offline"),
        RequestError::InternalError("Failed to fetch token list: offline".to_string())
    );
}

#[test]
fn tokenlist_tools_are_four() {
    let tools = get_tokenlist_tools();
    let names: Vec<&str> = tools.iter().map(|t| t.name.as_str()).collect();
    assert_eq!(
        names,
        vec!["search_tokens", "get_token_by_address", "list_chain_tokens", "list_supported_chains"]
    );
    let required = |i: usize| tools[i].input_schema.get("required").map(|r| r.as_array().unwrap().clone());
    assert_eq!(required(0), Some(vec![text("query")]));
    assert_eq!(required(1), Some(vec![text("address")]));
    assert_eq!(required(2), Some(vec![text("chain")]));
    assert_eq!(required(3), None);
    let properties = tools[2].input_schema.get("properties").unwrap().as_object().unwrap();
    assert_eq!(properties.len(), 2);
    assert_eq!(
        properties.get("limit").unwrap().get("description").unwrap().as_str(),
        Some("Maximum number of tokens to return (default: 50)")
    );
    assert_eq!(tools[3].description, "List all blockchain networks supported by the token list with their chain IDs.");
}
