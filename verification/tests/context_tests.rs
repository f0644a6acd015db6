use foundry_mcp::context::ContextConfig;
use foundry_mcp::context::TextMap;

#[test]
fn test_default_context_is_empty() {
    let ctx = ContextConfig::default();
    assert!(ctx.tools.is_empty());
    assert!(ctx.flags.is_empty());
    assert!(ctx.positionals.is_empty());
}

#[test]
fn test_tool_description_with_context() {
    let mut ctx = ContextConfig::default();
    ctx.tools.insert(
        "forge_build".to_string(),
        "\u{1f4dd} Local Context: This builds your smart contracts".to_string(),
    );

    let result = ctx.tool_description("forge_build", "Build the project");
    assert!(result.contains("Build the project"));
    assert!(result.contains("\u{1f4dd} Local Context: This builds your smart contracts"));
    assert!(result.contains("\n\n"));
}

#[test]
fn test_tool_description_without_context() {
    let ctx = ContextConfig::default();
    let result = ctx.tool_description("forge_build", "Build the project");
    assert_eq!(result, "Build the project");
}

#[test]
fn test_flag_description_with_context() {
    let mut ctx = ContextConfig::default();
    ctx.flags.insert(
        "rpc-url".to_string(),
        "Use our company RPC: https://rpc.example.com".to_string(),
    );

    let result = ctx.flag_description("rpc-url", "RPC endpoint URL");
    assert!(result.contains("RPC endpoint URL"));
    assert!(result.contains("Use our company RPC: https://rpc.example.com"));
}

#[test]
fn test_flag_description_without_context() {
    let ctx = ContextConfig::default();
    let result = ctx.flag_description("rpc-url", "RPC endpoint URL");
    assert_eq!(result, "RPC endpoint URL");
}

#[test]
fn test_positional_description_with_context() {
    let mut ctx = ContextConfig::default();
    ctx.positionals.insert("contract".to_string(), "Deploy to our testnet first".to_string());

    let result = ctx.positional_description("contract", "Contract to deploy");
    assert!(result.contains("Contract to deploy"));
    assert!(result.contains("Deploy to our testnet first"));
}

#[test]
fn test_positional_description_without_context() {
    let ctx = ContextConfig::default();
    let result = ctx.positional_description("contract", "Contract to deploy");
    assert_eq!(result, "Contract to deploy");
}

#[test]
fn test_context_preserves_original_when_no_injection() {
    let ctx = ContextConfig::default();

    let tool_desc = ctx.tool_description("some_tool", "Original tool description");
    let flag_desc = ctx.flag_description("some_flag", "Original flag description");
    let pos_desc = ctx.positional_description("some_arg", "Original arg description");

    assert_eq!(tool_desc, "Original tool description");
    assert_eq!(flag_desc, "Original flag description");
    assert_eq!(pos_desc, "Original arg description");
}

#[test]
fn test_context_with_empty_string_injection() {
    let mut ctx = ContextConfig::default();
    ctx.tools.insert("tool1".to_string(), "".to_string());

    let result = ctx.tool_description("tool1", "Original");
    assert_eq!(result, "Original\n\n");
}

#[test]
fn test_context_special_characters_in_descriptions() {
    let mut ctx = ContextConfig::default();
    ctx.tools.insert("tool1".to_string(), "Special chars: <>&\"'`$()[]{}\\".to_string());

    let result = ctx.tool_description("tool1", "Original");
    assert!(result.contains("Special chars: <>&\"'`$()[]{}\\"));
}

#[test]
fn test_context_multiline_injection() {
    let mut ctx = ContextConfig::default();
    ctx.flags.insert("config".to_string(), "Line 1\nLine 2\nLine 3".to_string());

    let result = ctx.flag_description("config", "Config file");
    assert!(result.contains("Line 1\nLine 2\nLine 3"));
    assert!(result.starts_with("Config file\n\n"));
}

#[test]
fn description_with_context_is_exact() {
    let mut ctx = ContextConfig::default();
    ctx.tools.insert("forge_build".to_string(), "Run from the repository root".to_string());
    assert_eq!(
        ctx.tool_description("forge_build", "Build the project"),
        "Build the project\n\nRun from the repository root"
    );
    assert_eq!(ctx.flag_description("forge_build", "Build the project"), "Build the project");
}

#[test]
fn text_map_insert_replaces_and_counts_once() {
    let mut map = TextMap::new();
    assert!(map.is_empty());
    assert_eq!(map.len(), 0);
    assert_eq!(map.insert("a".to_string(), "1".to_string()), None);
    assert_eq!(map.insert("b".to_string(), "2".to_string()), None);
    assert_eq!(map.insert("a".to_string(), "3".to_string()), Some("1".to_string()));
    assert_eq!(map.len(), 2);
    assert!(!map.is_empty());
    assert_eq!(map.get("a"), Some(&"3".to_string()));
    assert_eq!(map.get("b"), Some(&"2".to_string()));
    assert_eq!(map.get("c"), None);
    assert!(map.contains_key("b"));
    assert!(!map.contains_key(""));
}

#[test]
fn text_map_clone_holds_the_same_entries() {
    let mut map = TextMap::new();
    map.insert("k".to_string(), "v".to_string());
    let copy = map.clone();
    map.insert("k".to_string(), "w".to_string());
    assert_eq!(copy.get("k"), Some(&"v".to_string()));
    assert_eq!(copy.len(), 1);
}

#[test]
fn text_map_keys_are_listed_once() {
    let mut map = TextMap::new();
    assert!(map.keys().is_empty());
    map.insert("b".to_string(), "1".to_string());
    map.insert("a".to_string(), "2".to_string());
    map.insert("b".to_string(), "3".to_string());
    let mut keys = map.keys();
    keys.sort();
    assert_eq!(keys, vec!["a".to_string(), "b".to_string()]);
}
