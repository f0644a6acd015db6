use foundry_mcp::config::default_allow_dangerous;
use foundry_mcp::config::list_contains;
use foundry_mcp::config::Config;

fn strings(items: &[&str]) -> Vec<String> {
    items.iter().map(|s| s.to_string()).collect()
}

#[test]
fn test_default_config() {
    let config = Config::default();
    assert!(config.forbidden_commands.is_empty());
    assert!(config.forbidden_flags.is_empty());
    assert!(!config.allow_dangerous);
}

#[test]
fn test_safe_default_config() {
    let config = Config::safe_default();
    assert!(!config.forbidden_commands.is_empty());
    assert!(!config.forbidden_flags.is_empty());
    assert!(!config.allow_dangerous);
}

#[test]
fn test_is_command_forbidden() {
    let config = Config {
        forbidden_commands: vec!["anvil".to_string(), "forge_script".to_string()],
        forbidden_flags: vec![],
        allow_dangerous: false,
    };
    assert!(config.is_command_forbidden("anvil"));
    assert!(config.is_command_forbidden("forge_script"));
    assert!(!config.is_command_forbidden("forge_build"));
}

#[test]
fn test_has_forbidden_flags() {
    let config = Config {
        forbidden_commands: vec![],
        forbidden_flags: vec!["broadcast".to_string(), "private-key".to_string()],
        allow_dangerous: false,
    };

    let flags = strings(&["broadcast", "verify"]);
    assert!(config.has_forbidden_flags(&flags).is_some());

    let safe_flags = strings(&["verify", "json"]);
    assert!(config.has_forbidden_flags(&safe_flags).is_none());
}

#[test]
fn test_apply_dangerous_restrictions() {
    let mut config = Config {
        forbidden_commands: vec!["forge_script".to_string()],
        forbidden_flags: vec!["ledger".to_string()],
        allow_dangerous: false,
    };
    config.apply_dangerous_restrictions();

    assert!(config.forbidden_commands.contains(&"forge_script".to_string()));
    assert!(config.forbidden_commands.contains(&"anvil".to_string()));

    assert!(config.forbidden_flags.contains(&"ledger".to_string()));
    assert!(config.forbidden_flags.contains(&"broadcast".to_string()));
    assert!(config.forbidden_flags.contains(&"private-key".to_string()));
}

#[test]
fn test_apply_dangerous_restrictions_with_allow() {
    let mut config = Config {
        forbidden_commands: vec!["forge_script".to_string()],
        forbidden_flags: vec!["ledger".to_string()],
        allow_dangerous: true,
    };
    config.apply_dangerous_restrictions();

    assert!(config.forbidden_commands.contains(&"forge_script".to_string()));
    assert!(!config.forbidden_commands.contains(&"anvil".to_string()));

    assert!(config.forbidden_flags.contains(&"ledger".to_string()));
    assert!(!config.forbidden_flags.contains(&"broadcast".to_string()));
}

#[test]
fn test_no_duplicate_restrictions() {
    let mut config = Config {
        forbidden_commands: vec!["anvil".to_string()],
        forbidden_flags: vec!["broadcast".to_string()],
        allow_dangerous: false,
    };
    config.apply_dangerous_restrictions();

    assert_eq!(config.forbidden_commands.iter().filter(|c| *c == "anvil").count(), 1);
    assert_eq!(config.forbidden_flags.iter().filter(|f| *f == "broadcast").count(), 1);
}

#[test]
fn test_safe_default_prevents_dangerous_operations() {
    let config = Config::safe_default();

    assert!(config.forbidden_commands.contains(&"anvil".to_string()));

    assert!(config.forbidden_flags.contains(&"broadcast".to_string()));
    assert!(config.forbidden_flags.contains(&"private-key".to_string()));

    assert!(!config.allow_dangerous);
}

#[test]
fn default_of_allow_dangerous_is_false() {
    assert!(!default_allow_dangerous());
}

#[test]
fn default_dangerous_lists_are_exact() {
    assert_eq!(Config::get_default_dangerous_commands(), strings(&["anvil", "chisel"]));
    assert_eq!(
        Config::get_default_dangerous_flags(),
        strings(&["broadcast", "private-key", "mnemonic", "legacy", "unlock"])
    );
}

#[test]
fn restrictions_keep_order_and_append_missing() {
    let mut config = Config {
        forbidden_commands: strings(&["chisel", "forge_script"]),
        forbidden_flags: strings(&["legacy", "ledger", "unlock"]),
        allow_dangerous: false,
    };
    config.apply_dangerous_restrictions();
    assert_eq!(config.forbidden_commands, strings(&["chisel", "forge_script", "anvil"]));
    assert_eq!(
        config.forbidden_flags,
        strings(&["legacy", "ledger", "unlock", "broadcast", "private-key", "mnemonic"])
    );
    assert!(!config.allow_dangerous);
}

#[test]
fn restrictions_applied_twice_equal_once() {
    let mut once = Config {
        forbidden_commands: strings(&["forge_script"]),
        forbidden_flags: strings(&["broadcast"]),
        allow_dangerous: false,
    };
    once.apply_dangerous_restrictions();
    let mut twice = once.clone();
    twice.apply_dangerous_restrictions();
    assert_eq!(once.forbidden_commands, twice.forbidden_commands);
    assert_eq!(once.forbidden_flags, twice.forbidden_flags);
}

#[test]
fn restrictions_leave_a_permissive_policy_alone() {
    let mut config = Config {
        forbidden_commands: vec![],
        forbidden_flags: vec![],
        allow_dangerous: true,
    };
    config.apply_dangerous_restrictions();
    assert!(config.forbidden_commands.is_empty());
    assert!(config.forbidden_flags.is_empty());
    assert!(config.allow_dangerous);
}

#[test]
fn first_forbidden_flag_goes_by_policy_order() {
    let config = Config {
        forbidden_commands: vec![],
        forbidden_flags: strings(&["mnemonic", "broadcast", "private-key"]),
        allow_dangerous: false,
    };
    let flags = strings(&["private-key", "json", "broadcast"]);
    assert_eq!(config.has_forbidden_flags(&flags), Some("broadcast".to_string()));
    assert_eq!(config.has_forbidden_flags(&vec![]), None);
}

#[test]
fn list_contains_compares_whole_strings() {
    let list = strings(&["anvil", "forge_script"]);
    assert!(list_contains(&list, "anvil"));
    assert!(!list_contains(&list, "anvi"));
    assert!(!list_contains(&list, "anvil_fork"));
    assert!(!list_contains(&vec![], ""));
}

#[test]
fn built_ins_are_in_force_whether_named_or_not() {
    let unmerged = Config { forbidden_commands: vec![], forbidden_flags: vec![], allow_dangerous: false };
    assert!(unmerged.is_command_forbidden("anvil"));
    assert!(unmerged.is_command_forbidden("chisel"));
    assert!(!unmerged.is_command_forbidden("forge_build"));
    assert_eq!(
        unmerged.has_forbidden_flags(&strings(&["json", "unlock", "legacy"])),
        Some("legacy".to_string())
    );
    assert_eq!(unmerged.has_forbidden_flags(&strings(&["json"])), None);
    assert!(Config::default().is_command_forbidden("anvil"));

    let permissive = Config { forbidden_commands: vec![], forbidden_flags: vec![], allow_dangerous: true };
    assert!(!permissive.is_command_forbidden("anvil"));
    assert_eq!(permissive.has_forbidden_flags(&strings(&["broadcast"])), None);
}

#[test]
fn policy_in_force_is_the_policy_with_restrictions_applied() {
    let named = Config {
        forbidden_commands: strings(&["chisel", "forge_script"]),
        forbidden_flags: strings(&["ledger"]),
        allow_dangerous: false,
    };
    let in_force = named.effective();
    assert_eq!(in_force.forbidden_commands, strings(&["chisel", "forge_script", "anvil"]));
    assert_eq!(
        in_force.forbidden_flags,
        strings(&["ledger", "broadcast", "private-key", "mnemonic", "legacy", "unlock"])
    );
    assert!(!in_force.allow_dangerous);
    assert_eq!(named.forbidden_commands, strings(&["chisel", "forge_script"]));

    let again = in_force.effective();
    assert_eq!(again.forbidden_commands, in_force.forbidden_commands);
    assert_eq!(again.forbidden_flags, in_force.forbidden_flags);

    let permissive = Config { allow_dangerous: true, ..named.clone() };
    let as_named = permissive.effective();
    assert_eq!(as_named.forbidden_commands, strings(&["chisel", "forge_script"]));
    assert_eq!(as_named.forbidden_flags, strings(&["ledger"]));
    assert!(as_named.allow_dangerous);
}
