use foundry_mcp::command::CommandSpec;
use foundry_mcp::sessions::chisel_output;
use foundry_mcp::sessions::eval_poll;
use foundry_mcp::sessions::eval_spawned;
use foundry_mcp::sessions::stop_outcome;
use foundry_mcp::sessions::teardown_line;
use foundry_mcp::sessions::EvalPlan;
use foundry_mcp::sessions::PollStep;
use foundry_mcp::sessions::SessionError;
use foundry_mcp::sessions::SessionInfo;
use foundry_mcp::sessions::SessionManager;
use foundry_mcp::sessions::SessionOperation;
use foundry_mcp::sessions::SessionType;
use foundry_mcp::sessions::ANVIL_WARM_UP_MS;
use foundry_mcp::sessions::CHISEL_STOP_GRACE_MS;
use foundry_mcp::sessions::EVAL_POLL_INTERVAL_MS;
use foundry_mcp::sessions::EVAL_TIMEOUT_MS;

fn strings(items: &[&str]) -> Vec<String> {
    items.iter().map(|s| s.to_string()).collect()
}

#[test]
fn test_session_manager_creation() {
    let manager = SessionManager::new();
    assert!(!manager.is_anvil_running());
    assert!(!manager.is_chisel_running());
}

#[test]
fn test_anvil_status_when_not_running() {
    let manager = SessionManager::new();
    let status = manager.anvil_status(0).unwrap();
    assert!(status.contains("not currently running"));
}

#[test]
fn test_chisel_status_when_not_running() {
    let manager = SessionManager::new();
    let status = manager.chisel_status(0).unwrap();
    assert!(status.contains("not currently running"));
}

#[test]
fn test_stop_anvil_when_not_running() {
    let mut manager = SessionManager::new();
    let result = manager.stop_anvil();
    assert!(result.is_err(), "Expected error when stopping non-running anvil");
}

#[test]
fn test_stop_chisel_when_not_running() {
    let mut manager = SessionManager::new();
    let result = manager.stop_chisel();
    assert!(result.is_err(), "Expected error when stopping non-running chisel");
}

#[test]
fn test_is_anvil_running_initially_false() {
    let manager = SessionManager::new();
    assert!(!manager.is_anvil_running());
}

#[test]
fn test_is_chisel_running_initially_false() {
    let manager = SessionManager::new();
    assert!(!manager.is_chisel_running());
}

#[test]
fn test_stop_all_when_empty() {
    let mut manager = SessionManager::new();
    let results = manager.stop_all();
    assert!(results.is_empty());
}

#[test]
fn test_session_type_equality() {
    assert_eq!(SessionType::Anvil, SessionType::Anvil);
    assert_eq!(SessionType::Chisel, SessionType::Chisel);
    assert_ne!(SessionType::Anvil, SessionType::Chisel);
}

#[test]
fn test_session_type_clone() {
    let anvil = SessionType::Anvil;
    let anvil_clone = anvil.clone();
    assert_eq!(anvil, anvil_clone);
}

#[test]
fn test_chisel_eval_without_session() {
    let manager = SessionManager::new();
    let result = manager.chisel_eval("uint256 x = 42;".to_string(), &None);

    assert!(result.is_err(), "Expected error when evaluating without chisel session");
}

#[test]
fn test_start_anvil_with_invalid_path() {
    let mut manager = SessionManager::new();
    let invalid_path = Some("/nonexistent/path/to/foundry".to_string());

    let plan = manager.start_anvil(&invalid_path, 8545, None, None, None, None).unwrap();
    assert_eq!(plan.program, "/nonexistent/path/to/foundry/anvil");

    let result = manager.anvil_spawned(false, 0, 8545, 0);

    assert!(result.is_err());
    assert!(!manager.is_anvil_running());
    assert!(manager.stop_anvil().is_err());
}

#[test]
fn test_start_chisel_with_invalid_path() {
    let mut manager = SessionManager::new();
    let invalid_path = Some("/nonexistent/path/to/foundry".to_string());

    let probe = manager.start_chisel(&invalid_path).unwrap();
    assert_eq!(probe.program, "/nonexistent/path/to/foundry/chisel");

    let result = manager.chisel_probed(false, false, 0, 0);

    assert!(result.is_err());
    assert!(!manager.is_chisel_running());
}

#[test]
fn test_sessions_hashmap() {
    let mut manager = SessionManager::new();
    assert_eq!(manager.stop_all().len(), 0);

    let _ = manager.start_anvil(&Some("/invalid".to_string()), 8545, None, None, None, None);
    let _ = manager.anvil_spawned(false, 0, 8545, 0);
    assert_eq!(manager.stop_all().len(), 0);
}

#[test]
fn a_node_that_could_not_be_started_is_not_recorded() {
    let mut manager = SessionManager::new();
    let failed = manager.anvil_spawned(false, 4242, 8545, 7);
    assert_eq!(
        failed,
        Err(SessionError::SpawnFailure(SessionType::Anvil, SessionOperation::Start))
    );
    assert_eq!(failed.unwrap_err().to_string(), "Failed to start Anvil. Is Foundry installed?");
    assert!(!manager.is_anvil_running());
    assert_eq!(manager.anvil_status(8).unwrap(), "Anvil is not currently running.");

    manager.anvil_spawned(true, 1, 8545, 7).unwrap();
    assert_eq!(
        manager.anvil_spawned(false, 2, 8546, 9),
        Err(SessionError::SessionAlreadyRunning(SessionType::Anvil))
    );
    assert_eq!(manager.stop_anvil().unwrap().pid, 1);
}

#[test]
fn an_evaluation_whose_program_could_not_be_started_fails() {
    assert_eq!(eval_spawned(true), Ok(()));
    assert_eq!(
        eval_spawned(false),
        Err(SessionError::SpawnFailure(SessionType::Chisel, SessionOperation::Eval))
    );
    assert_eq!(eval_spawned(false).unwrap_err().to_string(), "Failed to start Chisel");
}

#[test]
fn starting_the_local_node_twice_fails_the_second_time() {
    let mut manager = SessionManager::new();
    assert!(manager.start_anvil(&None, 18546, None, None, None, None).is_ok());
    let started = manager.anvil_spawned(true, 4242, 18546, 1_000).unwrap();
    assert_eq!(
        started,
        "Anvil started successfully on port 18546. RPC URL: http://localhost:18546\nProcess ID: 4242"
    );
    assert!(manager.is_anvil_running());

    let second = manager.start_anvil(&None, 18546, None, None, None, None);
    assert_eq!(second, Err(SessionError::SessionAlreadyRunning(SessionType::Anvil)));
    assert!(second.unwrap_err().to_string().contains("already running"));
    assert_eq!(
        manager.anvil_spawned(true, 1, 2, 3),
        Err(SessionError::SessionAlreadyRunning(SessionType::Anvil))
    );

    let record = manager.stop_anvil().unwrap();
    assert_eq!(
        record,
        SessionInfo {
            session_type: SessionType::Anvil,
            pid: 4242,
            port: Some(18546),
            created_at: 1_000,
        }
    );
    assert!(!manager.is_anvil_running());
    let again = manager.stop_anvil();
    assert_eq!(
        again,
        Err(SessionError::SessionNotRunning(SessionType::Anvil, SessionOperation::Stop))
    );
    assert_eq!(again.unwrap_err().to_string(), "No Anvil session is currently running.");
}

#[test]
fn anvil_lifecycle_reports_status() {
    let mut manager = SessionManager::new();
    manager.anvil_spawned(true, 77, 18545, 5_000).unwrap();
    let status = manager.anvil_status(12_999).unwrap();
    assert!(status.contains("running"));
    assert!(status.contains("18545"));
    assert_eq!(
        status,
        "Anvil is running on port 18545. RPC URL: http://localhost:18545\nUptime: 7s"
    );
    assert_eq!(
        manager.anvil_status(4_999).unwrap(),
        "Anvil is running on port 18545. RPC URL: http://localhost:18545\nUptime: unknown"
    );
    assert!(!manager.is_chisel_running());
    assert_eq!(manager.chisel_status(0).unwrap(), "Chisel session is not currently running.");
}

#[test]
fn anvil_arguments_follow_the_settings() {
    let manager = SessionManager::new();
    let plain = manager.start_anvil(&None, 8545, None, None, None, None).unwrap();
    assert_eq!(
        plain,
        CommandSpec {
            command: "anvil".to_string(),
            program: "anvil".to_string(),
            args: strings(&["--port", "8545"]),
        }
    );
    let full = manager
        .start_anvil(
            &Some("/opt/bin".to_string()),
            65535,
            Some("https://eth.llamarpc.com".to_string()),
            Some(12345678),
            Some(0),
            Some(18446744073709551615),
        )
        .unwrap();
    assert_eq!(full.program, "/opt/bin/anvil");
    assert_eq!(
        full.args,
        strings(&[
            "--port",
            "65535",
            "--fork-url",
            "https://eth.llamarpc.com",
            "--fork-block-number",
            "12345678",
            "--accounts",
            "0",
            "--block-time",
            "18446744073709551615",
        ])
    );
}

#[test]
fn chisel_lifecycle() {
    let mut manager = SessionManager::new();
    let probe = manager.start_chisel(&None).unwrap();
    assert_eq!(probe.program, "chisel");
    assert_eq!(probe.args, strings(&["--help"]));

    assert_eq!(manager.chisel_probed(true, false, 9, 0), Err(SessionError::ProbeFailed));
    assert_eq!(
        manager.chisel_probed(false, true, 9, 0),
        Err(SessionError::SpawnFailure(SessionType::Chisel, SessionOperation::Start))
    );
    assert!(!manager.is_chisel_running());

    let started = manager.chisel_probed(true, true, 9, 2_000).unwrap();
    assert!(started.starts_with("Chisel REPL session started successfully.\n\n"));
    assert!(started.ends_with("- Use !help for chisel commands"));
    assert!(manager.is_chisel_running());

    let second = manager.start_chisel(&None);
    assert_eq!(second, Err(SessionError::SessionAlreadyRunning(SessionType::Chisel)));
    assert!(second.unwrap_err().to_string().contains("already running"));
    assert_eq!(
        manager.chisel_probed(true, true, 10, 3_000),
        Err(SessionError::SessionAlreadyRunning(SessionType::Chisel))
    );

    let status = manager.chisel_status(63_500).unwrap();
    assert!(status.contains("active"));
    assert_eq!(
        status,
        "Chisel REPL session is active.\nUptime: 61s\nUse chisel_session_eval to execute code."
    );

    let plan = manager
        .chisel_eval("uint256 x = 42;".to_string(), &Some("/opt/bin".to_string()))
        .unwrap();
    assert_eq!(
        plan,
        EvalPlan {
            command: CommandSpec {
                command: "chisel".to_string(),
                program: "/opt/bin/chisel".to_string(),
                args: vec![],
            },
            input: "uint256 x = 42;\n!quit\n".to_string(),
        }
    );
    assert!(manager.is_chisel_running());

    let record = manager.stop_chisel().unwrap();
    assert_eq!(record.session_type, SessionType::Chisel);
    assert_eq!(record.pid, 9);
    assert_eq!(record.port, None);
    assert!(!manager.is_chisel_running());
    assert_eq!(
        manager.stop_chisel().unwrap_err().to_string(),
        "No Chisel session is currently running."
    );
}

#[test]
fn eval_without_session_is_session_not_running() {
    let manager = SessionManager::new();
    let result = manager.chisel_eval("1 + 1".to_string(), &None);
    assert_eq!(
        result,
        Err(SessionError::SessionNotRunning(SessionType::Chisel, SessionOperation::Eval))
    );
    assert_eq!(
        result.unwrap_err().to_string(),
        "No Chisel session is running. Start one with chisel_session_start."
    );
}

#[test]
fn eval_times_out_after_ten_seconds() {
    assert_eq!(EVAL_TIMEOUT_MS, 10_000);
    assert_eq!(EVAL_POLL_INTERVAL_MS, 100);
    assert_eq!(eval_poll(true, 0), Ok(PollStep::Collect));
    assert_eq!(eval_poll(true, 20_000), Ok(PollStep::Collect));
    assert_eq!(eval_poll(false, 0), Ok(PollStep::Sleep(100)));
    assert_eq!(eval_poll(false, 9_999), Ok(PollStep::Sleep(100)));
    assert_eq!(eval_poll(false, 10_000), Err(SessionError::EvalTimeout));
    assert_eq!(eval_poll(false, u64::MAX), Err(SessionError::EvalTimeout));
    assert_eq!(
        SessionError::EvalTimeout.to_string(),
        "Chisel execution timed out after 10 seconds"
    );
}

#[test]
fn eval_with_only_banner_and_prompts_gives_no_output() {
    let printed = "Welcome to Chisel! Type `!help` to show available commands.\n\u{279c} \n\n\u{279c}\n";
    assert_eq!(chisel_output(printed, ""), "Code executed (no output)");
    assert_eq!(chisel_output("", ""), "Code executed (no output)");
    assert_eq!(chisel_output("  \n\t\n", "\u{279c}"), "Code executed (no output)");
    assert_eq!(chisel_output("Type `!help`", "\n"), "Code executed (no output)");
}

#[test]
fn eval_output_is_cleaned() {
    let printed = "Welcome to Chisel! Type `!help` to show available commands.\n\u{279c} Type: uint256\n\u{251c} Hex: 0x2a\n\u{279c} \n\u{2514} Decimal: 42\n\n  \u{279c}  \nlast\r\n";
    assert_eq!(
        chisel_output(printed, ""),
        "Type: uint256\n\u{251c} Hex: 0x2a\n\u{2514} Decimal: 42\n\nlast"
    );
    assert_eq!(chisel_output("out", "err"), "outerr");
    assert_eq!(chisel_output("a\n", "b\n"), "a\nb");
    assert_eq!(chisel_output("\u{279c} x\n\u{279c}y\n", ""), "x\n\u{279c}y");
    assert_eq!(
        chisel_output("value\nWelcome to Chisel\n", ""),
        "value\nWelcome to Chisel"
    );
    assert_eq!(chisel_output("\u{279c}  two spaces", ""), "two spaces");
}

#[test]
fn stop_outcomes() {
    assert_eq!(
        stop_outcome(SessionType::Anvil, true, true),
        Ok("Anvil has been stopped successfully.".to_string())
    );
    assert_eq!(stop_outcome(SessionType::Anvil, false, true), Err(SessionError::KillFailed));
    assert_eq!(stop_outcome(SessionType::Anvil, false, false), Err(SessionError::KillFailed));
    assert_eq!(stop_outcome(SessionType::Anvil, true, false), Err(SessionError::WaitFailed));
    assert_eq!(
        stop_outcome(SessionType::Chisel, false, false),
        Ok("Chisel session has been stopped successfully.".to_string())
    );
    assert_eq!(SessionError::KillFailed.to_string(), "Failed to kill Anvil process");
    assert_eq!(SessionError::WaitFailed.to_string(), "Failed to wait for Anvil process");
}

#[test]
fn teardown_collects_both_sessions_and_never_fails() {
    let mut manager = SessionManager::new();
    manager.chisel_probed(true, true, 2, 20).unwrap();
    manager.anvil_spawned(true, 1, 8545, 10).unwrap();
    let records = manager.stop_all();
    assert_eq!(records.len(), 2);
    assert_eq!(records[0].session_type, SessionType::Anvil);
    assert_eq!(records[1].session_type, SessionType::Chisel);
    assert!(!manager.is_anvil_running());
    assert!(!manager.is_chisel_running());
    assert!(manager.stop_all().is_empty());

    assert_eq!(
        teardown_line(SessionType::Anvil, stop_outcome(SessionType::Anvil, true, true)),
        "Anvil has been stopped successfully."
    );
    assert_eq!(
        teardown_line(SessionType::Anvil, stop_outcome(SessionType::Anvil, false, true)),
        "Error stopping Anvil: Failed to kill Anvil process"
    );
    assert_eq!(
        teardown_line(SessionType::Chisel, Err(SessionError::WaitFailed)),
        "Error stopping Chisel: Failed to wait for Anvil process"
    );
}

#[test]
fn error_messages_are_exact() {
    assert_eq!(
        SessionError::SessionAlreadyRunning(SessionType::Anvil).to_string(),
        "Anvil is already running. Stop it first with anvil_session_stop."
    );
    assert_eq!(
        SessionError::SessionAlreadyRunning(SessionType::Chisel).to_string(),
        "Chisel is already running. Stop it first with chisel_session_stop."
    );
    assert_eq!(
        SessionError::SpawnFailure(SessionType::Anvil, SessionOperation::Start).to_string(),
        "Failed to start Anvil. Is Foundry installed?"
    );
    assert_eq!(
        SessionError::SpawnFailure(SessionType::Chisel, SessionOperation::Start).to_string(),
        "Failed to start Chisel. Is Foundry installed?"
    );
    assert_eq!(
        SessionError::SpawnFailure(SessionType::Chisel, SessionOperation::Eval).to_string(),
        "Failed to start Chisel"
    );
    assert_eq!(
        SessionError::ProbeFailed.to_string(),
        "Chisel command failed. Is Foundry installed?"
    );
}

#[test]
fn fixed_intervals() {
    assert_eq!(ANVIL_WARM_UP_MS, 1000);
    assert_eq!(CHISEL_STOP_GRACE_MS, 500);
}
