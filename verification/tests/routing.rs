use open_interpreter::routing::{
    route_top_level_command, scan_top_level_command, should_delegate_directly, TopLevelCommand,
};

fn args(words: &[&str]) -> Vec<String> {
    words.iter().map(|word| word.to_string()).collect()
}

#[test]
fn mcp_subcommand_delegates_to_app_server_cli() {
    assert_eq!(
        scan_top_level_command(&args(&["mcp", "--help"])),
        Some(TopLevelCommand::Passthrough)
    );
}

#[test]
fn acp_subcommand_routes_to_acp_server() {
    assert_eq!(
        scan_top_level_command(&args(&["acp"])),
        Some(TopLevelCommand::Acp)
    );
}

#[test]
fn acp_subcommand_after_root_options_routes_to_acp_server() {
    assert_eq!(
        scan_top_level_command(&args(&["-c", "model=\"gpt-5.4\"", "acp"])),
        Some(TopLevelCommand::Acp)
    );
}

#[test]
fn mcp_help_routes_to_app_server_cli_before_help_passthrough() {
    assert_eq!(
        route_top_level_command(&args(&["mcp", "--help"])),
        Some(TopLevelCommand::Passthrough)
    );
}

#[test]
fn root_help_routes_to_app_server_cli() {
    assert_eq!(
        route_top_level_command(&args(&["--help"])),
        Some(TopLevelCommand::Passthrough)
    );
}

#[test]
fn mcp_subcommand_after_root_options_delegates_to_app_server_cli() {
    assert_eq!(
        scan_top_level_command(&args(&["-c", "model=\"gpt-5.4\"", "mcp", "list"])),
        Some(TopLevelCommand::Passthrough)
    );
}

#[test]
fn exec_subcommand_delegates_to_app_server_cli() {
    assert_eq!(
        scan_top_level_command(&args(&["exec", "hello"])),
        Some(TopLevelCommand::Passthrough)
    );
}

#[test]
fn resume_subcommand_delegates_to_app_server_cli() {
    assert_eq!(
        scan_top_level_command(&args(&["resume", "--last"])),
        Some(TopLevelCommand::Passthrough)
    );
}

#[test]
fn update_help_routes_to_app_server_cli() {
    assert_eq!(
        route_top_level_command(&args(&["update", "--help"])),
        Some(TopLevelCommand::Passthrough)
    );
}

#[test]
fn help_subcommand_routes_to_app_server_cli() {
    assert_eq!(
        route_top_level_command(&args(&["help", "update"])),
        Some(TopLevelCommand::Passthrough)
    );
}

#[test]
fn nothing_at_all_names_no_command() {
    assert_eq!(scan_top_level_command(&args(&[])), None);
    assert_eq!(route_top_level_command(&args(&[])), None);
}

#[test]
fn a_prompt_names_no_command() {
    assert_eq!(route_top_level_command(&args(&["fix the build"])), None);
}

#[test]
fn nothing_is_named_behind_a_double_dash() {
    assert_eq!(scan_top_level_command(&args(&["--", "kill"])), None);
    assert_eq!(
        scan_top_level_command(&args(&["--oss", "--", "acp"])),
        None
    );
}

#[test]
fn an_option_swallows_its_value() {
    assert_eq!(scan_top_level_command(&args(&["--model", "kill"])), None);
    assert_eq!(scan_top_level_command(&args(&["--model"])), None);
    assert_eq!(
        scan_top_level_command(&args(&["--model=kill", "acp"])),
        Some(TopLevelCommand::Acp)
    );
}

#[test]
fn an_unknown_short_option_ends_the_search() {
    assert_eq!(scan_top_level_command(&args(&["-x", "acp"])), None);
}

#[test]
fn kill_takes_note_of_force() {
    for flag in ["-f", "--force"] {
        assert_eq!(
            scan_top_level_command(&args(&["kill", "now", flag])),
            Some(TopLevelCommand::Kill {
                force: true,
                remote_present: false,
                remote_auth_token_present: false,
            })
        );
    }
    assert_eq!(
        scan_top_level_command(&args(&["--force", "kill"])),
        Some(TopLevelCommand::Kill {
            force: false,
            remote_present: false,
            remote_auth_token_present: false,
        })
    );
}

#[test]
fn kill_takes_note_of_remote_options() {
    let cases: [(&[&str], bool, bool); 6] = [
        (&["--remote", "ws://h", "kill"], true, false),
        (&["--url", "ws://h", "kill"], true, false),
        (&["--remote=ws://h", "kill"], true, false),
        (&["--url=ws://h", "kill"], true, false),
        (&["--remote-auth-token-env", "T", "kill"], false, true),
        (&["--remote-auth-token-env=T", "--remote=x", "kill"], true, true),
    ];
    for (words, remote_present, remote_auth_token_present) in cases {
        assert_eq!(
            scan_top_level_command(&args(words)),
            Some(TopLevelCommand::Kill {
                force: false,
                remote_present,
                remote_auth_token_present,
            })
        );
    }
}

#[test]
fn provider_auth_needs_a_provider() {
    assert_eq!(
        scan_top_level_command(&args(&["provider-auth", "kimi"])),
        Some(TopLevelCommand::ProviderAuth {
            provider_id: "kimi".to_string()
        })
    );
    assert_eq!(scan_top_level_command(&args(&["provider-auth"])), None);
}

#[test]
fn help_and_version_flags_are_seen_anywhere() {
    for flag in ["-h", "--help", "-V", "--version"] {
        assert!(should_delegate_directly(&args(&["hello", flag])));
    }
    assert!(!should_delegate_directly(&args(&["hello", "help"])));
    assert_eq!(
        route_top_level_command(&args(&["acp", "--help"])),
        Some(TopLevelCommand::Acp)
    );
}
