use open_interpreter::launch::{
    admit_provider, admit_subcommand, binary_name, ensure_daemon_command_uses_local_daemon,
    forwards_arguments, handle_app_exit, merge_overrides, normalize_prompt, plan_launch, plan_tui,
    read_remote_auth_token_from_env_var, resolve_binary, run_tui, run_update_command,
    startup_model_display, BinarySource, ExitReason, LaunchError, LaunchOptions, LaunchPlan,
    Program, SubcommandKind, TuiMode, TuiPlan, TuiRun, UpdatePlan, UpdateSubcommand,
};

fn args(words: &[&str]) -> Vec<String> {
    words.iter().map(|word| word.to_string()).collect()
}

fn options(remote: bool, token: bool, bin: bool, embedded: bool) -> LaunchOptions {
    LaunchOptions {
        remote: remote.then_some("ws://host".to_string()),
        remote_auth_token_env: token.then_some("TOKEN".to_string()),
        app_server_bin: bin.then_some("/bin/server".to_string()),
        embedded_app_server: embedded,
    }
}

#[test]
fn daemon_commands_reject_remote_options() {
    let err = ensure_daemon_command_uses_local_daemon(&LaunchOptions {
        remote: Some("ws://127.0.0.1:7777".to_string()),
        remote_auth_token_env: None,
        app_server_bin: None,
        embedded_app_server: false,
    })
    .expect_err("remote daemon management should be rejected");

    assert!(err.message().contains("local Open Interpreter daemon"));
}

#[test]
fn daemon_commands_allow_default_launch_options() {
    ensure_daemon_command_uses_local_daemon(&LaunchOptions::default())
        .expect("local daemon management should be allowed");
}

#[test]
fn remote_auth_token_reader_rejects_empty_value() {
    let err = read_remote_auth_token_from_env_var(
        "CODEX_SERVER_CLI_EMPTY_TOKEN",
        Some("".to_string()),
    )
    .expect_err("empty token should fail");
    assert!(err.message().contains("contained an empty auth token"));
}

#[test]
fn remote_auth_token_reader_returns_value() {
    let token =
        read_remote_auth_token_from_env_var("CODEX_SERVER_CLI_TOKEN", Some("abc123".to_string()))
            .expect("non-empty token should parse");
    assert_eq!(token, "abc123");
}

#[test]
fn a_token_is_kept_with_its_white_space() {
    assert_eq!(
        read_remote_auth_token_from_env_var("T", Some(" a b\n".to_string())),
        Ok(" a b\n".to_string())
    );
}

#[test]
fn a_token_of_white_space_or_none_is_refused() {
    let err = read_remote_auth_token_from_env_var("T", Some(" \t\u{3000}\n".to_string()))
        .expect_err("white space is no token");
    assert_eq!(
        err.message(),
        "environment variable `T` contained an empty auth token"
    );
    let err = read_remote_auth_token_from_env_var("T", None).expect_err("the variable is not set");
    assert_eq!(
        err.message(),
        "failed to read remote auth token from environment variable `T`"
    );
}

#[test]
fn only_kill_and_mcp_need_the_local_daemon() {
    let remote = options(true, false, false, false);
    let token = options(false, true, false, false);
    for kind in [SubcommandKind::Kill, SubcommandKind::Mcp] {
        assert_eq!(
            admit_subcommand(Some(kind), &remote),
            Err(LaunchError::DaemonIsLocal)
        );
        assert_eq!(
            admit_subcommand(Some(kind), &token),
            Err(LaunchError::DaemonIsLocal)
        );
        assert_eq!(admit_subcommand(Some(kind), &LaunchOptions::default()), Ok(()));
    }
    for kind in [
        SubcommandKind::Resume,
        SubcommandKind::Fork,
        SubcommandKind::Exec,
        SubcommandKind::Update,
        SubcommandKind::AppServer,
    ] {
        assert_eq!(admit_subcommand(Some(kind), &remote), Ok(()));
    }
    assert_eq!(admit_subcommand(None, &remote), Ok(()));
}

#[test]
fn the_terminal_interface_finds_its_server() {
    assert_eq!(
        plan_tui(&options(false, false, false, false)),
        Ok(TuiMode::LocalDaemon)
    );
    assert_eq!(
        plan_tui(&options(false, false, true, false)),
        Ok(TuiMode::LocalDaemon)
    );
    assert_eq!(
        plan_tui(&options(false, false, false, true)),
        Ok(TuiMode::Embedded)
    );
    assert_eq!(
        plan_tui(&options(true, true, true, false)),
        Ok(TuiMode::Remote)
    );
}

#[test]
fn options_that_do_not_go_together_are_refused() {
    let err = plan_tui(&options(false, true, true, true)).expect_err("token without remote");
    assert_eq!(
        err.message(),
        "`--remote-auth-token-env` requires `--remote`."
    );
    let err = plan_tui(&options(true, true, true, true)).expect_err("embedded with program");
    assert_eq!(
        err.message(),
        "`--embedded-app-server` conflicts with `--app-server-bin`."
    );
    let err = plan_tui(&options(true, false, false, true)).expect_err("embedded with remote");
    assert_eq!(
        err.message(),
        "`--embedded-app-server` conflicts with `--remote`."
    );
}

#[test]
fn a_command_line_starts_its_program() {
    assert_eq!(
        plan_launch(&args(&[])),
        Ok(LaunchPlan::Run(Program::RootTui))
    );
    assert_eq!(
        plan_launch(&args(&["--remote", "ws://host"])),
        Ok(LaunchPlan::Run(Program::RootTui))
    );
    assert_eq!(
        plan_launch(&args(&["exec", "hello"])),
        Ok(LaunchPlan::Run(Program::Cli))
    );
    assert_eq!(
        plan_launch(&args(&["acp"])),
        Ok(LaunchPlan::Run(Program::Acp))
    );
    assert_eq!(
        plan_launch(&args(&["kill", "-f"])),
        Ok(LaunchPlan::Kill { force: true })
    );
    assert_eq!(
        plan_launch(&args(&["provider-auth", "kimi"])),
        Ok(LaunchPlan::ProviderAuth {
            provider_id: "kimi".to_string()
        })
    );
}

#[test]
fn kill_behind_a_remote_option_is_refused() {
    for option in ["--remote=x", "--url=x", "--remote-auth-token-env=T"] {
        assert_eq!(
            plan_launch(&args(&["--oss", option, "-m", "o", "kill"])),
            Err(LaunchError::DaemonIsLocal)
        );
    }
}

#[test]
fn programs_have_their_names() {
    assert_eq!(binary_name(Program::Cli, false), "interpreter-tui");
    assert_eq!(binary_name(Program::Cli, true), "interpreter-tui.exe");
    assert_eq!(binary_name(Program::RootTui, false), "interpreter-root-tui");
    assert_eq!(binary_name(Program::Acp, true), "interpreter-acp.exe");
    assert!(forwards_arguments(Program::Cli));
    assert!(forwards_arguments(Program::RootTui));
    assert!(!forwards_arguments(Program::Acp));
}

#[test]
fn a_program_beside_the_running_one_comes_first() {
    assert_eq!(resolve_binary(Some(true)), Ok(BinarySource::Sibling));
    assert_eq!(resolve_binary(Some(false)), Ok(BinarySource::SearchPath));
    assert_eq!(
        resolve_binary(None).expect_err("no directory").message(),
        "interpreter path missing parent directory"
    );
}

#[test]
fn only_one_provider_prints_its_token() {
    assert_eq!(admit_provider("kimi-code", "kimi-code"), Ok(()));
    assert_eq!(
        admit_provider("other", "kimi-code")
            .expect_err("other provider")
            .message(),
        "unsupported provider auth command for `other`"
    );
}

#[test]
fn prompts_have_line_feeds() {
    assert_eq!(
        normalize_prompt(Some("a\r\nb\rc\r\r\nd\n".to_string())),
        Some("a\nb\nc\n\nd\n".to_string())
    );
    assert_eq!(normalize_prompt(None), None);
}

#[test]
fn the_default_model_is_not_shown() {
    assert_eq!(startup_model_display("default".to_string()), None);
    assert_eq!(
        startup_model_display("gpt".to_string()),
        Some("gpt".to_string())
    );
}

#[test]
fn a_fatal_exit_is_an_error() {
    assert_eq!(handle_app_exit(ExitReason::UserRequested), Ok(()));
    assert_eq!(
        handle_app_exit(ExitReason::Fatal("boom".to_string()))
            .expect_err("fatal")
            .message(),
        "boom"
    );
}

#[test]
fn later_overrides_stand_behind() {
    assert_eq!(
        merge_overrides(args(&["a=1"]), args(&["b=2", "a=3"])),
        args(&["a=1", "b=2", "a=3"])
    );
}

#[test]
fn update_tells_or_installs() {
    let notice = |plan: UpdatePlan| match plan {
        UpdatePlan::Print { text } => text,
        UpdatePlan::Install { .. } => panic!("nothing is to be installed"),
    };
    let status = notice(run_update_command(None, false));
    assert_eq!(
        status,
        "Standalone updates are managed by the installer. Run `interpreter update now` to reinstall the latest release."
    );
    assert_eq!(
        notice(run_update_command(Some(UpdateSubcommand::Status), true)),
        status
    );
    assert!(notice(run_update_command(Some(UpdateSubcommand::On), false)).ends_with("`/update-on`."));
    assert!(
        notice(run_update_command(Some(UpdateSubcommand::Off), false)).ends_with("`/update-off`.")
    );
    assert_eq!(
        run_update_command(Some(UpdateSubcommand::Now), false),
        UpdatePlan::Install {
            program: "sh".to_string(),
            args: args(&[
                "-c",
                "curl -fsSL https://openinterpreter.com/install.sh | sh"
            ]),
        }
    );
    assert_eq!(
        run_update_command(Some(UpdateSubcommand::Now), true),
        UpdatePlan::Install {
            program: "powershell".to_string(),
            args: args(&["-c", "irm https://openinterpreter.com/install.ps1|iex"]),
        }
    );
}

#[test]
fn errors_without_parameters_have_their_words() {
    assert_eq!(
        LaunchError::NotInteractive.message(),
        "daemon is running; rerun with `interpreter kill --force` to stop it non-interactively"
    );
    assert_eq!(
        LaunchError::NoHome.message(),
        "failed to resolve Open Interpreter home directory"
    );
    assert_eq!(
        LaunchError::DaemonIsLocal.message(),
        "daemon commands only manage the local Open Interpreter daemon"
    );
}

fn run_on(plan: TuiPlan) -> Result<TuiRun, LaunchError> {
    Ok(TuiRun { prompt: None, plan })
}

#[test]
fn the_terminal_interface_starts_with_the_normalized_prompt() {
    for (launch, plan) in [
        (options(true, false, false, false), TuiPlan::Remote { token: None }),
        (options(false, false, false, true), TuiPlan::Embedded),
        (LaunchOptions::default(), TuiPlan::LocalDaemon),
    ] {
        assert_eq!(
            run_tui(&launch, Some("a\r\nb\rc".to_string()), None),
            Ok(TuiRun {
                prompt: Some("a\nb\nc".to_string()),
                plan,
            })
        );
    }
}

#[test]
fn the_terminal_interface_gets_the_token_it_was_told_of() {
    let value = || Some("abc123".to_string());
    assert_eq!(
        run_tui(&options(true, true, false, false), None, value()),
        run_on(TuiPlan::Remote { token: value() })
    );
    assert_eq!(
        run_tui(&options(true, false, false, false), None, value()),
        run_on(TuiPlan::Remote { token: None })
    );
    assert_eq!(
        run_tui(&options(false, false, false, true), None, None),
        run_on(TuiPlan::Embedded)
    );
    assert_eq!(
        run_tui(&LaunchOptions::default(), None, None),
        run_on(TuiPlan::LocalDaemon)
    );
}

#[test]
fn a_missing_token_is_told_first() {
    let env_var_name = || "TOKEN".to_string();
    assert_eq!(
        run_tui(&options(false, true, true, true), None, None),
        Err(LaunchError::TokenUnreadable {
            env_var_name: env_var_name()
        })
    );
    assert_eq!(
        run_tui(&options(true, true, false, false), None, Some(" ".to_string())),
        Err(LaunchError::TokenEmpty {
            env_var_name: env_var_name()
        })
    );
    assert_eq!(
        run_tui(&options(false, true, true, true), None, Some("t".to_string())),
        Err(LaunchError::TokenWithoutRemote)
    );
}
