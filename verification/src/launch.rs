//! How the interpreter is launched: which options go together, where the terminal interface connects
//! to, and which program is started.
use vstd::prelude::*;
use vstd::string::StringExecFns;

use crate::routing::{
    any_remote, any_remote_token, command_at, leading_options, route_top_level_command, routed,
    words, CommandView, TopLevelCommand,
};
use crate::text::{concat, same_text, trim};

verus! {

/// Why the interpreter could not do what it was asked to do.
#[derive(Debug, PartialEq, Eq)]
pub enum LaunchError {
    /// A command for the local daemon came with remote options.
    DaemonIsLocal,
    /// The variable that should hold the remote token cannot be read.
    TokenUnreadable { env_var_name: String },
    /// The variable that should hold the remote token holds nothing but white space.
    TokenEmpty { env_var_name: String },
    /// A remote token without a remote endpoint.
    TokenWithoutRemote,
    /// An embedded app server together with an app server program.
    EmbeddedWithServerBin,
    /// An embedded app server together with a remote endpoint.
    EmbeddedWithRemote,
    /// The terminal interface ended with an error.
    Fatal { message: String },
    /// The provider has no token that could be printed.
    UnsupportedProvider { provider_id: String },
    /// The daemon runs, and nobody can be asked whether to stop it.
    NotInteractive,
    /// The path of the running program has no parent directory.
    MissingParent,
    /// There is no directory that could be the home of the interpreter.
    NoHome,
}

impl LaunchError {
    /// The error in words.
    pub open spec fn spec_message(&self) -> Seq<char> {
        match self {
            LaunchError::DaemonIsLocal =>
                "daemon commands only manage the local Open Interpreter daemon"@,
            LaunchError::TokenUnreadable { env_var_name } =>
                "failed to read remote auth token from environment variable `"@ + env_var_name@
                + "`"@,
            LaunchError::TokenEmpty { env_var_name } => "environment variable `"@ + env_var_name@
                + "` contained an empty auth token"@,
            LaunchError::TokenWithoutRemote => "`--remote-auth-token-env` requires `--remote`."@,
            LaunchError::EmbeddedWithServerBin =>
                "`--embedded-app-server` conflicts with `--app-server-bin`."@,
            LaunchError::EmbeddedWithRemote =>
                "`--embedded-app-server` conflicts with `--remote`."@,
            LaunchError::Fatal { message } => message@,
            LaunchError::UnsupportedProvider { provider_id } =>
                "unsupported provider auth command for `"@ + provider_id@ + "`"@,
            LaunchError::NotInteractive =>
                "daemon is running; rerun with `interpreter kill --force` to stop it non-interactively"@,
            LaunchError::MissingParent => "interpreter path missing parent directory"@,
            LaunchError::NoHome => "failed to resolve Open Interpreter home directory"@,
        }
    }

    /// The error in words.
    pub fn message(&self) -> (message: String)
        ensures
            message@ == self.spec_message(),
    {
        match self {
            LaunchError::DaemonIsLocal =>
                "daemon commands only manage the local Open Interpreter daemon".to_owned(),
            LaunchError::TokenUnreadable { env_var_name } => {
                let mut out = concat(
                    "failed to read remote auth token from environment variable `",
                    env_var_name.as_str(),
                );
                out.append("`");
                out
            },
            LaunchError::TokenEmpty { env_var_name } => {
                let mut out = concat("environment variable `", env_var_name.as_str());
                out.append("` contained an empty auth token");
                out
            },
            LaunchError::TokenWithoutRemote =>
                "`--remote-auth-token-env` requires `--remote`.".to_owned(),
            LaunchError::EmbeddedWithServerBin =>
                "`--embedded-app-server` conflicts with `--app-server-bin`.".to_owned(),
            LaunchError::EmbeddedWithRemote =>
                "`--embedded-app-server` conflicts with `--remote`.".to_owned(),
            LaunchError::Fatal { message } => message.clone(),
            LaunchError::UnsupportedProvider { provider_id } => {
                let mut out = concat(
                    "unsupported provider auth command for `",
                    provider_id.as_str(),
                );
                out.append("`");
                out
            },
            LaunchError::NotInteractive =>
                "daemon is running; rerun with `interpreter kill --force` to stop it non-interactively".to_owned(),
            LaunchError::MissingParent => "interpreter path missing parent directory".to_owned(),
            LaunchError::NoHome => "failed to resolve Open Interpreter home directory".to_owned(),
        }
    }
}

/// The options that say where the app server is.
#[derive(Debug, PartialEq, Eq)]
pub struct LaunchOptions {
    /// The address of a remote endpoint.
    pub remote: Option<String>,
    /// The variable that holds the token for the remote endpoint.
    pub remote_auth_token_env: Option<String>,
    /// The app server's program.
    pub app_server_bin: Option<String>,
    /// Whether the app server runs within the terminal interface.
    pub embedded_app_server: bool,
}

impl Default for LaunchOptions {
    fn default() -> (launch: LaunchOptions)
        ensures
            launch.remote is None,
            launch.remote_auth_token_env is None,
            launch.app_server_bin is None,
            !launch.embedded_app_server,
    {
        LaunchOptions {
            remote: None,
            remote_auth_token_env: None,
            app_server_bin: None,
            embedded_app_server: false,
        }
    }
}

/// Whether the options speak of a remote endpoint.
pub open spec fn speaks_of_remote(launch: LaunchOptions) -> bool {
    launch.remote is Some || launch.remote_auth_token_env is Some
}

/// Refuses a command for the local daemon that comes with remote options.
pub fn ensure_daemon_command_uses_local_daemon(launch: &LaunchOptions) -> (admitted: Result<
    (),
    LaunchError,
>)
    ensures
        admitted is Err <==> speaks_of_remote(*launch),
        admitted matches Err(error) ==> error is DaemonIsLocal,
{
    if launch.remote.is_some() || launch.remote_auth_token_env.is_some() {
        return Err(LaunchError::DaemonIsLocal);
    }
    Ok(())
}

/// The commands of the interpreter's command line.
#[derive(Debug, Clone, Copy, PartialEq, Eq, Structural)]
pub enum SubcommandKind {
    Resume,
    Fork,
    Exec,
    Kill,
    Mcp,
    Update,
    AppServer,
}

/// Whether a command is about the local daemon only.
pub open spec fn needs_local_daemon(subcommand: Option<SubcommandKind>) -> bool {
    subcommand == Some(SubcommandKind::Kill) || subcommand == Some(SubcommandKind::Mcp)
}

/// Refuses a command that is about the local daemon only where the options speak of a remote
/// endpoint. Every other command is admitted.
pub fn admit_subcommand(subcommand: Option<SubcommandKind>, launch: &LaunchOptions) -> (admitted:
    Result<(), LaunchError>)
    ensures
        admitted is Err <==> needs_local_daemon(subcommand) && speaks_of_remote(*launch),
        admitted matches Err(error) ==> error is DaemonIsLocal,
{
    match subcommand {
        Some(SubcommandKind::Kill) | Some(SubcommandKind::Mcp) => {
            ensure_daemon_command_uses_local_daemon(launch)
        },
        _ => Ok(()),
    }
}

/// Whether what was read of a variable holds a token: something other than white space.
pub open spec fn holds_token(value: Option<String>) -> bool {
    value matches Some(text) && exists|i: int|
        0 <= i < text@.len() && !crate::text::is_white_space(#[trigger] text@[i])
}

/// Whether `error` says why `value`, read of the variable `env_var_name`, holds no token.
pub open spec fn token_error(
    error: LaunchError,
    env_var_name: Seq<char>,
    value: Option<String>,
) -> bool {
    match value {
        None => error matches LaunchError::TokenUnreadable { env_var_name: name } && name@
            == env_var_name,
        Some(_) => error matches LaunchError::TokenEmpty { env_var_name: name } && name@
            == env_var_name,
    }
}

/// The token for a remote endpoint, out of what was read of the variable `env_var_name`. It is refused
/// where the variable could not be read or holds nothing but white space.
pub fn read_remote_auth_token_from_env_var(env_var_name: &str, value: Option<String>) -> (token:
    Result<String, LaunchError>)
    ensures
        token is Ok <==> holds_token(value),
        token matches Ok(text) ==> value == Some(text),
        token matches Err(error) ==> token_error(error, env_var_name@, value),
{
    match value {
        None => Err(LaunchError::TokenUnreadable { env_var_name: env_var_name.to_owned() }),
        Some(token) => {
            proof {
                crate::text::lemma_trimmed_empty(token@);
            }
            if trim(token.as_str()).len() == 0 {
                Err(LaunchError::TokenEmpty { env_var_name: env_var_name.to_owned() })
            } else {
                Ok(token)
            }
        },
    }
}

/// Where the terminal interface connects to.
#[derive(Debug, Clone, Copy, PartialEq, Eq, Structural)]
pub enum TuiMode {
    /// To the remote endpoint.
    Remote,
    /// To an app server of its own.
    Embedded,
    /// To the local daemon, which is started where it does not run.
    LocalDaemon,
}

/// Where the terminal interface connects to, or which options do not go together.
pub open spec fn tui_mode(launch: LaunchOptions) -> Result<TuiMode, LaunchError> {
    if launch.remote_auth_token_env is Some && launch.remote is None {
        Err(LaunchError::TokenWithoutRemote)
    } else if launch.embedded_app_server && launch.app_server_bin is Some {
        Err(LaunchError::EmbeddedWithServerBin)
    } else if launch.embedded_app_server && launch.remote is Some {
        Err(LaunchError::EmbeddedWithRemote)
    } else if launch.remote is Some {
        Ok(TuiMode::Remote)
    } else if launch.embedded_app_server {
        Ok(TuiMode::Embedded)
    } else {
        Ok(TuiMode::LocalDaemon)
    }
}

/// Where the terminal interface connects to; options that do not go together are refused.
pub fn plan_tui(launch: &LaunchOptions) -> (mode: Result<TuiMode, LaunchError>)
    ensures
        mode == tui_mode(*launch),
{
    if launch.remote_auth_token_env.is_some() && launch.remote.is_none() {
        return Err(LaunchError::TokenWithoutRemote);
    }
    if launch.embedded_app_server && launch.app_server_bin.is_some() {
        return Err(LaunchError::EmbeddedWithServerBin);
    }
    if launch.remote.is_some() {
        if launch.embedded_app_server {
            return Err(LaunchError::EmbeddedWithRemote);
        }
        return Ok(TuiMode::Remote);
    }
    if launch.embedded_app_server {
        return Ok(TuiMode::Embedded);
    }
    Ok(TuiMode::LocalDaemon)
}

/// How the terminal interface is run.
#[derive(Debug, PartialEq, Eq)]
pub enum TuiPlan {
    /// On the remote endpoint, with the token for it where there is one.
    Remote { token: Option<String> },
    /// On an app server of its own.
    Embedded,
    /// On the local daemon.
    LocalDaemon,
}

/// A run of the terminal interface.
#[derive(Debug, PartialEq, Eq)]
pub struct TuiRun {
    /// The prompt that it starts with.
    pub prompt: Option<String>,
    /// What it runs on.
    pub plan: TuiPlan,
}

/// Whether `normalized` is the prompt `prompt` with its line endings as line feeds.
pub open spec fn prompt_normalized(prompt: Option<String>, normalized: Option<String>) -> bool {
    &&& normalized is Some <==> prompt is Some
    &&& normalized matches Some(text) ==> text@ == crate::lines::newlines_normalized(
        prompt->Some_0@,
    )
}

/// Whether the variable that should hold the remote token is named and holds none.
pub open spec fn lacks_token(launch: LaunchOptions, value: Option<String>) -> bool {
    launch.remote_auth_token_env is Some && !holds_token(value)
}

/// What the terminal interface runs on where the options go together and lead to `mode`.
pub open spec fn plan_for(launch: LaunchOptions, value: Option<String>, mode: TuiMode) -> TuiPlan {
    match mode {
        TuiMode::Remote => TuiPlan::Remote {
            token: if launch.remote_auth_token_env is Some {
                value
            } else {
                None
            },
        },
        TuiMode::Embedded => TuiPlan::Embedded,
        TuiMode::LocalDaemon => TuiPlan::LocalDaemon,
    }
}

/// How the terminal interface is run, and with which prompt. `value` is what was read of the variable
/// that the options name; it is missing where none is named or the variable could not be read. A token
/// that is missing is told before options that do not go together.
pub fn run_tui(launch: &LaunchOptions, prompt: Option<String>, value: Option<String>) -> (run: Result<
    TuiRun,
    LaunchError,
>)
    ensures
        run is Ok <==> !lacks_token(*launch, value) && tui_mode(*launch) is Ok,
        lacks_token(*launch, value) ==> (run matches Err(error) && token_error(
            error,
            launch.remote_auth_token_env->Some_0@,
            value,
        )),
        !lacks_token(*launch, value) && tui_mode(*launch) is Err ==> (run matches Err(error) && error
            == tui_mode(*launch)->Err_0),
        run matches Ok(run) ==> {
            &&& prompt_normalized(prompt, run.prompt)
            &&& run.plan == plan_for(*launch, value, tui_mode(*launch)->Ok_0)
        },
{
    let prompt = normalize_prompt(prompt);
    let token = match &launch.remote_auth_token_env {
        Some(name) => match read_remote_auth_token_from_env_var(name.as_str(), value) {
            Ok(token) => Some(token),
            Err(error) => {
                return Err(error);
            },
        },
        None => None,
    };
    match plan_tui(launch) {
        Ok(TuiMode::Remote) => Ok(TuiRun { prompt, plan: TuiPlan::Remote { token } }),
        Ok(TuiMode::Embedded) => Ok(TuiRun { prompt, plan: TuiPlan::Embedded }),
        Ok(TuiMode::LocalDaemon) => Ok(TuiRun { prompt, plan: TuiPlan::LocalDaemon }),
        Err(error) => Err(error),
    }
}

/// The model that is shown while the interface starts; the word `default` stands for none.
pub fn startup_model_display(model_display: String) -> (shown: Option<String>)
    ensures
        shown == if model_display@ == "default"@ {
            None::<String>
        } else {
            Some(model_display)
        },
{
    if same_text(model_display.as_str(), "default") {
        None
    } else {
        Some(model_display)
    }
}

/// The prompt that the terminal interface starts with, with its line endings as line feeds.
pub fn normalize_prompt(prompt: Option<String>) -> (normalized: Option<String>)
    ensures
        prompt_normalized(prompt, normalized),
{
    match prompt {
        Some(prompt) => Some(crate::lines::normalize_newlines(prompt.as_str())),
        None => None,
    }
}

/// Why the terminal interface ended.
#[derive(Debug, PartialEq, Eq)]
pub enum ExitReason {
    UserRequested,
    Fatal(String),
}

/// The end of the terminal interface as a result.
pub fn handle_app_exit(exit_reason: ExitReason) -> (result: Result<(), LaunchError>)
    ensures
        result is Ok <==> exit_reason is UserRequested,
        result matches Err(error) ==> (error matches LaunchError::Fatal { message } && exit_reason
            == ExitReason::Fatal(message)),
{
    match exit_reason {
        ExitReason::UserRequested => Ok(()),
        ExitReason::Fatal(message) => Err(LaunchError::Fatal { message }),
    }
}

/// The overrides of two places, those of the first in front: of two for one key the later one counts.
pub fn merge_overrides(first: Vec<String>, second: Vec<String>) -> (merged: Vec<String>)
    ensures
        merged@ == first@ + second@,
{
    let mut merged = first;
    let mut second = second;
    merged.append(&mut second);
    merged
}

/// What `interpreter update` was asked to do.
#[derive(Debug, Clone, Copy, PartialEq, Eq, Structural)]
pub enum UpdateSubcommand {
    Status,
    Now,
    On,
    Off,
}

/// What `interpreter update` does.
#[derive(Debug, PartialEq, Eq)]
pub enum UpdatePlan {
    /// It prints a notice.
    Print { text: String },
    /// It runs the installer.
    Install { program: String, args: Vec<String> },
}

/// The notice that `interpreter update` prints.
pub open spec fn update_notice(subcommand: UpdateSubcommand) -> Seq<char> {
    match subcommand {
        UpdateSubcommand::On =>
            "Automatic update checks are configured from the interactive TUI with `/update-on`."@,
        UpdateSubcommand::Off =>
            "Automatic update checks are configured from the interactive TUI with `/update-off`."@,
        _ =>
            "Standalone updates are managed by the installer. Run `interpreter update now` to reinstall the latest release."@,
    }
}

/// The program that installs the latest release, and its last argument.
pub open spec fn installer(windows: bool) -> (Seq<char>, Seq<char>) {
    if windows {
        ("powershell"@, "irm https://openinterpreter.com/install.ps1|iex"@)
    } else {
        ("sh"@, "curl -fsSL https://openinterpreter.com/install.sh | sh"@)
    }
}

/// What `interpreter update` does; without a word behind it, it tells the status.
pub fn run_update_command(subcommand: Option<UpdateSubcommand>, windows: bool) -> (plan: UpdatePlan)
    ensures
        plan is Install <==> subcommand == Some(UpdateSubcommand::Now),
        plan matches UpdatePlan::Install { program, args } ==> {
            &&& program@ == installer(windows).0
            &&& args@.len() == 2
            &&& args@[0]@ == "-c"@
            &&& args@[1]@ == installer(windows).1
        },
        plan matches UpdatePlan::Print { text } ==> text@ == update_notice(
            match subcommand {
                Some(subcommand) => subcommand,
                None => UpdateSubcommand::Status,
            },
        ),
{
    match subcommand.unwrap_or(UpdateSubcommand::Status) {
        UpdateSubcommand::Status => UpdatePlan::Print {
            text: "Standalone updates are managed by the installer. Run `interpreter update now` to reinstall the latest release.".to_owned(),
        },
        UpdateSubcommand::Now => if windows {
            UpdatePlan::Install {
                program: "powershell".to_owned(),
                args: vec![
                    "-c".to_owned(),
                    "irm https://openinterpreter.com/install.ps1|iex".to_owned(),
                ],
            }
        } else {
            UpdatePlan::Install {
                program: "sh".to_owned(),
                args: vec![
                    "-c".to_owned(),
                    "curl -fsSL https://openinterpreter.com/install.sh | sh".to_owned(),
                ],
            }
        },
        UpdateSubcommand::On => UpdatePlan::Print {
            text: "Automatic update checks are configured from the interactive TUI with `/update-on`.".to_owned(),
        },
        UpdateSubcommand::Off => UpdatePlan::Print {
            text: "Automatic update checks are configured from the interactive TUI with `/update-off`.".to_owned(),
        },
    }
}

// ---------------------------------------------------------------------------------------------
// What a command line starts
// ---------------------------------------------------------------------------------------------

/// The programs that `interpreter` hands over to.
#[derive(Debug, Clone, Copy, PartialEq, Eq, Structural)]
pub enum Program {
    /// The command line program.
    Cli,
    /// The terminal interface.
    RootTui,
    /// The ACP server.
    Acp,
}

/// What a command line starts.
#[derive(Debug, PartialEq, Eq)]
pub enum LaunchPlan {
    /// One of the programs takes over.
    Run(Program),
    /// The local daemon is stopped.
    Kill { force: bool },
    /// The token of a provider is printed.
    ProviderAuth { provider_id: String },
}

/// Whether `plan` is what `command` leads to.
pub open spec fn plan_follows(
    plan: Result<LaunchPlan, LaunchError>,
    command: Option<CommandView>,
) -> bool {
    match command {
        None => plan == Ok::<LaunchPlan, LaunchError>(LaunchPlan::Run(Program::RootTui)),
        Some(CommandView::Passthrough) => plan == Ok::<LaunchPlan, LaunchError>(
            LaunchPlan::Run(Program::Cli),
        ),
        Some(CommandView::Acp) => plan == Ok::<LaunchPlan, LaunchError>(
            LaunchPlan::Run(Program::Acp),
        ),
        Some(CommandView::Kill { force, remote_present, remote_auth_token_present }) => if remote_present
            || remote_auth_token_present {
            plan == Err::<LaunchPlan, LaunchError>(LaunchError::DaemonIsLocal)
        } else {
            plan == Ok::<LaunchPlan, LaunchError>(LaunchPlan::Kill { force })
        },
        Some(CommandView::ProviderAuth { provider_id }) => plan matches Ok(
            LaunchPlan::ProviderAuth { provider_id: id },
        ) && id@ == provider_id,
    }
}

/// What a command line starts. A command line that names no command and asks for no help starts the
/// terminal interface.
pub fn plan_launch(raw_args: &Vec<String>) -> (plan: Result<LaunchPlan, LaunchError>)
    ensures
        plan_follows(plan, routed(words(raw_args@))),
{
    match route_top_level_command(raw_args) {
        None => Ok(LaunchPlan::Run(Program::RootTui)),
        Some(TopLevelCommand::Passthrough) => Ok(LaunchPlan::Run(Program::Cli)),
        Some(TopLevelCommand::Acp) => Ok(LaunchPlan::Run(Program::Acp)),
        Some(TopLevelCommand::Kill { force, remote_present, remote_auth_token_present }) => {
            let launch = LaunchOptions {
                remote: if remote_present {
                    Some(String::new())
                } else {
                    None
                },
                remote_auth_token_env: if remote_auth_token_present {
                    Some(String::new())
                } else {
                    None
                },
                app_server_bin: None,
                embedded_app_server: false,
            };
            match ensure_daemon_command_uses_local_daemon(&launch) {
                Ok(_) => Ok(LaunchPlan::Kill { force }),
                Err(error) => Err(error),
            }
        },
        Some(TopLevelCommand::ProviderAuth { provider_id }) => Ok(
            LaunchPlan::ProviderAuth { provider_id },
        ),
    }
}

/// The name of a program's file.
pub open spec fn file_name(program: Program, windows: bool) -> Seq<char> {
    let name = match program {
        Program::Cli => "interpreter-tui"@,
        Program::RootTui => "interpreter-root-tui"@,
        Program::Acp => "interpreter-acp"@,
    };
    if windows {
        name + ".exe"@
    } else {
        name
    }
}

/// The name of a program's file.
pub fn binary_name(program: Program, windows: bool) -> (name: String)
    ensures
        name@ == file_name(program, windows),
{
    let name = match program {
        Program::Cli => "interpreter-tui",
        Program::RootTui => "interpreter-root-tui",
        Program::Acp => "interpreter-acp",
    };
    if windows {
        concat(name, ".exe")
    } else {
        name.to_owned()
    }
}

/// Whether a program gets the arguments of the command line; the ACP server gets none.
pub fn forwards_arguments(program: Program) -> (yes: bool)
    ensures
        yes == !(program is Acp),
{
    match program {
        Program::Acp => false,
        _ => true,
    }
}

/// Where a program's file is.
#[derive(Debug, Clone, Copy, PartialEq, Eq, Structural)]
pub enum BinarySource {
    /// Beside the running program.
    Sibling,
    /// Wherever the search path leads.
    SearchPath,
}

/// Where a program's file is: beside the running program if it exists there. `sibling_exists` is
/// missing where the running program has no directory.
pub fn resolve_binary(sibling_exists: Option<bool>) -> (source: Result<BinarySource, LaunchError>)
    ensures
        source == match sibling_exists {
            None => Err(LaunchError::MissingParent),
            Some(true) => Ok(BinarySource::Sibling),
            Some(false) => Ok(BinarySource::SearchPath),
        },
{
    match sibling_exists {
        None => Err(LaunchError::MissingParent),
        Some(true) => Ok(BinarySource::Sibling),
        Some(false) => Ok(BinarySource::SearchPath),
    }
}

/// Admits the one provider whose token can be printed.
pub fn admit_provider(provider_id: &str, kimi_code_provider_id: &str) -> (admitted: Result<
    (),
    LaunchError,
>)
    ensures
        admitted is Ok <==> provider_id@ == kimi_code_provider_id@,
        admitted matches Err(error) ==> (error matches LaunchError::UnsupportedProvider {
            provider_id: id,
        } && id@ == provider_id@),
{
    if same_text(provider_id, kimi_code_provider_id) {
        Ok(())
    } else {
        Err(LaunchError::UnsupportedProvider { provider_id: provider_id.to_owned() })
    }
}

// ---------------------------------------------------------------------------------------------
// Laws
// ---------------------------------------------------------------------------------------------

/// A remote endpoint bypasses the local daemon: with one, the terminal interface never connects to
/// the daemon, whatever the other options say.
pub proof fn law_remote_bypasses_the_local_daemon(launch: LaunchOptions)
    requires
        launch.remote is Some,
    ensures
        tui_mode(launch) != Ok::<TuiMode, LaunchError>(TuiMode::LocalDaemon),
{
}

/// Without remote options and without an embedded app server the terminal interface connects to the
/// local daemon.
pub proof fn law_local_daemon_is_the_default(launch: LaunchOptions)
    requires
        !speaks_of_remote(launch),
        !launch.embedded_app_server,
    ensures
        tui_mode(launch) == Ok::<TuiMode, LaunchError>(TuiMode::LocalDaemon),
{
}

/// `kill` behind a remote option is refused, wherever among the root options the remote option
/// stands.
pub proof fn law_kill_behind_a_remote_option_is_refused(
    args: Seq<Seq<char>>,
    plan: Result<LaunchPlan, LaunchError>,
)
    requires
        plan_follows(plan, routed(args)),
        command_at(args, 0) is Some,
        args[command_at(args, 0)->Some_0] == "kill"@,
        any_remote(leading_options(args, 0)) || any_remote_token(leading_options(args, 0)),
    ensures
        plan == Err::<LaunchPlan, LaunchError>(LaunchError::DaemonIsLocal),
{
    reveal_strlit("kill");
    reveal_strlit("help");
    reveal_strlit("resume");
    reveal_strlit("fork");
    reveal_strlit("exec");
    reveal_strlit("mcp");
    reveal_strlit("update");
    reveal_strlit("acp");
    assert("kill"@.len() == 4 && "resume"@.len() == 6 && "mcp"@.len() == 3 && "update"@.len() == 6
        && "acp"@.len() == 3);
    assert("kill"@[0] == 'k' && "help"@[0] == 'h' && "fork"@[0] == 'f' && "exec"@[0] == 'e');
}

} // verus!
