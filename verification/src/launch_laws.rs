//! What the interpreter does when it is launched, in terms of the options, the answers and the
//! environment.
use vstd::prelude::*;

use crate::daemon::{confirms, forced_stop, next_action, ForcedStop, KillAction, KillEvent, KillReport};
use crate::home::{exported_names, is_set, ExportedValue};
use crate::launch::{
    file_name, holds_token, installer, lacks_token, needs_local_daemon, plan_follows, plan_for,
    prompt_normalized, speaks_of_remote, token_error, tui_mode, update_notice, LaunchError,
    LaunchOptions, LaunchPlan, Program, SubcommandKind, TuiMode, TuiPlan, UpdateSubcommand,
};
use crate::lines::newlines_normalized;
use crate::routing::CommandView;
use crate::startup_status::{
    distance, drawn, drawn_label, label, shade_at, Band, Emphasis, Shade, PADDING,
};
use crate::text::{ascii_lower, ascii_lowered, decimal, is_white_space};
use crate::text_laws::law_trimming_takes_white_space_away;

verus! {

// ---------------------------------------------------------------------------------------------
// Options
// ---------------------------------------------------------------------------------------------

/// Where the terminal interface connects to follows from which options are there. A token without an
/// endpoint is refused first, then a program beside an embedded app server, then an endpoint beside it.
pub proof fn law_options_decide_the_connection(launch: LaunchOptions)
    ensures
        launch.remote_auth_token_env is Some && launch.remote is None ==> tui_mode(launch) == Err::<
            TuiMode,
            LaunchError,
        >(LaunchError::TokenWithoutRemote),
        !(launch.remote_auth_token_env is Some && launch.remote is None)
            && launch.embedded_app_server && launch.app_server_bin is Some ==> tui_mode(launch)
            == Err::<TuiMode, LaunchError>(LaunchError::EmbeddedWithServerBin),
        launch.embedded_app_server && launch.app_server_bin is None && launch.remote is Some
            ==> tui_mode(launch) == Err::<TuiMode, LaunchError>(LaunchError::EmbeddedWithRemote),
        !launch.embedded_app_server && launch.remote is Some ==> tui_mode(launch) == Ok::<
            TuiMode,
            LaunchError,
        >(TuiMode::Remote),
        launch.embedded_app_server && launch.app_server_bin is None && launch.remote is None
            && launch.remote_auth_token_env is None ==> tui_mode(launch) == Ok::<
            TuiMode,
            LaunchError,
        >(TuiMode::Embedded),
        !launch.embedded_app_server && launch.remote is None && launch.remote_auth_token_env is None
            ==> tui_mode(launch) == Ok::<TuiMode, LaunchError>(TuiMode::LocalDaemon),
{
}

/// A run on a remote endpoint carries the token exactly where a variable for it is named; the other
/// runs carry none.
pub proof fn law_token_goes_to_the_remote_endpoint(launch: LaunchOptions, value: Option<String>)
    ensures
        plan_for(launch, value, TuiMode::Remote) == (TuiPlan::Remote {
            token: if launch.remote_auth_token_env is Some {
                value
            } else {
                None
            },
        }),
        plan_for(launch, value, TuiMode::Embedded) == TuiPlan::Embedded,
        plan_for(launch, value, TuiMode::LocalDaemon) == TuiPlan::LocalDaemon,
{
}

/// A token is anything that is not white space throughout; it is missed only where a variable for it
/// is named, and the error names the variable and says whether it could be read.
pub proof fn law_token_is_more_than_white_space(
    launch: LaunchOptions,
    text: String,
    error: LaunchError,
    env_var_name: Seq<char>,
)
    ensures
        holds_token(Some(text)) <==> !(forall|i: int|
            0 <= i < text@.len() ==> is_white_space(#[trigger] text@[i])),
        !holds_token(None),
        lacks_token(launch, Some(text)) <==> launch.remote_auth_token_env is Some && (forall|i: int|
            0 <= i < text@.len() ==> is_white_space(#[trigger] text@[i])),
        lacks_token(launch, None) <==> launch.remote_auth_token_env is Some,
        token_error(error, env_var_name, None) <==> (error matches LaunchError::TokenUnreadable {
            env_var_name: name,
        } && name@ == env_var_name),
        token_error(error, env_var_name, Some(text)) <==> (error matches LaunchError::TokenEmpty {
            env_var_name: name,
        } && name@ == env_var_name),
{
    let value = Some(text);
    if holds_token(value) {
        let i = choose|i: int|
            0 <= i < text@.len() && !crate::text::is_white_space(#[trigger] text@[i]);
        assert(!is_white_space(text@[i]));
    }
    if !(forall|i: int| 0 <= i < text@.len() ==> is_white_space(#[trigger] text@[i])) {
        let i = choose|i: int| 0 <= i < text@.len() && !is_white_space(#[trigger] text@[i]);
        assert(0 <= i < value->Some_0@.len() && !is_white_space(value->Some_0@[i]));
    }
}

/// A prompt stays where there is one, with its line endings as line feeds, and none comes from nothing.
pub proof fn law_prompt_is_kept_with_line_feeds(prompt: String, normalized: Option<String>)
    ensures
        prompt_normalized(Some(prompt), normalized) <==> (normalized matches Some(text) && text@
            == newlines_normalized(prompt@)),
        prompt_normalized(None, normalized) <==> normalized is None,
{
}

/// Only `kill` and `mcp` are about the local daemon, and the options speak of a remote endpoint where
/// one of the two remote options is there.
pub proof fn law_kill_and_mcp_are_local(subcommand: Option<SubcommandKind>, launch: LaunchOptions)
    ensures
        needs_local_daemon(subcommand) <==> (subcommand matches Some(kind) && (kind is Kill || kind
            is Mcp)),
        speaks_of_remote(launch) <==> launch.remote is Some || launch.remote_auth_token_env is Some,
{
}

// ---------------------------------------------------------------------------------------------
// What is started
// ---------------------------------------------------------------------------------------------

/// What a command starts: nothing named the terminal interface, a command that is passed through the
/// command line program, `acp` the ACP server without arguments, `kill` the stop of the daemon unless
/// remote options came with it, and `provider-auth` the print of the token of the named provider.
pub proof fn law_command_starts_its_program(
    plan: Result<LaunchPlan, LaunchError>,
    force: bool,
    remote_present: bool,
    remote_auth_token_present: bool,
    provider_id: Seq<char>,
)
    ensures
        plan_follows(plan, None) <==> plan == Ok::<LaunchPlan, LaunchError>(
            LaunchPlan::Run(Program::RootTui),
        ),
        plan_follows(plan, Some(CommandView::Passthrough)) <==> plan == Ok::<LaunchPlan, LaunchError>(
            LaunchPlan::Run(Program::Cli),
        ),
        plan_follows(plan, Some(CommandView::Acp)) <==> plan == Ok::<LaunchPlan, LaunchError>(
            LaunchPlan::Run(Program::Acp),
        ),
        plan_follows(
            plan,
            Some(CommandView::Kill { force, remote_present, remote_auth_token_present }),
        ) <==> plan == if remote_present || remote_auth_token_present {
            Err::<LaunchPlan, LaunchError>(LaunchError::DaemonIsLocal)
        } else {
            Ok::<LaunchPlan, LaunchError>(LaunchPlan::Kill { force })
        },
        plan_follows(plan, Some(CommandView::ProviderAuth { provider_id })) <==> (plan matches Ok(
            LaunchPlan::ProviderAuth { provider_id: id },
        ) && id@ == provider_id),
{
}

/// The files of the programs; on Windows each ends with `.exe`.
pub proof fn law_programs_have_their_files(program: Program)
    ensures
        file_name(Program::Cli, false) == "interpreter-tui"@,
        file_name(Program::RootTui, false) == "interpreter-root-tui"@,
        file_name(Program::Acp, false) == "interpreter-acp"@,
        file_name(program, true) == file_name(program, false) + ".exe"@,
{
}

/// The notices of `interpreter update`, and how the latest release is installed.
pub proof fn law_update_tells_or_installs()
    ensures
        update_notice(UpdateSubcommand::Status)
            == "Standalone updates are managed by the installer. Run `interpreter update now` to reinstall the latest release."@,
        update_notice(UpdateSubcommand::On)
            == "Automatic update checks are configured from the interactive TUI with `/update-on`."@,
        update_notice(UpdateSubcommand::Off)
            == "Automatic update checks are configured from the interactive TUI with `/update-off`."@,
        installer(true) == ("powershell"@, "irm https://openinterpreter.com/install.ps1|iex"@),
        installer(false) == ("sh"@, "curl -fsSL https://openinterpreter.com/install.sh | sh"@),
{
}

/// The errors in words; those that name something name it as it was given.
pub proof fn law_errors_name_what_was_given(given: String)
    ensures
        LaunchError::DaemonIsLocal.spec_message()
            == "daemon commands only manage the local Open Interpreter daemon"@,
        (LaunchError::TokenUnreadable { env_var_name: given }).spec_message()
            == "failed to read remote auth token from environment variable `"@ + given@ + "`"@,
        (LaunchError::TokenEmpty { env_var_name: given }).spec_message() == "environment variable `"@
            + given@ + "` contained an empty auth token"@,
        LaunchError::TokenWithoutRemote.spec_message()
            == "`--remote-auth-token-env` requires `--remote`."@,
        LaunchError::EmbeddedWithServerBin.spec_message()
            == "`--embedded-app-server` conflicts with `--app-server-bin`."@,
        LaunchError::EmbeddedWithRemote.spec_message()
            == "`--embedded-app-server` conflicts with `--remote`."@,
        (LaunchError::Fatal { message: given }).spec_message() == given@,
        (LaunchError::UnsupportedProvider { provider_id: given }).spec_message()
            == "unsupported provider auth command for `"@ + given@ + "`"@,
        LaunchError::NotInteractive.spec_message()
            == "daemon is running; rerun with `interpreter kill --force` to stop it non-interactively"@,
        LaunchError::MissingParent.spec_message() == "interpreter path missing parent directory"@,
        LaunchError::NoHome.spec_message() == "failed to resolve Open Interpreter home directory"@,
{
}

// ---------------------------------------------------------------------------------------------
// Stopping the daemon
// ---------------------------------------------------------------------------------------------

/// What each event leads to when the daemon is to be stopped.
pub proof fn law_stopping_goes_step_by_step(force: bool, text: String, pid: u32)
    ensures
        next_action(force, KillEvent::Given) == KillAction::QueryStatus,
        next_action(force, KillEvent::Status { running: false }) == KillAction::Report(
            KillReport::NotRunning,
        ),
        next_action(true, KillEvent::Status { running: true }) == KillAction::ForceStop,
        next_action(false, KillEvent::Status { running: true }) == KillAction::CheckTerminal,
        next_action(force, KillEvent::Terminal { interactive: true }) == KillAction::Ask,
        next_action(force, KillEvent::Terminal { interactive: false }) == KillAction::Refuse,
        next_action(force, KillEvent::Response { text }) == if confirms(text@) {
            KillAction::Stop
        } else {
            KillAction::Report(KillReport::Aborted)
        },
        next_action(force, KillEvent::Stopped { pid: Some(pid) }) == KillAction::Report(
            KillReport::Stopped { pid },
        ),
        next_action(force, KillEvent::Stopped { pid: None }) == KillAction::Report(
            KillReport::NotRunning,
        ),
{
}

/// What is done by force after the graceful request, outcome by outcome.
pub proof fn law_force_goes_by_what_remains(
    graceful: Result<Option<u32>, ()>,
    stopped: Option<u32>,
    earlier: Option<u32>,
    pid: u32,
)
    ensures
        forced_stop(graceful, Some(pid), earlier) == (ForcedStop::End { pid }),
        forced_stop(Ok(stopped), None, earlier) == (ForcedStop::Stopped { pid: stopped }),
        forced_stop(Err(()), None, Some(pid)) == (ForcedStop::End { pid }),
        forced_stop(Err(()), None, None) == ForcedStop::Failed,
{
}

/// Which letters become a given small letter.
proof fn lemma_lower(c: char, small: char, capital: char)
    requires
        97 <= small as u32 <= 122,
        capital as u32 == small as u32 - 32,
    ensures
        ascii_lower(c) == small <==> c == small || c == capital,
{
    if 65 <= c as u32 <= 90 {
        assert(ascii_lower(c) as u32 == c as u32 + 32);
        if ascii_lower(c) == small {
            assert(c as u32 == capital as u32);
        }
        if c == capital {
            assert(ascii_lower(c) as u32 == small as u32);
        }
    }
}

/// An answer says yes exactly where what is left of it without the white space around it is `y` or
/// `yes`, letter by letter, small or capital.
pub proof fn law_yes_is_y_or_yes(before: Seq<char>, word: Seq<char>, behind: Seq<char>)
    requires
        forall|i: int| 0 <= i < before.len() ==> is_white_space(#[trigger] before[i]),
        forall|i: int| 0 <= i < behind.len() ==> is_white_space(#[trigger] behind[i]),
        word.len() > 0 ==> !is_white_space(word[0]) && !is_white_space(word[word.len() - 1]),
    ensures
        confirms(before + word + behind) <==> {
            ||| word.len() == 1 && (word[0] == 'y' || word[0] == 'Y')
            ||| word.len() == 3 && (word[0] == 'y' || word[0] == 'Y') && (word[1] == 'e' || word[1]
                == 'E') && (word[2] == 's' || word[2] == 'S')
        },
{
    law_trimming_takes_white_space_away(before, word, behind);
    reveal_strlit("y");
    reveal_strlit("yes");
    assert("y"@.len() == 1 && "y"@[0] == 'y');
    assert("yes"@.len() == 3 && "yes"@[0] == 'y' && "yes"@[1] == 'e' && "yes"@[2] == 's');
    let low = ascii_lowered(word);
    assert(low.len() == word.len());
    assert(forall|i: int| 0 <= i < word.len() ==> low[i] == ascii_lower(#[trigger] word[i]));
    if word.len() == 1 {
        lemma_lower(word[0], 'y', 'Y');
        assert(low[0] == ascii_lower(word[0]));
        if low[0] == 'y' {
            assert(low =~= "y"@);
        }
    }
    if word.len() == 3 {
        lemma_lower(word[0], 'y', 'Y');
        lemma_lower(word[1], 'e', 'E');
        lemma_lower(word[2], 's', 'S');
        assert(low[0] == ascii_lower(word[0]));
        assert(low[1] == ascii_lower(word[1]));
        assert(low[2] == ascii_lower(word[2]));
        if low[0] == 'y' && low[1] == 'e' && low[2] == 's' {
            assert(low =~= "yes"@);
        }
    }
}

/// What is reported of the stop; the process is named by its number.
pub proof fn law_reports_name_the_process(pid: u32)
    ensures
        KillReport::NotRunning.spec_text() == "Open Interpreter daemon is not running."@,
        KillReport::Aborted.spec_text() == "Aborted."@,
        (KillReport::Stopped { pid }).spec_text() == "Stopped Open Interpreter daemon (pid "@
            + decimal(pid as nat) + ")."@,
{
}

// ---------------------------------------------------------------------------------------------
// The home directory
// ---------------------------------------------------------------------------------------------

/// A variable is set where it has a value that is not empty; and four variables are told, three of them
/// the home directory.
pub proof fn law_variables_of_the_home_directory(value: Vec<u8>)
    ensures
        is_set(Some(value)) <==> value@.len() > 0,
        !is_set(None),
        exported_names() == seq![
            ("CODEX_HOME"@, ExportedValue::Home),
            ("INTERPRETER_HOME"@, ExportedValue::Home),
            ("OPEN_INTERPRETER_HOME"@, ExportedValue::Home),
            ("OPEN_INTERPRETER_BRAND"@, ExportedValue::One),
        ],
{
}

// ---------------------------------------------------------------------------------------------
// The status line
// ---------------------------------------------------------------------------------------------

/// What the status line says, and how wide the dark around it is.
pub proof fn law_status_line_says_that_it_starts_up()
    ensures
        label() == "\u{2022} Starting up..."@,
        PADDING == 10,
{
}

/// The line is drawn character by character, each in the shade for its distance from the middle of the
/// band: the shade of the band there, or the resting one where the band does not reach.
pub proof fn law_line_is_drawn_character_by_character(
    band: Band,
    position: int,
    truecolor: bool,
    index: int,
    away: int,
)
    requires
        0 <= index < label().len(),
        away >= 0,
        away == index + 10 - position || away == position - (index + 10),
    ensures
        drawn_label(band, position, truecolor, 0) == Seq::<char>::empty(),
        drawn_label(band, position, truecolor, index + 1) == drawn_label(
            band,
            position,
            truecolor,
            index,
        ) + drawn(
            if away < band.shades@.len() {
                band.shades@[away]
            } else {
                band.resting
            },
            truecolor,
            label()[index],
        ),
        shade_at(band, distance(index, position)) == if away < band.shades@.len() {
            band.shades@[away]
        } else {
            band.resting
        },
{
}

/// How a character is drawn: with its color where the terminal has all colors, and otherwise bold, dim
/// or plain.
pub proof fn law_character_is_drawn_in_its_shade(red: u8, green: u8, blue: u8, emphasis: Emphasis, ch: char)
    ensures
        drawn(Shade { red, green, blue, emphasis }, true, ch) == "\u{1b}[1;38;2;"@ + decimal(
            red as nat,
        ) + ";"@ + decimal(green as nat) + ";"@ + decimal(blue as nat) + "m"@ + seq![ch],
        drawn(Shade { red, green, blue, emphasis: Emphasis::Bold }, false, ch) == "\u{1b}[1m"@
            + seq![ch] + "\u{1b}[22m"@,
        drawn(Shade { red, green, blue, emphasis: Emphasis::Dim }, false, ch) == "\u{1b}[2m"@
            + seq![ch] + "\u{1b}[22m"@,
        drawn(Shade { red, green, blue, emphasis: Emphasis::Plain }, false, ch) == seq![ch],
{
    assert("\u{1b}[1m"@.push(ch) =~= "\u{1b}[1m"@ + seq![ch]);
    assert("\u{1b}[2m"@.push(ch) =~= "\u{1b}[2m"@ + seq![ch]);
    let color = "\u{1b}[1;38;2;"@ + decimal(red as nat) + ";"@ + decimal(green as nat) + ";"@
        + decimal(blue as nat) + "m"@;
    assert(color.push(ch) =~= color + seq![ch]);
}

} // verus!
