//! Which program a command line of `interpreter` is for.
//!
//! The command line is read from the left. Root options come first, some of them with a value behind
//! them; the first word that is no option names the command.
use vstd::prelude::*;

use crate::text::{same_text, starts_with, text_starts_with};

verus! {

/// What the first word of a command line asks for.
#[derive(Debug, PartialEq, Eq)]
pub enum TopLevelCommand {
    /// The command line goes to the interpreter's own command line program as it is.
    Passthrough,
    /// The ACP server is started.
    Acp,
    /// The local daemon is stopped.
    Kill { force: bool, remote_present: bool, remote_auth_token_present: bool },
    /// The token of a provider is printed.
    ProviderAuth { provider_id: String },
}

/// What a [`TopLevelCommand`] means.
pub enum CommandView {
    Passthrough,
    Acp,
    Kill { force: bool, remote_present: bool, remote_auth_token_present: bool },
    ProviderAuth { provider_id: Seq<char> },
}

impl TopLevelCommand {
    /// What the command means.
    pub open spec fn view(&self) -> CommandView {
        match self {
            TopLevelCommand::Passthrough => CommandView::Passthrough,
            TopLevelCommand::Acp => CommandView::Acp,
            TopLevelCommand::Kill { force, remote_present, remote_auth_token_present } => {
                CommandView::Kill {
                    force: *force,
                    remote_present: *remote_present,
                    remote_auth_token_present: *remote_auth_token_present,
                }
            },
            TopLevelCommand::ProviderAuth { provider_id } => CommandView::ProviderAuth {
                provider_id: provider_id@,
            },
        }
    }
}

/// What a command means, where there is one.
pub open spec fn command_view(command: Option<TopLevelCommand>) -> Option<CommandView> {
    match command {
        Some(command) => Some(command.view()),
        None => None,
    }
}

/// The root options that take the next word as their value.
pub open spec fn takes_value(arg: Seq<char>) -> bool {
    ||| arg == "-c"@
    ||| arg == "--config"@
    ||| arg == "--enable"@
    ||| arg == "--disable"@
    ||| arg == "--remote"@
    ||| arg == "--url"@
    ||| arg == "--remote-auth-token-env"@
    ||| arg == "--app-server-bin"@
    ||| arg == "--image"@
    ||| arg == "-i"@
    ||| arg == "--model"@
    ||| arg == "-m"@
    ||| arg == "--local-provider"@
    ||| arg == "--profile"@
    ||| arg == "-p"@
    ||| arg == "--sandbox"@
    ||| arg == "-s"@
    ||| arg == "--ask-for-approval"@
    ||| arg == "-a"@
    ||| arg == "--cd"@
    ||| arg == "-C"@
    ||| arg == "--add-dir"@
}

/// Whether a word is a root option, with its value in the next word or without.
pub open spec fn is_option(arg: Seq<char>) -> bool {
    takes_value(arg) || starts_with(arg, "--"@)
}

/// How many words an option takes up.
pub open spec fn option_width(arg: Seq<char>) -> int {
    if takes_value(arg) {
        2
    } else {
        1
    }
}

/// Whether an option names a remote endpoint.
pub open spec fn selects_remote(arg: Seq<char>) -> bool {
    ||| arg == "--remote"@
    ||| arg == "--url"@
    ||| starts_with(arg, "--remote="@)
    ||| starts_with(arg, "--url="@)
}

/// Whether an option names the variable that holds the token for a remote endpoint.
pub open spec fn names_remote_token(arg: Seq<char>) -> bool {
    ||| arg == "--remote-auth-token-env"@
    ||| starts_with(arg, "--remote-auth-token-env="@)
}

/// Whether a word tells `kill` to force the daemon to stop.
pub open spec fn is_force_flag(arg: Seq<char>) -> bool {
    arg == "-f"@ || arg == "--force"@
}

/// Whether a word asks for help or for the version.
pub open spec fn is_help_flag(arg: Seq<char>) -> bool {
    arg == "-h"@ || arg == "--help"@ || arg == "-V"@ || arg == "--version"@
}

/// What the words of a command line hold.
pub open spec fn words(args: Seq<String>) -> Seq<Seq<char>> {
    args.map_values(|arg: String| arg@)
}

/// The options that stand before the command, from `from` on.
pub open spec fn leading_options(args: Seq<Seq<char>>, from: int) -> Seq<Seq<char>>
    decreases args.len() + 1 - from,
{
    if from < 0 || from >= args.len() || args[from] == "--"@ || !is_option(args[from]) {
        Seq::empty()
    } else {
        seq![args[from]] + leading_options(
            args,
            from + option_width(args[from]),
        )
    }
}

/// Where the command stands, from `from` on: at the first word that is neither an option nor an
/// option's value. There is none behind the word `--`.
pub open spec fn command_at(args: Seq<Seq<char>>, from: int) -> Option<int>
    decreases args.len() + 1 - from,
{
    if from < 0 || from >= args.len() || args[from] == "--"@ {
        None
    } else if !is_option(args[from]) {
        Some(from)
    } else {
        command_at(
            args,
            from + option_width(args[from]),
        )
    }
}

/// The commands that the interpreter's own command line program knows.
pub open spec fn is_delegated(word: Seq<char>) -> bool {
    ||| word == "help"@
    ||| word == "resume"@
    ||| word == "fork"@
    ||| word == "exec"@
    ||| word == "mcp"@
    ||| word == "update"@
}

/// Whether one of the words from `from` on is a force flag.
pub open spec fn forced_from(args: Seq<Seq<char>>, from: int) -> bool {
    exists|i: int| from <= i < args.len() && #[trigger] is_force_flag(args[i])
}

/// Whether one of the options names a remote endpoint.
pub open spec fn any_remote(options: Seq<Seq<char>>) -> bool {
    exists|i: int| 0 <= i < options.len() && #[trigger] selects_remote(options[i])
}

/// Whether one of the options names the variable of a remote token.
pub open spec fn any_remote_token(options: Seq<Seq<char>>) -> bool {
    exists|i: int| 0 <= i < options.len() && #[trigger] names_remote_token(options[i])
}

/// The command that the word at `at` asks for, behind `options`.
pub open spec fn command_from(
    args: Seq<Seq<char>>,
    options: Seq<Seq<char>>,
    at: int,
) -> Option<CommandView> {
    let word = args[at];
    if is_delegated(word) {
        Some(CommandView::Passthrough)
    } else if word == "acp"@ {
        Some(CommandView::Acp)
    } else if word == "kill"@ {
        Some(
            CommandView::Kill {
                force: forced_from(args, at + 1),
                remote_present: any_remote(options),
                remote_auth_token_present: any_remote_token(options),
            },
        )
    } else if word == "provider-auth"@ && at + 1 < args.len() {
        Some(CommandView::ProviderAuth { provider_id: args[at + 1] })
    } else {
        None
    }
}

/// The command of a command line.
pub open spec fn scanned(args: Seq<Seq<char>>) -> Option<CommandView> {
    match command_at(args, 0) {
        Some(at) => command_from(args, leading_options(args, 0), at),
        None => None,
    }
}

/// Whether one of the words asks for help or for the version.
pub open spec fn asks_for_help(args: Seq<Seq<char>>) -> bool {
    exists|i: int| 0 <= i < args.len() && #[trigger] is_help_flag(args[i])
}

/// What a command line asks for: its command, or else help.
pub open spec fn routed(args: Seq<Seq<char>>) -> Option<CommandView> {
    match scanned(args) {
        Some(command) => Some(command),
        None => if asks_for_help(args) {
            Some(CommandView::Passthrough)
        } else {
            None
        },
    }
}

/// Whether `arg` is a root option that takes the next word as its value.
fn option_takes_value(arg: &str) -> (yes: bool)
    ensures
        yes == takes_value(arg@),
{
    same_text(arg, "-c") || same_text(arg, "--config") || same_text(arg, "--enable") || same_text(
        arg,
        "--disable",
    ) || same_text(arg, "--remote") || same_text(arg, "--url") || same_text(
        arg,
        "--remote-auth-token-env",
    ) || same_text(arg, "--app-server-bin") || same_text(arg, "--image") || same_text(arg, "-i")
        || same_text(arg, "--model") || same_text(arg, "-m") || same_text(arg, "--local-provider")
        || same_text(arg, "--profile") || same_text(arg, "-p") || same_text(arg, "--sandbox")
        || same_text(arg, "-s") || same_text(arg, "--ask-for-approval") || same_text(arg, "-a")
        || same_text(arg, "--cd") || same_text(arg, "-C") || same_text(arg, "--add-dir")
}

/// Whether an option names a remote endpoint.
fn option_selects_remote(arg: &str) -> (yes: bool)
    ensures
        yes == selects_remote(arg@),
{
    same_text(arg, "--remote") || same_text(arg, "--url") || text_starts_with(arg, "--remote=")
        || text_starts_with(arg, "--url=")
}

/// Whether an option names the variable of a remote token.
fn option_names_remote_token(arg: &str) -> (yes: bool)
    ensures
        yes == names_remote_token(arg@),
{
    same_text(arg, "--remote-auth-token-env") || text_starts_with(arg, "--remote-auth-token-env=")
}

/// Whether one of the words from `from` on is a force flag.
fn has_force_flag(raw_args: &Vec<String>, from: usize) -> (yes: bool)
    requires
        from <= raw_args@.len(),
    ensures
        yes == forced_from(words(raw_args@), from as int),
{
    let mut i: usize = from;
    while i < raw_args.len()
        invariant
            from <= i <= raw_args@.len(),
            forall|j: int| from <= j < i ==> !#[trigger] is_force_flag(words(raw_args@)[j]),
        decreases raw_args@.len() - i,
    {
        let arg = raw_args[i].as_str();
        assert(arg@ == words(raw_args@)[i as int]);
        if same_text(arg, "-f") || same_text(arg, "--force") {
            assert(is_force_flag(words(raw_args@)[i as int]));
            return true;
        }
        i += 1;
    }
    false
}

/// The command that a command line names.
pub fn scan_top_level_command(raw_args: &Vec<String>) -> (command: Option<TopLevelCommand>)
    ensures
        command_view(command) == scanned(words(raw_args@)),
{
    let mut remote_present = false;
    let mut remote_auth_token_present = false;
    let mut index: usize = 0;
    let ghost args = words(raw_args@);
    let ghost mut seen = Seq::<Seq<char>>::empty();
    assert(seen + leading_options(args, 0) =~= leading_options(args, 0));
    while index < raw_args.len()
        invariant
            args == words(raw_args@),
            index <= raw_args@.len(),
            command_at(args, 0) == command_at(args, index as int),
            leading_options(args, 0) == seen + leading_options(args, index as int),
            remote_present == any_remote(seen),
            remote_auth_token_present == any_remote_token(seen),
        decreases raw_args@.len() - index,
    {
        let arg = raw_args[index].as_str();
        assert(arg@ == args[index as int]);
        if same_text(arg, "--") {
            return None;
        }
        let with_value = option_takes_value(arg);
        if with_value || text_starts_with(arg, "--") {
            let remote = option_selects_remote(arg);
            let token = option_names_remote_token(arg);
            proof {
                let tail = leading_options(
                    args,
                    index + option_width(arg@),
                );
                assert(seen + (seq![arg@] + tail) =~= seen.push(arg@) + tail);
                let now = seen.push(arg@);
                assert(now[seen.len() as int] == arg@);
                assert(forall|i: int| 0 <= i < seen.len() ==> now[i] == seen[i]);
                if any_remote(seen) {
                    let i = choose|i: int|
                        0 <= i < seen.len() && #[trigger] selects_remote(seen[i]);
                    assert(selects_remote(now[i]));
                }
                if any_remote_token(seen) {
                    let i = choose|i: int|
                        0 <= i < seen.len() && #[trigger] names_remote_token(seen[i]);
                    assert(names_remote_token(now[i]));
                }
                seen = now;
            }
            remote_present = remote_present || remote;
            remote_auth_token_present = remote_auth_token_present || token;
            if with_value {
                if raw_args.len() - index < 2 {
                    assert(command_at(args, index + 2) is None);
                    return None;
                }
                index += 2;
            } else {
                index += 1;
            }
            continue;
        }
        assert(leading_options(args, 0) =~= seen);
        if same_text(arg, "help") || same_text(arg, "resume") || same_text(arg, "fork")
            || same_text(arg, "exec") || same_text(arg, "mcp") || same_text(arg, "update") {
            return Some(TopLevelCommand::Passthrough);
        }
        if same_text(arg, "acp") {
            return Some(TopLevelCommand::Acp);
        }
        if same_text(arg, "kill") {
            return Some(
                TopLevelCommand::Kill {
                    force: has_force_flag(raw_args, index + 1),
                    remote_present,
                    remote_auth_token_present,
                },
            );
        }
        if same_text(arg, "provider-auth") && raw_args.len() - index > 1 {
            assert(raw_args@[index + 1]@ == args[index + 1]);
            return Some(TopLevelCommand::ProviderAuth { provider_id: raw_args[index + 1].clone() });
        }
        return None;
    }
    None
}

/// Whether one of the words asks for help or for the version.
pub fn should_delegate_directly(raw_args: &Vec<String>) -> (yes: bool)
    ensures
        yes == asks_for_help(words(raw_args@)),
{
    let mut i: usize = 0;
    while i < raw_args.len()
        invariant
            i <= raw_args@.len(),
            forall|j: int| 0 <= j < i ==> !#[trigger] is_help_flag(words(raw_args@)[j]),
        decreases raw_args@.len() - i,
    {
        let arg = raw_args[i].as_str();
        assert(arg@ == words(raw_args@)[i as int]);
        if same_text(arg, "-h") || same_text(arg, "--help") || same_text(arg, "-V") || same_text(
            arg,
            "--version",
        ) {
            assert(is_help_flag(words(raw_args@)[i as int]));
            return true;
        }
        i += 1;
    }
    false
}

/// What a command line asks for: the command that it names, or else help.
pub fn route_top_level_command(raw_args: &Vec<String>) -> (command: Option<TopLevelCommand>)
    ensures
        command_view(command) == routed(words(raw_args@)),
{
    match scan_top_level_command(raw_args) {
        Some(command) => Some(command),
        None => if should_delegate_directly(raw_args) {
            Some(TopLevelCommand::Passthrough)
        } else {
            None
        },
    }
}

// ---------------------------------------------------------------------------------------------
// Laws
// ---------------------------------------------------------------------------------------------

/// Words in front of a command line shift what is read of it.
proof fn lemma_shift(prefix: Seq<Seq<char>>, args: Seq<Seq<char>>, from: int)
    requires
        0 <= from,
    ensures
        leading_options(prefix + args, prefix.len() + from) == leading_options(args, from),
        command_at(prefix + args, prefix.len() + from) == match command_at(args, from) {
            Some(at) => Some(prefix.len() + at),
            None => None,
        },
        command_at(args, from) matches Some(at) ==> from <= at < args.len(),
    decreases args.len() + 1 - from,
{
    if from < args.len() {
        assert((prefix + args)[prefix.len() + from] == args[from]);
        if args[from] != "--"@ && is_option(args[from]) {
            lemma_shift(prefix, args, from + option_width(args[from]));
        }
    }
}

/// What an option in front adds to a command: only `kill` takes note, and only of remote options.
pub open spec fn noted(command: Option<CommandView>, option: Seq<char>) -> Option<CommandView> {
    match command {
        Some(CommandView::Kill { force, remote_present, remote_auth_token_present }) => Some(
            CommandView::Kill {
                force,
                remote_present: remote_present || selects_remote(option),
                remote_auth_token_present: remote_auth_token_present || names_remote_token(option),
            },
        ),
        other => other,
    }
}

/// A root option in front of a command line, together with its value where it takes one, leaves the
/// command as it is; only `kill` takes note of remote options.
pub proof fn law_leading_option_is_skipped(
    option: Seq<char>,
    value: Seq<Seq<char>>,
    args: Seq<Seq<char>>,
)
    requires
        is_option(option),
        option != "--"@,
        value.len() == option_width(option) - 1,
    ensures
        scanned(seq![option] + value + args) == noted(scanned(args), option),
{
    let prefix = seq![option] + value;
    let all = prefix + args;
    lemma_shift(prefix, args, 0);
    assert(all[0] == option);
    let options = leading_options(args, 0);
    let all_options = leading_options(all, 0);
    assert(all_options == seq![option] + options);
    assert(forall|i: int| 0 <= i < options.len() ==> all_options[i + 1] == options[i]);
    assert(all_options[0] == option);
    if let Some(at) = command_at(args, 0) {
        let moved = prefix.len() + at;
        assert(all[moved] == args[at]);
        assert(at + 1 < args.len() ==> all[moved + 1] == args[at + 1]);
        assert(forced_from(all, moved + 1) == forced_from(args, at + 1)) by {
            if forced_from(args, at + 1) {
                let i = choose|i: int| at + 1 <= i < args.len() && #[trigger] is_force_flag(args[i]);
                assert(is_force_flag(all[prefix.len() + i]));
            }
            if forced_from(all, moved + 1) {
                let i = choose|i: int| moved + 1 <= i < all.len() && #[trigger] is_force_flag(all[i]);
                assert(is_force_flag(args[i - prefix.len()]));
            }
        }
        assert(any_remote(all_options) == (any_remote(options) || selects_remote(option))) by {
            if any_remote(options) {
                let i = choose|i: int| 0 <= i < options.len() && #[trigger] selects_remote(options[i]);
                assert(selects_remote(all_options[i + 1]));
            }
            if any_remote(all_options) {
                let i = choose|i: int|
                    0 <= i < all_options.len() && #[trigger] selects_remote(all_options[i]);
                if i > 0 {
                    assert(selects_remote(options[i - 1]));
                }
            }
            if selects_remote(option) {
                assert(selects_remote(all_options[0]));
            }
        }
        assert(any_remote_token(all_options) == (any_remote_token(options) || names_remote_token(
            option,
        ))) by {
            if any_remote_token(options) {
                let i = choose|i: int|
                    0 <= i < options.len() && #[trigger] names_remote_token(options[i]);
                assert(names_remote_token(all_options[i + 1]));
            }
            if any_remote_token(all_options) {
                let i = choose|i: int|
                    0 <= i < all_options.len() && #[trigger] names_remote_token(all_options[i]);
                if i > 0 {
                    assert(names_remote_token(options[i - 1]));
                }
            }
            if names_remote_token(option) {
                assert(names_remote_token(all_options[0]));
            }
        }
    }
}

/// Behind the word `--` no command is looked for.
pub proof fn law_nothing_is_named_behind_a_double_dash(args: Seq<Seq<char>>)
    ensures
        scanned(seq!["--"@] + args) is None,
{
    assert((seq!["--"@] + args)[0] == "--"@);
}

/// A command line that asks for help is always answered by a program, and it is the command that it
/// names, where it names one, that answers.
pub proof fn law_help_reaches_the_named_command(args: Seq<Seq<char>>)
    requires
        asks_for_help(args),
    ensures
        routed(args) is Some,
        scanned(args) is Some ==> routed(args) == scanned(args),
        scanned(args) is None ==> routed(args) == Some(CommandView::Passthrough),
{
}

} // verus!
