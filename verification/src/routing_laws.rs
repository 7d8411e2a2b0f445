//! What a command line is routed to, word by word.
use vstd::prelude::*;

use crate::routing::{
    asks_for_help, command_at, command_view, is_option, law_leading_option_is_skipped,
    leading_options, routed, scanned, takes_value, words, CommandView, TopLevelCommand,
};
use crate::text::starts_with;
use crate::text_laws::law_prefix_is_what_comes_first;

verus! {

/// Every option starts with a dash, and an option that takes a value is not the double dash.
proof fn lemma_options_start_with_a_dash(arg: Seq<char>)
    ensures
        is_option(arg) ==> arg.len() > 0 && arg[0] == '-',
        takes_value(arg) ==> arg != "--"@,
{
    reveal_strlit("--");
    assert("--"@.len() == 2 && "--"@[0] == '-' && "--"@[1] == '-');
    reveal_strlit("-c");
    reveal_strlit("--config");
    reveal_strlit("--enable");
    reveal_strlit("--disable");
    reveal_strlit("--remote");
    reveal_strlit("--url");
    reveal_strlit("--remote-auth-token-env");
    reveal_strlit("--app-server-bin");
    reveal_strlit("--image");
    reveal_strlit("-i");
    reveal_strlit("--model");
    reveal_strlit("-m");
    reveal_strlit("--local-provider");
    reveal_strlit("--profile");
    reveal_strlit("-p");
    reveal_strlit("--sandbox");
    reveal_strlit("-s");
    reveal_strlit("--ask-for-approval");
    reveal_strlit("-a");
    reveal_strlit("--cd");
    reveal_strlit("-C");
    reveal_strlit("--add-dir");
    assert("-c"@[0] == '-');
    assert("--config"@[0] == '-');
    assert("--enable"@[0] == '-');
    assert("--disable"@[0] == '-');
    assert("--remote"@[0] == '-');
    assert("--url"@[0] == '-');
    assert("--remote-auth-token-env"@[0] == '-');
    assert("--app-server-bin"@[0] == '-');
    assert("--image"@[0] == '-');
    assert("-i"@[0] == '-');
    assert("--model"@[0] == '-');
    assert("-m"@[0] == '-');
    assert("--local-provider"@[0] == '-');
    assert("--profile"@[0] == '-');
    assert("-p"@[0] == '-');
    assert("--sandbox"@[0] == '-');
    assert("-s"@[0] == '-');
    assert("--ask-for-approval"@[0] == '-');
    assert("-a"@[0] == '-');
    assert("--cd"@[0] == '-');
    assert("-C"@[0] == '-');
    assert("--add-dir"@[0] == '-');
    assert("-c"@[1] == 'c');
    assert("--config"@.len() == 8);
    assert("--enable"@.len() == 8);
    assert("--disable"@.len() == 9);
    assert("--remote"@.len() == 8);
    assert("--url"@.len() == 5);
    assert("--remote-auth-token-env"@.len() == 23);
    assert("--app-server-bin"@.len() == 16);
    assert("--image"@.len() == 7);
    assert("-i"@[1] == 'i');
    assert("--model"@.len() == 7);
    assert("-m"@[1] == 'm');
    assert("--local-provider"@.len() == 16);
    assert("--profile"@.len() == 9);
    assert("-p"@[1] == 'p');
    assert("--sandbox"@.len() == 9);
    assert("-s"@[1] == 's');
    assert("--ask-for-approval"@.len() == 18);
    assert("-a"@[1] == 'a');
    assert("--cd"@.len() == 4);
    assert("-C"@[1] == 'C');
    assert("--add-dir"@.len() == 9);
    if starts_with(arg, "--"@) {
        assert(arg.subrange(0, 2)[0] == '-');
    }
}

/// A word that does not start with a dash is the command, wherever it comes first.
proof fn lemma_word_comes_first(word: Seq<char>, rest: Seq<Seq<char>>)
    requires
        !is_option(word),
        word != "--"@,
    ensures
        command_at(seq![word] + rest, 0) == Some(0int),
        leading_options(seq![word] + rest, 0) == Seq::<Seq<char>>::empty(),
        (seq![word] + rest)[0] == word,
        forall|i: int| 0 <= i < rest.len() ==> #[trigger] (seq![word] + rest)[i + 1] == rest[i],
{
    assert((seq![word] + rest)[0] == word);
}

/// The words of a command line that has no command.
pub proof fn law_empty_command_line_names_nothing()
    ensures
        scanned(Seq::empty()) is None,
{
}

/// Each of the words `help`, `resume`, `fork`, `exec`, `mcp` and `update` at the front hands the command
/// line to the interpreter's own command line program, whatever stands behind it.
pub proof fn law_known_word_is_passed_through(word: Seq<char>, rest: Seq<Seq<char>>)
    requires
        word == "help"@ || word == "resume"@ || word == "fork"@ || word == "exec"@ || word
            == "mcp"@ || word == "update"@,
    ensures
        scanned(seq![word] + rest) == Some(CommandView::Passthrough),
        routed(seq![word] + rest) == Some(CommandView::Passthrough),
{
    reveal_strlit("help");
    reveal_strlit("resume");
    reveal_strlit("fork");
    reveal_strlit("exec");
    reveal_strlit("mcp");
    reveal_strlit("update");
    reveal_strlit("--");
    assert("help"@[0] == 'h' && "resume"@[0] == 'r' && "fork"@[0] == 'f' && "exec"@[0] == 'e'
        && "mcp"@[0] == 'm' && "update"@[0] == 'u' && "--"@[0] == '-');
    lemma_options_start_with_a_dash(word);
    lemma_word_comes_first(word, rest);
}

/// A command line whose first word that is neither an option nor an option's value is `help`, `resume`,
/// `fork`, `exec`, `mcp` or `update` goes to the interpreter's own command line program.
pub proof fn law_known_command_behind_options_is_passed_through(args: Seq<Seq<char>>, at: int)
    requires
        command_at(args, 0) == Some(at),
        args[at] == "help"@ || args[at] == "resume"@ || args[at] == "fork"@ || args[at] == "exec"@
            || args[at] == "mcp"@ || args[at] == "update"@,
    ensures
        scanned(args) == Some(CommandView::Passthrough),
        routed(args) == Some(CommandView::Passthrough),
{
}

/// The word `acp` at the front starts the ACP server.
pub proof fn law_acp_starts_the_acp_server(rest: Seq<Seq<char>>)
    ensures
        scanned(seq!["acp"@] + rest) == Some(CommandView::Acp),
{
    reveal_strlit("acp");
    reveal_strlit("--");
    reveal_strlit("help");
    reveal_strlit("resume");
    reveal_strlit("fork");
    reveal_strlit("exec");
    reveal_strlit("mcp");
    reveal_strlit("update");
    assert("acp"@[0] == 'a' && "--"@[0] == '-' && "help"@[0] == 'h' && "resume"@[0] == 'r'
        && "fork"@[0] == 'f' && "exec"@[0] == 'e' && "mcp"@[0] == 'm' && "update"@[0] == 'u');
    lemma_options_start_with_a_dash("acp"@);
    lemma_word_comes_first("acp"@, rest);
}

/// The word `kill` at the front stops the daemon: by force exactly where `-f` or `--force` stands
/// anywhere behind it, and with no remote options.
pub proof fn law_kill_stops_the_daemon(rest: Seq<Seq<char>>)
    ensures
        scanned(seq!["kill"@] + rest) == Some(
            CommandView::Kill {
                force: rest.contains("-f"@) || rest.contains("--force"@),
                remote_present: false,
                remote_auth_token_present: false,
            },
        ),
{
    reveal_strlit("kill");
    reveal_strlit("acp");
    reveal_strlit("--");
    reveal_strlit("help");
    reveal_strlit("resume");
    reveal_strlit("fork");
    reveal_strlit("exec");
    reveal_strlit("mcp");
    reveal_strlit("update");
    assert("kill"@[0] == 'k' && "acp"@[0] == 'a' && "--"@[0] == '-' && "help"@[0] == 'h'
        && "resume"@[0] == 'r' && "fork"@[0] == 'f' && "exec"@[0] == 'e' && "mcp"@[0] == 'm'
        && "update"@[0] == 'u');
    lemma_options_start_with_a_dash("kill"@);
    lemma_word_comes_first("kill"@, rest);
    let all = seq!["kill"@] + rest;
    if crate::routing::forced_from(all, 1) {
        let i = choose|i: int|
            1 <= i < all.len() && #[trigger] crate::routing::is_force_flag(all[i]);
        assert(rest[i - 1] == all[i]);
    }
    if rest.contains("-f"@) {
        let i = choose|i: int| 0 <= i < rest.len() && rest[i] == "-f"@;
        assert(crate::routing::is_force_flag(all[i + 1]));
    }
    if rest.contains("--force"@) {
        let i = choose|i: int| 0 <= i < rest.len() && rest[i] == "--force"@;
        assert(crate::routing::is_force_flag(all[i + 1]));
    }
}

/// The word `provider-auth` at the front prints the token of the provider that is named behind it;
/// where none is named, it is no command.
pub proof fn law_provider_auth_names_a_provider(provider_id: Seq<char>, rest: Seq<Seq<char>>)
    ensures
        scanned(seq!["provider-auth"@, provider_id] + rest) == Some(
            CommandView::ProviderAuth { provider_id },
        ),
        scanned(seq!["provider-auth"@]) is None,
{
    let word = "provider-auth"@;
    reveal_strlit("provider-auth");
    reveal_strlit("kill");
    reveal_strlit("acp");
    reveal_strlit("--");
    reveal_strlit("help");
    reveal_strlit("resume");
    reveal_strlit("fork");
    reveal_strlit("exec");
    reveal_strlit("mcp");
    reveal_strlit("update");
    assert("provider-auth"@[0] == 'p' && "kill"@[0] == 'k' && "acp"@[0] == 'a' && "--"@[0] == '-'
        && "help"@[0] == 'h' && "resume"@[0] == 'r' && "fork"@[0] == 'f' && "exec"@[0] == 'e'
        && "mcp"@[0] == 'm' && "update"@[0] == 'u');
    lemma_options_start_with_a_dash(word);
    let behind = seq![provider_id] + rest;
    assert(seq![word, provider_id] + rest =~= seq![word] + behind);
    lemma_word_comes_first(word, behind);
    assert(behind[0] == provider_id);
    assert((seq![word] + behind)[1] == behind[0]);
    let none = Seq::<Seq<char>>::empty();
    assert(seq![word] =~= seq![word] + none);
    lemma_word_comes_first(word, none);
}

/// Any other word that is no option names no command, whatever stands behind it.
pub proof fn law_any_other_word_names_nothing(word: Seq<char>, rest: Seq<Seq<char>>)
    requires
        word.len() == 0 || word[0] != '-',
        word != "help"@ && word != "resume"@ && word != "fork"@ && word != "exec"@ && word != "mcp"@
            && word != "update"@ && word != "acp"@ && word != "kill"@ && word != "provider-auth"@,
    ensures
        scanned(seq![word] + rest) is None,
{
    reveal_strlit("--");
    assert("--"@[0] == '-' && "--"@.len() == 2);
    lemma_options_start_with_a_dash(word);
    lemma_word_comes_first(word, rest);
}

/// A short option that does not take a value here names no command, and ends the search for one.
pub proof fn law_unknown_short_option_names_nothing(word: Seq<char>, rest: Seq<Seq<char>>)
    requires
        word.len() > 0 && word[0] == '-',
        word.len() == 1 || word[1] != '-',
        word != "-c"@ && word != "-i"@ && word != "-m"@ && word != "-p"@ && word != "-s"@ && word
            != "-a"@ && word != "-C"@,
    ensures
        scanned(seq![word] + rest) is None,
{
    reveal_strlit("--");
    assert("--"@.len() == 2 && "--"@[1] == '-');
    reveal_strlit("--config");
    assert("--config"@[1] == '-');
    reveal_strlit("--enable");
    assert("--enable"@[1] == '-');
    reveal_strlit("--disable");
    assert("--disable"@[1] == '-');
    reveal_strlit("--remote");
    assert("--remote"@[1] == '-');
    reveal_strlit("--url");
    assert("--url"@[1] == '-');
    reveal_strlit("--remote-auth-token-env");
    assert("--remote-auth-token-env"@[1] == '-');
    reveal_strlit("--app-server-bin");
    assert("--app-server-bin"@[1] == '-');
    reveal_strlit("--image");
    assert("--image"@[1] == '-');
    reveal_strlit("--model");
    assert("--model"@[1] == '-');
    reveal_strlit("--local-provider");
    assert("--local-provider"@[1] == '-');
    reveal_strlit("--profile");
    assert("--profile"@[1] == '-');
    reveal_strlit("--sandbox");
    assert("--sandbox"@[1] == '-');
    reveal_strlit("--ask-for-approval");
    assert("--ask-for-approval"@[1] == '-');
    reveal_strlit("--cd");
    assert("--cd"@[1] == '-');
    reveal_strlit("--add-dir");
    assert("--add-dir"@[1] == '-');
    reveal_strlit("help");
    reveal_strlit("resume");
    reveal_strlit("fork");
    reveal_strlit("exec");
    reveal_strlit("mcp");
    reveal_strlit("update");
    reveal_strlit("acp");
    reveal_strlit("kill");
    reveal_strlit("provider-auth");
    assert("provider-auth"@[0] == 'p' && "kill"@[0] == 'k' && "acp"@[0] == 'a' && "help"@[0] == 'h'
        && "resume"@[0] == 'r' && "fork"@[0] == 'f' && "exec"@[0] == 'e' && "mcp"@[0] == 'm'
        && "update"@[0] == 'u');
    if starts_with(word, "--"@) {
        assert(word.subrange(0, 2)[1] == '-');
    }
    lemma_word_comes_first(word, rest);
}

proof fn lemma_remote_options(option: Seq<char>)
    ensures
        crate::routing::selects_remote(option) <==> (option == "--remote"@ || option == "--url"@ || (
        exists|tail: Seq<char>| option == #[trigger] ("--remote="@ + tail)) || (exists|
            tail: Seq<char>,
        | option == #[trigger] ("--url="@ + tail))),
        crate::routing::names_remote_token(option) <==> (option == "--remote-auth-token-env"@ || (
        exists|tail: Seq<char>| option == #[trigger] ("--remote-auth-token-env="@ + tail))),
{
    law_prefix_is_what_comes_first(option, "--remote="@);
    law_prefix_is_what_comes_first(option, "--url="@);
    law_prefix_is_what_comes_first(option, "--remote-auth-token-env="@);
}

/// Each root option that takes a value is skipped together with the next word, whatever that is; only
/// `kill` takes note, of `--remote`, `--url` and `--remote-auth-token-env`. Without a next word there
/// is no command.
pub proof fn law_option_is_skipped_with_its_value(
    option: Seq<char>,
    value: Seq<char>,
    rest: Seq<Seq<char>>,
)
    requires
        ({
            ||| option == "-c"@
            ||| option == "--config"@
            ||| option == "--enable"@
            ||| option == "--disable"@
            ||| option == "--remote"@
            ||| option == "--url"@
            ||| option == "--remote-auth-token-env"@
            ||| option == "--app-server-bin"@
            ||| option == "--image"@
            ||| option == "-i"@
            ||| option == "--model"@
            ||| option == "-m"@
            ||| option == "--local-provider"@
            ||| option == "--profile"@
            ||| option == "-p"@
            ||| option == "--sandbox"@
            ||| option == "-s"@
            ||| option == "--ask-for-approval"@
            ||| option == "-a"@
            ||| option == "--cd"@
            ||| option == "-C"@
            ||| option == "--add-dir"@
        }),
    ensures
        scanned(seq![option, value] + rest) == match scanned(rest) {
            Some(CommandView::Kill { force, remote_present, remote_auth_token_present }) => Some(
                CommandView::Kill {
                    force,
                    remote_present: remote_present || option == "--remote"@ || option == "--url"@
                        || (exists|tail: Seq<char>| option == #[trigger] ("--remote="@ + tail))
                        || (exists|tail: Seq<char>| option == #[trigger] ("--url="@ + tail)),
                    remote_auth_token_present: remote_auth_token_present || option
                        == "--remote-auth-token-env"@ || (exists|tail: Seq<char>|
                        option == #[trigger] ("--remote-auth-token-env="@ + tail)),
                },
            ),
            other => other,
        },
        scanned(seq![option]) is None,
{
    lemma_options_start_with_a_dash(option);
    lemma_remote_options(option);
    assert(seq![option, value] + rest =~= seq![option] + seq![value] + rest);
    law_leading_option_is_skipped(option, seq![value], rest);
    assert(command_at(seq![option], 2) is None);
}

/// Every other word that starts with two dashes and goes on is skipped alone; only `kill` takes note,
/// of a remote endpoint or token that is given behind an equals sign.
pub proof fn law_long_option_is_skipped_alone(option: Seq<char>, rest: Seq<Seq<char>>)
    requires
        option.len() > 2 && option[0] == '-' && option[1] == '-',
        !({
            ||| option == "-c"@
            ||| option == "--config"@
            ||| option == "--enable"@
            ||| option == "--disable"@
            ||| option == "--remote"@
            ||| option == "--url"@
            ||| option == "--remote-auth-token-env"@
            ||| option == "--app-server-bin"@
            ||| option == "--image"@
            ||| option == "-i"@
            ||| option == "--model"@
            ||| option == "-m"@
            ||| option == "--local-provider"@
            ||| option == "--profile"@
            ||| option == "-p"@
            ||| option == "--sandbox"@
            ||| option == "-s"@
            ||| option == "--ask-for-approval"@
            ||| option == "-a"@
            ||| option == "--cd"@
            ||| option == "-C"@
            ||| option == "--add-dir"@
        }),
    ensures
        scanned(seq![option] + rest) == match scanned(rest) {
            Some(CommandView::Kill { force, remote_present, remote_auth_token_present }) => Some(
                CommandView::Kill {
                    force,
                    remote_present: remote_present || option == "--remote"@ || option == "--url"@
                        || (exists|tail: Seq<char>| option == #[trigger] ("--remote="@ + tail))
                        || (exists|tail: Seq<char>| option == #[trigger] ("--url="@ + tail)),
                    remote_auth_token_present: remote_auth_token_present || option
                        == "--remote-auth-token-env"@ || (exists|tail: Seq<char>|
                        option == #[trigger] ("--remote-auth-token-env="@ + tail)),
                },
            ),
            other => other,
        },
{
    reveal_strlit("--");
    assert(option.subrange(0, 2) =~= "--"@);
    assert("--"@.len() == 2);
    lemma_remote_options(option);
    let none = Seq::<Seq<char>>::empty();
    assert(seq![option] + rest =~= seq![option] + none + rest);
    law_leading_option_is_skipped(option, none, rest);
}

/// A command line goes where its command leads; without a command it goes to the interpreter's own
/// command line program exactly where one of the words is `-h`, `--help`, `-V` or `--version`.
pub proof fn law_help_and_version_are_answered(args: Seq<Seq<char>>)
    ensures
        asks_for_help(args) <==> args.contains("-h"@) || args.contains("--help"@) || args.contains(
            "-V"@,
        ) || args.contains("--version"@),
        scanned(args) is Some ==> routed(args) == scanned(args),
        scanned(args) is None && (args.contains("-h"@) || args.contains("--help"@)
            || args.contains("-V"@) || args.contains("--version"@)) ==> routed(args) == Some(
            CommandView::Passthrough,
        ),
        scanned(args) is None && !args.contains("-h"@) && !args.contains("--help"@)
            && !args.contains("-V"@) && !args.contains("--version"@) ==> routed(args) is None,
{
    if asks_for_help(args) {
        let i = choose|i: int|
            0 <= i < args.len() && #[trigger] crate::routing::is_help_flag(args[i]);
        assert(args.contains(args[i]));
    }
    if args.contains("-h"@) {
        let i = choose|i: int| 0 <= i < args.len() && args[i] == "-h"@;
        assert(crate::routing::is_help_flag(args[i]));
    }
    if args.contains("--help"@) {
        let i = choose|i: int| 0 <= i < args.len() && args[i] == "--help"@;
        assert(crate::routing::is_help_flag(args[i]));
    }
    if args.contains("-V"@) {
        let i = choose|i: int| 0 <= i < args.len() && args[i] == "-V"@;
        assert(crate::routing::is_help_flag(args[i]));
    }
    if args.contains("--version"@) {
        let i = choose|i: int| 0 <= i < args.len() && args[i] == "--version"@;
        assert(crate::routing::is_help_flag(args[i]));
    }
}

/// The words of a command line are its arguments, one by one.
pub proof fn law_words_are_the_arguments(args: Seq<String>, i: int)
    requires
        0 <= i < args.len(),
    ensures
        words(args).len() == args.len(),
        words(args)[i] == args[i]@,
{
}

/// A command means what it says, and no command means none.
pub proof fn law_command_means_what_it_says(
    force: bool,
    remote_present: bool,
    remote_auth_token_present: bool,
    provider_id: String,
)
    ensures
        command_view(None) is None,
        command_view(Some(TopLevelCommand::Passthrough)) == Some(CommandView::Passthrough),
        command_view(Some(TopLevelCommand::Acp)) == Some(CommandView::Acp),
        command_view(
            Some(TopLevelCommand::Kill { force, remote_present, remote_auth_token_present }),
        ) == Some(CommandView::Kill { force, remote_present, remote_auth_token_present }),
        command_view(Some(TopLevelCommand::ProviderAuth { provider_id })) == Some(
            CommandView::ProviderAuth { provider_id: provider_id@ },
        ),
{
}

} // verus!
