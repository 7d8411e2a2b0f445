# Open Interpreter launcher and minimal harness

The decisions behind the `interpreter` command and its minimal harness, written in Verus. Each
function states what it returns or changes, and Verus proves it.

| Module | What it decides |
| ------ | --------------- |
| `routing` | which command a command line names |
| `launch` | which program starts, which options go together, where the terminal interface connects |
| `daemon` | how the local daemon is stopped, one step after another |
| `home` | where the home directory is, and which variables tell of it |
| `startup_status` | the line that is shown while the daemon starts |
| `conversation`, `request` | the chat request for a conversation |
| `tools` | the tools that a model is offered |
| `editor`, `editor_session`, `undo` | the editor tool: what it makes of a file's text, and each step of a call |
| `json` | JSON values, and how they are handed to `serde_json` |
| `text`, `lines` | operations on text |

What holds beyond single functions stands in proof functions whose names begin with `law_`, beside the
functions that they are about or in `conversation_laws` and `editor_laws`.

What is believed without proof are the calls into `serde_json`, all in `json`, and `String::push`, in
`text`.

`app/` is the program around the library: arguments, environment, files, terminal and threads. It
builds inside the product's workspace, whose other crates it calls from `app/workspace.rs`.
