//! A conversation as the messages of a chat request.
//!
//! The items of a conversation become chat messages one by one. Calls of tools wait until something
//! answers them or the user speaks; they then go out together, as one message of the assistant, with
//! what the assistant said in between as its text.
use vstd::prelude::*;
use vstd::string::StringExecFns;

use crate::json::{array_view, json_text, lemma_array_push, lemma_array_view, Json, JsonView};
use crate::text::same_text;
use crate::tools::{strings_to_json, text_array};

verus! {

/// A piece of a message.
#[derive(Debug, PartialEq, Eq)]
pub enum ContentItem {
    InputText { text: String },
    OutputText { text: String },
    InputImage { image_url: String },
}

/// A command that the local shell ran.
#[derive(Debug, PartialEq, Eq)]
pub struct LocalShellExecAction {
    pub command: Vec<String>,
    pub timeout_ms: Option<u64>,
}

/// What the local shell was asked to do.
#[derive(Debug, PartialEq, Eq)]
pub enum LocalShellAction {
    Exec(LocalShellExecAction),
}

/// What a tool answered.
#[derive(Debug, PartialEq, Eq)]
pub struct FunctionCallOutputPayload {
    /// The answer, where it is plain text.
    pub text: Option<String>,
    /// The text of its content items, where it has any with text.
    pub content_items_text: Option<String>,
    /// The answer as it is displayed.
    pub displayed: String,
}

/// An item of a conversation.
#[allow(inconsistent_fields)]
#[derive(Debug, PartialEq, Eq)]
pub enum ResponseItem {
    /// A message. `contextual` says that its content is context that the program put there, rather
    /// than something a person wrote.
    Message { role: String, content: Vec<ContentItem>, contextual: bool },
    FunctionCall { name: String, arguments: String, call_id: String },
    CustomToolCall { call_id: String, name: String, input: String },
    LocalShellCall { id: Option<String>, call_id: Option<String>, action: LocalShellAction },
    FunctionCallOutput { call_id: String, output: FunctionCallOutputPayload },
    CustomToolCallOutput { call_id: String, output: FunctionCallOutputPayload },
    ToolSearchCall,
    ToolSearchOutput,
    Reasoning,
    WebSearchCall,
    ImageGenerationCall,
    GhostSnapshot,
    Compaction,
    Other,
}

/// Why a request could not be built.
#[derive(Debug, Clone, Copy, PartialEq, Eq, Structural)]
pub enum RequestError {
    /// A call of the local shell has neither a call id nor an id.
    MissingLocalShellCallId,
}

impl RequestError {
    /// The error in words.
    pub fn message(&self) -> (message: String)
        ensures
            message@ == "local_shell history item missing call id"@,
    {
        "local_shell history item missing call id".to_owned()
    }
}

// ---------------------------------------------------------------------------------------------
// What the messages are
// ---------------------------------------------------------------------------------------------

/// The text of a piece of a message; an image has none.
pub open spec fn item_text(item: ContentItem) -> Option<Seq<char>> {
    match item {
        ContentItem::InputText { text } => Some(text@),
        ContentItem::OutputText { text } => Some(text@),
        ContentItem::InputImage { .. } => None,
    }
}

/// The texts of a message, in order.
pub open spec fn content_texts(content: Seq<ContentItem>) -> Seq<Seq<char>>
    decreases content.len(),
{
    if content.len() == 0 {
        Seq::empty()
    } else {
        let before = content_texts(content.drop_last());
        match item_text(content.last()) {
            Some(text) => before.push(text),
            None => before,
        }
    }
}

/// A text as one part of a message that has several.
pub open spec fn text_part(text: Seq<char>) -> JsonView {
    JsonView::Object(map!["type"@ => JsonView::Text("text"@), "text"@ => JsonView::Text(text)])
}

/// What a message says: nothing, its only text, or all of its texts as parts.
pub open spec fn message_content(content: Seq<ContentItem>) -> Option<JsonView> {
    let texts = content_texts(content);
    if texts.len() == 0 {
        None
    } else if texts.len() == 1 {
        Some(JsonView::Text(texts[0]))
    } else {
        Some(JsonView::Array(texts.map_values(|text: Seq<char>| text_part(text))))
    }
}

/// What a message says as one text: the text itself, or the compact JSON of its parts.
pub open spec fn content_as_text(content: JsonView) -> Seq<char> {
    match content {
        JsonView::Text(text) => text,
        other => json_text(other),
    }
}

/// `output` with `text` behind it on a line of its own; an empty text adds nothing.
pub open spec fn with_text(output: Seq<char>, text: Seq<char>) -> Seq<char> {
    if text.len() == 0 {
        output
    } else if output.len() == 0 {
        text
    } else {
        output.push('\n') + text
    }
}

/// A message of `role`.
pub open spec fn role_message(role: Seq<char>, content: JsonView) -> JsonView {
    JsonView::Object(map!["role"@ => JsonView::Text(role), "content"@ => content])
}

/// The message that answers the call `call_id`.
pub open spec fn tool_message(content: Seq<char>, call_id: Seq<char>) -> JsonView {
    JsonView::Object(
        map![
            "role"@ => JsonView::Text("tool"@),
            "content"@ => JsonView::Text(content),
            "tool_call_id"@ => JsonView::Text(call_id),
        ],
    )
}

/// The message by which the assistant says `content` and makes `calls`.
pub open spec fn calls_message(content: Seq<char>, calls: Seq<JsonView>) -> JsonView {
    JsonView::Object(
        map![
            "role"@ => JsonView::Text("assistant"@),
            "content"@ => JsonView::Text(content),
            "tool_calls"@ => JsonView::Array(calls),
        ],
    )
}

/// A call of the function `name`.
pub open spec fn tool_call(
    call_id: Seq<char>,
    name: Seq<char>,
    arguments: Seq<char>,
) -> JsonView {
    JsonView::Object(
        map![
            "type"@ => JsonView::Text("function"@),
            "id"@ => JsonView::Text(call_id),
            "function"@ => JsonView::Object(
                map!["name"@ => JsonView::Text(name), "arguments"@ => JsonView::Text(arguments)],
            ),
        ],
    )
}

/// The arguments of a call of a custom tool.
pub open spec fn custom_arguments(input: Seq<char>) -> Seq<char> {
    json_text(JsonView::Object(map!["input"@ => JsonView::Text(input)]))
}

/// The arguments of a call of the local shell: the command, and the timeout in whole seconds.
pub open spec fn shell_arguments(action: LocalShellExecAction) -> Seq<char> {
    json_text(
        JsonView::Object(
            map![
                "command"@ => text_array(action.command@),
                "timeout"@ => match action.timeout_ms {
                    Some(timeout_ms) => JsonView::Number((timeout_ms / 1000) as nat),
                    None => JsonView::Null,
                },
            ],
        ),
    )
}

/// The id by which a call of the local shell is answered: its call id, or else its id.
pub open spec fn shell_call_id(id: Option<String>, call_id: Option<String>) -> Option<Seq<char>> {
    match (call_id, id) {
        (Some(call_id), _) => Some(call_id@),
        (None, Some(id)) => Some(id@),
        (None, None) => None,
    }
}

/// The call that an item makes, where it makes one.
pub open spec fn item_call(item: ResponseItem) -> Option<JsonView> {
    match item {
        ResponseItem::FunctionCall { name, arguments, call_id } => Some(
            tool_call(call_id@, name@, arguments@),
        ),
        ResponseItem::CustomToolCall { call_id, name, input } => Some(
            tool_call(call_id@, name@, custom_arguments(input@)),
        ),
        ResponseItem::LocalShellCall { id, call_id, action: LocalShellAction::Exec(exec) } => {
            match shell_call_id(id, call_id) {
                Some(call_id) => Some(tool_call(call_id, "bash"@, shell_arguments(exec))),
                None => None,
            }
        },
        _ => None,
    }
}

/// Whether an item is a call of the local shell that nothing can answer.
pub open spec fn lacks_call_id(item: ResponseItem) -> bool {
    item matches ResponseItem::LocalShellCall { id, call_id, .. } && shell_call_id(id, call_id)
        is None
}

/// What a tool answered, as text.
pub open spec fn output_text(output: FunctionCallOutputPayload) -> Seq<char> {
    match (output.text, output.content_items_text) {
        (Some(text), _) => text@,
        (None, Some(text)) => text@,
        (None, None) => output.displayed@,
    }
}

/// A conversation of which some items have been read: the messages that went out, the calls that
/// wait, and what the assistant said since the first of them.
#[verifier::ext_equal]
pub struct Conversation {
    pub messages: Seq<JsonView>,
    pub calls: Seq<JsonView>,
    pub content: Seq<char>,
}

/// A conversation of which nothing has been read.
pub open spec fn fresh() -> Conversation {
    Conversation { messages: Seq::empty(), calls: Seq::empty(), content: Seq::empty() }
}

/// The conversation that the messages, the waiting calls and the text between them stand for.
pub open spec fn read_so_far(
    messages: Seq<Json>,
    calls: Seq<Json>,
    content: Seq<char>,
) -> Conversation {
    Conversation { messages: array_view(messages), calls: array_view(calls), content }
}

/// The conversation once the calls that wait have gone out.
pub open spec fn flushed(c: Conversation) -> Conversation {
    if c.calls.len() == 0 {
        c
    } else {
        Conversation {
            messages: c.messages.push(calls_message(c.content, c.calls)),
            calls: Seq::empty(),
            content: Seq::empty(),
        }
    }
}

/// The conversation with one more message behind the calls that wait.
pub open spec fn spoken(c: Conversation, message: JsonView) -> Conversation {
    Conversation { messages: flushed(c).messages.push(message), ..flushed(c) }
}

/// Whether a message says nothing but the empty text.
pub open spec fn says_nothing(content: JsonView) -> bool {
    content matches JsonView::Text(text) && text.len() == 0
}

/// The conversation once the assistant has said `content`.
pub open spec fn after_assistant(c: Conversation, content: Option<JsonView>) -> Conversation {
    match content {
        None => c,
        Some(content) => if says_nothing(content) {
            c
        } else if c.calls.len() > 0 {
            Conversation { content: with_text(c.content, content_as_text(content)), ..c }
        } else {
            Conversation {
                messages: c.messages.push(role_message("assistant"@, content)),
                ..c
            }
        },
    }
}

/// The conversation once the user has said `content`.
pub open spec fn after_user(c: Conversation, content: Option<JsonView>) -> Conversation {
    match content {
        None => flushed(c),
        Some(content) => spoken(c, role_message("user"@, content)),
    }
}

/// The conversation once `item` has been read.
pub open spec fn after_item(c: Conversation, item: ResponseItem) -> Conversation {
    match item {
        ResponseItem::Message { role, content, contextual } => if role@ == "assistant"@ {
            after_assistant(c, message_content(content@))
        } else if role@ == "user"@ {
            if contextual {
                c
            } else {
                after_user(c, message_content(content@))
            }
        } else if role@ == "developer"@ {
            after_user(c, message_content(content@))
        } else {
            c
        },
        ResponseItem::FunctionCallOutput { call_id, output } => spoken(
            c,
            tool_message(output_text(output), call_id@),
        ),
        ResponseItem::CustomToolCallOutput { call_id, output } => spoken(
            c,
            tool_message(output_text(output), call_id@),
        ),
        other => match item_call(other) {
            Some(call) => Conversation { calls: c.calls.push(call), ..c },
            None => c,
        },
    }
}

/// The conversation once all of `items` have been read.
pub open spec fn after_items(items: Seq<ResponseItem>) -> Conversation
    decreases items.len(),
{
    if items.len() == 0 {
        fresh()
    } else {
        after_item(after_items(items.drop_last()), items.last())
    }
}

/// The chat messages of a conversation.
pub open spec fn chat_messages(items: Seq<ResponseItem>) -> Seq<JsonView> {
    flushed(after_items(items)).messages
}

// ---------------------------------------------------------------------------------------------
// Building the messages
// ---------------------------------------------------------------------------------------------

/// What a message says: nothing, its only text, or all of its texts as parts.
pub fn convert_message_content(content: &Vec<ContentItem>) -> (converted: Option<Json>)
    ensures
        converted is Some <==> message_content(content@) is Some,
        converted matches Some(json) ==> Some(json@) == message_content(content@),
{
    let mut texts: Vec<&str> = Vec::new();
    let mut i: usize = 0;
    while i < content.len()
        invariant
            i <= content@.len(),
            texts@.map_values(|text: &str| text@) =~= content_texts(content@.take(i as int)),
        decreases content@.len() - i,
    {
        assert(content@.take(i + 1).drop_last() =~= content@.take(i as int));
        let ghost before = texts@;
        match &content[i] {
            ContentItem::InputText { text } | ContentItem::OutputText { text } => {
                texts.push(text.as_str());
                assert(texts@.map_values(|text: &str| text@) =~= before.map_values(
                    |text: &str| text@,
                ).push(text@));
            },
            ContentItem::InputImage { .. } => {},
        }
        i += 1;
    }
    assert(content@.take(i as int) =~= content@);
    let ghost all = content_texts(content@);
    if texts.len() == 0 {
        None
    } else if texts.len() == 1 {
        assert(all[0] == texts@[0]@);
        Some(Json::text_of(texts[0]))
    } else {
        let mut parts: Vec<Json> = Vec::new();
        let mut k: usize = 0;
        while k < texts.len()
            invariant
                k <= texts@.len(),
                texts@.map_values(|text: &str| text@) == all,
                array_view(parts@) =~= all.take(k as int).map_values(
                    |text: Seq<char>| text_part(text),
                ),
            decreases texts@.len() - k,
        {
            assert(all[k as int] == texts@[k as int]@);
            let part = Json::object().with("type", Json::text_of("text")).with(
                "text",
                Json::text_of(texts[k]),
            );
            proof {
                lemma_array_push(parts@, part);
                assert(all.take(k + 1).map_values(|text: Seq<char>| text_part(text)) =~= all.take(
                    k as int,
                ).map_values(|text: Seq<char>| text_part(text)).push(text_part(all[k as int])));
            }
            parts.push(part);
            k += 1;
        }
        assert(all.take(k as int) =~= all);
        Some(Json::Array(parts))
    }
}

/// Puts `text` behind `output`, on a line of its own; an empty text adds nothing.
pub fn append_text(output: &mut String, text: &str)
    ensures
        final(output)@ == with_text(old(output)@, text@),
{
    if text.is_empty() {
        return;
    }
    if !output.as_str().is_empty() {
        output.push('\n');
    }
    output.append(text);
    assert(old(output)@.len() == 0 ==> old(output)@ + text@ =~= text@);
}

/// Puts what a message says behind `output`, on a line of its own.
pub fn append_message_text(output: &mut String, content: &Json)
    ensures
        final(output)@ == with_text(old(output)@, content_as_text(content@)),
{
    let text = match content.as_text() {
        Some(text) => text,
        None => content.text(),
    };
    append_text(output, text.as_str());
}

/// The message that answers the call `call_id`.
fn answer(output: &FunctionCallOutputPayload, call_id: &str) -> (message: Json)
    ensures
        message@ == tool_message(output_text(*output), call_id@),
{
    Json::object().with("role", Json::text_of("tool")).with(
        "content",
        minimal_tool_output_content(output),
    ).with("tool_call_id", Json::text_of(call_id))
}

/// What a tool answered: its text, or else the text of its content items, or else the answer as it
/// is displayed.
pub fn minimal_tool_output_content(output: &FunctionCallOutputPayload) -> (content: Json)
    ensures
        content@ == JsonView::Text(output_text(*output)),
{
    match &output.text {
        Some(text) => Json::text_of(text.as_str()),
        None => match &output.content_items_text {
            Some(text) => Json::text_of(text.as_str()),
            None => Json::text_of(output.displayed.as_str()),
        },
    }
}

/// A message of `role`.
fn message(role: &str, content: Json) -> (json: Json)
    ensures
        json is Object,
        json@ == role_message(role@, content@),
{
    Json::object().with("role", Json::text_of(role)).with("content", content)
}

/// A call of the function `name`.
pub fn call(call_id: &str, name: &str, arguments: &str) -> (json: Json)
    ensures
        json@ == tool_call(call_id@, name@, arguments@),
{
    let function = Json::object().with("name", Json::text_of(name)).with(
        "arguments",
        Json::text_of(arguments),
    );
    Json::object().with("type", Json::text_of("function")).with("id", Json::text_of(call_id)).with(
        "function",
        function,
    )
}

/// Sends out the calls that wait, in one message; does nothing where none wait.
pub fn flush_pending_tool_calls(
    messages: &mut Vec<Json>,
    pending_tool_calls: &mut Vec<Json>,
    pending_tool_call_content: &mut String,
)
    ensures
        read_so_far(final(messages)@, final(pending_tool_calls)@, final(pending_tool_call_content)@)
            == flushed(
            read_so_far(old(messages)@, old(pending_tool_calls)@, old(pending_tool_call_content)@),
        ),
{
    proof {
        lemma_array_view(pending_tool_calls@);
    }
    if pending_tool_calls.is_empty() {
        return;
    }
    let mut content = String::new();
    let mut calls: Vec<Json> = Vec::new();
    std::mem::swap(&mut content, pending_tool_call_content);
    std::mem::swap(&mut calls, pending_tool_calls);
    let json = message("assistant", Json::Text(content)).with("tool_calls", Json::Array(calls));
    proof {
        lemma_array_push(messages@, json);
    }
    messages.push(json);
}

/// The arguments of a call of a custom tool.
fn custom_call_arguments(input: &str) -> (arguments: String)
    ensures
        arguments@ == custom_arguments(input@),
{
    Json::object().with("input", Json::text_of(input)).text()
}

/// The arguments of a call of the local shell.
fn shell_call_arguments(exec: &LocalShellExecAction) -> (arguments: String)
    ensures
        arguments@ == shell_arguments(*exec),
{
    let timeout = match exec.timeout_ms {
        Some(timeout_ms) => Json::Number(timeout_ms / 1000),
        None => Json::Null,
    };
    Json::object().with("command", strings_to_json(&exec.command)).with("timeout", timeout).text()
}

/// The chat messages of a conversation. It fails exactly where a call of the local shell has neither
/// a call id nor an id.
pub fn build_messages(items: &Vec<ResponseItem>) -> (built: Result<Vec<Json>, RequestError>)
    ensures
        built is Err <==> exists|i: int| 0 <= i < items@.len() && #[trigger] lacks_call_id(items@[i]),
        built matches Ok(messages) ==> array_view(messages@) == chat_messages(items@),
        built matches Err(error) ==> error == RequestError::MissingLocalShellCallId,
{
    let mut messages: Vec<Json> = Vec::new();
    let mut pending_tool_calls: Vec<Json> = Vec::new();
    let mut pending_tool_call_content = String::new();
    let mut i: usize = 0;
    while i < items.len()
        invariant
            i <= items@.len(),
            forall|j: int| 0 <= j < i ==> !#[trigger] lacks_call_id(items@[j]),
            read_so_far(messages@, pending_tool_calls@, pending_tool_call_content@) == after_items(
                items@.take(i as int),
            ),
        decreases items@.len() - i,
    {
        let ghost before = after_items(items@.take(i as int));
        proof {
            assert(items@.take(i + 1).drop_last() =~= items@.take(i as int));
            lemma_array_view(pending_tool_calls@);
            reveal_strlit("user");
            reveal_strlit("developer");
            assert("user"@.len() != "developer"@.len());
        }
        match &items[i] {
            ResponseItem::Message { role, content, contextual } => {
                if same_text(role.as_str(), "assistant") {
                    if let Some(message_content) = convert_message_content(content) {
                        let empty = match message_content.as_text() {
                            Some(text) => text.as_str().is_empty(),
                            None => false,
                        };
                        assert(empty == says_nothing(message_content@));
                        if !empty {
                            if !pending_tool_calls.is_empty() {
                                append_message_text(
                                    &mut pending_tool_call_content,
                                    &message_content,
                                );
                            } else {
                                let json = message("assistant", message_content);
                                proof {
                                    lemma_array_push(messages@, json);
                                }
                                messages.push(json);
                            }
                        }
                    }
                } else if (same_text(role.as_str(), "user") && !*contextual) || same_text(
                    role.as_str(),
                    "developer",
                ) {
                    flush_pending_tool_calls(
                        &mut messages,
                        &mut pending_tool_calls,
                        &mut pending_tool_call_content,
                    );
                    if let Some(message_content) = convert_message_content(content) {
                        let json = message("user", message_content);
                        proof {
                            lemma_array_push(messages@, json);
                        }
                        messages.push(json);
                    }
                }
            },
            ResponseItem::FunctionCall { name, arguments, call_id } => {
                let json = call(call_id.as_str(), name.as_str(), arguments.as_str());
                proof {
                    lemma_array_push(pending_tool_calls@, json);
                }
                pending_tool_calls.push(json);
            },
            ResponseItem::CustomToolCall { call_id, name, input } => {
                let arguments = custom_call_arguments(input.as_str());
                let json = call(call_id.as_str(), name.as_str(), arguments.as_str());
                proof {
                    lemma_array_push(pending_tool_calls@, json);
                }
                pending_tool_calls.push(json);
            },
            ResponseItem::LocalShellCall { id, call_id, action } => {
                let answered_by = match call_id {
                    Some(call_id) => call_id.as_str(),
                    None => match id {
                        Some(id) => id.as_str(),
                        None => {
                            assert(lacks_call_id(items@[i as int]));
                            return Err(RequestError::MissingLocalShellCallId);
                        },
                    },
                };
                let arguments = match action {
                    LocalShellAction::Exec(exec) => shell_call_arguments(exec),
                };
                let json = call(answered_by, "bash", arguments.as_str());
                proof {
                    lemma_array_push(pending_tool_calls@, json);
                }
                pending_tool_calls.push(json);
            },
            ResponseItem::FunctionCallOutput { call_id, output } => {
                flush_pending_tool_calls(
                    &mut messages,
                    &mut pending_tool_calls,
                    &mut pending_tool_call_content,
                );
                let json = answer(output, call_id.as_str());
                proof {
                    lemma_array_push(messages@, json);
                }
                messages.push(json);
            },
            ResponseItem::CustomToolCallOutput { call_id, output } => {
                flush_pending_tool_calls(
                    &mut messages,
                    &mut pending_tool_calls,
                    &mut pending_tool_call_content,
                );
                let json = answer(output, call_id.as_str());
                proof {
                    lemma_array_push(messages@, json);
                }
                messages.push(json);
            },
            ResponseItem::ToolSearchCall
            | ResponseItem::ToolSearchOutput
            | ResponseItem::Reasoning
            | ResponseItem::WebSearchCall
            | ResponseItem::ImageGenerationCall
            | ResponseItem::GhostSnapshot
            | ResponseItem::Compaction
            | ResponseItem::Other => {},
        }
        assert(read_so_far(messages@, pending_tool_calls@, pending_tool_call_content@)
            == after_item(before, items@[i as int]));
        i += 1;
    }
    assert(items@.take(i as int) =~= items@);
    flush_pending_tool_calls(
        &mut messages,
        &mut pending_tool_calls,
        &mut pending_tool_call_content,
    );
    Ok(messages)
}

} // verus!
