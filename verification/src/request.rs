//! The chat request that the minimal harness sends.
use vstd::prelude::*;

use crate::conversation::{
    build_messages, chat_messages, lacks_call_id, role_message, RequestError, ResponseItem,
};
use crate::json::{
    array_view, lemma_array_push, lemma_array_view, value_contents, Json, JsonView,
};
use crate::text::same_text;
use crate::tools::{ResponsesApiTool, ToolSpec};

verus! {

/// What the model is told about its task.
pub open spec fn system_prompt() -> Seq<char> {
    "You are an expert software engineer working in the user's current directory.\nUse the tools to investigate the codebase and complete the task. Read code before changing it, match existing conventions, and verify your work when possible."@
}

/// What a request is about.
#[derive(Debug, PartialEq, Eq)]
pub struct Prompt {
    /// The items of the conversation, formatted for the model.
    pub input: Vec<ResponseItem>,
    /// The tools that the model may call.
    pub tools: Vec<ToolSpec>,
}

/// How the reasoning of a model is controlled.
#[derive(Debug, Clone, Copy, PartialEq, Eq, Structural)]
pub enum ReasoningControl {
    /// It is switched on or off.
    ThinkingToggle,
    /// In any other way, or not at all.
    Other,
}

/// How much a model is to reason.
#[derive(Debug, Clone, Copy, PartialEq, Eq, Structural)]
pub enum ReasoningEffort {
    /// Not at all.
    Off,
    Minimal,
    Low,
    Medium,
    High,
    XHigh,
}

/// What is known of a model.
#[derive(Debug, PartialEq, Eq)]
pub struct ModelInfo {
    pub slug: String,
    pub reasoning_control: ReasoningControl,
}

/// The form in which the calls of a tool come back.
#[derive(Debug, Clone, Copy, PartialEq, Eq, Structural)]
pub enum ToolOutputKind {
    Function,
}

/// The form in which the calls of each tool come back, by the tool's name.
#[derive(Debug, PartialEq, Eq)]
pub struct ToolKinds {
    entries: Vec<(String, ToolOutputKind)>,
}

impl ToolKinds {
    /// The form for each name.
    pub closed spec fn view(&self) -> Map<Seq<char>, ToolOutputKind> {
        kinds_view(self.entries@)
    }

    /// No name occurs twice.
    pub closed spec fn well_formed(&self) -> bool {
        forall|i: int, j: int|
            0 <= i < j < self.entries@.len() ==> self.entries@[i].0@ != self.entries@[j].0@
    }

    /// The form of no tool.
    pub fn new() -> (kinds: ToolKinds)
        ensures
            kinds.well_formed(),
            kinds@ == Map::<Seq<char>, ToolOutputKind>::empty(),
    {
        ToolKinds { entries: Vec::new() }
    }

    /// Where the tool `name` stands.
    fn position(&self, name: &str) -> (found: Option<usize>)
        ensures
            found matches Some(at) ==> at < self.entries@.len() && self.entries@[at as int].0@
                == name@,
            found is None ==> forall|i: int|
                0 <= i < self.entries@.len() ==> self.entries@[i].0@ != name@,
    {
        let mut i: usize = 0;
        while i < self.entries.len()
            invariant
                i <= self.entries@.len(),
                forall|j: int| 0 <= j < i ==> self.entries@[j].0@ != name@,
            decreases self.entries@.len() - i,
        {
            if same_text(self.entries[i].0.as_str(), name) {
                return Some(i);
            }
            i += 1;
        }
        None
    }

    /// Sets the form for the tool `name`.
    pub fn set(&mut self, name: &str, kind: ToolOutputKind)
        requires
            old(self).well_formed(),
        ensures
            final(self).well_formed(),
            final(self)@ == old(self)@.insert(name@, kind),
    {
        let ghost before = self.entries@;
        match self.position(name) {
            Some(at) => {
                self.entries.set(at, (name.to_owned(), kind));
                proof {
                    lemma_kinds_view(before);
                    lemma_kinds_view(self.entries@);
                    assert forall|key: Seq<char>| #[trigger]
                        kinds_view(self.entries@).contains_key(key) <==> kinds_view(before).insert(
                            name@,
                            kind,
                        ).contains_key(key) by {
                        if kinds_view(before).contains_key(key) {
                            let i = choose|i: int|
                                0 <= i < before.len() && #[trigger] before[i].0@ == key;
                            assert(self.entries@[i].0@ == key);
                        }
                        if kinds_view(self.entries@).contains_key(key) {
                            let i = choose|i: int|
                                0 <= i < self.entries@.len() && #[trigger] self.entries@[i].0@
                                    == key;
                            assert(before[i].0@ == key);
                        }
                        if key == name@ {
                            assert(self.entries@[at as int].0@ == key);
                        }
                    }
                    assert(kinds_view(self.entries@) =~= kinds_view(before).insert(name@, kind));
                }
            },
            None => {
                self.entries.push((name.to_owned(), kind));
                assert(self.entries@.drop_last() =~= before);
            },
        }
    }

    /// The form for the tool `name`.
    pub fn get(&self, name: &str) -> (kind: Option<ToolOutputKind>)
        requires
            self.well_formed(),
        ensures
            kind is Some <==> self@.contains_key(name@),
            kind matches Some(kind) ==> kind == self@[name@],
    {
        proof {
            lemma_kinds_view(self.entries@);
        }
        match self.position(name) {
            Some(at) => Some(self.entries[at].1),
            None => None,
        }
    }
}

/// The form for each name, out of a list of names and forms.
spec fn kinds_view(entries: Seq<(String, ToolOutputKind)>) -> Map<Seq<char>, ToolOutputKind>
    decreases entries.len(),
{
    if entries.len() == 0 {
        Map::empty()
    } else {
        kinds_view(entries.drop_last()).insert(entries.last().0@, entries.last().1)
    }
}

proof fn lemma_kinds_view(entries: Seq<(String, ToolOutputKind)>)
    ensures
        forall|key: Seq<char>| #[trigger]
            kinds_view(entries).contains_key(key) <==> exists|i: int|
                0 <= i < entries.len() && #[trigger] entries[i].0@ == key,
    decreases entries.len(),
{
    if entries.len() > 0 {
        let before = entries.drop_last();
        lemma_kinds_view(before);
        assert forall|key: Seq<char>| #[trigger]
            kinds_view(entries).contains_key(key) <==> exists|i: int|
                0 <= i < entries.len() && #[trigger] entries[i].0@ == key by {
            if exists|i: int| 0 <= i < entries.len() && #[trigger] entries[i].0@ == key {
                let i = choose|i: int| 0 <= i < entries.len() && #[trigger] entries[i].0@ == key;
                if i < entries.len() - 1 {
                    assert(before[i].0@ == key);
                }
            }
            if kinds_view(before).contains_key(key) {
                let i = choose|i: int| 0 <= i < before.len() && #[trigger] before[i].0@ == key;
                assert(entries[i].0@ == key);
            }
            assert(entries[entries.len() - 1].0@ == entries.last().0@);
        }
    }
}

/// A function tool as the request describes it.
pub open spec fn tool_view(tool: ResponsesApiTool) -> JsonView {
    JsonView::Object(
        map![
            "type"@ => JsonView::Text("function"@),
            "function"@ => JsonView::Object(
                map![
                    "name"@ => JsonView::Text(tool.name@),
                    "description"@ => JsonView::Text(tool.description@),
                    "parameters"@ => tool.parameters@,
                ],
            ),
        ],
    )
}

/// The function tools as the request describes them, in order; other tools are left out.
pub open spec fn tool_views(tools: Seq<ToolSpec>) -> Seq<JsonView>
    decreases tools.len(),
{
    if tools.len() == 0 {
        Seq::empty()
    } else {
        let before = tool_views(tools.drop_last());
        match tools.last() {
            ToolSpec::Function(tool) => before.push(tool_view(tool)),
            ToolSpec::Other { .. } => before,
        }
    }
}

/// The function tools as the request describes them; other tools are left out.
pub fn build_tools(tools: &Vec<ToolSpec>) -> (converted: Vec<Json>)
    ensures
        array_view(converted@) == tool_views(tools@),
{
    let mut converted: Vec<Json> = Vec::new();
    let mut i: usize = 0;
    while i < tools.len()
        invariant
            i <= tools@.len(),
            array_view(converted@) == tool_views(tools@.take(i as int)),
        decreases tools@.len() - i,
    {
        assert(tools@.take(i + 1).drop_last() =~= tools@.take(i as int));
        if let ToolSpec::Function(tool) = &tools[i] {
            let function = Json::object().with("name", Json::text_of(tool.name.as_str())).with(
                "description",
                Json::text_of(tool.description.as_str()),
            ).with("parameters", tool.parameters.to_json());
            let json = Json::object().with("type", Json::text_of("function")).with(
                "function",
                function,
            );
            proof {
                lemma_array_push(converted@, json);
            }
            converted.push(json);
        }
        i += 1;
    }
    assert(tools@.take(i as int) =~= tools@);
    converted
}

/// The forms in which the calls of the tools come back: every tool's calls are function calls.
pub open spec fn tool_kinds(tools: Seq<ToolSpec>) -> Map<Seq<char>, ToolOutputKind>
    decreases tools.len(),
{
    if tools.len() == 0 {
        Map::empty()
    } else {
        tool_kinds(tools.drop_last()).insert(tools.last().spec_name(), ToolOutputKind::Function)
    }
}

/// The forms in which the calls of the tools come back.
pub fn build_tool_kinds(tools: &Vec<ToolSpec>) -> (kinds: ToolKinds)
    ensures
        kinds.well_formed(),
        kinds@ == tool_kinds(tools@),
{
    let mut kinds = ToolKinds::new();
    let mut i: usize = 0;
    while i < tools.len()
        invariant
            i <= tools@.len(),
            kinds.well_formed(),
            kinds@ == tool_kinds(tools@.take(i as int)),
        decreases tools@.len() - i,
    {
        assert(tools@.take(i + 1).drop_last() =~= tools@.take(i as int));
        kinds.set(tools[i].name(), ToolOutputKind::Function);
        i += 1;
    }
    assert(tools@.take(i as int) =~= tools@);
    kinds
}

/// Whether a model is told to think, in the words of the request.
pub open spec fn thinking(effort: Option<ReasoningEffort>) -> Seq<char> {
    if effort == Some(ReasoningEffort::Off) {
        "disabled"@
    } else {
        "enabled"@
    }
}

/// The fields that every request has.
pub open spec fn common_fields(
    slug: Seq<char>,
    messages: Seq<JsonView>,
    tools: Seq<JsonView>,
) -> Map<Seq<char>, JsonView> {
    map![
        "model"@ => JsonView::Text(slug),
        "messages"@ => JsonView::Array(messages),
        "stream"@ => JsonView::Bool(true),
        "stream_options"@ => JsonView::Object(map!["include_usage"@ => JsonView::Bool(true)]),
        "tools"@ => JsonView::Array(tools),
    ]
}

/// The messages of a request: the system prompt, and the conversation behind it.
pub open spec fn request_messages(input: Seq<ResponseItem>) -> Seq<JsonView> {
    seq![role_message("system"@, JsonView::Text(system_prompt()))] + chat_messages(input)
}

/// The fields of a request. Only a model whose thinking is switched is told whether to think.
pub open spec fn request_fields(
    prompt: Prompt,
    model_info: ModelInfo,
    effort: Option<ReasoningEffort>,
) -> Map<Seq<char>, JsonView> {
    let common = common_fields(
        model_info.slug@,
        request_messages(prompt.input@),
        tool_views(prompt.tools@),
    );
    if model_info.reasoning_control == ReasoningControl::ThinkingToggle {
        common.insert(
            "thinking"@,
            JsonView::Object(map!["type"@ => JsonView::Text(thinking(effort))]),
        )
    } else {
        common
    }
}

/// `first` in front of `rest`.
fn put_in_front(first: Json, rest: Vec<Json>) -> (all: Vec<Json>)
    ensures
        array_view(all@) == seq![first@] + array_view(rest@),
{
    let mut all: Vec<Json> = Vec::new();
    let mut rest = rest;
    let ghost behind = rest@;
    all.push(first);
    all.append(&mut rest);
    proof {
        lemma_array_view(all@);
        lemma_array_view(behind);
        assert forall|i: int| 0 <= i < all@.len() implies array_view(all@)[i] == (seq![first@]
            + array_view(behind))[i] by {
            if i > 0 {
                assert(all@[i] == behind[i - 1]);
            }
        }
        assert(array_view(all@) =~= seq![first@] + array_view(behind));
    }
    all
}

/// The request. It fails exactly where the messages cannot be built.
pub fn request_json(
    prompt: &Prompt,
    model_info: &ModelInfo,
    effort: Option<ReasoningEffort>,
) -> (built: Result<Json, RequestError>)
    ensures
        built is Err <==> exists|i: int|
            0 <= i < prompt.input@.len() && #[trigger] lacks_call_id(prompt.input@[i]),
        built matches Err(error) ==> error == RequestError::MissingLocalShellCallId,
        built matches Ok(request) ==> request@ == JsonView::Object(
            request_fields(*prompt, *model_info, effort),
        ),
{
    let chat = match build_messages(&prompt.input) {
        Ok(chat) => chat,
        Err(error) => {
            return Err(error);
        },
    };
    let system = Json::object().with("role", Json::text_of("system")).with(
        "content",
        Json::text_of(
            "You are an expert software engineer working in the user's current directory.\nUse the tools to investigate the codebase and complete the task. Read code before changing it, match existing conventions, and verify your work when possible.",
        ),
    );
    let messages = put_in_front(system, chat);
    let tools = build_tools(&prompt.tools);
    let mut request = Json::object().with("model", Json::text_of(model_info.slug.as_str())).with(
        "messages",
        Json::Array(messages),
    ).with("stream", Json::Bool(true)).with(
        "stream_options",
        Json::object().with("include_usage", Json::Bool(true)),
    ).with("tools", Json::Array(tools));
    if model_info.reasoning_control == ReasoningControl::ThinkingToggle {
        let word = match effort {
            Some(ReasoningEffort::Off) => "disabled",
            _ => "enabled",
        };
        request = request.with("thinking", Json::object().with("type", Json::text_of(word)));
    }
    Ok(request)
}

/// The request as it goes over the wire, and the form in which the calls of each tool come back. It
/// fails exactly where the messages cannot be built.
pub fn build_request(
    prompt: &Prompt,
    model_info: &ModelInfo,
    effort: Option<ReasoningEffort>,
) -> (built: Result<(serde_json::Value, ToolKinds), RequestError>)
    ensures
        built is Err <==> exists|i: int|
            0 <= i < prompt.input@.len() && #[trigger] lacks_call_id(prompt.input@[i]),
        built matches Err(error) ==> error == RequestError::MissingLocalShellCallId,
        built matches Ok((request, kinds)) ==> {
            &&& value_contents(request) == JsonView::Object(
                request_fields(*prompt, *model_info, effort),
            )
            &&& kinds.well_formed()
            &&& kinds@ == tool_kinds(prompt.tools@)
        },
{
    match request_json(prompt, model_info, effort) {
        Ok(request) => Ok((request.to_value(), build_tool_kinds(&prompt.tools))),
        Err(error) => Err(error),
    }
}

/// The first message of every request is the system prompt, and the conversation follows it whole.
pub proof fn law_system_prompt_comes_first(input: Seq<ResponseItem>)
    ensures
        request_messages(input).len() == chat_messages(input).len() + 1,
        request_messages(input)[0] == role_message("system"@, JsonView::Text(system_prompt())),
        forall|i: int|
            0 <= i < chat_messages(input).len() ==> #[trigger] request_messages(input)[i + 1]
                == chat_messages(input)[i],
{
}

/// A request tells a model whether to think exactly where its thinking is switched; it is told not to
/// only where the effort says so.
pub proof fn law_thinking_is_told_only_where_it_is_switched(
    prompt: Prompt,
    model_info: ModelInfo,
    effort: Option<ReasoningEffort>,
)
    ensures
        request_fields(prompt, model_info, effort).contains_key("thinking"@) <==> (
        model_info.reasoning_control == ReasoningControl::ThinkingToggle),
        model_info.reasoning_control == ReasoningControl::ThinkingToggle ==> request_fields(
            prompt,
            model_info,
            effort,
        )["thinking"@] == JsonView::Object(
            map![
                "type"@ => JsonView::Text(
                    if effort == Some(ReasoningEffort::Off) {
                        "disabled"@
                    } else {
                        "enabled"@
                    },
                ),
            ],
        ),
{
    reveal_strlit("thinking");
    reveal_strlit("model");
    reveal_strlit("messages");
    reveal_strlit("stream");
    reveal_strlit("stream_options");
    reveal_strlit("tools");
    assert("thinking"@[0] == 't' && "messages"@[0] == 'm');
    assert("thinking"@.len() == 8 && "model"@.len() == 5 && "stream"@.len() == 6);
    assert("stream_options"@.len() == 14 && "tools"@.len() == 5);
}

/// The form of a call is known for every tool of the prompt and for no other.
pub proof fn law_every_tool_has_a_kind(tools: Seq<ToolSpec>, name: Seq<char>)
    ensures
        tool_kinds(tools).contains_key(name) <==> exists|i: int|
            0 <= i < tools.len() && #[trigger] tools[i].spec_name() == name,
    decreases tools.len(),
{
    if tools.len() > 0 {
        let before = tools.drop_last();
        law_every_tool_has_a_kind(before, name);
        if tool_kinds(before).contains_key(name) {
            let i = choose|i: int| 0 <= i < before.len() && #[trigger] before[i].spec_name() == name;
            assert(tools[i].spec_name() == name);
        }
        if exists|i: int| 0 <= i < tools.len() && #[trigger] tools[i].spec_name() == name {
            let i = choose|i: int| 0 <= i < tools.len() && #[trigger] tools[i].spec_name() == name;
            if i < tools.len() - 1 {
                assert(before[i].spec_name() == name);
            }
        }
        assert(tools[tools.len() - 1].spec_name() == tools.last().spec_name());
    }
}

} // verus!
