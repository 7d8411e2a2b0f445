//! What a request says, field by field, and how the requests for two lists of tools relate.
use vstd::prelude::*;

use crate::conversation::chat_messages;
use crate::json::{
    array_view, lemma_array_view, object_view, value_contents, values_contents, Json, JsonView,
};
use crate::request::{
    request_fields, tool_kinds, tool_views, ModelInfo, Prompt, ReasoningControl, ReasoningEffort,
    ToolOutputKind,
};
use crate::tools::{
    bash_properties, closed_object, editor_properties, properties_view, text_array, JsonSchema,
    ResponsesApiTool, ToolSpec,
};

verus! {

// ---------------------------------------------------------------------------------------------
// Requests
// ---------------------------------------------------------------------------------------------

/// A request names the model, asks for a stream with its usage, and holds the system prompt, the
/// messages of the conversation behind it, and the tools; a model whose thinking is switched is told
/// whether to think. It holds nothing else.
pub proof fn law_request_field_by_field(
    prompt: Prompt,
    model_info: ModelInfo,
    effort: Option<ReasoningEffort>,
)
    ensures
        ({
            let common = map![
                "model"@ => JsonView::Text(model_info.slug@),
                "messages"@ => JsonView::Array(
                    seq![
                        JsonView::Object(
                            map![
                                "role"@ => JsonView::Text("system"@),
                                "content"@ => JsonView::Text(
                                    "You are an expert software engineer working in the user's current directory.\nUse the tools to investigate the codebase and complete the task. Read code before changing it, match existing conventions, and verify your work when possible."@,
                                ),
                            ],
                        ),
                    ] + chat_messages(prompt.input@),
                ),
                "stream"@ => JsonView::Bool(true),
                "stream_options"@ => JsonView::Object(
                    map!["include_usage"@ => JsonView::Bool(true)],
                ),
                "tools"@ => JsonView::Array(tool_views(prompt.tools@)),
            ];
            let thinking = JsonView::Object(
                map![
                    "type"@ => JsonView::Text(
                        if effort == Some(ReasoningEffort::Off) {
                            "disabled"@
                        } else {
                            "enabled"@
                        },
                    ),
                ],
            );
            request_fields(prompt, model_info, effort) == if model_info.reasoning_control
                == ReasoningControl::ThinkingToggle {
                common.insert("thinking"@, thinking)
            } else {
                common
            }
        }),
{
}

/// The tools of a request are those of the first list and those of the second.
pub proof fn law_tools_of_two_lists(first: Seq<ToolSpec>, second: Seq<ToolSpec>)
    ensures
        tool_views(first + second) == tool_views(first) + tool_views(second),
    decreases second.len(),
{
    if second.len() == 0 {
        assert(first + second =~= first);
        assert(tool_views(first) + tool_views(second) =~= tool_views(first));
    } else {
        law_tools_of_two_lists(first, second.drop_last());
        assert((first + second).drop_last() =~= first + second.drop_last());
        assert((first + second).last() == second.last());
        assert(tool_views(first + second) =~= tool_views(first) + tool_views(second));
    }
}

/// A function tool is described by its name, its description and its parameters; a tool of another kind
/// is not described.
pub proof fn law_function_tools_are_described(tool: ResponsesApiTool, name: String)
    ensures
        tool_views(Seq::empty()) == Seq::<JsonView>::empty(),
        tool_views(seq![ToolSpec::Other { name }]) == Seq::<JsonView>::empty(),
        tool_views(seq![ToolSpec::Function(tool)]) == seq![
            JsonView::Object(
                map![
                    "type"@ => JsonView::Text("function"@),
                    "function"@ => JsonView::Object(
                        map![
                            "name"@ => JsonView::Text(tool.name@),
                            "description"@ => JsonView::Text(tool.description@),
                            "parameters"@ => tool.parameters@,
                        ],
                    ),
                ],
            ),
        ],
{
    let none = Seq::<ToolSpec>::empty();
    assert(seq![ToolSpec::Other { name }].drop_last() =~= none);
    assert(seq![ToolSpec::Function(tool)].drop_last() =~= none);
    reveal_with_fuel(tool_views, 2);
}

/// The calls of each tool come back as function calls, under the tool's name.
pub proof fn law_each_tool_is_known_by_its_name(
    tools: Seq<ToolSpec>,
    tool: ResponsesApiTool,
    name: String,
)
    ensures
        tool_kinds(Seq::empty()) == Map::<Seq<char>, ToolOutputKind>::empty(),
        tool_kinds(tools.push(ToolSpec::Function(tool))) == tool_kinds(tools).insert(
            tool.name@,
            ToolOutputKind::Function,
        ),
        tool_kinds(tools.push(ToolSpec::Other { name })) == tool_kinds(tools).insert(
            name@,
            ToolOutputKind::Function,
        ),
{
    assert(tools.push(ToolSpec::Function(tool)).drop_last() =~= tools);
    assert(tools.push(ToolSpec::Other { name }).drop_last() =~= tools);
}

// ---------------------------------------------------------------------------------------------
// Tools
// ---------------------------------------------------------------------------------------------

/// The parameters of the `bash` tool: a command, which is required, and a timeout in seconds, and no
/// others.
pub proof fn law_bash_parameters()
    ensures
        closed_object(bash_properties(), seq![JsonView::Text("command"@)]) == JsonView::Object(
            map![
                "type"@ => JsonView::Text("object"@),
                "properties"@ => JsonView::Object(
                    map![
                        "command"@ => JsonView::Object(map!["type"@ => JsonView::Text("string"@)]),
                        "timeout"@ => JsonView::Object(
                            map![
                                "type"@ => JsonView::Text("integer"@),
                                "description"@ => JsonView::Text(
                                    "Timeout in seconds. Defaults to 120."@,
                                ),
                            ],
                        ),
                    ],
                ),
                "required"@ => JsonView::Array(seq![JsonView::Text("command"@)]),
                "additionalProperties"@ => JsonView::Bool(false),
            ],
        ),
{
}

/// The parameters of the `str_replace_editor` tool: one of five commands and a path, which are
/// required, and what the commands need, and no others.
pub proof fn law_editor_parameters()
    ensures
        closed_object(
            editor_properties(),
            seq![JsonView::Text("command"@), JsonView::Text("path"@)],
        ) == JsonView::Object(
            map![
                "type"@ => JsonView::Text("object"@),
                "properties"@ => JsonView::Object(
                    map![
                        "command"@ => JsonView::Object(
                            map![
                                "type"@ => JsonView::Text("string"@),
                                "enum"@ => JsonView::Array(
                                    seq![
                                        JsonView::Text("view"@),
                                        JsonView::Text("create"@),
                                        JsonView::Text("str_replace"@),
                                        JsonView::Text("insert"@),
                                        JsonView::Text("undo_edit"@),
                                    ],
                                ),
                            ],
                        ),
                        "path"@ => JsonView::Object(map!["type"@ => JsonView::Text("string"@)]),
                        "view_range"@ => JsonView::Object(
                            map![
                                "type"@ => JsonView::Text("array"@),
                                "items"@ => JsonView::Object(
                                    map!["type"@ => JsonView::Text("integer"@)],
                                ),
                            ],
                        ),
                        "file_text"@ => JsonView::Object(
                            map!["type"@ => JsonView::Text("string"@)],
                        ),
                        "old_str"@ => JsonView::Object(map!["type"@ => JsonView::Text("string"@)]),
                        "new_str"@ => JsonView::Object(map!["type"@ => JsonView::Text("string"@)]),
                        "insert_line"@ => JsonView::Object(
                            map!["type"@ => JsonView::Text("integer"@)],
                        ),
                    ],
                ),
                "required"@ => JsonView::Array(
                    seq![JsonView::Text("command"@), JsonView::Text("path"@)],
                ),
                "additionalProperties"@ => JsonView::Bool(false),
            ],
        ),
{
}

/// The document of a schema without a description, shape by shape.
pub proof fn law_schema_documents(
    values: Vec<String>,
    items: Box<JsonSchema>,
    properties: Vec<(String, JsonSchema)>,
    required: Vec<String>,
    allowed: bool,
    document: Json,
)
    ensures
        (JsonSchema::Text { description: None })@ == JsonView::Object(
            map!["type"@ => JsonView::Text("string"@)],
        ),
        (JsonSchema::Integer { description: None })@ == JsonView::Object(
            map!["type"@ => JsonView::Text("integer"@)],
        ),
        (JsonSchema::TextEnum { values, description: None })@ == JsonView::Object(
            map!["type"@ => JsonView::Text("string"@), "enum"@ => text_array(values@)],
        ),
        (JsonSchema::Array { items, description: None })@ == JsonView::Object(
            map!["type"@ => JsonView::Text("array"@), "items"@ => items@],
        ),
        (JsonSchema::Object {
            properties,
            required: Some(required),
            additional_properties: Some(allowed),
        })@ == JsonView::Object(
            map![
                "type"@ => JsonView::Text("object"@),
                "properties"@ => JsonView::Object(properties_view(properties@)),
                "required"@ => text_array(required@),
                "additionalProperties"@ => JsonView::Bool(allowed),
            ],
        ),
        (JsonSchema::Object {
            properties,
            required: Some(required),
            additional_properties: None,
        })@ == JsonView::Object(
            map![
                "type"@ => JsonView::Text("object"@),
                "properties"@ => JsonView::Object(properties_view(properties@)),
                "required"@ => text_array(required@),
            ],
        ),
        (JsonSchema::Object {
            properties,
            required: None,
            additional_properties: Some(allowed),
        })@ == JsonView::Object(
            map![
                "type"@ => JsonView::Text("object"@),
                "properties"@ => JsonView::Object(properties_view(properties@)),
                "additionalProperties"@ => JsonView::Bool(allowed),
            ],
        ),
        (JsonSchema::Object { properties, required: None, additional_properties: None })@
            == JsonView::Object(
            map![
                "type"@ => JsonView::Text("object"@),
                "properties"@ => JsonView::Object(properties_view(properties@)),
            ],
        ),
        JsonSchema::Document(document)@ == document@,
{
}

/// A description is one more field of a schema's document.
pub proof fn law_description_is_one_field_more(
    text: String,
    values: Vec<String>,
    items: Box<JsonSchema>,
)
    ensures
        (JsonSchema::Text { description: Some(text) })@ == JsonView::Object(
            (JsonSchema::Text { description: None })@->Object_0.insert(
                "description"@,
                JsonView::Text(text@),
            ),
        ),
        (JsonSchema::Integer { description: Some(text) })@ == JsonView::Object(
            (JsonSchema::Integer { description: None })@->Object_0.insert(
                "description"@,
                JsonView::Text(text@),
            ),
        ),
        (JsonSchema::TextEnum { values, description: Some(text) })@ == JsonView::Object(
            (JsonSchema::TextEnum { values, description: None })@->Object_0.insert(
                "description"@,
                JsonView::Text(text@),
            ),
        ),
        (JsonSchema::Array { items, description: Some(text) })@ == JsonView::Object(
            (JsonSchema::Array { items, description: None })@->Object_0.insert(
                "description"@,
                JsonView::Text(text@),
            ),
        ),
{
}

/// The properties of an object are the documents of its schemas under their names; of two with one name
/// the later one counts.
pub proof fn law_properties_by_name(
    properties: Seq<(String, JsonSchema)>,
    name: String,
    schema: JsonSchema,
)
    ensures
        properties_view(Seq::empty()) == Map::<Seq<char>, JsonView>::empty(),
        properties_view(properties.push((name, schema))) == properties_view(properties).insert(
            name@,
            schema@,
        ),
{
    assert(properties.push((name, schema)).drop_last() =~= properties);
}

/// Strings become a JSON array of the same strings in the same order.
pub proof fn law_strings_become_an_array(strings: Seq<String>, i: int)
    ensures
        text_array(strings) is Array,
        text_array(strings)->Array_0.len() == strings.len(),
        0 <= i < strings.len() ==> text_array(strings)->Array_0[i] == JsonView::Text(strings[i]@),
{
}

// ---------------------------------------------------------------------------------------------
// JSON values
// ---------------------------------------------------------------------------------------------

/// A JSON value means what it holds.
pub proof fn law_json_means_what_it_holds(
    flag: bool,
    number: u64,
    text: String,
    items: Vec<Json>,
    fields: Vec<(String, Json)>,
    outside: serde_json::Value,
)
    ensures
        Json::Null@ == JsonView::Null,
        Json::Bool(flag)@ == JsonView::Bool(flag),
        Json::Number(number)@ == JsonView::Number(number as nat),
        Json::Text(text)@ == JsonView::Text(text@),
        Json::Array(items)@ == JsonView::Array(array_view(items@)),
        Json::Object(fields)@ == JsonView::Object(object_view(fields@)),
        Json::Outside(outside)@ == value_contents(outside),
{
}

/// The elements of an array mean what they mean, one by one.
pub proof fn law_array_element_by_element(items: Seq<Json>, i: int)
    requires
        0 <= i < items.len(),
    ensures
        array_view(items).len() == items.len(),
        array_view(items)[i] == items[i]@,
{
    lemma_array_view(items);
}

/// The values under the keys of an object; of two fields with one key the later one counts.
pub proof fn law_object_field_by_field(fields: Seq<(String, Json)>, key: String, value: Json)
    ensures
        object_view(Seq::empty()) == Map::<Seq<char>, JsonView>::empty(),
        object_view(fields.push((key, value))) == object_view(fields).insert(key@, value@),
{
    assert(fields.push((key, value)).drop_last() =~= fields);
}

/// What the elements of an outside array hold, one by one.
pub proof fn law_outside_array_element_by_element(values: Seq<serde_json::Value>, i: int)
    requires
        0 <= i < values.len(),
    ensures
        values_contents(values).len() == values.len(),
        values_contents(values)[i] == value_contents(values[i]),
{
}

} // verus!
