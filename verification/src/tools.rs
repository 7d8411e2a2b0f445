//! The tools that the minimal harness offers to a model.
use vstd::prelude::*;

use crate::json::{array_view, lemma_array_push, Json, JsonView};

verus! {

/// The schema of a tool's parameters, or of one of them. Its meaning is the JSON Schema document
/// that goes over the wire.
#[derive(Debug, PartialEq, Eq)]
pub enum JsonSchema {
    /// Any string.
    Text { description: Option<String> },
    /// One of the listed strings.
    TextEnum { values: Vec<String>, description: Option<String> },
    /// Any whole number.
    Integer { description: Option<String> },
    /// An array whose elements all follow one schema.
    Array { items: Box<JsonSchema>, description: Option<String> },
    /// An object. `additional_properties` says whether it may have other properties than those
    /// listed.
    Object {
        properties: Vec<(String, JsonSchema)>,
        required: Option<Vec<String>>,
        additional_properties: Option<bool>,
    },
    /// A schema of any other shape, by its document.
    Document(Json),
}

/// The fields of a schema document of the type `name`.
pub open spec fn typed(name: Seq<char>) -> Map<Seq<char>, JsonView> {
    map!["type"@ => JsonView::Text(name)]
}

/// The fields, with a description where there is one.
pub open spec fn described(
    fields: Map<Seq<char>, JsonView>,
    description: Option<String>,
) -> Map<Seq<char>, JsonView> {
    match description {
        Some(text) => fields.insert("description"@, JsonView::Text(text@)),
        None => fields,
    }
}

/// The strings as JSON strings.
pub open spec fn text_views(strings: Seq<String>) -> Seq<JsonView> {
    strings.map_values(|s: String| JsonView::Text(s@))
}

/// The strings as the elements of a JSON array.
pub open spec fn text_array(strings: Seq<String>) -> JsonView {
    JsonView::Array(text_views(strings))
}

/// The documents of an object's properties, each under its property's name.
pub open spec fn properties_view(properties: Seq<(String, JsonSchema)>) -> Map<Seq<char>, JsonView>
    decreases properties,
{
    if properties.len() == 0 {
        Map::empty()
    } else {
        properties_view(properties.drop_last()).insert(
            properties.last().0@,
            properties.last().1.view(),
        )
    }
}

impl JsonSchema {
    /// The JSON Schema document that the schema stands for.
    pub open spec fn view(&self) -> JsonView
        decreases self,
    {
        match self {
            JsonSchema::Text { description } => JsonView::Object(
                described(typed("string"@), *description),
            ),
            JsonSchema::TextEnum { values, description } => JsonView::Object(
                described(
                    typed("string"@).insert("enum"@, text_array(values@)),
                    *description,
                ),
            ),
            JsonSchema::Integer { description } => JsonView::Object(
                described(typed("integer"@), *description),
            ),
            JsonSchema::Array { items, description } => JsonView::Object(
                described(typed("array"@).insert("items"@, items.view()), *description),
            ),
            JsonSchema::Object { properties, required, additional_properties } => {
                let fields = typed("object"@).insert(
                    "properties"@,
                    JsonView::Object(properties_view(properties@)),
                );
                let fields = match required {
                    Some(names) => fields.insert("required"@, text_array(names@)),
                    None => fields,
                };
                JsonView::Object(
                    match additional_properties {
                        Some(allowed) => fields.insert(
                            "additionalProperties"@,
                            JsonView::Bool(*allowed),
                        ),
                        None => fields,
                    },
                )
            },
            JsonSchema::Document(document) => document.view(),
        }
    }
}

/// A function tool, as the Responses API describes it.
#[derive(Debug, PartialEq, Eq)]
pub struct ResponsesApiTool {
    pub name: String,
    pub description: String,
    pub strict: bool,
    pub defer_loading: Option<bool>,
    pub parameters: JsonSchema,
    pub output_schema: Option<Json>,
}

/// A tool that a model may call.
#[derive(Debug, PartialEq, Eq)]
pub enum ToolSpec {
    /// A function tool.
    Function(ResponsesApiTool),
    /// A tool of any other kind, of which only the name is known here.
    Other { name: String },
}

impl ToolSpec {
    /// The tool's name.
    pub open spec fn spec_name(&self) -> Seq<char> {
        match self {
            ToolSpec::Function(tool) => tool.name@,
            ToolSpec::Other { name } => name@,
        }
    }

    /// The tool's name.
    pub fn name(&self) -> (name: &str)
        ensures
            name@ == self.spec_name(),
    {
        match self {
            ToolSpec::Function(tool) => tool.name.as_str(),
            ToolSpec::Other { name } => name.as_str(),
        }
    }
}

/// `json`, with a description where there is one.
fn describe(json: Json, description: &Option<String>) -> (out: Json)
    requires
        json is Object,
    ensures
        out@ == JsonView::Object(described(json@->Object_0, *description)),
{
    match description {
        Some(text) => json.with("description", Json::text_of(text.as_str())),
        None => json,
    }
}

/// The strings as the elements of a JSON array.
pub fn strings_to_json(strings: &Vec<String>) -> (json: Json)
    ensures
        json@ == text_array(strings@),
{
    let mut items: Vec<Json> = Vec::new();
    let mut i: usize = 0;
    while i < strings.len()
        invariant
            i <= strings@.len(),
            array_view(items@) =~= text_views(strings@.take(i as int)),
        decreases strings@.len() - i,
    {
        let item = Json::text_of(strings[i].as_str());
        proof {
            lemma_array_push(items@, item);
            assert(text_views(strings@.take(i + 1)) =~= text_views(strings@.take(i as int)).push(
                JsonView::Text(strings@[i as int]@),
            ));
        }
        items.push(item);
        i += 1;
    }
    assert(strings@.take(i as int) =~= strings@);
    Json::Array(items)
}

impl JsonSchema {
    /// The schema as the JSON Schema document that goes over the wire.
    pub fn to_json(&self) -> (json: Json)
        ensures
            json@ == self@,
        decreases self,
    {
        match self {
            JsonSchema::Text { description } => describe(typed_json("string"), description),
            JsonSchema::TextEnum { values, description } => {
                let listed = strings_to_json(values);
                describe(typed_json("string").with("enum", listed), description)
            },
            JsonSchema::Integer { description } => describe(typed_json("integer"), description),
            JsonSchema::Array { items, description } => {
                let element = items.to_json();
                describe(typed_json("array").with("items", element), description)
            },
            JsonSchema::Object { properties, required, additional_properties } => {
                let mut fields = Json::object();
                let mut i: usize = 0;
                while i < properties.len()
                    invariant
                        i <= properties@.len(),
                        self matches JsonSchema::Object { properties: own, .. } && own
                            == properties,
                        fields is Object,
                        fields@ == JsonView::Object(properties_view(properties@.take(i as int))),
                    decreases properties@.len() - i,
                {
                    assert(decreases_to!(self => properties@[i as int].1));
                    let property = properties[i].1.to_json();
                    fields = fields.with(properties[i].0.as_str(), property);
                    i += 1;
                    assert(properties@.take(i as int).drop_last() =~= properties@.take(i - 1));
                }
                assert(properties@.take(i as int) =~= properties@);
                let mut json = typed_json("object").with("properties", fields);
                if let Some(names) = required {
                    json = json.with("required", strings_to_json(names));
                }
                if let Some(allowed) = additional_properties {
                    json = json.with("additionalProperties", Json::Bool(*allowed));
                }
                json
            },
            JsonSchema::Document(document) => Json::Outside(document.to_value()),
        }
    }
}

/// A schema document of the type `name`.
fn typed_json(name: &str) -> (json: Json)
    ensures
        json is Object,
        json@ == JsonView::Object(typed(name@)),
{
    Json::object().with("type", Json::text_of(name))
}

/// The properties of the `bash` tool's parameters.
pub open spec fn bash_properties() -> Map<Seq<char>, JsonView> {
    map![
        "command"@ => JsonView::Object(typed("string"@)),
        "timeout"@ => JsonView::Object(
            typed("integer"@).insert(
                "description"@,
                JsonView::Text("Timeout in seconds. Defaults to 120."@),
            ),
        ),
    ]
}

/// The schema document of an object with the given properties, of which some are required, and which
/// may have no others.
pub open spec fn closed_object(
    properties: Map<Seq<char>, JsonView>,
    required: Seq<JsonView>,
) -> JsonView {
    JsonView::Object(
        typed("object"@).insert("properties"@, JsonView::Object(properties)).insert(
            "required"@,
            JsonView::Array(required),
        ).insert("additionalProperties"@, JsonView::Bool(false)),
    )
}

/// The tool that runs a command in a persistent shell.
pub fn create_minimal_bash_tool() -> (tool: ToolSpec)
    ensures
        tool matches ToolSpec::Function(function) && {
            &&& function.name@ == "bash"@
            &&& function.description@
                == "Run a bash command in a persistent shell. State (cwd, env, background processes) persists across calls. Starts in the user's working directory."@
            &&& !function.strict
            &&& function.defer_loading is None
            &&& function.parameters@ == closed_object(
                bash_properties(),
                seq![JsonView::Text("command"@)],
            )
            &&& function.output_schema is None
        },
{
    let properties = vec![
        ("command".to_owned(), JsonSchema::Text { description: None }),
        (
            "timeout".to_owned(),
            JsonSchema::Integer {
                description: Some("Timeout in seconds. Defaults to 120.".to_owned()),
            },
        ),
    ];
    let required = vec!["command".to_owned()];
    proof {
        reveal_with_fuel(properties_view, 3);
        assert(properties_view(properties@) == bash_properties());
        assert(text_views(required@) =~= seq![JsonView::Text("command"@)]);
    }
    ToolSpec::Function(
        ResponsesApiTool {
            name: "bash".to_owned(),
            description: "Run a bash command in a persistent shell. State (cwd, env, background processes) persists across calls. Starts in the user's working directory.".to_owned(),
            strict: false,
            defer_loading: None,
            parameters: JsonSchema::Object {
                properties,
                required: Some(required),
                additional_properties: Some(false),
            },
            output_schema: None,
        },
    )
}

/// The names of the editor's commands, as the model writes them.
pub open spec fn editor_command_names() -> Seq<JsonView> {
    seq![
        JsonView::Text("view"@),
        JsonView::Text("create"@),
        JsonView::Text("str_replace"@),
        JsonView::Text("insert"@),
        JsonView::Text("undo_edit"@),
    ]
}

/// The properties of the `str_replace_editor` tool's parameters.
pub open spec fn editor_properties() -> Map<Seq<char>, JsonView> {
    let text = JsonView::Object(typed("string"@));
    let integer = JsonView::Object(typed("integer"@));
    map![
        "command"@ => JsonView::Object(
            typed("string"@).insert("enum"@, JsonView::Array(editor_command_names())),
        ),
        "path"@ => text,
        "view_range"@ => JsonView::Object(typed("array"@).insert("items"@, integer)),
        "file_text"@ => text,
        "old_str"@ => text,
        "new_str"@ => text,
        "insert_line"@ => integer,
    ]
}

/// The tool that views and edits files.
pub fn create_minimal_str_replace_editor_tool() -> (tool: ToolSpec)
    ensures
        tool matches ToolSpec::Function(function) && {
            &&& function.name@ == "str_replace_editor"@
            &&& function.description@ == "View and edit files. All paths must be absolute."@
            &&& !function.strict
            &&& function.defer_loading is None
            &&& function.parameters@ == closed_object(
                editor_properties(),
                seq![JsonView::Text("command"@), JsonView::Text("path"@)],
            )
            &&& function.output_schema is None
        },
{
    let commands = vec![
        "view".to_owned(),
        "create".to_owned(),
        "str_replace".to_owned(),
        "insert".to_owned(),
        "undo_edit".to_owned(),
    ];
    assert(text_views(commands@) =~= editor_command_names());
    let properties = vec![
        ("command".to_owned(), JsonSchema::TextEnum { values: commands, description: None }),
        ("path".to_owned(), JsonSchema::Text { description: None }),
        (
            "view_range".to_owned(),
            JsonSchema::Array {
                items: Box::new(JsonSchema::Integer { description: None }),
                description: None,
            },
        ),
        ("file_text".to_owned(), JsonSchema::Text { description: None }),
        ("old_str".to_owned(), JsonSchema::Text { description: None }),
        ("new_str".to_owned(), JsonSchema::Text { description: None }),
        ("insert_line".to_owned(), JsonSchema::Integer { description: None }),
    ];
    let required = vec!["command".to_owned(), "path".to_owned()];
    proof {
        reveal_with_fuel(properties_view, 8);
        reveal_with_fuel(JsonSchema::view, 2);
        assert(properties_view(properties@) == editor_properties());
        assert(text_views(required@) =~= seq![
            JsonView::Text("command"@),
            JsonView::Text("path"@),
        ]);
    }
    ToolSpec::Function(
        ResponsesApiTool {
            name: "str_replace_editor".to_owned(),
            description: "View and edit files. All paths must be absolute.".to_owned(),
            strict: false,
            defer_loading: None,
            parameters: JsonSchema::Object {
                properties,
                required: Some(required),
                additional_properties: Some(false),
            },
            output_schema: None,
        },
    )
}

} // verus!
