use open_interpreter::json::Json;
use open_interpreter::request::build_tools;
use open_interpreter::tools::{
    create_minimal_bash_tool, create_minimal_str_replace_editor_tool, strings_to_json, JsonSchema,
    ResponsesApiTool, ToolSpec,
};
use serde_json::Value;

fn function(tool: ToolSpec) -> ResponsesApiTool {
    match tool {
        ToolSpec::Function(tool) => tool,
        ToolSpec::Other { .. } => panic!("expected a function tool"),
    }
}

fn parsed(text: &str) -> Value {
    serde_json::from_str(text).expect("valid JSON")
}

#[test]
fn the_bash_tool_is_described() {
    assert_eq!(create_minimal_bash_tool().name(), "bash");
    let tool = function(create_minimal_bash_tool());
    assert_eq!(tool.name, "bash");
    assert_eq!(tool.description, "Run a bash command in a persistent shell. State (cwd, env, background processes) persists across calls. Starts in the user's working directory.");
    assert!(!tool.strict);
    assert_eq!(tool.defer_loading, None);
    assert_eq!(tool.output_schema, None);
    assert_eq!(
        tool.parameters.to_json().to_value(),
        parsed(
            "{\"type\":\"object\",\"properties\":{\"command\":{\"type\":\"string\"},\"timeout\":{\"type\":\"integer\",\"description\":\"Timeout in seconds. Defaults to 120.\"}},\"required\":[\"command\"],\"additionalProperties\":false}"
        )
    );
}

#[test]
fn the_editor_tool_is_described() {
    let tool = function(create_minimal_str_replace_editor_tool());
    assert_eq!(tool.name, "str_replace_editor");
    assert_eq!(
        tool.description,
        "View and edit files. All paths must be absolute."
    );
    assert!(!tool.strict);
    assert_eq!(
        tool.parameters.to_json().to_value(),
        parsed(
            "{\"type\":\"object\",\"properties\":{\"command\":{\"type\":\"string\",\"enum\":[\"view\",\"create\",\"str_replace\",\"insert\",\"undo_edit\"]},\"path\":{\"type\":\"string\"},\"view_range\":{\"type\":\"array\",\"items\":{\"type\":\"integer\"}},\"file_text\":{\"type\":\"string\"},\"old_str\":{\"type\":\"string\"},\"new_str\":{\"type\":\"string\"},\"insert_line\":{\"type\":\"integer\"}},\"required\":[\"command\",\"path\"],\"additionalProperties\":false}"
        )
    );
}

#[test]
fn parts_of_a_schema_that_are_missing_are_left_out() {
    let schema = JsonSchema::Object {
        properties: vec![(
            "k".to_string(),
            JsonSchema::TextEnum {
                values: vec!["a".to_string()],
                description: Some("d".to_string()),
            },
        )],
        required: None,
        additional_properties: None,
    };
    assert_eq!(
        schema.to_json().to_value(),
        parsed("{\"type\":\"object\",\"properties\":{\"k\":{\"type\":\"string\",\"enum\":[\"a\"],\"description\":\"d\"}}}")
    );
    assert_eq!(
        strings_to_json(&vec!["x".to_string(), "y".to_string()]).to_value(),
        parsed("[\"x\",\"y\"]")
    );
}

#[test]
fn a_schema_of_any_shape_is_handed_on() {
    let document = "{\"anyOf\":[{\"type\":\"boolean\"},{\"type\":\"number\",\"minimum\":-0.5}]}";
    let built = build_tools(&vec![ToolSpec::Function(ResponsesApiTool {
        name: "t".to_string(),
        description: "d".to_string(),
        strict: false,
        defer_loading: None,
        parameters: JsonSchema::Document(Json::Outside(parsed(document))),
        output_schema: None,
    })]);
    assert_eq!(built.len(), 1);
    assert_eq!(
        built[0].to_value()["function"]["parameters"],
        parsed(document)
    );
    let written = JsonSchema::Document(Json::object().with("type", Json::text_of("boolean")));
    assert_eq!(
        written.to_json().to_value(),
        parsed("{\"type\":\"boolean\"}")
    );
}
