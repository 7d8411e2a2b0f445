use open_interpreter::conversation::{
    append_message_text, append_text, build_messages, call as tool_call, convert_message_content, flush_pending_tool_calls,
    minimal_tool_output_content, ContentItem, FunctionCallOutputPayload, LocalShellAction,
    LocalShellExecAction, RequestError, ResponseItem,
};
use open_interpreter::json::Json;
use open_interpreter::request::{
    build_request, build_tool_kinds, build_tools, request_json, ModelInfo, Prompt,
    ReasoningControl,
    ReasoningEffort, ToolKinds, ToolOutputKind,
};
use open_interpreter::tools::{create_minimal_bash_tool, ToolSpec};
use serde_json::Value;

fn parsed(text: &str) -> Value {
    serde_json::from_str(text).expect("valid JSON")
}

fn message(role: &str, texts: &[&str]) -> ResponseItem {
    ResponseItem::Message {
        role: role.to_string(),
        content: texts
            .iter()
            .map(|text| ContentItem::InputText {
                text: text.to_string(),
            })
            .collect(),
        contextual: false,
    }
}

fn context(text: &str) -> ResponseItem {
    ResponseItem::Message {
        role: "user".to_string(),
        content: vec![ContentItem::InputText {
            text: text.to_string(),
        }],
        contextual: true,
    }
}

fn call(call_id: &str) -> ResponseItem {
    ResponseItem::FunctionCall {
        name: "bash".to_string(),
        arguments: "{}".to_string(),
        call_id: call_id.to_string(),
    }
}

fn output(call_id: &str, text: &str) -> ResponseItem {
    ResponseItem::FunctionCallOutput {
        call_id: call_id.to_string(),
        output: payload(Some(text), None, ""),
    }
}

fn payload(text: Option<&str>, items: Option<&str>, displayed: &str) -> FunctionCallOutputPayload {
    FunctionCallOutputPayload {
        text: text.map(str::to_string),
        content_items_text: items.map(str::to_string),
        displayed: displayed.to_string(),
    }
}

fn messages(items: Vec<ResponseItem>) -> Value {
    Json::Array(build_messages(&items).expect("messages")).to_value()
}

fn test_prompt() -> Prompt {
    Prompt {
        input: vec![message("user", &["hello"])],
        tools: vec![],
    }
}

fn thinking_toggle_model_info() -> ModelInfo {
    ModelInfo {
        slug: "deepseek-v4-pro".to_string(),
        reasoning_control: ReasoningControl::ThinkingToggle,
    }
}

#[test]
fn thinking_toggle_model_sends_enabled_by_default() {
    let (request, _) =
        build_request(&test_prompt(), &thinking_toggle_model_info(), None).expect("build request");

    assert_eq!(
        request.get("thinking"),
        Some(&parsed("{\"type\": \"enabled\"}"))
    );
}

#[test]
fn thinking_toggle_model_sends_disabled_for_none_effort() {
    let (request, _) = build_request(
        &test_prompt(),
        &thinking_toggle_model_info(),
        Some(ReasoningEffort::Off),
    )
    .expect("build request");

    assert_eq!(
        request.get("thinking"),
        Some(&parsed("{\"type\": \"disabled\"}"))
    );
}

#[test]
fn developer_messages_are_preserved_as_user_messages() {
    let prompt = Prompt {
        input: vec![
            message(
                "developer",
                &["<skills_instructions>\n- imagegen\n</skills_instructions>"],
            ),
            message("user", &["$imagegen what is this"]),
        ],
        tools: vec![],
    };

    let (request, _) =
        build_request(&prompt, &thinking_toggle_model_info(), None).expect("build request");
    let messages = request
        .get("messages")
        .and_then(Value::as_array)
        .expect("messages");

    assert_eq!(messages[1]["role"], Value::from("user"));
    assert_eq!(
        messages[1]["content"],
        Value::from("<skills_instructions>\n- imagegen\n</skills_instructions>")
    );
    assert_eq!(messages[2]["role"], Value::from("user"));
    assert_eq!(
        messages[2]["content"],
        Value::from("$imagegen what is this")
    );
}

#[test]
fn a_request_has_all_of_its_fields() {
    let prompt = Prompt {
        input: vec![message("user", &["hello"])],
        tools: vec![
            create_minimal_bash_tool(),
            ToolSpec::Other {
                name: "web_search".to_string(),
            },
        ],
    };
    let model = ModelInfo {
        slug: "m".to_string(),
        reasoning_control: ReasoningControl::Other,
    };
    let (request, kinds) =
        build_request(&prompt, &model, Some(ReasoningEffort::Off)).expect("build request");
    let json = request_json(&prompt, &model, Some(ReasoningEffort::Off)).expect("build request");
    assert_eq!(json.to_value(), request);
    assert_eq!(request["model"], Value::from("m"));
    assert_eq!(request["stream"], Value::from(true));
    assert_eq!(
        request["stream_options"],
        parsed("{\"include_usage\":true}")
    );
    assert_eq!(request.get("thinking"), None);
    assert_eq!(request["messages"][0]["role"], Value::from("system"));
    assert_eq!(
        request["messages"][0]["content"],
        Value::from("You are an expert software engineer working in the user's current directory.\nUse the tools to investigate the codebase and complete the task. Read code before changing it, match existing conventions, and verify your work when possible.")
    );
    assert_eq!(
        request["messages"][1],
        parsed("{\"role\":\"user\",\"content\":\"hello\"}")
    );
    assert_eq!(request["tools"].as_array().map(Vec::len), Some(1));
    assert_eq!(request["tools"][0]["type"], Value::from("function"));
    assert_eq!(request["tools"][0]["function"]["name"], Value::from("bash"));
    assert_eq!(
        request["tools"][0]["function"]["parameters"]["required"],
        parsed("[\"command\"]")
    );
    assert_eq!(request.as_object().map(|fields| fields.len()), Some(5));
    assert_eq!(kinds.get("bash"), Some(ToolOutputKind::Function));
    assert_eq!(kinds.get("web_search"), Some(ToolOutputKind::Function));
    assert_eq!(kinds.get("other"), None);
}

#[test]
fn tools_with_one_name_have_one_kind() {
    let tools = vec![
        ToolSpec::Other {
            name: "a".to_string(),
        },
        ToolSpec::Other {
            name: "a".to_string(),
        },
    ];
    let mut expected = ToolKinds::new();
    expected.set("a", ToolOutputKind::Function);
    assert_eq!(build_tool_kinds(&tools), expected);
    assert_eq!(build_tools(&tools), vec![]);
}

#[test]
fn calls_wait_for_their_answers() {
    assert_eq!(
        messages(vec![
            message("user", &["go"]),
            call("1"),
            message("assistant", &["thinking"]),
            call("2"),
            message("assistant", &["more"]),
            output("1", "one"),
            output("2", "two"),
            message("assistant", &["done"]),
        ]),
        parsed(
            "[{\"role\":\"user\",\"content\":\"go\"},\
              {\"role\":\"assistant\",\"content\":\"thinking\\nmore\",\"tool_calls\":[\
                {\"type\":\"function\",\"id\":\"1\",\"function\":{\"name\":\"bash\",\"arguments\":\"{}\"}},\
                {\"type\":\"function\",\"id\":\"2\",\"function\":{\"name\":\"bash\",\"arguments\":\"{}\"}}]},\
              {\"role\":\"tool\",\"content\":\"one\",\"tool_call_id\":\"1\"},\
              {\"role\":\"tool\",\"content\":\"two\",\"tool_call_id\":\"2\"},\
              {\"role\":\"assistant\",\"content\":\"done\"}]"
        )
    );
}

#[test]
fn calls_that_nothing_answers_go_out_at_the_end() {
    let value = messages(vec![call("1")]);
    assert_eq!(value[0]["content"], Value::from(""));
    assert_eq!(value[0]["tool_calls"][0]["id"], Value::from("1"));
    assert_eq!(value.as_array().map(Vec::len), Some(1));
}

#[test]
fn a_user_message_without_text_still_sends_the_calls_out() {
    let image = ResponseItem::Message {
        role: "user".to_string(),
        content: vec![ContentItem::InputImage {
            image_url: "u".to_string(),
        }],
        contextual: false,
    };
    let value = messages(vec![call("1"), image, message("assistant", &["a"])]);
    assert_eq!(value[0]["tool_calls"][0]["id"], Value::from("1"));
    assert_eq!(value[1], parsed("{\"role\":\"assistant\",\"content\":\"a\"}"));
}

#[test]
fn items_without_a_trace_can_be_left_out() {
    let with = messages(vec![
        call("1"),
        context("env"),
        ResponseItem::Reasoning,
        message("system", &["x"]),
        ResponseItem::ToolSearchCall,
        ResponseItem::ToolSearchOutput,
        ResponseItem::WebSearchCall,
        ResponseItem::ImageGenerationCall,
        ResponseItem::GhostSnapshot,
        ResponseItem::Compaction,
        ResponseItem::Other,
        output("1", "one"),
        message("assistant", &[""]),
        message("assistant", &[]),
    ]);
    assert_eq!(with, messages(vec![call("1"), output("1", "one")]));
}

#[test]
fn custom_calls_carry_their_input_as_json() {
    let value = messages(vec![ResponseItem::CustomToolCall {
        call_id: "c".to_string(),
        name: "apply_patch".to_string(),
        input: "a\"b".to_string(),
    }]);
    assert_eq!(
        value[0]["tool_calls"][0],
        parsed("{\"type\":\"function\",\"id\":\"c\",\"function\":{\"name\":\"apply_patch\",\"arguments\":\"{\\\"input\\\":\\\"a\\\\\\\"b\\\"}\"}}")
    );
}

fn shell(id: Option<&str>, call_id: Option<&str>, timeout_ms: Option<u64>) -> ResponseItem {
    ResponseItem::LocalShellCall {
        id: id.map(str::to_string),
        call_id: call_id.map(str::to_string),
        action: LocalShellAction::Exec(LocalShellExecAction {
            command: vec!["ls".to_string(), "-l".to_string()],
            timeout_ms,
        }),
    }
}

#[test]
fn shell_calls_become_calls_of_bash() {
    let value = messages(vec![
        shell(Some("i"), Some("c"), Some(2999)),
        shell(Some("i"), None, None),
    ]);
    let calls = &value[0]["tool_calls"];
    assert_eq!(calls[0]["id"], Value::from("c"));
    assert_eq!(calls[0]["function"]["name"], Value::from("bash"));
    assert_eq!(
        calls[0]["function"]["arguments"],
        Value::from("{\"command\":[\"ls\",\"-l\"],\"timeout\":2}")
    );
    assert_eq!(calls[1]["id"], Value::from("i"));
    assert_eq!(
        calls[1]["function"]["arguments"],
        Value::from("{\"command\":[\"ls\",\"-l\"],\"timeout\":null}")
    );
}

#[test]
fn a_shell_call_without_an_id_cannot_be_sent() {
    let error = build_messages(&vec![call("1"), shell(None, None, None)])
        .expect_err("nothing can answer the call");
    assert_eq!(error, RequestError::MissingLocalShellCallId);
    assert_eq!(error.message(), "local_shell history item missing call id");
    let prompt = Prompt {
        input: vec![shell(None, None, Some(1))],
        tools: vec![],
    };
    assert!(build_request(&prompt, &thinking_toggle_model_info(), None).is_err());
}

#[test]
fn answers_have_the_best_text_there_is() {
    for (payload, expected) in [
        (payload(Some("t"), Some("i"), "d"), "t"),
        (payload(None, Some("i"), "d"), "i"),
        (payload(None, None, "d"), "d"),
    ] {
        assert_eq!(
            minimal_tool_output_content(&payload),
            Json::text_of(expected)
        );
        let value = messages(vec![ResponseItem::CustomToolCallOutput {
            call_id: "c".to_string(),
            output: payload,
        }]);
        assert_eq!(value[0]["content"], Value::from(expected));
        assert_eq!(value[0]["tool_call_id"], Value::from("c"));
    }
}

#[test]
fn several_texts_become_parts() {
    let content = vec![
        ContentItem::InputText {
            text: "a".to_string(),
        },
        ContentItem::InputImage {
            image_url: "u".to_string(),
        },
        ContentItem::OutputText {
            text: "b".to_string(),
        },
    ];
    let parts = convert_message_content(&content).expect("texts");
    assert_eq!(
        parts.to_value(),
        parsed("[{\"type\":\"text\",\"text\":\"a\"},{\"type\":\"text\",\"text\":\"b\"}]")
    );
    assert_eq!(convert_message_content(&vec![]), None);

    let mut output = String::new();
    append_message_text(&mut output, &Json::text_of(""));
    assert_eq!(output, "");
    append_message_text(&mut output, &Json::text_of("x"));
    append_message_text(&mut output, &parts);
    assert_eq!(
        output,
        "x\n[{\"text\":\"a\",\"type\":\"text\"},{\"text\":\"b\",\"type\":\"text\"}]"
    );
}

#[test]
fn nothing_goes_out_where_nothing_waits() {
    let mut messages = vec![Json::Null];
    let mut calls = vec![];
    let mut content = "kept".to_string();
    flush_pending_tool_calls(&mut messages, &mut calls, &mut content);
    assert_eq!(messages, vec![Json::Null]);
    assert_eq!(content, "kept");
    calls.push(Json::Number(1));
    flush_pending_tool_calls(&mut messages, &mut calls, &mut content);
    assert_eq!(calls, vec![]);
    assert_eq!(content, "");
    assert_eq!(
        messages[1].to_value(),
        parsed("{\"role\":\"assistant\",\"content\":\"kept\",\"tool_calls\":[1]}")
    );
}

#[test]
fn a_call_names_its_function() {
    assert_eq!(
        tool_call("1", "bash", "{}").to_value(),
        parsed("{\"type\":\"function\",\"id\":\"1\",\"function\":{\"name\":\"bash\",\"arguments\":\"{}\"}}")
    );
}

#[test]
fn texts_stand_on_lines_of_their_own() {
    let mut output = String::new();
    append_text(&mut output, "a");
    append_text(&mut output, "");
    append_text(&mut output, "b");
    assert_eq!(output, "a\nb");
    append_message_text(&mut output, &Json::Outside(parsed("\"c\"")));
    append_message_text(&mut output, &Json::Outside(parsed("-1")));
    assert_eq!(output, "a\nb\nc\n-1");
}
