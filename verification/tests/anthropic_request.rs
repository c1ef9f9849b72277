//! Requests of the messages API.

use llm_connector::anthropic::request::{
    map_generic_tool_to_anthropic, map_tool_choice_to_anthropic, tool_use_value, AnthropicRequest,
};
use llm_connector::anthropic::AnthropicProtocol;
use llm_connector::block::MessageBlock;
use llm_connector::capabilities::ReasoningRequestParts;
use llm_connector::chat::{Binary32, ChatRequest};
use llm_connector::message::{Message, Role};
use llm_connector::tool::{
    AnthropicToolChoice, AnthropicToolDefinition, FunctionCall, Tool, ToolCall, ToolChoice,
};
use serde_json::Value;

fn json(text: &str) -> Value {
    serde_json::from_str(text).unwrap()
}

fn reasoning(thinking_budget: Option<u32>) -> ReasoningRequestParts {
    ReasoningRequestParts { reasoning_effort: None, thinking_budget }
}

fn build(request: &ChatRequest) -> AnthropicRequest {
    AnthropicProtocol::new("test-key")
        .build_request(request, |_: &ChatRequest| reasoning(None))
        .unwrap()
}

fn call(id: &str, name: &str, arguments: &str) -> ToolCall {
    ToolCall {
        id: id.to_string(),
        call_type: "function".to_string(),
        function: FunctionCall {
            name: name.to_string(),
            arguments: arguments.to_string(),
            thought_signature: None,
        },
        index: Some(0),
        thought_signature: None,
    }
}

fn system(text: &str) -> Message {
    Message { role: Role::System, content: vec![MessageBlock::text(text)], ..Default::default() }
}

#[test]
fn test_anthropic_request_single_tool_with_tool_use_and_result() {
    let protocol = AnthropicProtocol::new("test-key");
    let tool = Tool::function(
        "get_weather",
        Some("Get weather".to_string()),
        json(
            r#"{
                "type": "object",
                "properties": {
                    "city": { "type": "string" }
                },
                "required": ["city"]
            }"#,
        ),
    );
    let assistant_with_tool = Message::assistant_with_tool_calls(vec![ToolCall {
        id: "toolu_1".to_string(),
        call_type: "function".to_string(),
        function: FunctionCall {
            name: "get_weather".to_string(),
            arguments: r#"{"city":"beijing"}"#.to_string(),
            thought_signature: None,
        },
        index: Some(0),
        thought_signature: None,
    }]);
    let tool_result = Message::tool(r#"{"temp":26}"#, "toolu_1");
    let request = ChatRequest::new("3-5-sonnet")
        .with_tools(vec![tool])
        .with_tool_choice(ToolChoice::function("get_weather"))
        .add_message(Message::user("weather?"))
        .add_message(assistant_with_tool)
        .add_message(tool_result);

    let mapped = protocol.build_request(&request, |_: &ChatRequest| reasoning(None)).unwrap();
    assert_eq!(mapped.tools.as_ref().map(|v| v.len()), Some(1));
    assert_eq!(mapped.tool_choice.as_ref().map(|c| c.choice_type.as_str()), Some("tool"));
    assert_eq!(mapped.tool_choice.as_ref().and_then(|c| c.name.as_deref()), Some("get_weather"));
    let assistant_content = mapped.messages[1].content.as_array().unwrap();
    assert_eq!(assistant_content[0]["type"], "tool_use");
    assert_eq!(assistant_content[0]["id"], "toolu_1");
    assert_eq!(assistant_content[0]["name"], "get_weather");
    assert_eq!(assistant_content[0]["input"]["city"], "beijing");

    let tool_result_content = mapped.messages[2].content.as_array().unwrap();
    assert_eq!(tool_result_content[0]["type"], "tool_result");
    assert_eq!(tool_result_content[0]["tool_use_id"], "toolu_1");
}

#[test]
fn test_anthropic_request_multi_tools_and_auto_choice() {
    let request = ChatRequest::new("3-5-sonnet")
        .with_tools(vec![
            Tool::function(
                "get_weather",
                Some("Get weather".to_string()),
                json(r#"{"type":"object"}"#),
            ),
            Tool::function("get_time", Some("Get time".to_string()), json(r#"{"type":"object"}"#)),
        ])
        .with_tool_choice(ToolChoice::auto())
        .add_message(Message::user("hi"));

    let mapped = build(&request);
    assert_eq!(mapped.tools.as_ref().map(|v| v.len()), Some(2));
    assert_eq!(mapped.tool_choice.as_ref().map(|c| c.choice_type.as_str()), Some("auto"));
}

#[test]
fn test_anthropic_request_required_tool_choice_serialization() {
    let request = ChatRequest::new("3-5-sonnet")
        .with_tools(vec![Tool::function(
            "get_weather",
            Some("Get weather".to_string()),
            json(r#"{"type":"object"}"#),
        )])
        .with_tool_choice(ToolChoice::required())
        .add_message(Message::user("hi"));

    let mapped = build(&request);
    assert_eq!(mapped.tools.as_ref().map(|v| v.len()), Some(1));
    assert_eq!(mapped.tool_choice.as_ref().map(|c| c.choice_type.as_str()), Some("any"));
    assert_eq!(mapped.tool_choice.as_ref().and_then(|c| c.name.as_deref()), None);
}

#[test]
fn test_anthropic_request_none_tool_choice_serialization() {
    let request = ChatRequest::new("3-5-sonnet")
        .with_tools(vec![Tool::function(
            "get_weather",
            Some("Get weather".to_string()),
            json(r#"{"type":"object"}"#),
        )])
        .with_tool_choice(ToolChoice::none())
        .add_message(Message::user("hi"));

    let mapped = build(&request);
    assert_eq!(mapped.tool_choice.as_ref().map(|c| c.choice_type.as_str()), Some("none"));
}

#[test]
fn test_anthropic_request_serializes_native_tool_payload_without_loss() {
    let mut extra = serde_json::Map::new();
    extra.insert("mcp_toolset".to_string(), json(r#"{"server": "filesystem"}"#));
    let request = ChatRequest::new("opus-4-6")
        .with_anthropic_tools(vec![AnthropicToolDefinition {
            tool_type: Some("custom".to_string()),
            name: Some("write_file".to_string()),
            description: Some("Write a file to disk".to_string()),
            input_schema: Some(json(
                r#"{
                    "$schema": "https://json-schema.org/draft/2020-12/schema",
                    "type": "object",
                    "properties": {
                        "path": { "type": "string" }
                    },
                    "required": ["path"]
                }"#,
            )),
            custom_input_schema: Some(json(
                r#"{
                    "$schema": "https://json-schema.org/draft/2020-12/schema",
                    "type": "object",
                    "properties": {
                        "mode": { "enum": ["overwrite", "append"] }
                    }
                }"#,
            )),
            input_examples: Some(json(r#"[{"path": "/tmp/demo.txt", "mode": "overwrite"}]"#)),
            strict: Some(true),
            allowed_callers: Some(json(r#"["claude_code"]"#)),
            defer_loading: Some(true),
            cache_control: Some(json(r#"{"type": "ephemeral"}"#)),
            eager_input_streaming: Some(true),
            extra,
        }])
        .with_anthropic_tool_choice(AnthropicToolChoice::tool("write_file"))
        .add_message(Message::user("write a file"));

    let mapped = build(&request);
    let payload = mapped.to_value(None, None);
    let tool = &payload["tools"][0];

    assert_eq!(tool["type"], "custom");
    assert_eq!(tool["name"], "write_file");
    assert_eq!(
        tool["custom_input_schema"]["$schema"],
        "https://json-schema.org/draft/2020-12/schema"
    );
    assert_eq!(tool["strict"], true);
    assert_eq!(tool["allowed_callers"][0], "claude_code");
    assert_eq!(tool["defer_loading"], true);
    assert_eq!(tool["eager_input_streaming"], true);
    assert_eq!(tool["mcp_toolset"]["server"], "filesystem");
    assert_eq!(payload["tool_choice"]["type"], "tool");
    assert_eq!(payload["tool_choice"]["name"], "write_file");

    assert_eq!(tool["description"], "Write a file to disk");
    assert_eq!(tool["input_schema"]["required"][0], "path");
    assert_eq!(tool["input_examples"][0]["mode"], "overwrite");
    assert_eq!(tool["cache_control"]["type"], "ephemeral");
    assert_eq!(tool.as_object().unwrap().len(), 12);
}

#[test]
fn extra_entries_replace_named_ones() {
    let mut extra = serde_json::Map::new();
    extra.insert("name".to_string(), json(r#""other""#));
    let tool = AnthropicToolDefinition {
        name: Some("first".to_string()),
        strict: Some(false),
        extra,
        ..Default::default()
    };
    assert_eq!(tool.to_value().to_string(), r#"{"name":"other","strict":false}"#);
    assert_eq!(tool.clone().to_value(), tool.to_value());
    assert_eq!(AnthropicToolDefinition::default().to_value().to_string(), "{}");
}

#[test]
fn system_messages_are_joined_and_taken_out() {
    let request = ChatRequest::new("m")
        .add_message(system("one"))
        .add_message(Message::user("hi"))
        .add_message(system("two"))
        .add_message(system(""));
    let mapped = build(&request);
    assert_eq!(mapped.system.as_deref(), Some("one\n\ntwo\n\n"));
    assert_eq!(mapped.messages.len(), 1);
    assert_eq!(mapped.messages[0].role, "user");
}

#[test]
fn an_empty_system_message_is_kept() {
    let request = ChatRequest::new("m").add_message(system("")).add_message(system("b"));
    assert_eq!(build(&request).system.as_deref(), Some("\n\nb"));
    assert_eq!(build(&ChatRequest::new("m").add_message(system(""))).system.as_deref(), Some(""));
    assert_eq!(build(&ChatRequest::new("m")).system, None);
}

#[test]
fn user_content_is_always_a_list() {
    let request = ChatRequest::new("m").add_message(Message {
        role: Role::User,
        content: vec![
            MessageBlock::text("look"),
            MessageBlock::image_base64("image/png", "abc"),
            MessageBlock::image_url("https://example.com/x.jpg"),
            MessageBlock::document_base64("application/pdf", "def"),
            MessageBlock::document_url("https://example.com/a.pdf"),
            MessageBlock::thinking_unsigned("hm"),
        ],
        ..Default::default()
    });
    let mapped = build(&request);
    assert_eq!(mapped.messages[0].role, "user");
    assert_eq!(
        mapped.messages[0].content,
        json(
            r#"[
                {"type":"text","text":"look"},
                {"type":"image","source":{"type":"base64","media_type":"image/png","data":"abc"}},
                {"type":"image_url","image_url":{"url":"https://example.com/x.jpg"}},
                {"type":"document","source":
                    {"type":"base64","media_type":"application/pdf","data":"def"}},
                {"type":"document_url","document_url":{"url":"https://example.com/a.pdf"}},
                {"type":"thinking","thinking":"hm"}
            ]"#
        )
    );
    let empty = build(&ChatRequest::new("m").add_message(Message::default()));
    assert_eq!(empty.messages[0].content, json("[]"));
}

#[test]
fn calls_come_after_the_blocks_of_an_assistant() {
    let mut message = Message::assistant_with_tool_calls(vec![
        call("", "first", "not json"),
        call("", "second", "[1,2]"),
        call("own", "third", ""),
    ]);
    message.content = vec![MessageBlock::text("let me see")];
    let mapped = build(&ChatRequest::new("m").add_message(message));
    assert_eq!(mapped.messages[0].role, "assistant");
    assert_eq!(
        mapped.messages[0].content,
        json(
            r#"[
                {"type":"text","text":"let me see"},
                {"type":"tool_use","id":"toolu_0","name":"first","input":{"_raw":"not json"}},
                {"type":"tool_use","id":"toolu_1","name":"second","input":[1,2]},
                {"type":"tool_use","id":"own","name":"third","input":{"_raw":""}}
            ]"#
        )
    );
}

#[test]
fn a_call_takes_the_parsed_arguments_it_is_given() {
    let made = call("", "f", "raw");
    assert_eq!(
        tool_use_value(12, &made, Ok(json("7"))),
        json(r#"{"type":"tool_use","id":"toolu_12","name":"f","input":7}"#)
    );
    assert_eq!(
        tool_use_value(12, &made, Err("no".to_string())),
        json(r#"{"type":"tool_use","id":"toolu_12","name":"f","input":{"_raw":"raw"}}"#)
    );
    assert_eq!(call("", "f", "{\"a\":null}").arguments_value().unwrap(), json(r#"{"a":null}"#));
    assert!(made.arguments_value().unwrap_err().contains("line 1 column 1"));
}

#[test]
fn a_tool_answers_as_the_user() {
    let mut message = Message::tool("done", "toolu_9");
    message.content.push(MessageBlock::text(" twice"));
    let anonymous = Message { role: Role::Tool, ..Default::default() };
    let mapped = build(&ChatRequest::new("m").add_message(message).add_message(anonymous));
    assert_eq!(mapped.messages[0].role, "user");
    assert_eq!(
        mapped.messages[0].content,
        json(r#"[{"type":"tool_result","tool_use_id":"toolu_9","content":"done twice"}]"#)
    );
    assert_eq!(
        mapped.messages[1].content,
        json(r#"[{"type":"tool_result","tool_use_id":"","content":""}]"#)
    );
}

#[test]
fn the_limit_leaves_room_beside_the_thinking() {
    let protocol = AnthropicProtocol::new("k");
    let limit = |max_tokens: Option<u32>, budget: Option<u32>| {
        let mut request = ChatRequest::new("m");
        request.max_tokens = max_tokens;
        let built = protocol.build_request_with_reasoning(&request, reasoning(budget)).unwrap();
        (built.max_tokens, built.thinking.map(|t| (t.thinking_type, t.budget_tokens)))
    };
    let enabled = |budget: u32| Some(("enabled".to_string(), budget));
    assert_eq!(limit(None, None), (1024, None));
    assert_eq!(limit(Some(7), None), (7, None));
    assert_eq!(limit(None, Some(1023)), (1024, enabled(1023)));
    assert_eq!(limit(None, Some(1024)), (5120, enabled(1024)));
    assert_eq!(limit(Some(5000), Some(4999)), (5000, enabled(4999)));
    assert_eq!(limit(Some(100), Some(2000)), (6096, enabled(2000)));
}

#[test]
fn reasoning_is_asked_for_with_the_request() {
    let built = AnthropicProtocol::new("k")
        .build_request(&ChatRequest::new("abc"), |request: &ChatRequest| {
            reasoning(Some(request.model.len() as u32))
        })
        .unwrap();
    assert_eq!(built.thinking.unwrap().budget_tokens, 3);
}

#[test]
fn native_tools_and_choice_win() {
    let request = ChatRequest::new("m")
        .with_tools(vec![Tool::function("generic", None, json("{}"))])
        .with_tool_choice(ToolChoice::none())
        .with_anthropic_tools(vec![AnthropicToolDefinition {
            name: Some("native".to_string()),
            ..Default::default()
        }])
        .with_anthropic_tool_choice(AnthropicToolChoice::any());
    let mapped = build(&request);
    let tools = mapped.tools.unwrap();
    assert_eq!(tools.len(), 1);
    assert_eq!(tools[0].name.as_deref(), Some("native"));
    assert_eq!(mapped.tool_choice.unwrap().choice_type, "any");
}

#[test]
fn tool_choices_are_mapped_by_mode() {
    let mapped = |choice: ToolChoice| {
        let made = map_tool_choice_to_anthropic(&choice).unwrap();
        (made.choice_type, made.name)
    };
    let plain = |kind: &str| (kind.to_string(), None);
    assert_eq!(mapped(ToolChoice::none()), plain("none"));
    assert_eq!(mapped(ToolChoice::required()), plain("any"));
    assert_eq!(mapped(ToolChoice::auto()), plain("auto"));
    assert_eq!(mapped(ToolChoice::Mode("whatever".to_string())), plain("auto"));
    assert_eq!(
        mapped(ToolChoice::function("f")),
        ("tool".to_string(), Some("f".to_string()))
    );
    assert_eq!(
        map_tool_choice_to_anthropic(&ToolChoice::auto()).unwrap().to_value(),
        json(r#"{"type":"auto"}"#)
    );
}

#[test]
fn a_generic_tool_keeps_name_description_and_schema() {
    let tool = Tool::function("f", Some("does".to_string()), json(r#"{"type":"object"}"#));
    assert_eq!(
        map_generic_tool_to_anthropic(&tool).to_value(),
        json(r#"{"name":"f","description":"does","input_schema":{"type":"object"}}"#)
    );
    let bare = Tool::function("f", None, json("{}"));
    assert_eq!(
        map_generic_tool_to_anthropic(&bare).to_value(),
        json(r#"{"name":"f","input_schema":{}}"#)
    );
}

#[test]
fn a_payload_leaves_out_what_is_not_given() {
    let mapped = build(&ChatRequest::new("m").add_message(Message::user("hi")));
    assert_eq!(
        mapped.to_value(None, None),
        json(
            r#"{
                "model":"m",
                "max_tokens":1024,
                "messages":[{"role":"user","content":[{"type":"text","text":"hi"}]}]
            }"#
        )
    );
}

#[test]
fn a_payload_carries_every_part() {
    let mut request = ChatRequest::new("m")
        .add_message(system("be brief"))
        .with_tools(vec![Tool::function("f", None, json("{}"))])
        .with_tool_choice(ToolChoice::function("f"));
    request.temperature = Some(Binary32 { bits: 0.5f32.to_bits() });
    request.top_p = Some(Binary32 { bits: 0.25f32.to_bits() });
    request.stream = Some(false);
    let mapped = AnthropicProtocol::new("k")
        .build_request_with_reasoning(&request, reasoning(Some(2048)))
        .unwrap();
    assert_eq!(mapped.temperature, request.temperature);
    assert_eq!(mapped.top_p, request.top_p);
    let number = |kept: Option<Binary32>| kept.map(|n| Value::from(f32::from_bits(n.bits)));
    assert_eq!(
        mapped.to_value(number(mapped.temperature), number(mapped.top_p)),
        json(
            r#"{
                "model":"m",
                "max_tokens":6144,
                "messages":[],
                "system":"be brief",
                "temperature":0.5,
                "top_p":0.25,
                "stream":false,
                "thinking":{"type":"enabled","budget_tokens":2048},
                "tools":[{"name":"f","input_schema":{}}],
                "tool_choice":{"type":"tool","name":"f"}
            }"#
        )
    );
}

#[test]
fn a_chat_is_mapped_part_by_part() {
    let first = ChatRequest::new("m").add_message(system("x")).add_message(Message::user("a"));
    let second = ChatRequest::new("m").add_message(Message::tool("b", "i")).add_message(system("y"));
    let whole = ChatRequest::new("m")
        .add_message(system("x"))
        .add_message(Message::user("a"))
        .add_message(Message::tool("b", "i"))
        .add_message(system("y"));
    let values = |request: &ChatRequest| -> Vec<Value> {
        build(request).messages.iter().map(|message| message.to_value()).collect()
    };
    let mut parts = values(&first);
    parts.extend(values(&second));
    assert_eq!(values(&whole), parts);
    assert_eq!(build(&whole).system.as_deref(), Some("x\n\ny"));
}
