//! Conversions for OpenAI-compatible providers.

use llm_connector::block::{ImageSource, MessageBlock};
use llm_connector::capabilities::{
    ContentBlockMode, EmptyAssistantToolContentStrategy, ReasoningEffort, ReasoningRequestParts,
    ReasoningRequestStrategy, StreamReasoningStrategy,
};
use llm_connector::chat::{ChatRequest, ChatResponse, ResponseFormat};
use llm_connector::error::LlmConnectorError;
use llm_connector::message::{Message, Role};
use llm_connector::openai_compatible::{
    build_openai_compatible_request_parts, map_openai_compatible_messages,
    map_openai_compatible_response_format, map_openai_compatible_tool_calls,
    map_openai_compatible_tool_choice, map_openai_compatible_tools,
    normalize_openai_compatible_content, parse_openai_compatible_chat_response,
    OpenAICompatibleCapabilities,
};
use llm_connector::request::{
    block_to_openai_value, blocks_to_openai_content, openai_export_reasoning_content,
    openai_message_converter, openai_message_converter_downgrade,
    openai_message_converter_downgrade_with_strategy, openai_message_converter_with_strategy,
    partition_openai_visible_blocks, serialize_empty_assistant_tool_content,
    should_use_empty_assistant_tool_content_override,
};
use llm_connector::tool::{FunctionCall, Tool, ToolCall, ToolChoice};
use serde_json::Value;

fn json(text: &str) -> Value {
    serde_json::from_str(text).unwrap()
}

fn says(role: Role, content: Vec<MessageBlock>) -> Message {
    Message { role, content, ..Default::default() }
}

fn call() -> ToolCall {
    ToolCall {
        id: "c".to_string(),
        call_type: "function".to_string(),
        function: FunctionCall {
            name: "f".to_string(),
            arguments: "{}".to_string(),
            thought_signature: Some("inner".to_string()),
        },
        index: None,
        thought_signature: Some("outer".to_string()),
    }
}

fn refused(outcome: Result<Vec<Value>, LlmConnectorError>) -> String {
    match outcome {
        Err(LlmConnectorError::InvalidRequest(message)) => message,
        _ => panic!("expected an invalid request"),
    }
}

#[test]
fn openai_converter_moves_thinking_blocks_to_reasoning_content() {
    let messages = vec![Message {
        role: Role::User,
        content: vec![MessageBlock::thinking_unsigned("internal"), MessageBlock::text("hello")],
        ..Default::default()
    }];
    let out = openai_message_converter_with_strategy(
        &messages,
        EmptyAssistantToolContentStrategy::Null,
    );
    let m = out[0].as_object().unwrap();
    assert_eq!(m["reasoning_content"], "internal");
    assert_eq!(m["content"], "hello");
}

#[test]
fn block_to_openai_value_text() {
    let block = MessageBlock::text("hello");
    let v = block_to_openai_value(&block);
    assert_eq!(v["type"], "text");
    assert_eq!(v["text"], "hello");
}

#[test]
fn block_to_openai_value_image_base64() {
    let block = MessageBlock::image_base64("image/png", "abc");
    let v = block_to_openai_value(&block);
    assert_eq!(v["type"], "image_url");
    let url = v["image_url"]["url"].as_str().unwrap();
    assert!(url.starts_with("data:image/png;base64,"));
    assert!(url.ends_with("abc"));
}

#[test]
fn block_to_openai_value_image_url() {
    let block = MessageBlock::image_url("https://example.com/x.jpg");
    let v = block_to_openai_value(&block);
    assert_eq!(v["type"], "image_url");
    assert_eq!(v["image_url"]["url"], "https://example.com/x.jpg");
}

#[test]
fn block_to_openai_value_document_base64() {
    let block = MessageBlock::document_base64("application/pdf", "deadbeef");
    let v = block_to_openai_value(&block);
    assert_eq!(v["type"], "text");
    let text = v["text"].as_str().unwrap();
    assert!(text.contains("application/pdf"));
}

#[test]
fn block_to_openai_value_document_url() {
    let block = MessageBlock::document_url("https://example.com/a.pdf");
    let v = block_to_openai_value(&block);
    assert_eq!(v["type"], "text");
    let text = v["text"].as_str().unwrap();
    assert!(text.contains("https://example.com/a.pdf"));
}

#[test]
fn converter_produces_openai_format_for_image_block() {
    let messages = vec![Message {
        role: Role::User,
        content: vec![
            MessageBlock::text("Look:"),
            MessageBlock::image_base64("image/jpeg", "dGVzdA=="),
        ],
        ..Default::default()
    }];
    let out = openai_message_converter(&messages);
    let content = out[0]["content"].as_array().unwrap();
    assert_eq!(content.len(), 2);
    assert_eq!(content[0]["type"], "text");
    assert_eq!(content[1]["type"], "image_url");
    let types: Vec<&str> = content.iter().filter_map(|v| v["type"].as_str()).collect();
    assert!(!types.contains(&"image"));
}

#[test]
fn blocks_have_exact_openai_forms() {
    let blocks = [
        MessageBlock::Image { source: ImageSource::Url { url: "u".to_string() } },
        MessageBlock::image_base64("image/png", "abc"),
        MessageBlock::document_base64("application/pdf", "deadbeef"),
        MessageBlock::document_base64("text/plain", "h\u{e9}"),
        MessageBlock::document_url("d"),
        MessageBlock::thinking_unsigned("t"),
    ];
    assert_eq!(
        Value::Array(blocks_to_openai_content(&blocks)),
        json(
            r#"[
                {"type":"image_url","image_url":{"url":"u"}},
                {"type":"image_url","image_url":{"url":"data:image/png;base64,abc"}},
                {"type":"text","text":"[Document: application/pdf (base64, 8 chars)]"},
                {"type":"text","text":"[Document: text/plain (base64, 3 chars)]"},
                {"type":"text","text":"[Document: d]"},
                null
            ]"#
        )
    );
}

#[test]
fn blocks_are_split_into_shown_and_thought() {
    let blocks = [
        MessageBlock::thinking_unsigned(""),
        MessageBlock::text("a"),
        MessageBlock::thinking_unsigned("one"),
        MessageBlock::Thinking { thinking: String::new(), signature: Some("s".to_string()) },
        MessageBlock::document_url("d"),
        MessageBlock::thinking_unsigned("two"),
    ];
    let (shown, thinking) = partition_openai_visible_blocks(&blocks);
    assert_eq!(thinking, "one\n\ntwo");
    assert_eq!(shown.len(), 2);
    assert_eq!(shown[0].as_text(), Some("a"));
    assert!(!shown[1].is_text());
}

#[test]
fn reasoning_is_taken_from_the_fields_in_order() {
    let mut message = Message {
        reasoning: Some("r".to_string()),
        thought: Some(String::new()),
        thinking: Some("t".to_string()),
        ..Default::default()
    };
    let exported = |message: &Message, thinking: &str| {
        openai_export_reasoning_content(message, thinking)
    };
    assert_eq!(exported(&message, "").as_deref(), Some("r\nt"));
    assert_eq!(exported(&message, "b").as_deref(), Some("r\nt\nb"));
    message.thought = Some("o".to_string());
    assert_eq!(exported(&message, "b").as_deref(), Some("r\no\nt\nb"));
    message.reasoning_content = Some("c".to_string());
    assert_eq!(exported(&message, "b").as_deref(), Some("c\nb"));
    message.reasoning_content = Some(String::new());
    assert_eq!(exported(&message, "b").as_deref(), Some("b"));
    assert_eq!(exported(&message, ""), None);
    assert_eq!(exported(&Message::default(), ""), None);
}

#[test]
fn a_silent_call_has_the_content_that_the_strategy_gives() {
    let silent = Message::assistant_with_tool_calls(vec![call()]);
    assert!(should_use_empty_assistant_tool_content_override(&silent));
    assert!(!should_use_empty_assistant_tool_content_override(&Message::default()));
    assert!(!should_use_empty_assistant_tool_content_override(&says(Role::Assistant, vec![])));
    let cases = [
        (EmptyAssistantToolContentStrategy::Null, "null", "null"),
        (EmptyAssistantToolContentStrategy::EmptyString, "\"\"", "\"\""),
        (EmptyAssistantToolContentStrategy::EmptyArray, "[]", "\"\""),
    ];
    for (strategy, standard, text) in cases {
        assert_eq!(serialize_empty_assistant_tool_content(strategy), json(standard));
        let messages = [silent.clone()];
        let out = openai_message_converter_with_strategy(&messages, strategy);
        assert_eq!(out[0]["content"], json(standard));
        let out = openai_message_converter_downgrade_with_strategy(&messages, strategy).unwrap();
        assert_eq!(out[0]["content"], json(text));
    }
    assert_eq!(openai_message_converter(&[silent.clone()])[0]["content"], json("[]"));
    assert_eq!(openai_message_converter_downgrade(&[silent]).unwrap()[0]["content"], json("\"\""));
}

#[test]
fn messages_keep_every_entry_they_have() {
    let message = Message {
        role: Role::Assistant,
        content: vec![MessageBlock::text("a"), MessageBlock::text("b")],
        name: Some("n".to_string()),
        tool_calls: Some(vec![call()]),
        tool_call_id: Some("i".to_string()),
        reasoning: Some("r".to_string()),
        ..Default::default()
    };
    let calls = r#"[{"id":"c","type":"function","thought_signature":"outer",
        "function":{"name":"f","arguments":"{}","thought_signature":"inner"}}]"#;
    let rest = format!(
        r#""role":"assistant","name":"n","tool_call_id":"i","reasoning_content":"r","tool_calls":{}"#,
        calls
    );
    assert_eq!(
        openai_message_converter(&[message.clone()])[0],
        json(&format!(
            r#"{{"content":[{{"type":"text","text":"a"}},{{"type":"text","text":"b"}}],{}}}"#,
            rest
        ))
    );
    assert_eq!(
        openai_message_converter_downgrade(&[message]).unwrap()[0],
        json(&format!(r#"{{"content":"ab",{}}}"#, rest))
    );
}

#[test]
fn messages_leave_out_entries_they_do_not_have() {
    let messages = [
        Message::user("hi"),
        says(Role::System, vec![]),
        Message::tool("done", "c"),
        says(Role::Assistant, vec![MessageBlock::thinking_unsigned("t")]),
    ];
    assert_eq!(
        Value::Array(openai_message_converter(&messages)),
        json(
            r#"[
                {"role":"user","content":"hi"},
                {"role":"system","content":[]},
                {"role":"tool","content":"done","tool_call_id":"c"},
                {"role":"assistant","content":[],"reasoning_content":"t"}
            ]"#
        )
    );
    assert_eq!(
        Value::Array(openai_message_converter_downgrade(&messages).unwrap()),
        json(
            r#"[
                {"role":"user","content":"hi"},
                {"role":"system","content":""},
                {"role":"tool","content":"done","tool_call_id":"c"},
                {"role":"assistant","content":"","reasoning_content":"t"}
            ]"#
        )
    );
}

#[test]
fn text_alone_refuses_the_first_complex_block() {
    let messages = [
        Message::user("fine"),
        says(
            Role::User,
            vec![
                MessageBlock::text("a"),
                MessageBlock::thinking_unsigned("t"),
                MessageBlock::image_url("u\"v"),
                MessageBlock::document_url("d"),
            ],
        ),
        says(Role::User, vec![MessageBlock::document_url("later")]),
    ];
    let message = refused(openai_message_converter_downgrade(&messages));
    assert_eq!(
        message,
        "Provider does not support complex content blocks (found ImageUrl { image_url: ImageUrl { url: \"u\\\"v\" } })"
    );
    assert!(openai_message_converter_downgrade(&messages[..1]).is_ok());
}

#[test]
fn refused_blocks_are_shown_as_debug_shows_them() {
    let blocks = [
        MessageBlock::text("t\n"),
        MessageBlock::image_base64("image/png", "abc"),
        MessageBlock::Image { source: ImageSource::Url { url: "u".to_string() } },
        MessageBlock::image_url("\u{e9}\\\u{7f}"),
        MessageBlock::document_base64("application/pdf", "d"),
        MessageBlock::document_url("'x'"),
        MessageBlock::thinking_unsigned("t"),
        MessageBlock::Thinking { thinking: "t".to_string(), signature: Some("s".to_string()) },
    ];
    for block in blocks {
        assert_eq!(block.debug_text(), format!("{:?}", block));
        assert_eq!(format!("{:?}", block.clone()), format!("{:?}", block));
    }
}

fn request() -> ChatRequest {
    let mut request = ChatRequest::new("m")
        .add_message(Message::user("hi"))
        .with_tools(vec![
            Tool::function("f", Some("does".to_string()), json(r#"{"type":"object"}"#)),
            Tool::function("g", None, json("{}")),
        ])
        .with_tool_choice(ToolChoice::function("f"));
    request.response_format = Some(ResponseFormat { format_type: "json_object".to_string() });
    request
}

#[test]
fn default_capabilities_take_everything() {
    let capabilities = OpenAICompatibleCapabilities::default().clone();
    assert_eq!(capabilities.content_block_mode, ContentBlockMode::Standard);
    assert!(capabilities.supports_tool_choice);
    assert!(capabilities.supports_response_format);
    assert_eq!(
        capabilities.reasoning_request_strategy,
        ReasoningRequestStrategy::ReasoningEffort
    );
    assert_eq!(capabilities.stream_reasoning_strategy, StreamReasoningStrategy::SeparateField);
    assert_eq!(
        capabilities.empty_assistant_tool_content_strategy,
        EmptyAssistantToolContentStrategy::Null
    );
}

#[test]
fn request_parts_are_mapped_for_the_provider() {
    let capabilities = OpenAICompatibleCapabilities::default();
    let effort = |_: &ChatRequest, strategy: ReasoningRequestStrategy| {
        assert_eq!(strategy, ReasoningRequestStrategy::ReasoningEffort);
        ReasoningRequestParts {
            reasoning_effort: Some(ReasoningEffort::High),
            thinking_budget: Some(5),
        }
    };
    let parts = build_openai_compatible_request_parts(&request(), &capabilities, effort).unwrap();
    assert_eq!(Value::Array(parts.messages.clone()), json(r#"[{"role":"user","content":"hi"}]"#));
    assert_eq!(
        Value::Array(parts.tools.clone().unwrap()),
        json(
            r#"[
                {"type":"function","function":
                    {"name":"f","description":"does","parameters":{"type":"object"}}},
                {"type":"function","function":{"name":"g","description":null,"parameters":{}}}
            ]"#
        )
    );
    assert_eq!(
        parts.tool_choice,
        Some(json(r#"{"type":"function","function":{"name":"f"}}"#))
    );
    assert_eq!(parts.response_format, Some(json(r#"{"type":"json_object"}"#)));
    assert_eq!(parts.reasoning_effort, Some(ReasoningEffort::High));
    assert_eq!(parts.reasoning_parts.thinking_budget, Some(5));
    let copy = parts.clone();
    assert_eq!(copy.messages, parts.messages);
    assert_eq!(copy.tools, parts.tools);
    assert_eq!(copy.tool_choice, parts.tool_choice);
}

#[test]
fn parts_that_a_provider_cannot_take_are_left_out() {
    let capabilities = OpenAICompatibleCapabilities {
        supports_tool_choice: false,
        supports_response_format: false,
        ..Default::default()
    };
    assert_eq!(map_openai_compatible_tool_choice(&request(), &capabilities), None);
    assert_eq!(map_openai_compatible_response_format(&request(), &capabilities), None);
    let bare = ChatRequest::new("m");
    let all = OpenAICompatibleCapabilities::default();
    assert_eq!(map_openai_compatible_tools(&bare), None);
    assert_eq!(map_openai_compatible_tool_choice(&bare, &all), None);
    assert_eq!(map_openai_compatible_response_format(&bare, &all), None);
    let auto = ChatRequest::new("m").with_tool_choice(ToolChoice::auto());
    assert_eq!(map_openai_compatible_tool_choice(&auto, &all), Some(json("\"auto\"")));
}

#[test]
fn the_mode_decides_how_messages_are_written() {
    let request = ChatRequest::new("m").add_message(says(
        Role::User,
        vec![MessageBlock::text("a"), MessageBlock::image_url("u")],
    ));
    let mode = |content_block_mode: ContentBlockMode| OpenAICompatibleCapabilities {
        content_block_mode,
        ..Default::default()
    };
    let standard =
        map_openai_compatible_messages(&request, &mode(ContentBlockMode::Standard)).unwrap();
    let native =
        map_openai_compatible_messages(&request, &mode(ContentBlockMode::NativeMessage)).unwrap();
    assert_eq!(standard, native);
    assert_eq!(standard[0]["content"][1]["type"], "image_url");
    let message =
        refused(map_openai_compatible_messages(&request, &mode(ContentBlockMode::TextOnly)));
    assert!(message.starts_with("Provider does not support complex content blocks"));
    let outcome = build_openai_compatible_request_parts(
        &request,
        &mode(ContentBlockMode::TextOnly),
        |_: &ChatRequest, _: ReasoningRequestStrategy| ReasoningRequestParts {
            reasoning_effort: None,
            thinking_budget: None,
        },
    );
    assert!(matches!(outcome, Err(LlmConnectorError::InvalidRequest(_))));
}

fn normalize(content: &str) -> (String, Option<String>) {
    let result = normalize_openai_compatible_content(
        Some(content.to_string()),
        None,
        StreamReasoningStrategy::EmbeddedThinkTags,
    );
    (result.content, result.reasoning)
}

#[test]
fn embedded_reasoning_is_set_apart() {
    let apart = |content: &str, reasoning: &str| {
        (content.to_string(), Some(reasoning.to_string()))
    };
    assert_eq!(normalize("<think>why</think>so"), apart("so", "why"));
    assert_eq!(normalize(" a <think> b\n</think>\u{a0}c\t"), apart("a \u{a0}c", " b\n"));
    assert_eq!(normalize("\u{e9}<think>\u{4e2d}</think>\u{1f600}"), apart("\u{e9}\u{1f600}", "\u{4e2d}"));
    assert_eq!(normalize("<think></think>"), apart("", ""));
    assert_eq!(
        normalize("x<think>1<think>2</think>y</think>z"),
        apart("xy</think>z", "1<think>2")
    );
}

#[test]
fn content_without_embedded_reasoning_is_left_alone() {
    let same = |content: &str| (content.to_string(), None);
    assert_eq!(normalize("  plain "), same("  plain "));
    assert_eq!(normalize(" <think>open"), same(" <think>open"));
    assert_eq!(normalize("closed</think> "), same("closed</think> "));
    let text = || Some(" <think>a</think> ".to_string());
    let separate = normalize_openai_compatible_content(
        text(),
        None,
        StreamReasoningStrategy::SeparateField,
    );
    assert_eq!((Some(separate.content), separate.reasoning), (text(), None));
    let given = normalize_openai_compatible_content(
        text(),
        Some("r".to_string()),
        StreamReasoningStrategy::EmbeddedThinkTags,
    );
    assert_eq!((Some(given.content), given.reasoning), (text(), Some("r".to_string())));
    let nothing = normalize_openai_compatible_content(
        None,
        None,
        StreamReasoningStrategy::EmbeddedThinkTags,
    )
    .clone();
    assert_eq!((nothing.content, nothing.reasoning), (String::new(), None));
}

#[test]
fn normalizing_a_second_time_changes_nothing() {
    let (content, reasoning) = normalize("a<think>b</think><think>c</think>");
    let again = normalize_openai_compatible_content(
        Some(content.clone()),
        reasoning.clone(),
        StreamReasoningStrategy::EmbeddedThinkTags,
    );
    assert_eq!((again.content, again.reasoning), (content, reasoning));
}

#[test]
fn tool_calls_are_decoded_or_left_out() {
    let decode = |value: Value| -> Result<Vec<ToolCall>, String> {
        match value.as_u64() {
            Some(count) => Ok((0..count).map(|_| call()).collect()),
            None => Err("no count".to_string()),
        }
    };
    let count = |value: Option<Value>| {
        map_openai_compatible_tool_calls(value, decode).map(|calls| calls.len())
    };
    assert_eq!(count(Some(json("2"))), Some(2));
    assert_eq!(count(Some(json("0"))), Some(0));
    assert_eq!(count(Some(json("\"x\""))), None);
    assert_eq!(count(None), None);
}

#[test]
fn a_response_is_read_with_the_given_reader() {
    let outcome = parse_openai_compatible_chat_response(
        "text",
        "provider",
        StreamReasoningStrategy::EmbeddedThinkTags,
        |response: &str,
         provider: &str,
         strategy: StreamReasoningStrategy|
         -> Result<ChatResponse, LlmConnectorError> {
            Err(LlmConnectorError::ApiError(format!("{} {} {:?}", response, provider, strategy)))
        },
    );
    match outcome {
        Err(LlmConnectorError::ApiError(message)) => {
            assert_eq!(message, "text provider EmbeddedThinkTags")
        }
        _ => panic!("expected the reader's error"),
    }
}

#[test]
fn thinking_and_strategy_do_not_change_what_is_shown() {
    let bare = says(Role::Assistant, vec![MessageBlock::text("a"), MessageBlock::image_url("u")]);
    let mut thoughtful = bare.clone();
    thoughtful.content.insert(1, MessageBlock::thinking_unsigned("hm"));
    let strategies = [
        EmptyAssistantToolContentStrategy::Null,
        EmptyAssistantToolContentStrategy::EmptyString,
        EmptyAssistantToolContentStrategy::EmptyArray,
    ];
    let shown = openai_message_converter(&[bare.clone()])[0]["content"].clone();
    for strategy in strategies {
        let messages = [bare.clone(), thoughtful.clone()];
        let out = openai_message_converter_with_strategy(&messages, strategy);
        assert_eq!(out[0]["content"], shown);
        assert_eq!(out[1]["content"], shown);
        assert_eq!(out[1]["reasoning_content"], "hm");
        assert!(out[0].get("reasoning_content").is_none());
    }
}

#[test]
fn a_chat_is_converted_part_by_part() {
    let messages = [
        Message::user("a"),
        says(Role::System, vec![MessageBlock::text("b")]),
        Message::tool("c", "i"),
    ];
    let (first, second) = messages.split_at(1);
    let mut parts = openai_message_converter(first);
    parts.extend(openai_message_converter(second));
    assert_eq!(openai_message_converter(&messages), parts);
    let mut texts = openai_message_converter_downgrade(first).unwrap();
    texts.extend(openai_message_converter_downgrade(second).unwrap());
    assert_eq!(openai_message_converter_downgrade(&messages).unwrap(), texts);
}
