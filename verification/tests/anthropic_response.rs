//! Responses, errors and streams of the messages API.

use llm_connector::anthropic::response::{
    make_tool_call, AnthropicContent, AnthropicResponse, AnthropicUsage,
};
use llm_connector::anthropic::stream::StreamStep;
use llm_connector::anthropic::AnthropicProtocol;
use llm_connector::block::MessageBlock;
use llm_connector::capabilities::ReasoningRequestParts;
use llm_connector::chat::{ChatRequest, ChatResponse, PromptTokensDetails};
use llm_connector::clock::counted_seconds;
use llm_connector::error::LlmConnectorError;
use llm_connector::message::{Message, Role};
use serde_json::Value;

fn json(text: &str) -> Value {
    serde_json::from_str(text).unwrap()
}

fn text_at(value: &Value, key: &str) -> Option<String> {
    value[key].as_str().map(|text| text.to_string())
}

fn count_at(value: &Value, key: &str) -> Option<u32> {
    value[key].as_u64().map(|count| count as u32)
}

fn decode(text: &str) -> Result<AnthropicResponse, String> {
    let value: Value = serde_json::from_str(text).map_err(|e| e.to_string())?;
    let content = value["content"].as_array().ok_or("no content".to_string())?;
    let usage = &value["usage"];
    Ok(AnthropicResponse {
        id: text_at(&value, "id").ok_or("no id".to_string())?,
        model: text_at(&value, "model").ok_or("no model".to_string())?,
        content: content
            .iter()
            .map(|block| AnthropicContent {
                content_type: text_at(block, "type").unwrap_or_default(),
                text: text_at(block, "text"),
                thinking: text_at(block, "thinking"),
                signature: text_at(block, "signature"),
                id: text_at(block, "id"),
                name: text_at(block, "name"),
                input: block.get("input").cloned(),
            })
            .collect(),
        stop_reason: text_at(&value, "stop_reason"),
        usage: AnthropicUsage {
            input_tokens: count_at(usage, "input_tokens").ok_or("no tokens".to_string())?,
            output_tokens: count_at(usage, "output_tokens").ok_or("no tokens".to_string())?,
            cache_creation_input_tokens: count_at(usage, "cache_creation_input_tokens"),
            cache_read_input_tokens: count_at(usage, "cache_read_input_tokens"),
        },
    })
}

fn parse(text: &str) -> ChatResponse {
    AnthropicProtocol::new("test-key").parse_response(text, decode).unwrap()
}

fn with_content(content: &str) -> ChatResponse {
    parse(&format!(
        r#"{{"id":"msg","model":"m","content":{},"usage":{{"input_tokens":1,"output_tokens":2}}}}"#,
        content
    ))
}

fn send_back(message: Message) -> Value {
    let request = ChatRequest::new("m").add_message(message);
    let nothing = ReasoningRequestParts { reasoning_effort: None, thinking_budget: None };
    let built =
        AnthropicProtocol::new("k").build_request_with_reasoning(&request, nothing).unwrap();
    built.messages[0].content.clone()
}

#[test]
fn test_anthropic_parsing_with_thinking_and_text() {
    let response_json = r#"
    {
        "id": "msg_123",
        "type": "message",
        "role": "assistant",
        "model": "3-5-sonnet-20241022",
        "content": [
            {
                "type": "thinking",
                "thinking": "This is a thinking block",
                "signature": "sig_123"
            },
            {
                "type": "text",
                "text": "Hello there, nice to meet."
            }
        ],
        "stop_reason": "end_turn",
        "stop_sequence": null,
        "usage": {
            "input_tokens": 10,
            "output_tokens": 20
        }
    }
    "#;

    let protocol = AnthropicProtocol::new("test-key");
    let result = protocol.parse_response(response_json, decode).unwrap();

    assert_eq!(result.content, "Hello there, nice to meet.");
    assert_eq!(result.choices[0].message.content.len(), 2);
    match &result.choices[0].message.content[0] {
        MessageBlock::Thinking { thinking, signature } => {
            assert_eq!(thinking, "This is a thinking block");
            assert_eq!(signature.as_deref(), Some("sig_123"));
        }
        _ => panic!("expected thinking block"),
    }
    assert_eq!(
        result.choices[0].message.content[1].as_text().unwrap(),
        "Hello there, nice to meet."
    );
    assert_eq!(
        result.choices[0].message.thinking.as_deref(),
        Some("This is a thinking block")
    );
}

#[test]
fn test_anthropic_thinking_signature_round_trip_build_request() {
    let protocol = AnthropicProtocol::new("test-key");
    let response_json = r#"
    {
        "id": "msg_123",
        "type": "message",
        "role": "assistant",
        "model": "3-5-sonnet-20241022",
        "content": [
            {
                "type": "thinking",
                "thinking": "step",
                "signature": "sig_xyz"
            },
            {
                "type": "text",
                "text": "Hi"
            }
        ],
        "stop_reason": "end_turn",
        "stop_sequence": null,
        "usage": { "input_tokens": 1, "output_tokens": 2 }
    }
    "#;
    let parsed = protocol.parse_response(response_json, decode).unwrap();
    let assistant = parsed.choices[0].message.clone();

    let req = ChatRequest::new("3")
        .add_message(Message::user("ping"))
        .add_message(assistant);
    let mapped = protocol
        .build_request(&req, |_: &ChatRequest| ReasoningRequestParts {
            reasoning_effort: None,
            thinking_budget: None,
        })
        .unwrap();
    let arr = mapped.messages[1].content.as_array().unwrap();
    assert_eq!(arr.len(), 2);
    assert_eq!(arr[0]["type"], "thinking");
    assert_eq!(arr[0]["thinking"], "step");
    assert_eq!(arr[0]["signature"], "sig_xyz");
    assert_eq!(arr[1]["text"], "Hi");
}

#[test]
fn test_anthropic_parsing_only_thinking() {
    let response_json = r#"
    {
        "id": "msg_124",
        "type": "message",
        "role": "assistant",
        "model": "3-5-sonnet-20241022",
        "content": [
            {
                "type": "thinking",
                "thinking": "Just thinking...",
                "signature": "sig_124"
            }
        ],
        "stop_reason": "max_tokens",
        "stop_sequence": null,
        "usage": {
            "input_tokens": 10,
            "output_tokens": 20
        }
    }
    "#;

    let protocol = AnthropicProtocol::new("test-key");
    let result = protocol.parse_response(response_json, decode).unwrap();

    assert_eq!(result.content, "");
    assert_eq!(result.choices[0].message.content.len(), 1);
    match &result.choices[0].message.content[0] {
        MessageBlock::Thinking { thinking, signature } => {
            assert_eq!(thinking, "Just thinking...");
            assert_eq!(signature.as_deref(), Some("sig_124"));
        }
        _ => panic!("expected thinking block"),
    }
    assert_eq!(result.choices[0].message.thinking.as_deref(), Some("Just thinking..."));
}

#[test]
fn test_anthropic_parse_non_streaming_tool_use_to_tool_calls() {
    let response_json = r#"
    {
        "id": "msg_125",
        "type": "message",
        "role": "assistant",
        "model": "3-5-sonnet-20241022",
        "content": [
            {
                "type": "tool_use",
                "id": "toolu_1",
                "name": "get_weather",
                "input": {"city":"beijing"}
            }
        ],
        "stop_reason": "tool_use",
        "usage": {
            "input_tokens": 10,
            "output_tokens": 20
        }
    }
    "#;

    let protocol = AnthropicProtocol::new("test-key");
    let result = protocol.parse_response(response_json, decode).unwrap();
    let tool_calls = result.choices[0].message.tool_calls.as_ref().unwrap();
    assert_eq!(tool_calls.len(), 1);
    assert_eq!(tool_calls[0].id, "toolu_1");
    assert_eq!(tool_calls[0].function.name, "get_weather");
    assert_eq!(tool_calls[0].function.arguments, r#"{"city":"beijing"}"#);
    assert_eq!(result.choices[0].finish_reason.as_deref(), Some("tool_calls"));
}

#[test]
fn a_response_carries_id_model_time_and_usage() {
    let result = parse(
        r#"{"id":"msg_1","model":"opus","content":[{"type":"text","text":"a"}],
            "usage":{"input_tokens":10,"output_tokens":20,
                "cache_creation_input_tokens":3,"cache_read_input_tokens":4}}"#,
    );
    assert_eq!(result.id, "msg_1");
    assert_eq!(result.model, "opus");
    assert_eq!(result.object, "chat.completion");
    assert!(result.created > 1_600_000_000);
    assert!(result.reasoning_content.is_none());
    assert!(result.system_fingerprint.is_none());
    assert_eq!(result.choices.len(), 1);
    assert_eq!(result.choices[0].index, 0);
    assert_eq!(result.choices[0].message.role, Role::Assistant);
    assert_eq!(result.choices[0].finish_reason.as_deref(), Some("stop"));
    assert!(result.choices[0].message.tool_calls.is_none());
    assert!(result.choices[0].message.thinking.is_none());
    let usage = result.usage.unwrap();
    assert_eq!((usage.prompt_tokens, usage.completion_tokens, usage.total_tokens), (10, 20, 30));
    assert_eq!(usage.prompt_cache_hit_tokens, Some(4));
    assert_eq!(usage.prompt_cache_miss_tokens, None);
    assert_eq!(
        usage.prompt_tokens_details,
        Some(PromptTokensDetails {
            cached_tokens: Some(4),
            cache_read_input_tokens: Some(4),
            cache_creation_input_tokens: Some(3),
        })
    );
}

#[test]
fn a_response_takes_the_time_it_is_given() {
    let decoded = decode(
        r#"{"id":"i","model":"m","content":[],"stop_reason":"end_turn",
            "usage":{"input_tokens":4294967295,"output_tokens":0}}"#,
    );
    let result = AnthropicProtocol::new("k").parse_response_at(decoded, 77).unwrap();
    assert_eq!(result.created, 77);
    assert_eq!(result.usage.unwrap().total_tokens, u32::MAX);
    assert_eq!(result.choices[0].finish_reason.as_deref(), Some("end_turn"));
    assert!(result.choices[0].message.content.is_empty());
}

#[test]
fn a_response_that_cannot_be_decoded_is_a_parse_error() {
    let outcome = AnthropicProtocol::new("k")
        .parse_response("what came", |text: &str| Err(format!("cannot read {}", text)));
    match outcome {
        Err(LlmConnectorError::ParseError(message)) => {
            assert_eq!(message, "Failed to parse Anthropic response: cannot read what came")
        }
        _ => panic!("expected a parse error"),
    }
}

#[test]
fn blocks_without_what_they_promise_are_passed_over() {
    let result = with_content(
        r#"[
            {"type":"text"},
            {"type":"thinking","text":"x"},
            {"type":"tool_use","name":"f","input":{}},
            {"type":"tool_use","id":"i","input":{}},
            {"type":"image","text":"y"},
            {"type":"text","text":"a"},
            {"type":"redacted_thinking","thinking":"z"},
            {"type":"text","text":"b"}
        ]"#,
    );
    assert_eq!(result.content, "ab");
    assert_eq!(result.choices[0].message.content.len(), 2);
    assert!(result.choices[0].message.tool_calls.is_none());
    assert!(result.choices[0].message.thinking.is_none());
}

#[test]
fn thoughts_are_put_together_without_a_break() {
    let result = with_content(
        r#"[
            {"type":"thinking","thinking":"one"},
            {"type":"text","text":"said"},
            {"type":"thinking","thinking":"two","signature":"s"}
        ]"#,
    );
    assert_eq!(result.choices[0].message.thinking.as_deref(), Some("onetwo"));
    assert_eq!(result.choices[0].message.content.len(), 3);
    let silent = with_content(r#"[{"type":"thinking","thinking":""}]"#);
    assert!(silent.choices[0].message.thinking.is_none());
    assert_eq!(silent.choices[0].message.content.len(), 1);
}

#[test]
fn calls_are_numbered_among_themselves() {
    let result = with_content(
        r#"[
            {"type":"tool_use","id":"a","name":"f"},
            {"type":"text","text":"and"},
            {"type":"tool_use","id":"b","name":"g","input":{"z":1,"a":[true,null,"q\n"]}}
        ]"#,
    );
    let calls = result.choices[0].message.tool_calls.as_ref().unwrap();
    assert_eq!(calls.len(), 2);
    assert_eq!((calls[0].index, calls[1].index), (Some(0), Some(1)));
    assert_eq!(calls[0].function.arguments, "{}");
    assert_eq!(calls[1].function.arguments, r#"{"a":[true,null,"q\n"],"z":1}"#);
    assert_eq!(calls[0].call_type, "function");
    assert_eq!(
        calls[1].to_value(),
        json(
            r#"{"id":"b","type":"function","index":1,"function":
                {"name":"g","arguments":"{\"a\":[true,null,\"q\\n\"],\"z\":1}"}}"#
        )
    );
    let made = make_tool_call("i", "n", "[]".to_string(), 5);
    assert_eq!((made.id.as_str(), made.function.name.as_str(), made.index), ("i", "n", Some(5)));
}

#[test]
fn an_answer_goes_back_as_it_came() {
    let content = r#"[
        {"type":"thinking","thinking":"t","signature":"s"},
        {"type":"text","text":"a"},
        {"type":"thinking","thinking":"u"},
        {"type":"tool_use","id":"x","name":"f","input":{"n":-7,"list":[1,{"k":"v"}]}},
        {"type":"tool_use","id":"y","name":"g","input":[]}
    ]"#;
    let message = with_content(content).choices[0].message.clone();
    assert_eq!(send_back(message), json(content));
}

#[test]
fn unknown_blocks_do_not_change_an_answer() {
    let with = with_content(
        r#"[{"type":"text","text":"a"},{"type":"novel"},
            {"type":"tool_use","id":"x","name":"f","input":{}}]"#,
    );
    let without = with_content(
        r#"[{"type":"text","text":"a"},{"type":"tool_use","id":"x","name":"f","input":{}}]"#,
    );
    assert_eq!(
        send_back(with.choices[0].message.clone()),
        send_back(without.choices[0].message.clone())
    );
}

fn error(status: u16, body: &str) -> String {
    format!("{:?}", AnthropicProtocol::new("k").map_error(status, body))
}

#[test]
fn the_status_tells_errors_apart() {
    let body = r#"{"error":{"type":"some_error","message":"no"}}"#;
    assert_eq!(error(400, body), r#"InvalidRequest("Anthropic: no")"#);
    assert_eq!(error(401, body), r#"AuthenticationError("Anthropic: no")"#);
    assert_eq!(error(403, body), r#"PermissionError("Anthropic: no")"#);
    assert_eq!(error(429, body), r#"RateLimitError("Anthropic: no")"#);
    assert_eq!(error(500, body), r#"ServerError("Anthropic: no")"#);
    assert_eq!(error(599, body), r#"ServerError("Anthropic: no")"#);
    assert_eq!(error(499, body), r#"ApiError("Anthropic HTTP 499: no")"#);
    assert_eq!(error(600, body), r#"ApiError("Anthropic HTTP 600: no")"#);
    assert_eq!(error(0, body), r#"ApiError("Anthropic HTTP 0: no")"#);
}

#[test]
fn a_context_overflow_is_seen_at_any_status() {
    let body = |message: &str| {
        format!(
            r#"{{"error":{{"type":"invalid_request_error","message":"{}"}}}}"#,
            message
        )
    };
    for status in [400, 413, 500] {
        assert_eq!(
            error(status, &body("prompt is too long: 9")),
            r#"ContextLengthExceeded("Anthropic: prompt is too long: 9")"#
        );
        assert_eq!(
            error(status, &body("the maximum")),
            r#"ContextLengthExceeded("Anthropic: the maximum")"#
        );
        assert_eq!(
            error(status, &body("context window")),
            r#"ContextLengthExceeded("Anthropic: context window")"#
        );
    }
    assert_eq!(error(400, &body("Context")), r#"InvalidRequest("Anthropic: Context")"#);
    assert_eq!(
        error(400, r#"{"error":{"type":"other","message":"too long"}}"#),
        r#"InvalidRequest("Anthropic: too long")"#
    );
}

#[test]
fn an_error_without_a_message_is_unknown() {
    let unknown = r#"ServerError("Anthropic: Unknown Anthropic error")"#;
    assert_eq!(error(500, r#"{"error":{}}"#), unknown);
    assert_eq!(error(500, r#"{"error":"text"}"#), unknown);
    assert_eq!(error(500, r#"{"error":null}"#), unknown);
    assert_eq!(error(500, r#"{"error":{"message":5}}"#), unknown);
}

#[test]
fn a_body_without_an_error_is_the_message() {
    assert_eq!(error(503, "overloaded"), r#"ServerError("Anthropic: overloaded")"#);
    assert_eq!(error(503, "[1]"), r#"ServerError("Anthropic: [1]")"#);
    assert_eq!(error(400, ""), r#"InvalidRequest("Anthropic: ")"#);
    assert_eq!(
        error(400, "context too long maximum"),
        r#"InvalidRequest("Anthropic: context too long maximum")"#
    );
    let read = AnthropicProtocol::new("k").map_parsed_error(
        429,
        "body",
        Ok(json(r#"{"error":{"message":"m"}}"#)),
    );
    assert_eq!(format!("{:?}", read), r#"RateLimitError("Anthropic: m")"#);
    let refused =
        AnthropicProtocol::new("k").map_parsed_error(429, "body", Err("bad".to_string()));
    assert_eq!(format!("{:?}", refused), r#"RateLimitError("Anthropic: body")"#);
}

fn step(message_id: &mut String, event: &str) -> Option<(Value, String)> {
    match AnthropicProtocol::new("k").stream_event(message_id, event).unwrap() {
        StreamStep::Skip => None,
        StreamStep::Interpret { event, message_id } => Some((event, message_id)),
    }
}

#[test]
fn parts_of_a_stream_carry_the_id_it_opened_with() {
    let mut id = String::new();
    let delta = r#"{"type":"content_block_delta","delta":{"text":"x"}}"#;
    assert_eq!(step(&mut id, delta), Some((json(delta), String::new())));
    assert_eq!(step(&mut id, r#"{"type":"message_start","message":{"id":"msg_7"}}"#), None);
    assert_eq!(id, "msg_7");
    for kind in ["content_block_start", "content_block_delta", "message_delta"] {
        let event = format!(r#"{{"type":"{}","message":{{"id":"other"}}}}"#, kind);
        assert_eq!(step(&mut id, &event), Some((json(&event), "msg_7".to_string())));
    }
    assert_eq!(step(&mut id, r#"{"type":"message_start","message":{"id":"msg_8"}}"#), None);
    assert_eq!(id, "msg_8");
}

#[test]
fn other_events_of_a_stream_are_skipped() {
    let mut id = "kept".to_string();
    for event in [
        r#"{"type":"content_block_stop"}"#,
        r#"{"type":"message_stop"}"#,
        r#"{"type":"ping"}"#,
        r#"{"type":"message_start"}"#,
        r#"{"type":"message_start","message":{"id":4}}"#,
        r#"{"type":7}"#,
        r#"{}"#,
        r#"[]"#,
        r#""message_delta""#,
    ] {
        assert_eq!(step(&mut id, event), None);
        assert_eq!(id, "kept");
    }
}

#[test]
fn a_broken_event_of_a_stream_is_a_parse_error() {
    let protocol = AnthropicProtocol::new("k");
    let mut id = "kept".to_string();
    match protocol.stream_event(&mut id, "{oops") {
        Err(LlmConnectorError::ParseError(message)) => {
            assert!(message.starts_with("Failed to parse Anthropic streaming event: key must be"));
            assert!(message.ends_with(". JSON: {oops"));
        }
        _ => panic!("expected a parse error"),
    }
    assert_eq!(id, "kept");
    match protocol.stream_parsed_event(&mut id, "text", Err("why".to_string())) {
        Err(LlmConnectorError::ParseError(message)) => {
            assert_eq!(message, "Failed to parse Anthropic streaming event: why. JSON: text")
        }
        _ => panic!("expected a parse error"),
    }
}

#[test]
fn the_endpoint_names_the_version_once() {
    let protocol = AnthropicProtocol::new("k");
    let url = "https://api.anthropic.com/v1/messages";
    for base in [
        "https://api.anthropic.com",
        "https://api.anthropic.com/",
        "https://api.anthropic.com///",
        "https://api.anthropic.com/v1",
        "https://api.anthropic.com/v1//",
    ] {
        assert_eq!(protocol.chat_endpoint(base, "any"), url);
    }
    assert_eq!(protocol.chat_endpoint("", "any"), "/v1/messages");
    assert_eq!(protocol.chat_endpoint("//", "any"), "/v1/messages");
    assert_eq!(protocol.chat_endpoint("v1", "any"), "v1/v1/messages");
    assert_eq!(protocol.chat_endpoint("/v1", "any"), "/v1/messages");
    assert_eq!(protocol.chat_endpoint("x//v1", "any"), "x//v1/messages");
}

#[test]
fn headers_carry_the_key() {
    let protocol = AnthropicProtocol::new("own");
    let pair = |name: &str, value: &str| (name.to_string(), value.to_string());
    assert_eq!(
        protocol.auth_headers(),
        vec![pair("x-api-key", "own"), pair("anthropic-version", "2023-06-01")]
    );
    assert_eq!(
        protocol.build_auth_headers_for_override("other"),
        vec![pair("x-api-key", "other")]
    );
    assert_eq!(protocol.api_key(), "own");
    assert_eq!(protocol.clone().api_key(), "own");
    assert_eq!(protocol.name(), "anthropic");
}

fn nested(depth: usize) -> Value {
    let mut value = json("[]");
    for _ in 1..depth {
        value = Value::Array(vec![value]);
    }
    value
}

fn call_with(input: Value) -> Result<Value, String> {
    let block = AnthropicContent {
        content_type: "tool_use".to_string(),
        text: None,
        thinking: None,
        signature: None,
        id: Some("i".to_string()),
        name: Some("f".to_string()),
        input: Some(input),
    };
    let usage = AnthropicUsage {
        input_tokens: 0,
        output_tokens: 0,
        cache_creation_input_tokens: None,
        cache_read_input_tokens: None,
    };
    let response = AnthropicResponse {
        id: String::new(),
        model: String::new(),
        content: vec![block],
        stop_reason: None,
        usage,
    };
    let made = AnthropicProtocol::new("k").parse_response_at(Ok(response), 0).unwrap();
    made.choices[0].message.tool_calls.as_ref().unwrap()[0].arguments_value()
}

#[test]
fn inputs_of_calls_are_read_back() {
    let inputs = [
        json("null"),
        json("true"),
        Value::from(u64::MAX),
        Value::from(i64::MIN),
        Value::from(0),
        Value::from("\u{0}\u{1f}\"\\/\u{7f}\u{2028}\u{1f600}"),
        json(r#"{"":{},"b":[[]],"a":-1}"#),
        json("[0.1,-2.5,1.0,-0.0,0.0001,12345678901.2345,0.123456789012345,90071992.54740992]"),
        nested(127),
    ];
    for input in inputs {
        assert_eq!(call_with(input.clone()), Ok(input));
    }
    assert!(call_with(nested(128)).is_err());
}

#[test]
fn a_clock_before_the_epoch_counts_nothing() {
    assert_eq!(counted_seconds(Some(1_700_000_000)), 1_700_000_000);
    assert_eq!(counted_seconds(Some(u64::MAX)), u64::MAX);
    assert_eq!(counted_seconds(None), 0);
}

#[test]
fn a_response_of_calls_goes_back_as_one_message() {
    let content = r#"[
        {"type":"tool_use","id":"x","name":"f","input":{"price":19.99,"tags":["a"]}},
        {"type":"tool_use","id":"y","name":"g","input":{}}
    ]"#;
    let message = with_content(content).choices[0].message.clone();
    let request = ChatRequest::new("m").add_message(message);
    let nothing = ReasoningRequestParts { reasoning_effort: None, thinking_budget: None };
    let built =
        AnthropicProtocol::new("k").build_request_with_reasoning(&request, nothing).unwrap();
    assert_eq!(built.messages.len(), 1);
    assert_eq!(built.messages[0].role, "assistant");
    assert_eq!(built.messages[0].content, json(content));
}

#[test]
fn a_long_fraction_may_come_back_with_its_last_digit_off() {
    let input = Value::from(9769.761560529061f64);
    assert_eq!(input.to_string(), "9769.761560529061");
    assert_ne!(call_with(input.clone()), Ok(input));
}
