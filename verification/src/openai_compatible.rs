//! Requests and responses in the form that OpenAI-compatible providers share.

use vstd::prelude::*;
use vstd::string::*;

use crate::capabilities::{
    ContentBlockMode, EmptyAssistantToolContentStrategy, ReasoningEffort, ReasoningRequestParts,
    ReasoningRequestStrategy, StreamReasoningStrategy,
};
use crate::chat::{ChatRequest, ChatRequestView, ChatResponse};
use crate::error::{LlmConnectorError, LlmConnectorErrorView};
use crate::json::{
    json_null, json_object, json_string, json_view, json_views, opt_json, opt_jsons, put, put_text,
    JsonView,
};
use crate::request::{
    conversion_view, openai_message_converter_downgrade_with_strategy,
    openai_message_converter_with_strategy, openai_messages, or_empty, text_messages,
};
use crate::text::{find, find_text, lemma_find, occurs_at, opt_view, trim, trim_text, views};
use crate::tool::{Tool, ToolCall, ToolView};

verus! {

/// What an OpenAI-compatible provider can take.
#[derive(Debug)]
pub struct OpenAICompatibleCapabilities {
    pub content_block_mode: ContentBlockMode,
    pub supports_tool_choice: bool,
    pub supports_response_format: bool,
    pub reasoning_request_strategy: ReasoningRequestStrategy,
    pub stream_reasoning_strategy: StreamReasoningStrategy,
    pub empty_assistant_tool_content_strategy: EmptyAssistantToolContentStrategy,
}

impl Clone for OpenAICompatibleCapabilities {
    fn clone(&self) -> (copy: Self)
        ensures
            copy == *self,
    {
        OpenAICompatibleCapabilities {
            content_block_mode: self.content_block_mode,
            supports_tool_choice: self.supports_tool_choice,
            supports_response_format: self.supports_response_format,
            reasoning_request_strategy: self.reasoning_request_strategy,
            stream_reasoning_strategy: self.stream_reasoning_strategy,
            empty_assistant_tool_content_strategy: self.empty_assistant_tool_content_strategy,
        }
    }
}

impl Default for OpenAICompatibleCapabilities {
    fn default() -> (capabilities: Self)
        ensures
            capabilities == (OpenAICompatibleCapabilities {
                content_block_mode: ContentBlockMode::Standard,
                supports_tool_choice: true,
                supports_response_format: true,
                reasoning_request_strategy: ReasoningRequestStrategy::ReasoningEffort,
                stream_reasoning_strategy: StreamReasoningStrategy::SeparateField,
                empty_assistant_tool_content_strategy: EmptyAssistantToolContentStrategy::Null,
            }),
    {
        OpenAICompatibleCapabilities {
            content_block_mode: ContentBlockMode::Standard,
            supports_tool_choice: true,
            supports_response_format: true,
            reasoning_request_strategy: ReasoningRequestStrategy::ReasoningEffort,
            stream_reasoning_strategy: StreamReasoningStrategy::SeparateField,
            empty_assistant_tool_content_strategy: EmptyAssistantToolContentStrategy::Null,
        }
    }
}

/// The parts of a request that every OpenAI-compatible provider takes.
#[derive(Debug)]
pub struct OpenAICompatibleRequestParts {
    pub messages: Vec<serde_json::Value>,
    pub tools: Option<Vec<serde_json::Value>>,
    pub tool_choice: Option<serde_json::Value>,
    pub response_format: Option<serde_json::Value>,
    pub reasoning_effort: Option<ReasoningEffort>,
    pub reasoning_parts: ReasoningRequestParts,
}

/// What the parts of a request hold.
pub struct OpenAICompatibleRequestPartsView {
    pub messages: Seq<JsonView>,
    pub tools: Option<Seq<JsonView>>,
    pub tool_choice: Option<JsonView>,
    pub response_format: Option<JsonView>,
    pub reasoning_effort: Option<ReasoningEffort>,
    pub reasoning_parts: ReasoningRequestParts,
}

impl View for OpenAICompatibleRequestParts {
    type V = OpenAICompatibleRequestPartsView;

    open spec fn view(&self) -> OpenAICompatibleRequestPartsView {
        OpenAICompatibleRequestPartsView {
            messages: json_views(self.messages@),
            tools: opt_jsons(self.tools),
            tool_choice: opt_json(self.tool_choice),
            response_format: opt_json(self.response_format),
            reasoning_effort: self.reasoning_effort,
            reasoning_parts: self.reasoning_parts,
        }
    }
}

impl Clone for OpenAICompatibleRequestParts {
    fn clone(&self) -> (copy: Self)
        ensures
            copy@ == self@,
    {
        let messages = self.messages.clone();
        assert(json_views(messages@) =~= json_views(self.messages@));
        let tools = match &self.tools {
            Some(tools) => {
                let copies = tools.clone();
                assert(json_views(copies@) =~= json_views(tools@));
                Some(copies)
            },
            None => None,
        };
        OpenAICompatibleRequestParts {
            messages,
            tools,
            tool_choice: self.tool_choice.clone(),
            response_format: self.response_format.clone(),
            reasoning_effort: self.reasoning_effort,
            reasoning_parts: self.reasoning_parts,
        }
    }
}

/// A content with its reasoning set apart.
#[derive(Debug)]
pub struct NormalizedContent {
    pub content: String,
    pub reasoning: Option<String>,
}

/// What a normalized content holds.
pub struct NormalizedContentView {
    pub content: Seq<char>,
    pub reasoning: Option<Seq<char>>,
}

impl View for NormalizedContent {
    type V = NormalizedContentView;

    open spec fn view(&self) -> NormalizedContentView {
        NormalizedContentView { content: self.content@, reasoning: opt_view(self.reasoning) }
    }
}

impl Clone for NormalizedContent {
    fn clone(&self) -> (copy: Self)
        ensures
            copy@ == self@,
    {
        NormalizedContent { content: self.content.clone(), reasoning: self.reasoning.clone() }
    }
}

/// The messages of a request for a provider: as text alone where it takes no more, else as
/// content blocks.
pub open spec fn mapped_messages(
    request: ChatRequestView,
    capabilities: OpenAICompatibleCapabilities,
) -> Result<Seq<JsonView>, LlmConnectorErrorView> {
    match capabilities.content_block_mode {
        ContentBlockMode::TextOnly => text_messages(
            request.messages,
            capabilities.empty_assistant_tool_content_strategy,
        ),
        _ => Ok(
            openai_messages(
                request.messages,
                capabilities.empty_assistant_tool_content_strategy,
            ),
        ),
    }
}

/// Converts the messages of a request for a provider.
pub fn map_openai_compatible_messages(
    request: &ChatRequest,
    capabilities: &OpenAICompatibleCapabilities,
) -> (outcome: Result<Vec<serde_json::Value>, LlmConnectorError>)
    ensures
        conversion_view(outcome) == mapped_messages(request@, *capabilities),
{
    match capabilities.content_block_mode {
        ContentBlockMode::Standard => Ok(
            openai_message_converter_with_strategy(
                request.messages.as_slice(),
                capabilities.empty_assistant_tool_content_strategy,
            ),
        ),
        ContentBlockMode::TextOnly => openai_message_converter_downgrade_with_strategy(
            request.messages.as_slice(),
            capabilities.empty_assistant_tool_content_strategy,
        ),
        ContentBlockMode::NativeMessage => Ok(
            openai_message_converter_with_strategy(
                request.messages.as_slice(),
                capabilities.empty_assistant_tool_content_strategy,
            ),
        ),
    }
}

/// A tool in OpenAI's form. A description that is missing is null there.
pub open spec fn openai_tool(tool: ToolView) -> JsonView {
    JsonView::Object(
        map![
            "type"@ => JsonView::Str(tool.tool_type),
            "function"@ => JsonView::Object(
                map![
                    "name"@ => JsonView::Str(tool.function.name),
                    "description"@ => match tool.function.description {
                        Some(text) => JsonView::Str(text),
                        None => JsonView::Null,
                    },
                    "parameters"@ => tool.function.parameters
                ],
            )
        ],
    )
}

fn openai_tool_value(tool: &Tool) -> (value: serde_json::Value)
    ensures
        json_view(value) == openai_tool(tool@),
{
    let mut function = serde_json::Map::new();
    put_text(&mut function, "name", tool.function.name.as_str());
    let description = match &tool.function.description {
        Some(text) => json_string(text.clone()),
        None => json_null(),
    };
    put(&mut function, "description", description);
    put(&mut function, "parameters", tool.function.parameters.clone());
    let mut map = serde_json::Map::new();
    put_text(&mut map, "type", tool.tool_type.as_str());
    put(&mut map, "function", json_object(function));
    json_object(map)
}

/// The tools of a request in OpenAI's form, one by one.
pub open spec fn mapped_tools(request: ChatRequestView) -> Option<Seq<JsonView>> {
    match request.tools {
        Some(tools) => Some(tools.map_values(|tool: ToolView| openai_tool(tool))),
        None => None,
    }
}

/// Converts the tools of a request.
pub fn map_openai_compatible_tools(request: &ChatRequest) -> (values: Option<
    Vec<serde_json::Value>,
>)
    ensures
        opt_jsons(values) == mapped_tools(request@),
{
    match &request.tools {
        Some(tools) => {
            let mut values: Vec<serde_json::Value> = Vec::new();
            let mut i: usize = 0;
            while i < tools.len()
                invariant
                    i <= tools@.len(),
                    values@.len() == i,
                    forall|j: int|
                        0 <= j < i ==> json_view(#[trigger] values@[j]) == openai_tool(tools@[j]@),
                decreases tools@.len() - i,
            {
                values.push(openai_tool_value(&tools[i]));
                i += 1;
            }
            assert(json_views(values@) =~= views(tools@).map_values(
                |tool: ToolView| openai_tool(tool),
            ));
            Some(values)
        },
        None => None,
    }
}

/// The tool choice of a request for a provider that takes one.
pub open spec fn mapped_tool_choice(
    request: ChatRequestView,
    capabilities: OpenAICompatibleCapabilities,
) -> Option<JsonView> {
    match request.tool_choice {
        Some(choice) if capabilities.supports_tool_choice => Some(choice.wire()),
        _ => None,
    }
}

/// Converts the tool choice of a request, for a provider that takes one.
pub fn map_openai_compatible_tool_choice(
    request: &ChatRequest,
    capabilities: &OpenAICompatibleCapabilities,
) -> (value: Option<serde_json::Value>)
    ensures
        opt_json(value) == mapped_tool_choice(request@, *capabilities),
{
    if capabilities.supports_tool_choice {
        match &request.tool_choice {
            Some(choice) => Some(choice.to_value()),
            None => None,
        }
    } else {
        None
    }
}

/// The response format of a request for a provider that takes one.
pub open spec fn mapped_response_format(
    request: ChatRequestView,
    capabilities: OpenAICompatibleCapabilities,
) -> Option<JsonView> {
    match request.response_format {
        Some(format) if capabilities.supports_response_format => Some(format.wire()),
        _ => None,
    }
}

/// Converts the response format of a request, for a provider that takes one.
pub fn map_openai_compatible_response_format(
    request: &ChatRequest,
    capabilities: &OpenAICompatibleCapabilities,
) -> (value: Option<serde_json::Value>)
    ensures
        opt_json(value) == mapped_response_format(request@, *capabilities),
{
    if capabilities.supports_response_format {
        match &request.response_format {
            Some(format) => Some(format.to_value()),
            None => None,
        }
    } else {
        None
    }
}

/// Whether the reasoning of a response is to be found in its content: the provider embeds it, it
/// was not given apart, and the content has both think tags.
pub open spec fn embeds_reasoning(
    content: Seq<char>,
    reasoning: Option<Seq<char>>,
    strategy: StreamReasoningStrategy,
) -> bool {
    &&& strategy == StreamReasoningStrategy::EmbeddedThinkTags
    &&& reasoning is None
    &&& find(content, "<think>"@) is Some
    &&& find(content, "</think>"@) is Some
}

/// A content with its reasoning set apart. Where the content embeds it, the reasoning is what
/// stands between the first opening and the first closing tag, and the content is what stands
/// around the two tags, trimmed. Else both are as they were given.
pub open spec fn normalized(
    content: Seq<char>,
    reasoning: Option<Seq<char>>,
    strategy: StreamReasoningStrategy,
) -> NormalizedContentView {
    if embeds_reasoning(content, reasoning, strategy) {
        let open = find(content, "<think>"@)->0;
        let close = find(content, "</think>"@)->0;
        NormalizedContentView {
            content: trim(content.take(open) + content.skip(close + "</think>"@.len())),
            reasoning: Some(content.subrange(open + "<think>"@.len() as int, close)),
        }
    } else {
        NormalizedContentView { content, reasoning }
    }
}

/// A closing tag that does not come before an opening tag comes after the whole of it.
pub(crate) proof fn lemma_tags_apart(content: Seq<char>, open: int, close: int)
    requires
        occurs_at(content, "<think>"@, open),
        occurs_at(content, "</think>"@, close),
        open <= close,
    ensures
        open + "<think>"@.len() <= close,
{
    reveal_strlit("<think>");
    reveal_strlit("</think>");
    let opening = content.subrange(open, open + "<think>"@.len());
    let closing = content.subrange(close, close + "</think>"@.len());
    assert(closing[0] == content[close]);
    assert(closing[1] == content[close + 1]);
    if close < open + "<think>"@.len() {
        assert(opening[close - open] == content[close]);
        assert(opening[1] == content[open + 1]);
    }
}

/// Sets the reasoning of a response apart from its content.
///
/// Where the content is to be searched, its first closing tag must not come before its first
/// opening tag.
pub fn normalize_openai_compatible_content(
    content: Option<String>,
    reasoning_content: Option<String>,
    stream_reasoning_strategy: StreamReasoningStrategy,
) -> (result: NormalizedContent)
    requires
        embeds_reasoning(
            or_empty(opt_view(content)),
            opt_view(reasoning_content),
            stream_reasoning_strategy,
        ) ==> find(or_empty(opt_view(content)), "<think>"@)->0 <= find(
            or_empty(opt_view(content)),
            "</think>"@,
        )->0,
    ensures
        result@ == normalized(
            or_empty(opt_view(content)),
            opt_view(reasoning_content),
            stream_reasoning_strategy,
        ),
{
    let content_str = match content {
        Some(text) => text,
        None => String::new(),
    };
    if stream_reasoning_strategy == StreamReasoningStrategy::EmbeddedThinkTags
        && reasoning_content.is_none() {
        let open = find_text(content_str.as_str(), "<think>");
        let close = find_text(content_str.as_str(), "</think>");
        match (open, close) {
            (Some(start_idx), Some(end_idx)) => {
                let text = content_str.as_str();
                proof {
                    lemma_find(text@, "<think>"@);
                    lemma_find(text@, "</think>"@);
                    lemma_tags_apart(text@, start_idx as int, end_idx as int);
                    reveal_strlit("<think>");
                    reveal_strlit("</think>");
                }
                let len = text.unicode_len();
                let extracted_reasoning = text.substring_char(start_idx + 7, end_idx).to_owned();
                let new_content = text.substring_char(0, start_idx).to_owned().concat(
                    text.substring_char(end_idx + 8, len),
                );
                proof {
                    assert(text@.subrange(0, start_idx as int) =~= text@.take(start_idx as int));
                    assert(text@.subrange(end_idx + 8, len as int) =~= text@.skip(end_idx + 8));
                }
                return NormalizedContent {
                    content: trim_text(new_content.as_str()).to_owned(),
                    reasoning: Some(extracted_reasoning),
                };
            },
            _ => {},
        }
    }
    NormalizedContent { content: content_str, reasoning: reasoning_content }
}

/// Reads the tool calls of a response with the given decoder. Calls that it refuses are left out.
pub fn map_openai_compatible_tool_calls<D>(
    tool_calls: Option<serde_json::Value>,
    decode: D,
) -> (calls: Option<Vec<ToolCall>>) where
    D: Fn(serde_json::Value) -> Result<Vec<ToolCall>, String>,

    requires
        tool_calls matches Some(value) ==> call_requires(decode, (value,)),
    ensures
        match tool_calls {
            Some(value) => exists|decoded: Result<Vec<ToolCall>, String>|
                call_ensures(decode, (value,), decoded) && calls == match decoded {
                    Ok(list) => Some(list),
                    Err(_) => None,
                },
            None => calls is None,
        },
{
    match tool_calls {
        Some(value) => match decode(value) {
            Ok(list) => Some(list),
            Err(_) => None,
        },
        None => None,
    }
}

/// Builds the parts of a request for a provider. What it says about reasoning comes from
/// `map_reasoning`, which is asked with the request and the provider's strategy.
pub fn build_openai_compatible_request_parts<R>(
    request: &ChatRequest,
    capabilities: &OpenAICompatibleCapabilities,
    map_reasoning: R,
) -> (outcome: Result<OpenAICompatibleRequestParts, LlmConnectorError>) where
    R: Fn(&ChatRequest, ReasoningRequestStrategy) -> ReasoningRequestParts,

    requires
        call_requires(map_reasoning, (request, capabilities.reasoning_request_strategy)),
    ensures
        match mapped_messages(request@, *capabilities) {
            Ok(messages) => outcome matches Ok(parts) && call_ensures(
                map_reasoning,
                (request, capabilities.reasoning_request_strategy),
                parts.reasoning_parts,
            ) && parts@ == (OpenAICompatibleRequestPartsView {
                messages,
                tools: mapped_tools(request@),
                tool_choice: mapped_tool_choice(request@, *capabilities),
                response_format: mapped_response_format(request@, *capabilities),
                reasoning_effort: parts.reasoning_parts.reasoning_effort,
                reasoning_parts: parts.reasoning_parts,
            }),
            Err(refusal) => outcome matches Err(error) && error@ == refusal,
        },
{
    let messages = match map_openai_compatible_messages(request, capabilities) {
        Ok(messages) => messages,
        Err(error) => {
            return Err(error);
        },
    };
    let tools = map_openai_compatible_tools(request);
    let tool_choice = map_openai_compatible_tool_choice(request, capabilities);
    let response_format = map_openai_compatible_response_format(request, capabilities);
    let reasoning_parts = map_reasoning(request, capabilities.reasoning_request_strategy);
    let reasoning_effort = reasoning_parts.reasoning_effort;
    Ok(
        OpenAICompatibleRequestParts {
            messages,
            tools,
            tool_choice,
            response_format,
            reasoning_effort,
            reasoning_parts,
        },
    )
}

/// Reads a chat response with the given reader, which is asked with the response, the name of the
/// provider and where it carries its reasoning.
pub fn parse_openai_compatible_chat_response<P>(
    response: &str,
    provider_name: &str,
    stream_reasoning_strategy: StreamReasoningStrategy,
    parse: P,
) -> (outcome: Result<ChatResponse, LlmConnectorError>) where
    P: Fn(&str, &str, StreamReasoningStrategy) -> Result<ChatResponse, LlmConnectorError>,

    requires
        call_requires(parse, (response, provider_name, stream_reasoning_strategy)),
    ensures
        call_ensures(parse, (response, provider_name, stream_reasoning_strategy), outcome),
{
    parse(response, provider_name, stream_reasoning_strategy)
}

} // verus!
