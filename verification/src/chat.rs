//! Chat requests and chat responses, independent of a provider.

use vstd::prelude::*;

use crate::json::{json_string, json_view, opt_json, single, single_value, JsonView};
use crate::message::{Message, MessageView};
use crate::text::{opt_view, opt_views, views};
use crate::tool::{
    AnthropicToolChoice, AnthropicToolChoiceView, AnthropicToolDefinition,
    AnthropicToolDefinitionView, Tool, ToolChoice, ToolChoiceView, ToolView,
};

verus! {

/// A number in the IEEE 754 binary32 format, kept by its bits: it is handed on, never computed
/// with.
#[derive(Clone, Copy, Debug, PartialEq, Eq, Structural)]
pub struct Binary32 {
    pub bits: u32,
}

/// The form in which a model is asked to answer.
#[derive(Debug)]
pub struct ResponseFormat {
    pub format_type: String,
}

/// What a response format holds.
pub struct ResponseFormatView {
    pub format_type: Seq<char>,
}

impl View for ResponseFormat {
    type V = ResponseFormatView;

    open spec fn view(&self) -> ResponseFormatView {
        ResponseFormatView { format_type: self.format_type@ }
    }
}

impl ResponseFormatView {
    /// The JSON object that carries a response format.
    pub open spec fn wire(self) -> JsonView {
        single("type"@, JsonView::Str(self.format_type))
    }
}

impl ResponseFormat {
    /// The JSON object that carries the response format.
    pub fn to_value(&self) -> (value: serde_json::Value)
        ensures
            json_view(value) == self@.wire(),
    {
        single_value("type", json_string(self.format_type.clone()))
    }
}

/// A request to a chat model.
#[derive(Debug)]
pub struct ChatRequest {
    pub model: String,
    pub messages: Vec<Message>,
    pub max_tokens: Option<u32>,
    pub temperature: Option<Binary32>,
    pub top_p: Option<Binary32>,
    pub stream: Option<bool>,
    pub tools: Option<Vec<Tool>>,
    pub tool_choice: Option<ToolChoice>,
    pub response_format: Option<ResponseFormat>,
    pub anthropic_tools: Option<Vec<AnthropicToolDefinition>>,
    pub anthropic_tool_choice: Option<AnthropicToolChoice>,
}

/// What a chat request holds.
pub struct ChatRequestView {
    pub model: Seq<char>,
    pub messages: Seq<MessageView>,
    pub max_tokens: Option<u32>,
    pub temperature: Option<Binary32>,
    pub top_p: Option<Binary32>,
    pub stream: Option<bool>,
    pub tools: Option<Seq<ToolView>>,
    pub tool_choice: Option<ToolChoiceView>,
    pub response_format: Option<ResponseFormatView>,
    pub anthropic_tools: Option<Seq<AnthropicToolDefinitionView>>,
    pub anthropic_tool_choice: Option<AnthropicToolChoiceView>,
}

impl View for ChatRequest {
    type V = ChatRequestView;

    open spec fn view(&self) -> ChatRequestView {
        ChatRequestView {
            model: self.model@,
            messages: views(self.messages@),
            max_tokens: self.max_tokens,
            temperature: self.temperature,
            top_p: self.top_p,
            stream: self.stream,
            tools: opt_views(self.tools),
            tool_choice: opt_view(self.tool_choice),
            response_format: opt_view(self.response_format),
            anthropic_tools: opt_views(self.anthropic_tools),
            anthropic_tool_choice: opt_view(self.anthropic_tool_choice),
        }
    }
}

impl ChatRequest {
    /// A request to a model that says nothing yet.
    pub fn new(model: &str) -> (request: Self)
        ensures
            request@ == (ChatRequestView {
                model: model@,
                messages: seq![],
                max_tokens: None,
                temperature: None,
                top_p: None,
                stream: None,
                tools: None,
                tool_choice: None,
                response_format: None,
                anthropic_tools: None,
                anthropic_tool_choice: None,
            }),
    {
        let messages: Vec<Message> = Vec::new();
        assert(views(messages@) =~= seq![]);
        ChatRequest {
            model: model.to_owned(),
            messages,
            max_tokens: None,
            temperature: None,
            top_p: None,
            stream: None,
            tools: None,
            tool_choice: None,
            response_format: None,
            anthropic_tools: None,
            anthropic_tool_choice: None,
        }
    }

    /// The request with a message after those it has.
    pub fn add_message(self, message: Message) -> (request: Self)
        ensures
            request@ == (ChatRequestView {
                messages: self@.messages.push(message@),
                ..self@
            }),
    {
        let mut request = self;
        request.messages.push(message);
        assert(views(request.messages@) =~= views(self.messages@).push(message@));
        request
    }

    /// The request with the given tools.
    pub fn with_tools(self, tools: Vec<Tool>) -> (request: Self)
        ensures
            request@ == (ChatRequestView { tools: Some(views(tools@)), ..self@ }),
    {
        let mut request = self;
        request.tools = Some(tools);
        request
    }

    /// The request with the given tool choice.
    pub fn with_tool_choice(self, choice: ToolChoice) -> (request: Self)
        ensures
            request@ == (ChatRequestView { tool_choice: Some(choice@), ..self@ }),
    {
        let mut request = self;
        request.tool_choice = Some(choice);
        request
    }

    /// The request with the given tools in Anthropic's own form.
    pub fn with_anthropic_tools(self, tools: Vec<AnthropicToolDefinition>) -> (request: Self)
        ensures
            request@ == (ChatRequestView { anthropic_tools: Some(views(tools@)), ..self@ }),
    {
        let mut request = self;
        request.anthropic_tools = Some(tools);
        request
    }

    /// The request with the given tool choice in Anthropic's own form.
    pub fn with_anthropic_tool_choice(self, choice: AnthropicToolChoice) -> (request: Self)
        ensures
            request@ == (ChatRequestView { anthropic_tool_choice: Some(choice@), ..self@ }),
    {
        let mut request = self;
        request.anthropic_tool_choice = Some(choice);
        request
    }
}

/// How the tokens of a prompt were served.
#[derive(Clone, Copy, Debug, PartialEq, Eq, Structural)]
pub struct PromptTokensDetails {
    pub cached_tokens: Option<u32>,
    pub cache_read_input_tokens: Option<u32>,
    pub cache_creation_input_tokens: Option<u32>,
}

/// How many tokens an exchange took.
#[derive(Debug)]
pub struct Usage {
    pub prompt_tokens: u32,
    pub completion_tokens: u32,
    pub total_tokens: u32,
    pub completion_tokens_details: Option<serde_json::Value>,
    pub prompt_cache_hit_tokens: Option<u32>,
    pub prompt_cache_miss_tokens: Option<u32>,
    pub prompt_tokens_details: Option<PromptTokensDetails>,
}

/// What a usage holds.
pub struct UsageView {
    pub prompt_tokens: u32,
    pub completion_tokens: u32,
    pub total_tokens: u32,
    pub completion_tokens_details: Option<JsonView>,
    pub prompt_cache_hit_tokens: Option<u32>,
    pub prompt_cache_miss_tokens: Option<u32>,
    pub prompt_tokens_details: Option<PromptTokensDetails>,
}

/// One answer to a request.
#[derive(Debug)]
pub struct Choice {
    pub index: u32,
    pub message: Message,
    pub finish_reason: Option<String>,
    pub logprobs: Option<serde_json::Value>,
}

/// What a choice holds.
pub struct ChoiceView {
    pub index: u32,
    pub message: MessageView,
    pub finish_reason: Option<Seq<char>>,
    pub logprobs: Option<JsonView>,
}

/// The response of a chat model.
#[derive(Debug)]
pub struct ChatResponse {
    pub id: String,
    pub object: String,
    pub created: u64,
    pub model: String,
    pub choices: Vec<Choice>,
    pub content: String,
    pub reasoning_content: Option<String>,
    pub usage: Option<Usage>,
    pub system_fingerprint: Option<String>,
}

/// What a chat response holds.
pub struct ChatResponseView {
    pub id: Seq<char>,
    pub object: Seq<char>,
    pub created: u64,
    pub model: Seq<char>,
    pub choices: Seq<ChoiceView>,
    pub content: Seq<char>,
    pub reasoning_content: Option<Seq<char>>,
    pub usage: Option<UsageView>,
    pub system_fingerprint: Option<Seq<char>>,
}

impl View for Usage {
    type V = UsageView;

    open spec fn view(&self) -> UsageView {
        UsageView {
            prompt_tokens: self.prompt_tokens,
            completion_tokens: self.completion_tokens,
            total_tokens: self.total_tokens,
            completion_tokens_details: opt_json(self.completion_tokens_details),
            prompt_cache_hit_tokens: self.prompt_cache_hit_tokens,
            prompt_cache_miss_tokens: self.prompt_cache_miss_tokens,
            prompt_tokens_details: self.prompt_tokens_details,
        }
    }
}

impl View for Choice {
    type V = ChoiceView;

    open spec fn view(&self) -> ChoiceView {
        ChoiceView {
            index: self.index,
            message: self.message@,
            finish_reason: opt_view(self.finish_reason),
            logprobs: opt_json(self.logprobs),
        }
    }
}

impl View for ChatResponse {
    type V = ChatResponseView;

    open spec fn view(&self) -> ChatResponseView {
        ChatResponseView {
            id: self.id@,
            object: self.object@,
            created: self.created,
            model: self.model@,
            choices: views(self.choices@),
            content: self.content@,
            reasoning_content: opt_view(self.reasoning_content),
            usage: opt_view(self.usage),
            system_fingerprint: opt_view(self.system_fingerprint),
        }
    }
}

} // verus!
