//! Requests of the messages API.

use vstd::prelude::*;
use vstd::string::*;

use crate::anthropic::AnthropicProtocol;
use crate::block::{MessageBlock, MessageBlockView};
use crate::capabilities::ReasoningRequestParts;
use crate::chat::{Binary32, ChatRequest, ChatRequestView};
use crate::error::LlmConnectorError;
use crate::json::{
    json_array, json_bool, json_number, json_object, json_parsed, json_string, json_view,
    json_views, opt_json, opt_str, parsed_view, put, put_if_some, put_text, put_text_if_some,
    single, single_value, with_entry, JsonView,
};
use crate::message::{text_of, Message, MessageView, Role};
use crate::request::{lemma_filter_push, or_empty};
use crate::text::{decimal, decimal_text, join3, opt_view, opt_views, same_text, views};
use crate::tool::{
    opt_bool, AnthropicToolChoice, AnthropicToolChoiceView, AnthropicToolDefinition,
    AnthropicToolDefinitionView, Tool, ToolCall, ToolCallView, ToolChoice, ToolChoiceView,
    ToolView,
};

verus! {

/// How much a model may think.
#[derive(Debug)]
pub struct AnthropicThinking {
    pub thinking_type: String,
    pub budget_tokens: u32,
}

/// A message of a request. Its content is a text or a list of blocks.
#[derive(Debug)]
pub struct AnthropicMessage {
    pub role: String,
    pub content: serde_json::Value,
}

/// A request.
#[derive(Debug)]
pub struct AnthropicRequest {
    pub model: String,
    pub max_tokens: u32,
    pub messages: Vec<AnthropicMessage>,
    pub system: Option<String>,
    pub temperature: Option<Binary32>,
    pub top_p: Option<Binary32>,
    pub stream: Option<bool>,
    pub thinking: Option<AnthropicThinking>,
    pub tools: Option<Vec<AnthropicToolDefinition>>,
    pub tool_choice: Option<AnthropicToolChoice>,
}

/// What a thinking entry holds.
pub struct AnthropicThinkingView {
    pub thinking_type: Seq<char>,
    pub budget_tokens: u32,
}

/// What a message of a request holds.
pub struct AnthropicMessageView {
    pub role: Seq<char>,
    pub content: JsonView,
}

/// What a request holds.
pub struct AnthropicRequestView {
    pub model: Seq<char>,
    pub max_tokens: u32,
    pub messages: Seq<AnthropicMessageView>,
    pub system: Option<Seq<char>>,
    pub temperature: Option<Binary32>,
    pub top_p: Option<Binary32>,
    pub stream: Option<bool>,
    pub thinking: Option<AnthropicThinkingView>,
    pub tools: Option<Seq<AnthropicToolDefinitionView>>,
    pub tool_choice: Option<AnthropicToolChoiceView>,
}

impl View for AnthropicThinking {
    type V = AnthropicThinkingView;

    open spec fn view(&self) -> AnthropicThinkingView {
        AnthropicThinkingView {
            thinking_type: self.thinking_type@,
            budget_tokens: self.budget_tokens,
        }
    }
}

impl View for AnthropicMessage {
    type V = AnthropicMessageView;

    open spec fn view(&self) -> AnthropicMessageView {
        AnthropicMessageView { role: self.role@, content: json_view(self.content) }
    }
}

impl View for AnthropicRequest {
    type V = AnthropicRequestView;

    open spec fn view(&self) -> AnthropicRequestView {
        AnthropicRequestView {
            model: self.model@,
            max_tokens: self.max_tokens,
            messages: views(self.messages@),
            system: opt_view(self.system),
            temperature: self.temperature,
            top_p: self.top_p,
            stream: self.stream,
            thinking: opt_view(self.thinking),
            tools: opt_views(self.tools),
            tool_choice: opt_view(self.tool_choice),
        }
    }
}

/// Whether a message speaks for the system.
pub open spec fn is_system() -> spec_fn(MessageView) -> bool {
    |msg: MessageView| msg.role == Role::System
}

/// Whether a message speaks in the chat.
pub open spec fn is_spoken() -> spec_fn(MessageView) -> bool {
    |msg: MessageView| msg.role != Role::System
}

/// Texts with an empty line between one and the next.
pub open spec fn join_paragraphs(texts: Seq<Seq<char>>) -> Seq<char>
    decreases texts.len(),
{
    if texts.len() == 0 {
        seq![]
    } else if texts.len() == 1 {
        texts[0]
    } else {
        join_paragraphs(texts.drop_last()) + "\n\n"@ + texts.last()
    }
}

/// The texts of the system messages of a chat.
pub open spec fn system_texts(messages: Seq<MessageView>) -> Seq<Seq<char>> {
    messages.filter(is_system()).map_values(|msg: MessageView| text_of(msg.content))
}

/// What the system says in a chat: its messages, as one text.
pub open spec fn system_text(messages: Seq<MessageView>) -> Option<Seq<char>> {
    if system_texts(messages).len() == 0 {
        None
    } else {
        Some(join_paragraphs(system_texts(messages)))
    }
}

/// The blocks of a content as they are sent, one by one.
pub open spec fn block_wires(content: Seq<MessageBlockView>) -> Seq<JsonView> {
    content.map_values(|block: MessageBlockView| block.wire())
}

/// The id of a call: its own, or one made of its position where it has none.
pub open spec fn tool_use_id(index: nat, call: ToolCallView) -> Seq<char> {
    if call.id.len() == 0 {
        "toolu_"@ + decimal(index)
    } else {
        call.id
    }
}

/// The input of a call: its arguments read as JSON, or the raw text where they are not JSON.
pub open spec fn tool_input(
    arguments: Seq<char>,
    parsed: Result<JsonView, Seq<char>>,
) -> JsonView {
    match parsed {
        Ok(tree) => tree,
        Err(_) => single("_raw"@, JsonView::Str(arguments)),
    }
}

/// The block that carries a call, from what became of its arguments when they were read as JSON.
pub open spec fn tool_use(
    index: nat,
    call: ToolCallView,
    parsed: Result<JsonView, Seq<char>>,
) -> JsonView {
    JsonView::Object(
        map![
            "type"@ => JsonView::Str("tool_use"@),
            "id"@ => JsonView::Str(tool_use_id(index, call)),
            "name"@ => JsonView::Str(call.function.name),
            "input"@ => tool_input(call.function.arguments, parsed)
        ],
    )
}

/// The blocks that carry the calls of a message, in their order.
pub open spec fn tool_uses(calls: Option<Seq<ToolCallView>>) -> Seq<JsonView> {
    match calls {
        Some(calls) => Seq::new(
            calls.len(),
            |i: int| tool_use(i as nat, calls[i], json_parsed(calls[i].function.arguments)),
        ),
        None => seq![],
    }
}

/// The block that carries what a tool answers.
pub open spec fn tool_result(tool_use_id: Seq<char>, text: Seq<char>) -> JsonView {
    JsonView::Object(
        map![
            "type"@ => JsonView::Str("tool_result"@),
            "tool_use_id"@ => JsonView::Str(tool_use_id),
            "content"@ => JsonView::Str(text)
        ],
    )
}

/// The content of a message of a request: always a list of blocks. An assistant's calls come after
/// its blocks, and what a tool answers is one block.
pub open spec fn wire_content(msg: MessageView) -> Seq<JsonView> {
    match msg.role {
        Role::Assistant => block_wires(msg.content) + tool_uses(msg.tool_calls),
        Role::Tool => seq![tool_result(or_empty(msg.tool_call_id), text_of(msg.content))],
        _ => block_wires(msg.content),
    }
}

/// The role of a message of a request. What a tool answers comes from the user.
pub open spec fn wire_role(role: Role) -> Seq<char> {
    match role {
        Role::Assistant => "assistant"@,
        _ => "user"@,
    }
}

/// A message of a request.
pub open spec fn wire_message(msg: MessageView) -> AnthropicMessageView {
    AnthropicMessageView {
        role: wire_role(msg.role),
        content: JsonView::Array(wire_content(msg)),
    }
}

/// The messages of a request: those that speak in the chat, in their order.
pub open spec fn wire_messages(messages: Seq<MessageView>) -> Seq<AnthropicMessageView> {
    messages.filter(is_spoken()).map_values(|msg: MessageView| wire_message(msg))
}

/// How many tokens a request asks for where it does not say.
pub open spec fn asked_tokens(max_tokens: Option<u32>) -> u32 {
    match max_tokens {
        Some(n) => n,
        None => 1024,
    }
}

/// How many tokens an answer may take: as many as asked for, or more than the thinking may take
/// where that would use them up.
pub open spec fn token_limit(max_tokens: Option<u32>, thinking_budget: Option<u32>) -> int {
    match thinking_budget {
        Some(budget) if asked_tokens(max_tokens) <= budget => budget + 4096,
        _ => asked_tokens(max_tokens) as int,
    }
}

/// Whether the limit can be written.
pub open spec fn limit_fits(max_tokens: Option<u32>, thinking_budget: Option<u32>) -> bool {
    token_limit(max_tokens, thinking_budget) <= u32::MAX
}

/// A tool in Anthropic's own form.
pub open spec fn anthropic_tool(tool: ToolView) -> AnthropicToolDefinitionView {
    AnthropicToolDefinitionView {
        name: Some(tool.function.name),
        description: tool.function.description,
        input_schema: Some(tool.function.parameters),
        ..AnthropicToolDefinitionView::empty()
    }
}

/// A tool choice in Anthropic's own form. A mode that it does not know leaves the choice open.
pub open spec fn anthropic_choice(choice: ToolChoiceView) -> AnthropicToolChoiceView {
    match choice {
        ToolChoiceView::Mode(mode) => AnthropicToolChoiceView {
            choice_type: if mode == "none"@ {
                "none"@
            } else if mode == "required"@ {
                "any"@
            } else {
                "auto"@
            },
            name: None,
        },
        ToolChoiceView::Function { name, .. } => AnthropicToolChoiceView {
            choice_type: "tool"@,
            name: Some(name),
        },
    }
}

/// The tools of a request: those given in Anthropic's own form, or else the others.
pub open spec fn wire_tools(request: ChatRequestView) -> Option<
    Seq<AnthropicToolDefinitionView>,
> {
    match (request.anthropic_tools, request.tools) {
        (Some(tools), _) => Some(tools),
        (None, Some(tools)) => Some(tools.map_values(|tool: ToolView| anthropic_tool(tool))),
        (None, None) => None,
    }
}

/// The tool choice of a request: the one given in Anthropic's own form, or else the other.
pub open spec fn wire_tool_choice(request: ChatRequestView) -> Option<AnthropicToolChoiceView> {
    match (request.anthropic_tool_choice, request.tool_choice) {
        (Some(choice), _) => Some(choice),
        (None, Some(choice)) => Some(anthropic_choice(choice)),
        (None, None) => None,
    }
}

/// The request that is sent for a chat request, with a given budget for thinking.
pub open spec fn wire_request(
    request: ChatRequestView,
    thinking_budget: Option<u32>,
) -> AnthropicRequestView {
    AnthropicRequestView {
        model: request.model,
        max_tokens: token_limit(request.max_tokens, thinking_budget) as u32,
        messages: wire_messages(request.messages),
        system: system_text(request.messages),
        temperature: request.temperature,
        top_p: request.top_p,
        stream: request.stream,
        thinking: match thinking_budget {
            Some(budget) => Some(
                AnthropicThinkingView { thinking_type: "enabled"@, budget_tokens: budget },
            ),
            None => None,
        },
        tools: wire_tools(request),
        tool_choice: wire_tool_choice(request),
    }
}

/// Puts a tool choice into Anthropic's own form.
pub fn map_tool_choice_to_anthropic(tool_choice: &ToolChoice) -> (choice: Option<
    AnthropicToolChoice,
>)
    ensures
        opt_view(choice) == Some(anthropic_choice(tool_choice@)),
{
    match tool_choice {
        ToolChoice::Mode(mode) => if same_text(mode.as_str(), "none") {
            Some(AnthropicToolChoice::none())
        } else if same_text(mode.as_str(), "required") {
            Some(AnthropicToolChoice::any())
        } else {
            Some(AnthropicToolChoice::auto())
        },
        ToolChoice::Function { function, .. } => Some(
            AnthropicToolChoice::tool(function.name.as_str()),
        ),
    }
}

/// Puts a tool into Anthropic's own form.
pub fn map_generic_tool_to_anthropic(tool: &Tool) -> (definition: AnthropicToolDefinition)
    ensures
        definition@ == anthropic_tool(tool@),
{
    let mut definition = AnthropicToolDefinition::default();
    definition.name = Some(tool.function.name.clone());
    definition.description = tool.function.description.clone();
    definition.input_schema = Some(tool.function.parameters.clone());
    definition
}

fn map_generic_tools_to_anthropic(tools: &Vec<Tool>) -> (definitions: Vec<AnthropicToolDefinition>)
    ensures
        views(definitions@) == views(tools@).map_values(|tool: ToolView| anthropic_tool(tool)),
{
    let mut definitions: Vec<AnthropicToolDefinition> = Vec::new();
    let mut i: usize = 0;
    while i < tools.len()
        invariant
            i <= tools@.len(),
            definitions@.len() == i,
            forall|j: int|
                0 <= j < i ==> (#[trigger] definitions@[j])@ == anthropic_tool(tools@[j]@),
        decreases tools@.len() - i,
    {
        definitions.push(map_generic_tool_to_anthropic(&tools[i]));
        i += 1;
    }
    assert(views(definitions@) =~= views(tools@).map_values(|tool: ToolView| anthropic_tool(tool)));
    definitions
}

/// Makes the block that carries a call, from what became of its arguments when they were read as
/// JSON.
pub fn tool_use_value(
    index: usize,
    tool_call: &ToolCall,
    parsed: Result<serde_json::Value, String>,
) -> (value: serde_json::Value)
    ensures
        json_view(value) == tool_use(index as nat, tool_call@, parsed_view(parsed)),
{
    let tool_id = if tool_call.id.as_str().is_empty() {
        "toolu_".to_owned().concat(decimal_text(index as u64).as_str())
    } else {
        tool_call.id.clone()
    };
    let input = match parsed {
        Ok(value) => value,
        Err(_) => single_value("_raw", json_string(tool_call.function.arguments.clone())),
    };
    let mut map = serde_json::Map::new();
    put_text(&mut map, "type", "tool_use");
    put_text(&mut map, "id", tool_id.as_str());
    put_text(&mut map, "name", tool_call.function.name.as_str());
    put(&mut map, "input", input);
    json_object(map)
}

fn block_values(content: &Vec<MessageBlock>) -> (values: Vec<serde_json::Value>)
    ensures
        json_views(values@) == block_wires(views(content@)),
{
    let mut values: Vec<serde_json::Value> = Vec::new();
    let mut i: usize = 0;
    while i < content.len()
        invariant
            i <= content@.len(),
            values@.len() == i,
            forall|j: int| 0 <= j < i ==> json_view(#[trigger] values@[j]) == content@[j]@.wire(),
        decreases content@.len() - i,
    {
        values.push(content[i].to_value());
        i += 1;
    }
    assert(json_views(values@) =~= block_wires(views(content@)));
    values
}

/// The content of an assistant message: its blocks, then its calls.
fn assistant_values(msg: &Message) -> (values: Vec<serde_json::Value>)
    ensures
        json_views(values@) == block_wires(msg@.content) + tool_uses(msg@.tool_calls),
{
    let mut values = block_values(&msg.content);
    let ghost blocks = json_views(values@);
    match &msg.tool_calls {
        Some(calls) => {
            let mut index: usize = 0;
            assert(json_views(values@) =~= blocks + tool_uses(msg@.tool_calls).take(0));
            while index < calls.len()
                invariant
                    index <= calls@.len(),
                    msg@.tool_calls == Some(views(calls@)),
                    json_views(values@) == blocks + tool_uses(msg@.tool_calls).take(index as int),
                decreases calls@.len() - index,
            {
                let ghost before = values@;
                let ghost uses = tool_uses(msg@.tool_calls);
                let tool_call = &calls[index];
                let value = tool_use_value(index, tool_call, tool_call.arguments_value());
                proof {
                    assert(json_view(value) == uses[index as int]);
                    assert(uses.take(index + 1) =~= uses.take(index as int).push(
                        json_view(value),
                    ));
                }
                values.push(value);
                assert(json_views(values@) =~= json_views(before).push(json_view(value)));
                assert(json_views(before).push(json_view(value)) =~= blocks + uses.take(
                    index + 1,
                ));
                index += 1;
            }
            assert(tool_uses(msg@.tool_calls).take(index as int) =~= tool_uses(msg@.tool_calls));
        },
        None => {
            assert(blocks =~= blocks + tool_uses(msg@.tool_calls));
        },
    }
    values
}

/// The content of what a tool answers: one block.
fn tool_result_values(msg: &Message) -> (values: Vec<serde_json::Value>)
    ensures
        json_views(values@) == seq![
            tool_result(or_empty(msg@.tool_call_id), text_of(msg@.content)),
        ],
{
    let tool_use_id = match &msg.tool_call_id {
        Some(id) => id.clone(),
        None => String::new(),
    };
    let text = msg.content_as_text();
    let mut map = serde_json::Map::new();
    put_text(&mut map, "type", "tool_result");
    put_text(&mut map, "tool_use_id", tool_use_id.as_str());
    put_text(&mut map, "content", text.as_str());
    let mut values: Vec<serde_json::Value> = Vec::new();
    values.push(json_object(map));
    assert(or_empty(msg@.tool_call_id) =~= tool_use_id@);
    assert(json_views(values@) =~= seq![
        tool_result(or_empty(msg@.tool_call_id), text_of(msg@.content)),
    ]);
    values
}

/// Makes the message of a request for a message that speaks in the chat.
fn message_value(msg: &Message) -> (message: AnthropicMessage)
    requires
        msg@.role != Role::System,
    ensures
        message@ == wire_message(msg@),
{
    let role = match msg.role {
        Role::Assistant => "assistant",
        _ => "user",
    };
    let values = match msg.role {
        Role::Assistant => assistant_values(msg),
        Role::Tool => tool_result_values(msg),
        _ => block_values(&msg.content),
    };
    AnthropicMessage { role: role.to_owned(), content: json_array(values) }
}

/// Splits a chat into what the system says and what is spoken.
fn split_system(messages: &Vec<Message>) -> (parts: (Option<String>, Vec<AnthropicMessage>))
    ensures
        opt_view(parts.0) == system_text(views(messages@)),
        views(parts.1@) == wire_messages(views(messages@)),
{
    let mut system_message: Option<String> = None;
    let mut spoken: Vec<AnthropicMessage> = Vec::new();
    let ghost model = views(messages@);
    let mut i: usize = 0;
    proof {
        reveal(Seq::filter);
        assert(system_texts(model.take(0)) =~= seq![]);
        assert(wire_messages(model.take(0)) =~= seq![]);
        assert(views(spoken@) =~= seq![]);
    }
    while i < messages.len()
        invariant
            i <= messages@.len(),
            model == views(messages@),
            opt_view(system_message) == system_text(model.take(i as int)),
            views(spoken@) == wire_messages(model.take(i as int)),
        decreases messages@.len() - i,
    {
        let msg = &messages[i];
        let ghost before = model.take(i as int);
        let ghost spoken_before = spoken@;
        proof {
            assert(model.take(i + 1) =~= before.push(msg@));
            lemma_filter_push(before, msg@, is_system());
            lemma_filter_push(before, msg@, is_spoken());
        }
        match msg.role {
            Role::System => {
                let text = msg.content_as_text();
                proof {
                    let texts = system_texts(before);
                    assert(system_texts(model.take(i + 1)) =~= texts.push(text@));
                    assert(texts.push(text@).drop_last() =~= texts);
                }
                system_message = match system_message {
                    None => Some(text),
                    Some(existing) => Some(join3(existing.as_str(), "\n\n", text.as_str())),
                };
            },
            _ => {
                let message = message_value(msg);
                spoken.push(message);
                proof {
                    assert(views(spoken@) =~= views(spoken_before).push(message@));
                    assert(wire_messages(model.take(i + 1)) =~= wire_messages(before).push(
                        message@,
                    ));
                }
            },
        }
        i += 1;
    }
    assert(model.take(i as int) =~= model);
    (system_message, spoken)
}

impl AnthropicProtocol {
    /// Builds the request that is sent for a chat request. How much the model may think comes from
    /// `map_reasoning`, which is asked with the chat request.
    pub fn build_request<R>(&self, request: &ChatRequest, map_reasoning: R) -> (outcome: Result<
        AnthropicRequest,
        LlmConnectorError,
    >) where R: Fn(&ChatRequest) -> ReasoningRequestParts
        requires
            call_requires(map_reasoning, (request,)),
            forall|parts: ReasoningRequestParts|
                #[trigger] call_ensures(map_reasoning, (request,), parts) ==> limit_fits(
                    request.max_tokens,
                    parts.thinking_budget,
                ),
        ensures
            exists|parts: ReasoningRequestParts|
                #[trigger] call_ensures(map_reasoning, (request,), parts) && (outcome matches Ok(
                    built,
                ) && built@ == wire_request(request@, parts.thinking_budget)),
    {
        let reasoning_parts = map_reasoning(request);
        self.build_request_with_reasoning(request, reasoning_parts)
    }

    /// Builds the request that is sent for a chat request, given what it says about reasoning.
    pub fn build_request_with_reasoning(
        &self,
        request: &ChatRequest,
        reasoning_parts: ReasoningRequestParts,
    ) -> (outcome: Result<AnthropicRequest, LlmConnectorError>)
        requires
            limit_fits(request.max_tokens, reasoning_parts.thinking_budget),
        ensures
            outcome matches Ok(built) && built@ == wire_request(
                request@,
                reasoning_parts.thinking_budget,
            ),
    {
        let (system, messages) = split_system(&request.messages);
        let mut max_tokens = request.max_tokens.unwrap_or(1024);
        let thinking = match reasoning_parts.thinking_budget {
            Some(budget) => {
                if max_tokens <= budget {
                    max_tokens = budget + 4096;
                }
                Some(
                    AnthropicThinking {
                        thinking_type: "enabled".to_owned(),
                        budget_tokens: budget,
                    },
                )
            },
            None => None,
        };
        let tools = match &request.anthropic_tools {
            Some(tools) => {
                let copies = tools.clone();
                assert(views(copies@) =~= views(tools@));
                Some(copies)
            },
            None => match &request.tools {
                Some(tools) => Some(map_generic_tools_to_anthropic(tools)),
                None => None,
            },
        };
        let tool_choice = match &request.anthropic_tool_choice {
            Some(choice) => Some(choice.clone()),
            None => match &request.tool_choice {
                Some(choice) => map_tool_choice_to_anthropic(choice),
                None => None,
            },
        };
        Ok(
            AnthropicRequest {
                model: request.model.clone(),
                max_tokens,
                messages,
                system,
                temperature: request.temperature,
                top_p: request.top_p,
                stream: request.stream,
                thinking,
                tools,
                tool_choice,
            },
        )
    }
}

impl AnthropicThinkingView {
    /// The JSON object that carries a thinking entry.
    pub open spec fn wire(self) -> JsonView {
        JsonView::Object(
            map![
                "type"@ => JsonView::Str(self.thinking_type),
                "budget_tokens"@ => JsonView::Number(decimal(self.budget_tokens as nat))
            ],
        )
    }
}

impl AnthropicMessageView {
    /// The JSON object that carries a message.
    pub open spec fn wire(self) -> JsonView {
        JsonView::Object(
            map!["role"@ => JsonView::Str(self.role), "content"@ => self.content],
        )
    }
}

/// An optional thinking entry as an optional tree.
pub open spec fn opt_thinking(thinking: Option<AnthropicThinkingView>) -> Option<JsonView> {
    match thinking {
        Some(thinking) => Some(thinking.wire()),
        None => None,
    }
}

/// Optional tools as an optional tree.
pub open spec fn opt_tools(tools: Option<Seq<AnthropicToolDefinitionView>>) -> Option<JsonView> {
    match tools {
        Some(tools) => Some(
            JsonView::Array(tools.map_values(|tool: AnthropicToolDefinitionView| tool.wire())),
        ),
        None => None,
    }
}

/// An optional tool choice as an optional tree.
pub open spec fn opt_choice(choice: Option<AnthropicToolChoiceView>) -> Option<JsonView> {
    match choice {
        Some(choice) => Some(choice.wire()),
        None => None,
    }
}

impl AnthropicRequestView {
    /// The JSON object that carries a request. An entry that the request has no value for is left
    /// out. The two sampling numbers are given as JSON.
    pub open spec fn wire(self, temperature: Option<JsonView>, top_p: Option<JsonView>) -> JsonView {
        let entries = map![
            "model"@ => JsonView::Str(self.model),
            "max_tokens"@ => JsonView::Number(decimal(self.max_tokens as nat)),
            "messages"@ => JsonView::Array(
                self.messages.map_values(|message: AnthropicMessageView| message.wire()),
            )
        ];
        let entries = with_entry(entries, "system"@, opt_str(self.system));
        let entries = with_entry(entries, "temperature"@, temperature);
        let entries = with_entry(entries, "top_p"@, top_p);
        let entries = with_entry(entries, "stream"@, opt_bool(self.stream));
        let entries = with_entry(entries, "thinking"@, opt_thinking(self.thinking));
        let entries = with_entry(entries, "tools"@, opt_tools(self.tools));
        JsonView::Object(with_entry(entries, "tool_choice"@, opt_choice(self.tool_choice)))
    }
}

impl AnthropicThinking {
    /// The JSON object that carries the thinking entry.
    pub fn to_value(&self) -> (value: serde_json::Value)
        ensures
            json_view(value) == self@.wire(),
    {
        let mut map = serde_json::Map::new();
        put_text(&mut map, "type", self.thinking_type.as_str());
        put(&mut map, "budget_tokens", json_number(self.budget_tokens as u64));
        json_object(map)
    }
}

impl AnthropicMessage {
    /// The JSON object that carries the message.
    pub fn to_value(&self) -> (value: serde_json::Value)
        ensures
            json_view(value) == self@.wire(),
    {
        let mut map = serde_json::Map::new();
        put_text(&mut map, "role", self.role.as_str());
        put(&mut map, "content", self.content.clone());
        json_object(map)
    }
}

fn message_values(messages: &Vec<AnthropicMessage>) -> (value: serde_json::Value)
    ensures
        json_view(value) == JsonView::Array(
            views(messages@).map_values(|message: AnthropicMessageView| message.wire()),
        ),
{
    let mut values: Vec<serde_json::Value> = Vec::new();
    let mut i: usize = 0;
    while i < messages.len()
        invariant
            i <= messages@.len(),
            values@.len() == i,
            forall|j: int| 0 <= j < i ==> json_view(#[trigger] values@[j]) == messages@[j]@.wire(),
        decreases messages@.len() - i,
    {
        values.push(messages[i].to_value());
        i += 1;
    }
    assert(json_views(values@) =~= views(messages@).map_values(
        |message: AnthropicMessageView| message.wire(),
    ));
    json_array(values)
}

fn tool_values(tools: &Vec<AnthropicToolDefinition>) -> (value: serde_json::Value)
    ensures
        Some(json_view(value)) == opt_tools(Some(views(tools@))),
{
    let mut values: Vec<serde_json::Value> = Vec::new();
    let mut i: usize = 0;
    while i < tools.len()
        invariant
            i <= tools@.len(),
            values@.len() == i,
            forall|j: int| 0 <= j < i ==> json_view(#[trigger] values@[j]) == tools@[j]@.wire(),
        decreases tools@.len() - i,
    {
        values.push(tools[i].to_value());
        i += 1;
    }
    assert(json_views(values@) =~= views(tools@).map_values(
        |tool: AnthropicToolDefinitionView| tool.wire(),
    ));
    json_array(values)
}

impl AnthropicRequest {
    /// The JSON object that is sent. The caller gives the two sampling numbers as JSON, each where
    /// the request has it.
    pub fn to_value(
        &self,
        temperature: Option<serde_json::Value>,
        top_p: Option<serde_json::Value>,
    ) -> (value: serde_json::Value)
        requires
            temperature is Some <==> self.temperature is Some,
            top_p is Some <==> self.top_p is Some,
        ensures
            json_view(value) == self@.wire(opt_json(temperature), opt_json(top_p)),
    {
        let mut map = serde_json::Map::new();
        put_text(&mut map, "model", self.model.as_str());
        put(&mut map, "max_tokens", json_number(self.max_tokens as u64));
        put(&mut map, "messages", message_values(&self.messages));
        put_text_if_some(&mut map, "system", &self.system);
        put_if_some(&mut map, "temperature", temperature);
        put_if_some(&mut map, "top_p", top_p);
        match self.stream {
            Some(stream) => put(&mut map, "stream", json_bool(stream)),
            None => {},
        }
        match &self.thinking {
            Some(thinking) => put(&mut map, "thinking", thinking.to_value()),
            None => {},
        }
        match &self.tools {
            Some(tools) => put(&mut map, "tools", tool_values(tools)),
            None => {},
        }
        match &self.tool_choice {
            Some(choice) => put(&mut map, "tool_choice", choice.to_value()),
            None => {},
        }
        json_object(map)
    }
}

} // verus!
