//! What the operations of the Anthropic protocol do, stated of the operations themselves: of what
//! goes into them and what comes out.

use vstd::prelude::*;

use crate::anthropic::laws::{is_said, request_entries_are_found};
use crate::anthropic::request::{
    anthropic_choice, is_spoken, is_system, map_generic_tool_to_anthropic,
    map_tool_choice_to_anthropic, system_text, system_texts, tool_use_value, wire_message,
    AnthropicRequest,
};
use crate::anthropic::response::{
    inputs_read_back, is_call, lemma_message_blocks_push, make_tool_call, message_block,
    message_blocks, parsed_response, response_view, thinking_of, tool_calls, AnthropicContent,
    AnthropicContentView, AnthropicResponse,
};
use crate::anthropic::stream::StreamStep;
use crate::anthropic::AnthropicProtocol;
use crate::auth::header_views;
use crate::block::MessageBlock;
use crate::capabilities::ReasoningRequestParts;
use crate::chat::{ChatRequest, ChatResponse};
use crate::clock::{can_show, counted};
use crate::conversion_laws::lemma_views_filter;
use crate::error::LlmConnectorError;
use crate::json::{json_field, json_parsed, json_text, json_view, map_view, opt_json, JsonView};
use crate::message::{text_of, Message, Role};
use crate::model_laws::{
    carries_block, carries_definition, holds_flag, holds_text, holds_value, lemma_block_is_carried,
    lemma_definition_is_carried, lemma_said, lemma_stands_in, said, stands_in,
};
use crate::request::lemma_filter_push;
use crate::text::{decimal, ends_in, opt_view, views, without_trailing};
use crate::tool::{
    AnthropicToolChoice, AnthropicToolDefinition, Tool, ToolCall, ToolChoice,
};

verus! {

// Requests.

/// Whether a message is the user's, the assistant's or a tool's.
pub open spec fn is_in_the_chat() -> spec_fn(Message) -> bool {
    |msg: Message| msg.role == Role::User || msg.role == Role::Assistant || msg.role == Role::Tool
}

/// What the system says in some messages, with an empty line between one and the next.
pub open spec fn system_said(messages: Seq<Message>) -> Option<Seq<char>>
    decreases messages.len(),
{
    if messages.len() == 0 {
        None
    } else {
        let before = system_said(messages.drop_last());
        if messages.last().role == Role::System {
            match before {
                Some(text) => Some(text + "\n\n"@ + said(messages.last().content@)),
                None => Some(said(messages.last().content@)),
            }
        } else {
            before
        }
    }
}

/// Whether a tree carries the call at a position: its own id, or one made of the position where it
/// has none, its name, and its arguments as the JSON that they are, or as a raw text where they are
/// no JSON.
pub open spec fn carries_use(call: ToolCall, position: nat, sent: JsonView) -> bool {
    sent == JsonView::Object(
        map![
            "type"@ => JsonView::Str("tool_use"@),
            "id"@ => JsonView::Str(
                if call.id@.len() == 0 {
                    "toolu_"@ + decimal(position)
                } else {
                    call.id@
                },
            ),
            "name"@ => JsonView::Str(call.function.name@),
            "input"@ => (match json_parsed(call.function.arguments@) {
                Ok(tree) => tree,
                Err(_) => JsonView::Object(
                    map!["_raw"@ => JsonView::Str(call.function.arguments@)],
                ),
            })
        ],
    )
}

/// The calls of a message.
pub open spec fn calls_of(msg: Message) -> Seq<ToolCall> {
    match msg.tool_calls {
        Some(calls) => calls@,
        None => seq![],
    }
}

/// Whether a role and some blocks carry a message of the chat. The user's message is all of its
/// blocks. The assistant's is all of its blocks and then all of its calls. A tool's comes from the
/// user and is one block, which names the call that it answers and holds what its texts say, as a
/// text whatever it says.
pub open spec fn carries_message(msg: Message, role: Seq<char>, items: Seq<JsonView>) -> bool {
    match msg.role {
        Role::User => {
            &&& role == "user"@
            &&& items.len() == msg.content@.len()
            &&& forall|j: int|
                0 <= j < items.len() ==> carries_block(msg.content@[j], #[trigger] items[j])
        },
        Role::Assistant => {
            let n = msg.content@.len();
            &&& role == "assistant"@
            &&& items.len() == n + calls_of(msg).len()
            &&& forall|j: int|
                0 <= j < n ==> carries_block(msg.content@[j], #[trigger] items[j])
            &&& forall|j: int|
                n <= j < items.len() ==> carries_use(
                    calls_of(msg)[j - n],
                    (j - n) as nat,
                    #[trigger] items[j],
                )
        },
        Role::Tool => {
            &&& role == "user"@
            &&& items.len() == 1
            &&& items[0] == JsonView::Object(
                map![
                    "type"@ => JsonView::Str("tool_result"@),
                    "tool_use_id"@ => JsonView::Str(
                        match msg.tool_call_id {
                            Some(id) => id@,
                            None => seq![],
                        },
                    ),
                    "content"@ => JsonView::Str(said(msg.content@))
                ],
            )
        },
        Role::System => false,
    }
}

proof fn lemma_message_is_carried(msg: Message)
    requires
        msg.role != Role::System,
    ensures
        wire_message(msg@).content matches JsonView::Array(items) && carries_message(
            msg,
            wire_message(msg@).role,
            items,
        ),
{
    let items = wire_message(msg@).content->Array_0;
    let n = msg.content@.len();
    lemma_said(msg.content@);
    assert(views(msg.content@).len() == n);
    if msg.role != Role::Tool {
        assert forall|j: int| 0 <= j < n implies carries_block(
            msg.content@[j],
            #[trigger] items[j],
        ) by {
            lemma_block_is_carried(msg.content@[j]);
            assert(views(msg.content@)[j] == msg.content@[j]@);
        }
    }
    if msg.role == Role::Assistant {
        match msg.tool_calls {
            Some(calls) => {
                assert(views(calls@).len() == calls@.len());
                assert forall|j: int| n <= j < items.len() implies carries_use(
                    calls@[j - n],
                    (j - n) as nat,
                    #[trigger] items[j],
                ) by {
                    assert(views(calls@)[j - n] == calls@[j - n]@);
                }
            },
            None => {},
        }
    }
}

/// The messages of a request are those of the chat that are not the system's, all of them and in
/// their order, and each carries what its message says.
pub proof fn built_requests_carry_the_chat(
    protocol: &AnthropicProtocol,
    request: &ChatRequest,
    parts: ReasoningRequestParts,
    outcome: Result<AnthropicRequest, LlmConnectorError>,
    k: int,
)
    requires
        call_ensures(
            AnthropicProtocol::build_request_with_reasoning,
            (protocol, request, parts),
            outcome,
        ),
    ensures
        outcome is Ok,
        ({
            let sent = outcome->Ok_0.messages@;
            let chat = request.messages@.filter(is_in_the_chat());
            &&& sent.len() == chat.len()
            &&& 0 <= k < chat.len() ==> (json_view(sent[k].content) matches JsonView::Array(items)
                && carries_message(chat[k], sent[k].role@, items))
        }),
{
    let sent = outcome->Ok_0.messages@;
    let chat = request.messages@.filter(is_in_the_chat());
    lemma_views_filter(request.messages@, is_in_the_chat(), is_spoken());
    assert(views(chat).len() == chat.len());
    assert(views(sent).len() == sent.len());
    if 0 <= k < chat.len() {
        request.messages@.lemma_filter_pred(is_in_the_chat(), k);
        lemma_message_is_carried(chat[k]);
        assert(views(chat)[k] == chat[k]@);
        assert(views(sent)[k] == sent[k]@);
    }
}

/// What a tool answers is sent as one block from the user, which holds the id of the call and, as
/// a text, what the tool's texts say, whatever that text is.
pub proof fn tool_answers_are_sent_as_text(
    protocol: &AnthropicProtocol,
    request: &ChatRequest,
    parts: ReasoningRequestParts,
    outcome: Result<AnthropicRequest, LlmConnectorError>,
    k: int,
)
    requires
        call_ensures(
            AnthropicProtocol::build_request_with_reasoning,
            (protocol, request, parts),
            outcome,
        ),
        0 <= k < request.messages@.filter(is_in_the_chat()).len(),
        request.messages@.filter(is_in_the_chat())[k].role == Role::Tool,
    ensures
        ({
            let msg = request.messages@.filter(is_in_the_chat())[k];
            let sent = outcome->Ok_0.messages@[k];
            &&& sent.role@ == "user"@
            &&& json_view(sent.content) matches JsonView::Array(items) && items.len() == 1
                && json_field(items[0], "type"@) == Some(JsonView::Str("tool_result"@))
                && json_field(items[0], "content"@) == Some(JsonView::Str(said(msg.content@)))
                && (msg.tool_call_id matches Some(id) ==> json_field(items[0], "tool_use_id"@)
                == Some(JsonView::Str(id@)))
        }),
{
    built_requests_carry_the_chat(protocol, request, parts, outcome, k);
    reveal_strlit("type");
    reveal_strlit("content");
    reveal_strlit("tool_use_id");
    assert("type"@.len() == 4);
    assert("content"@.len() == 7);
    assert("tool_use_id"@.len() == 11);
}

proof fn lemma_system_said(messages: Seq<Message>)
    ensures
        system_text(views(messages)) == system_said(messages),
    decreases messages.len(),
{
    if messages.len() == 0 {
        reveal(Seq::filter);
        assert(system_texts(views(messages)) =~= seq![]);
    } else {
        let (rest, last) = (messages.drop_last(), messages.last());
        lemma_system_said(rest);
        lemma_said(last.content@);
        lemma_filter_push(views(rest), last@, is_system());
        assert(views(rest).push(last@) =~= views(messages));
        let texts = system_texts(views(rest));
        if last.role == Role::System {
            let longer = texts.push(text_of(last@.content));
            assert(system_texts(views(messages)) =~= longer);
            assert(longer.drop_last() =~= texts);
        } else {
            assert(system_texts(views(messages)) =~= texts);
        }
    }
}

/// A request carries the model, the sampling numbers and the streaming flag of the chat request,
/// and what its system messages say.
pub proof fn built_requests_carry_the_settings(
    protocol: &AnthropicProtocol,
    request: &ChatRequest,
    parts: ReasoningRequestParts,
    outcome: Result<AnthropicRequest, LlmConnectorError>,
)
    requires
        call_ensures(
            AnthropicProtocol::build_request_with_reasoning,
            (protocol, request, parts),
            outcome,
        ),
    ensures
        outcome matches Ok(built) && {
            &&& built.model@ == request.model@
            &&& built.temperature == request.temperature
            &&& built.top_p == request.top_p
            &&& built.stream == request.stream
            &&& match (built.system, system_said(request.messages@)) {
                (Some(text), Some(expected)) => text@ == expected,
                (None, None) => true,
                _ => false,
            }
        },
{
    lemma_system_said(request.messages@);
}

/// How many tokens a request asks for: 1024 where it does not say.
pub open spec fn tokens_asked(request: ChatRequest) -> int {
    match request.max_tokens {
        Some(n) => n as int,
        None => 1024,
    }
}

/// Whether the limit on tokens can be written: 4096 more than the thinking may take, where the
/// thinking would use up the tokens asked for.
pub open spec fn limit_can_be_written(request: ChatRequest, parts: ReasoningRequestParts) -> bool {
    match parts.thinking_budget {
        Some(budget) => tokens_asked(request) <= budget ==> budget + 4096 <= u32::MAX,
        None => true,
    }
}

/// Every chat request whose limit can be written can be built, and every response whose tokens can
/// be counted together can be parsed.
pub proof fn requests_and_responses_are_taken(
    protocol: &AnthropicProtocol,
    request: &ChatRequest,
    parts: ReasoningRequestParts,
    decoded: Result<AnthropicResponse, String>,
    created: u64,
)
    ensures
        limit_can_be_written(*request, parts) ==> call_requires(
            AnthropicProtocol::build_request_with_reasoning,
            (protocol, request, parts),
        ),
        (decoded matches Ok(response) ==> response.usage.input_tokens + response.usage.output_tokens
            <= u32::MAX) ==> call_requires(
            AnthropicProtocol::parse_response_at,
            (protocol, decoded, created),
        ),
{
}

/// A request asks for as many tokens as the chat request, or 1024 where it does not say, and for
/// 4096 more than the thinking may take where the thinking would use them up. The budget is sent
/// where there is one.
pub proof fn built_requests_leave_room_for_thinking(
    protocol: &AnthropicProtocol,
    request: &ChatRequest,
    parts: ReasoningRequestParts,
    outcome: Result<AnthropicRequest, LlmConnectorError>,
)
    requires
        call_ensures(
            AnthropicProtocol::build_request_with_reasoning,
            (protocol, request, parts),
            outcome,
        ),
        limit_can_be_written(*request, parts),
    ensures
        ({
            let asked = tokens_asked(*request);
            outcome matches Ok(built) && match parts.thinking_budget {
                Some(budget) => {
                    &&& built.max_tokens as int == (if asked <= budget {
                        budget + 4096
                    } else {
                        asked
                    })
                    &&& built.thinking matches Some(thinking) && thinking.thinking_type@
                        == "enabled"@ && thinking.budget_tokens == budget
                },
                None => built.max_tokens as int == asked && built.thinking is None,
            }
        }),
{
}

/// Tools in Anthropic's own form are all sent as they are. Else the others are all sent, each with
/// its name, its description and its parameters, and with nothing else.
pub proof fn built_requests_carry_the_tools(
    protocol: &AnthropicProtocol,
    request: &ChatRequest,
    parts: ReasoningRequestParts,
    outcome: Result<AnthropicRequest, LlmConnectorError>,
    i: int,
)
    requires
        call_ensures(
            AnthropicProtocol::build_request_with_reasoning,
            (protocol, request, parts),
            outcome,
        ),
    ensures
        outcome is Ok,
        match (request.anthropic_tools, request.tools, outcome->Ok_0.tools) {
            (Some(own), _, Some(sent)) => sent@.len() == own@.len() && (0 <= i < own@.len()
                ==> sent@[i]@ == own@[i]@),
            (None, Some(tools), Some(sent)) => sent@.len() == tools@.len() && (0 <= i < tools@.len()
                ==> offers(tools@[i], sent@[i])),
            (None, None, None) => true,
            _ => false,
        },
{
    match (request.anthropic_tools, request.tools, outcome->Ok_0.tools) {
        (Some(own), _, Some(sent)) => {
            assert(views(sent@).len() == sent@.len());
            assert(views(own@).len() == own@.len());
            if 0 <= i < own@.len() {
                assert(views(sent@)[i] == sent@[i]@);
                assert(views(own@)[i] == own@[i]@);
            }
        },
        (None, Some(tools), Some(sent)) => {
            assert(views(sent@).len() == sent@.len());
            assert(views(tools@).len() == tools@.len());
            if 0 <= i < tools@.len() {
                assert(views(sent@)[i] == sent@[i]@);
                assert(views(tools@)[i] == tools@[i]@);
            }
        },
        _ => {},
    }
}

/// Whether a definition offers a tool: it has its name, its description and its parameters, and
/// nothing else.
pub open spec fn offers(tool: Tool, definition: AnthropicToolDefinition) -> bool {
    &&& definition.name matches Some(name) && name@ == tool.function.name@
    &&& match (definition.description, tool.function.description) {
        (Some(a), Some(b)) => a@ == b@,
        (None, None) => true,
        _ => false,
    }
    &&& definition.input_schema matches Some(schema) && json_view(schema) == json_view(
        tool.function.parameters,
    )
    &&& definition.tool_type is None
    &&& definition.custom_input_schema is None
    &&& definition.input_examples is None
    &&& definition.strict is None
    &&& definition.allowed_callers is None
    &&& definition.defer_loading is None
    &&& definition.cache_control is None
    &&& definition.eager_input_streaming is None
    &&& forall|key: Seq<char>| !#[trigger] map_view(definition.extra).contains_key(key)
}

/// A tool is offered by the definition that it is mapped to.
pub proof fn mapped_tools_are_offered(tool: &Tool, definition: AnthropicToolDefinition)
    requires
        call_ensures(map_generic_tool_to_anthropic, (tool,), definition),
    ensures
        offers(*tool, definition),
{
}

/// Whether a choice in Anthropic's own form means a choice: `none` means that, `required` means
/// `any`, a function means that tool, and every other mode means `auto`.
pub open spec fn means(choice: ToolChoice, mapped: AnthropicToolChoice) -> bool {
    match choice {
        ToolChoice::Mode(mode) => {
            &&& mapped.name is None
            &&& mode@ == "none"@ ==> mapped.choice_type@ == "none"@
            &&& mode@ == "required"@ ==> mapped.choice_type@ == "any"@
            &&& mode@ != "none"@ && mode@ != "required"@ ==> mapped.choice_type@ == "auto"@
        },
        ToolChoice::Function { function, .. } => {
            &&& mapped.choice_type@ == "tool"@
            &&& mapped.name matches Some(name) && name@ == function.name@
        },
    }
}

proof fn lemma_means(choice: ToolChoice, mapped: AnthropicToolChoice)
    requires
        mapped@ == anthropic_choice(choice@),
    ensures
        means(choice, mapped),
{
    reveal_strlit("none");
    reveal_strlit("required");
    assert("none"@.len() != "required"@.len());
}

/// A choice always has its meaning in Anthropic's own form.
pub proof fn mapped_choices_mean_the_same(
    choice: &ToolChoice,
    mapped: Option<AnthropicToolChoice>,
)
    requires
        call_ensures(map_tool_choice_to_anthropic, (choice,), mapped),
    ensures
        mapped matches Some(found) && means(*choice, found),
{
    lemma_means(*choice, mapped->0);
}

/// A tool choice in Anthropic's own form is sent as it is, and else the other one by its meaning.
pub proof fn built_requests_carry_the_tool_choice(
    protocol: &AnthropicProtocol,
    request: &ChatRequest,
    parts: ReasoningRequestParts,
    outcome: Result<AnthropicRequest, LlmConnectorError>,
)
    requires
        call_ensures(
            AnthropicProtocol::build_request_with_reasoning,
            (protocol, request, parts),
            outcome,
        ),
    ensures
        outcome is Ok,
        match (request.anthropic_tool_choice, request.tool_choice, outcome->Ok_0.tool_choice) {
            (Some(own), _, Some(sent)) => sent.choice_type@ == own.choice_type@ && opt_view(
                sent.name,
            ) == opt_view(own.name),
            (None, Some(choice), Some(sent)) => means(choice, sent),
            (None, None, None) => true,
            _ => false,
        },
{
    match (request.anthropic_tool_choice, request.tool_choice, outcome->Ok_0.tool_choice) {
        (None, Some(choice), Some(sent)) => {
            lemma_means(choice, sent);
        },
        _ => {},
    }
}

/// A request is built with what the given function says about its reasoning.
pub proof fn requests_are_built_with_their_reasoning<R>(
    protocol: &AnthropicProtocol,
    request: &ChatRequest,
    map_reasoning: R,
    outcome: Result<AnthropicRequest, LlmConnectorError>,
) where R: Fn(&ChatRequest) -> ReasoningRequestParts
    requires
        call_ensures(
            AnthropicProtocol::build_request::<R>,
            (protocol, request, map_reasoning),
            outcome,
        ),
    ensures
        exists|parts: ReasoningRequestParts| #[trigger]
            call_ensures(map_reasoning, (request,), parts) && forall|
                other: Result<AnthropicRequest, LlmConnectorError>,
            | #[trigger]
                call_ensures(
                    AnthropicProtocol::build_request_with_reasoning,
                    (protocol, request, parts),
                    other,
                ) ==> outcome is Ok && other is Ok && outcome->Ok_0@ == other->Ok_0@,
{
}

/// A call becomes a block that carries it, with the input that its arguments were read as, or with
/// the raw arguments where they could not be read.
pub proof fn calls_become_blocks_that_carry_them(
    index: usize,
    call: &ToolCall,
    parsed: Result<serde_json::Value, String>,
    value: serde_json::Value,
)
    requires
        call_ensures(tool_use_value, (index, call, parsed), value),
    ensures
        json_view(value) == JsonView::Object(
            map![
                "type"@ => JsonView::Str("tool_use"@),
                "id"@ => JsonView::Str(
                    if call.id@.len() == 0 {
                        "toolu_"@ + decimal(index as nat)
                    } else {
                        call.id@
                    },
                ),
                "name"@ => JsonView::Str(call.function.name@),
                "input"@ => (match parsed {
                    Ok(read) => json_view(read),
                    Err(_) => JsonView::Object(
                        map!["_raw"@ => JsonView::Str(call.function.arguments@)],
                    ),
                })
            ],
        ),
{
}

/// What is sent for a request has each of its parts under its key, all of its messages and all of
/// its tools, and nothing else. A part that the request has no value for is not there.
pub proof fn payloads_carry_every_part(
    request: &AnthropicRequest,
    temperature: Option<serde_json::Value>,
    top_p: Option<serde_json::Value>,
    value: serde_json::Value,
)
    requires
        call_ensures(AnthropicRequest::to_value, (request, temperature, top_p), value),
    ensures
        ({
            let sent = json_view(value);
            &&& json_field(sent, "model"@) == Some(JsonView::Str(request.model@))
            &&& json_field(sent, "max_tokens"@) == Some(
                JsonView::Number(decimal(request.max_tokens as nat)),
            )
            &&& json_field(sent, "messages"@) matches Some(JsonView::Array(items)) && items.len()
                == request.messages@.len() && forall|i: int|
                0 <= i < items.len() ==> #[trigger] items[i] == JsonView::Object(
                    map![
                        "role"@ => JsonView::Str(request.messages@[i].role@),
                        "content"@ => json_view(request.messages@[i].content)
                    ],
                )
            &&& holds_text(sent, "system"@, request.system)
            &&& holds_value(sent, "temperature"@, temperature)
            &&& holds_value(sent, "top_p"@, top_p)
            &&& holds_flag(sent, "stream"@, request.stream)
            &&& json_field(sent, "thinking"@) == match request.thinking {
                Some(thinking) => Some(
                    JsonView::Object(
                        map![
                            "type"@ => JsonView::Str(thinking.thinking_type@),
                            "budget_tokens"@ => JsonView::Number(
                                decimal(thinking.budget_tokens as nat),
                            )
                        ],
                    ),
                ),
                None => None,
            }
            &&& match request.tools {
                Some(tools) => json_field(sent, "tools"@) matches Some(JsonView::Array(items))
                    && items.len() == tools@.len() && forall|i: int|
                    0 <= i < items.len() ==> carries_definition(tools@[i], #[trigger] items[i]),
                None => json_field(sent, "tools"@) is None,
            }
            &&& match request.tool_choice {
                Some(choice) => json_field(sent, "tool_choice"@) matches Some(item) && json_field(
                    item,
                    "type"@,
                ) == Some(JsonView::Str(choice.choice_type@)) && holds_text(
                    item,
                    "name"@,
                    choice.name,
                ),
                None => json_field(sent, "tool_choice"@) is None,
            }
            &&& forall|key: Seq<char>| #[trigger]
                json_field(sent, key) is Some ==> {
                    ||| key == "model"@
                    ||| key == "max_tokens"@
                    ||| key == "messages"@
                    ||| key == "system"@
                    ||| key == "temperature"@
                    ||| key == "top_p"@
                    ||| key == "stream"@
                    ||| key == "thinking"@
                    ||| key == "tools"@
                    ||| key == "tool_choice"@
                }
        }),
{
    let sent = json_view(value);
    request_entries_are_found(
        request@,
        opt_json(temperature),
        opt_json(top_p),
    );
    reveal_strlit("type");
    reveal_strlit("name");
    assert("type"@[0] != "name"@[0]);
    let messages = json_field(sent, "messages"@)->0->Array_0;
    assert(views(request.messages@).len() == request.messages@.len());
    assert forall|i: int| 0 <= i < messages.len() implies #[trigger] messages[i]
        == JsonView::Object(
        map![
            "role"@ => JsonView::Str(request.messages@[i].role@),
            "content"@ => json_view(request.messages@[i].content)
        ],
    ) by {
        assert(views(request.messages@)[i] == request.messages@[i]@);
    }
    match request.tools {
        Some(tools) => {
            let items = json_field(sent, "tools"@)->0->Array_0;
            assert(views(tools@).len() == tools@.len());
            assert forall|i: int| 0 <= i < items.len() implies carries_definition(
                tools@[i],
                #[trigger] items[i],
            ) by {
                lemma_definition_is_carried(tools@[i]);
                assert(views(tools@)[i] == tools@[i]@);
            }
        },
        None => {},
    }
}

// Responses.

/// Whether a block of a response is a text or a thought that is there.
pub open spec fn is_text_or_thought() -> spec_fn(AnthropicContent) -> bool {
    |block: AnthropicContent|
        block.content_type@ == "text"@ && block.text is Some || block.content_type@ == "thinking"@
            && block.thinking is Some
}

/// Whether a block of a response is a call with an id and a name.
pub open spec fn is_use() -> spec_fn(AnthropicContent) -> bool {
    |block: AnthropicContent|
        block.content_type@ == "tool_use"@ && block.id is Some && block.name is Some
}

/// What the text blocks of a response say, one after the other.
pub open spec fn texts_received(content: Seq<AnthropicContent>) -> Seq<char>
    decreases content.len(),
{
    if content.len() == 0 {
        seq![]
    } else {
        let (before, last) = (texts_received(content.drop_last()), content.last());
        match last.text {
            Some(text) if last.content_type@ == "text"@ => before + text@,
            _ => before,
        }
    }
}

/// What the thoughts of a response say, one after the other.
pub open spec fn thoughts_received(content: Seq<AnthropicContent>) -> Seq<char>
    decreases content.len(),
{
    if content.len() == 0 {
        seq![]
    } else {
        let (before, last) = (thoughts_received(content.drop_last()), content.last());
        match last.thinking {
            Some(thinking) if last.content_type@ == "thinking"@ => before + thinking@,
            _ => before,
        }
    }
}

proof fn lemma_types_differ()
    ensures
        "text"@ != "thinking"@,
        "text"@ != "tool_use"@,
        "thinking"@ != "tool_use"@,
{
    reveal_strlit("text");
    reveal_strlit("thinking");
    reveal_strlit("tool_use");
    assert("text"@.len() == 4);
    assert("thinking"@.len() == 8);
    assert("thinking"@[1] != "tool_use"@[1]);
}

proof fn lemma_received(content: Seq<AnthropicContent>)
    ensures
        text_of(message_blocks(views(content))) == texts_received(content),
        thinking_of(message_blocks(views(content))) == thoughts_received(content),
    decreases content.len(),
{
    lemma_types_differ();
    if content.len() == 0 {
        reveal(Seq::filter);
        assert(message_blocks(views(content)) =~= seq![]);
    } else {
        let (rest, last) = (content.drop_last(), content.last());
        lemma_received(rest);
        lemma_message_blocks_push(views(rest), last@);
        assert(views(rest).push(last@) =~= views(content));
        let blocks = message_blocks(views(rest));
        match message_block(last@) {
            Some(found) => {
                assert(blocks.push(found).drop_last() =~= blocks);
            },
            None => {},
        }
    }
}

proof fn lemma_blocks_kept(content: Seq<AnthropicContentView>)
    ensures
        message_blocks(content) == content.filter(is_said()).map_values(
            |block: AnthropicContentView| message_block(block)->0,
        ),
    decreases content.len(),
{
    let f = |block: AnthropicContentView| message_block(block)->0;
    if content.len() == 0 {
        reveal(Seq::filter);
        assert(message_blocks(content) =~= content.filter(is_said()).map_values(f));
    } else {
        let (rest, last) = (content.drop_last(), content.last());
        lemma_blocks_kept(rest);
        lemma_message_blocks_push(rest, last);
        lemma_filter_push(rest, last, is_said());
        assert(rest.push(last) =~= content);
        match message_block(last) {
            Some(found) => {
                assert(rest.filter(is_said()).push(last).map_values(f) =~= rest.filter(
                    is_said(),
                ).map_values(f).push(found));
            },
            None => {},
        }
    }
}

/// A response that could not be decoded is an error that says why.
pub proof fn undecoded_responses_say_why(
    protocol: &AnthropicProtocol,
    decoded: Result<AnthropicResponse, String>,
    created: u64,
    outcome: Result<ChatResponse, LlmConnectorError>,
)
    requires
        call_ensures(AnthropicProtocol::parse_response_at, (protocol, decoded, created), outcome),
    ensures
        outcome is Ok <==> decoded is Ok,
        decoded matches Err(why) ==> (outcome matches Err(LlmConnectorError::ParseError(message))
            && message@ == "Failed to parse Anthropic response: "@ + why@),
{
}

/// A response keeps its id, its model and the time that it is given, and has one choice, the
/// first, from the assistant.
pub proof fn parsed_responses_have_one_choice(
    protocol: &AnthropicProtocol,
    response: AnthropicResponse,
    created: u64,
    outcome: Result<ChatResponse, LlmConnectorError>,
)
    requires
        call_ensures(
            AnthropicProtocol::parse_response_at,
            (protocol, Ok(response), created),
            outcome,
        ),
    ensures
        outcome matches Ok(made) && {
            &&& made.id@ == response.id@
            &&& made.model@ == response.model@
            &&& made.object@ == "chat.completion"@
            &&& made.created == created
            &&& made.reasoning_content is None
            &&& made.system_fingerprint is None
            &&& made.choices@.len() == 1
            &&& made.choices@[0].index == 0
            &&& made.choices@[0].logprobs is None
            &&& made.choices@[0].message.role == Role::Assistant
            &&& made.choices@[0].message.name is None
            &&& made.choices@[0].message.tool_call_id is None
            &&& made.choices@[0].message.reasoning_content is None
            &&& made.choices@[0].message.reasoning is None
            &&& made.choices@[0].message.thought is None
        },
{
    let made = outcome->Ok_0;
    assert(views(made.choices@).len() == made.choices@.len());
    assert(views(made.choices@)[0] == made.choices@[0]@);
}

/// The choice of a response ended for the reason that the provider gives, as it stands. Only
/// `tool_use` is called `tool_calls`, and where no reason is given it is `stop`.
pub proof fn the_stop_reason_is_handed_on(
    protocol: &AnthropicProtocol,
    response: AnthropicResponse,
    created: u64,
    outcome: Result<ChatResponse, LlmConnectorError>,
)
    requires
        call_ensures(
            AnthropicProtocol::parse_response_at,
            (protocol, Ok(response), created),
            outcome,
        ),
    ensures
        outcome matches Ok(made) && made.choices@.len() == 1 && (made.choices@[0].finish_reason
            matches Some(reason) && match response.stop_reason {
            Some(given) => if given@ == "tool_use"@ {
                reason@ == "tool_calls"@
            } else {
                reason@ == given@
            },
            None => reason@ == "stop"@,
        }),
{
    let made = outcome->Ok_0;
    assert(views(made.choices@).len() == made.choices@.len());
    assert(views(made.choices@)[0] == made.choices@[0]@);
}

/// Responses that stopped for different reasons have choices that ended for different reasons. The
/// one exception is a provider that itself says `tool_calls` where another says `tool_use`.
pub proof fn different_stop_reasons_stay_different(
    protocol: &AnthropicProtocol,
    a: AnthropicResponse,
    b: AnthropicResponse,
    created: u64,
    first: Result<ChatResponse, LlmConnectorError>,
    second: Result<ChatResponse, LlmConnectorError>,
)
    requires
        call_ensures(AnthropicProtocol::parse_response_at, (protocol, Ok(a), created), first),
        call_ensures(AnthropicProtocol::parse_response_at, (protocol, Ok(b), created), second),
        a.stop_reason is Some && b.stop_reason is Some,
        a.stop_reason->0@ != b.stop_reason->0@,
        a.stop_reason->0@ != "tool_calls"@,
        b.stop_reason->0@ != "tool_calls"@,
    ensures
        first->Ok_0.choices@[0].finish_reason->0@ != second->Ok_0.choices@[0].finish_reason->0@,
{
    the_stop_reason_is_handed_on(protocol, a, created, first);
    the_stop_reason_is_handed_on(protocol, b, created, second);
}

/// The tokens of a response are those that the provider counts, and their sum.
pub proof fn the_usage_is_handed_on(
    protocol: &AnthropicProtocol,
    response: AnthropicResponse,
    created: u64,
    outcome: Result<ChatResponse, LlmConnectorError>,
)
    requires
        call_ensures(
            AnthropicProtocol::parse_response_at,
            (protocol, Ok(response), created),
            outcome,
        ),
        response.usage.input_tokens + response.usage.output_tokens <= u32::MAX,
    ensures
        outcome matches Ok(made) && made.usage matches Some(usage) && {
            &&& usage.prompt_tokens == response.usage.input_tokens
            &&& usage.completion_tokens == response.usage.output_tokens
            &&& usage.total_tokens == response.usage.input_tokens + response.usage.output_tokens
            &&& usage.completion_tokens_details is None
            &&& usage.prompt_cache_hit_tokens == response.usage.cache_read_input_tokens
            &&& usage.prompt_cache_miss_tokens is None
            &&& usage.prompt_tokens_details matches Some(details) && details.cached_tokens
                == response.usage.cache_read_input_tokens && details.cache_read_input_tokens
                == response.usage.cache_read_input_tokens && details.cache_creation_input_tokens
                == response.usage.cache_creation_input_tokens
        },
{
}

/// Whether a block of a message is the text or the thought that a response holds.
pub open spec fn is_received(block: AnthropicContent, kept: MessageBlock) -> bool {
    if block.content_type@ == "text"@ {
        kept matches MessageBlock::Text { text } && text@ == block.text->0@
    } else {
        kept matches MessageBlock::Thinking { thinking, signature } && thinking@
            == block.thinking->0@ && match (signature, block.signature) {
            (Some(a), Some(b)) => a@ == b@,
            (None, None) => true,
            _ => false,
        }
    }
}

/// The message of a response holds its texts and its thoughts, all of them and in their order, each
/// thought with its signature. The content of the response is what the texts say, and the thinking
/// of the message is what the thoughts say, or nothing where they say nothing.
pub proof fn what_a_response_says_is_kept(
    protocol: &AnthropicProtocol,
    response: AnthropicResponse,
    created: u64,
    outcome: Result<ChatResponse, LlmConnectorError>,
    k: int,
)
    requires
        call_ensures(
            AnthropicProtocol::parse_response_at,
            (protocol, Ok(response), created),
            outcome,
        ),
    ensures
        outcome is Ok,
        ({
            let made = outcome->Ok_0;
            let message = made.choices@[0].message;
            let blocks = response.content@.filter(is_text_or_thought());
            let thoughts = thoughts_received(response.content@);
            &&& made.content@ == texts_received(response.content@)
            &&& message.thinking is Some <==> thoughts.len() > 0
            &&& message.thinking matches Some(text) ==> text@ == thoughts
            &&& message.content@.len() == blocks.len()
            &&& 0 <= k < blocks.len() ==> is_received(blocks[k], message.content@[k])
        }),
{
    let made = outcome->Ok_0;
    let message = made.choices@[0].message;
    let content = response.content@;
    let blocks = content.filter(is_text_or_thought());
    lemma_types_differ();
    lemma_received(content);
    lemma_blocks_kept(views(content));
    lemma_views_filter(content, is_text_or_thought(), is_said());
    assert(views(made.choices@).len() == made.choices@.len());
    assert(views(made.choices@)[0] == made.choices@[0]@);
    assert(views(message.content@).len() == message.content@.len());
    assert(views(blocks).len() == blocks.len());
    if 0 <= k < blocks.len() {
        content.lemma_filter_pred(is_text_or_thought(), k);
        assert(views(blocks)[k] == blocks[k]@);
        assert(views(message.content@)[k] == message.content@[k]@);
    }
}

/// The message of a response makes its calls, all of them and in their order, each with its id and
/// its name, numbered from zero, and with its input as JSON text, or the empty object where it has
/// none. A response without calls makes none.
pub proof fn the_calls_of_a_response_are_kept(
    protocol: &AnthropicProtocol,
    response: AnthropicResponse,
    created: u64,
    outcome: Result<ChatResponse, LlmConnectorError>,
    k: int,
)
    requires
        call_ensures(
            AnthropicProtocol::parse_response_at,
            (protocol, Ok(response), created),
            outcome,
        ),
    ensures
        outcome is Ok,
        ({
            let uses = response.content@.filter(is_use());
            match outcome->Ok_0.choices@[0].message.tool_calls {
                Some(calls) => {
                    &&& uses.len() > 0
                    &&& calls@.len() == uses.len()
                    &&& 0 <= k < uses.len() ==> {
                        let call = calls@[k];
                        &&& call.id@ == uses[k].id->0@
                        &&& call.call_type@ == "function"@
                        &&& call.function.name@ == uses[k].name->0@
                        &&& call.function.arguments@ == match uses[k].input {
                            Some(input) => json_text(json_view(input)),
                            None => "{}"@,
                        }
                        &&& call.function.thought_signature is None
                        &&& call.index matches Some(index) && index == k
                        &&& call.thought_signature is None
                    }
                },
                None => uses.len() == 0,
            }
        }),
{
    let made = outcome->Ok_0;
    let content = response.content@;
    let uses = content.filter(is_use());
    lemma_views_filter(content, is_use(), is_call());
    assert(views(made.choices@).len() == made.choices@.len());
    assert(views(made.choices@)[0] == made.choices@[0]@);
    assert(views(uses).len() == uses.len());
    match made.choices@[0].message.tool_calls {
        Some(calls) => {
            assert(views(calls@).len() == calls@.len());
            assert(views(calls@) == tool_calls(views(content)));
            if 0 <= k < uses.len() {
                content.lemma_filter_pred(is_use(), k);
                assert(views(uses)[k] == uses[k]@);
                assert(views(calls@)[k] == calls@[k]@);
                assert(calls.len() == calls@.len());
            }
        },
        None => {},
    }
}

/// A call is made of what it is given.
pub proof fn calls_are_made_of_what_is_given(
    id: &str,
    name: &str,
    arguments: String,
    index: usize,
    call: ToolCall,
)
    requires
        call_ensures(make_tool_call, (id, name, arguments, index), call),
    ensures
        call.id@ == id@,
        call.call_type@ == "function"@,
        call.function.name@ == name@,
        call.function.arguments@ == arguments@,
        call.index == Some(index),
        call.function.thought_signature is None,
        call.thought_signature is None,
{
}

/// An answer is read as what the decoder makes of it, at a time that the clock shows.
pub proof fn answers_are_read_as_they_are_decoded<D>(
    protocol: &AnthropicProtocol,
    text: &str,
    decode: D,
    outcome: Result<ChatResponse, LlmConnectorError>,
) where D: Fn(&str) -> Result<AnthropicResponse, String>
    requires
        call_ensures(
            AnthropicProtocol::parse_response::<D>,
            (protocol, text, decode),
            outcome,
        ),
    ensures
        exists|decoded: Result<AnthropicResponse, String>, reading: Option<u64>|
            {
                &&& #[trigger] call_ensures(decode, (text,), decoded)
                &&& #[trigger] can_show(reading)
                &&& forall|created: u64, other: Result<ChatResponse, LlmConnectorError>|
                    #[trigger] call_ensures(
                        AnthropicProtocol::parse_response_at,
                        (protocol, decoded, created),
                        other,
                    ) && created == (match reading {
                        Some(seconds) => seconds,
                        None => 0,
                    }) ==> match (outcome, other) {
                        (Ok(a), Ok(b)) => a@ == b@,
                        (Err(a), Err(b)) => a@ == b@,
                        _ => false,
                    }
            },
{
    let (decoded, reading) = choose|
        decoded: Result<AnthropicResponse, String>,
        reading: Option<u64>,
    |
        {
            &&& #[trigger] call_ensures(decode, (text,), decoded)
            &&& #[trigger] can_show(reading)
            &&& response_view(outcome)
                == parsed_response(decoded, counted(reading))
            &&& decoded matches Ok(answer) ==> inputs_read_back(
                answer@.content,
            )
        };
    assert(call_ensures(decode, (text,), decoded));
    assert(can_show(reading));
}

// Errors.

/// The error entry of an answer, where it is an object that has one.
pub open spec fn error_entry(parsed: Result<serde_json::Value, String>) -> Option<JsonView> {
    match parsed {
        Ok(value) => json_field(json_view(value), "error"@),
        Err(_) => None,
    }
}

/// The text of a field, or another where there is none.
pub open spec fn text_or(tree: JsonView, key: Seq<char>, other: Seq<char>) -> Seq<char> {
    match json_field(tree, key) {
        Some(JsonView::Str(text)) => text,
        _ => other,
    }
}

/// What the provider said: the message of the error entry, or the whole answer where it has none.
pub open spec fn provider_said(body: Seq<char>, entry: Option<JsonView>) -> Seq<char> {
    match entry {
        Some(tree) => text_or(tree, "message"@, "Unknown Anthropic error"@),
        None => body,
    }
}

/// Whether the provider said that the request is too long.
pub open spec fn said_too_long(body: Seq<char>, entry: Option<JsonView>) -> bool {
    let message = provider_said(body, entry);
    &&& entry matches Some(tree) && text_or(tree, "type"@, seq![]) == "invalid_request_error"@
    &&& stands_in(message, "too long"@) || stands_in(message, "maximum"@) || stands_in(
        message,
        "context"@,
    )
}

/// An error is what the provider said it is: too long whatever the status, where an invalid request
/// speaks of that, and else what the status says. Its message hands on what the provider said.
pub proof fn errors_are_what_the_provider_said(
    protocol: &AnthropicProtocol,
    status: u16,
    body: &str,
    parsed: Result<serde_json::Value, String>,
    error: LlmConnectorError,
)
    requires
        call_ensures(AnthropicProtocol::map_parsed_error, (protocol, status, body, parsed), error),
    ensures
        ({
            let entry = error_entry(parsed);
            let text = "Anthropic: "@ + provider_said(body@, entry);
            if said_too_long(body@, entry) {
                error matches LlmConnectorError::ContextLengthExceeded(m) && m@ == text
            } else if status == 400 {
                error matches LlmConnectorError::InvalidRequest(m) && m@ == text
            } else if status == 401 {
                error matches LlmConnectorError::AuthenticationError(m) && m@ == text
            } else if status == 403 {
                error matches LlmConnectorError::PermissionError(m) && m@ == text
            } else if status == 429 {
                error matches LlmConnectorError::RateLimitError(m) && m@ == text
            } else if 500 <= status && status < 600 {
                error matches LlmConnectorError::ServerError(m) && m@ == text
            } else {
                error matches LlmConnectorError::ApiError(m) && m@ == "Anthropic HTTP "@ + decimal(
                    status as nat,
                ) + ": "@ + provider_said(body@, entry)
            }
        }),
{
    let entry = error_entry(parsed);
    let message = provider_said(body@, entry);
    lemma_stands_in(message, "too long"@);
    lemma_stands_in(message, "maximum"@);
    lemma_stands_in(message, "context"@);
    reveal_strlit("message");
    reveal_strlit("type");
    reveal_strlit("");
    reveal_strlit("invalid_request_error");
    assert("message"@.len() != "type"@.len());
    assert(""@.len() == 0);
    assert("invalid_request_error"@.len() == 21);
    assert(""@ =~= seq![]);
}

/// An answer means what it means once it is read as JSON.
pub proof fn answers_are_read_as_json(
    protocol: &AnthropicProtocol,
    status: u16,
    body: &str,
    parsed: Result<serde_json::Value, String>,
    error: LlmConnectorError,
    other: LlmConnectorError,
)
    requires
        call_ensures(AnthropicProtocol::map_error, (protocol, status, body), error),
        call_ensures(AnthropicProtocol::map_parsed_error, (protocol, status, body, parsed), other),
    ensures
        json_parsed(body@) == (match parsed {
            Ok(value) => Ok::<JsonView, Seq<char>>(json_view(value)),
            Err(why) => Err(why@),
        }) ==> error@ == other@,
{
}

// Streams.

/// An event of a stream is interpreted with the id of the message in progress exactly where it is
/// the start of a block, a change to a block or a change to the message. A `message_start` sets the
/// id to the one that it names, and no other event changes it. An event that could not be read is
/// an error that says why and shows it.
pub proof fn events_are_taken_by_their_type(
    protocol: &AnthropicProtocol,
    message_id: &mut String,
    text: &str,
    parsed: Result<serde_json::Value, String>,
    outcome: Result<StreamStep, LlmConnectorError>,
)
    requires
        call_ensures(
            AnthropicProtocol::stream_parsed_event,
            (protocol, message_id, text, parsed),
            outcome,
        ),
    ensures
        match parsed {
            Err(why) => {
                &&& outcome matches Err(LlmConnectorError::ParseError(message)) && message@
                    == "Failed to parse Anthropic streaming event: "@ + why@ + ". JSON: "@ + text@
                &&& final(message_id)@ == old(message_id)@
            },
            Ok(event) => {
                let tree = json_view(event);
                let kind = text_or(tree, "type"@, seq![]);
                let part = kind == "content_block_start"@ || kind == "content_block_delta"@ || kind
                    == "message_delta"@;
                &&& part ==> (outcome matches Ok(
                    StreamStep::Interpret { event: kept, message_id: id },
                ) && json_view(kept) == tree && id@ == old(message_id)@)
                &&& !part ==> (outcome matches Ok(StreamStep::Skip))
                &&& final(message_id)@ == (match json_field(tree, "message"@) {
                    Some(message) if kind == "message_start"@ => text_or(
                        message,
                        "id"@,
                        old(message_id)@,
                    ),
                    _ => old(message_id)@,
                })
            },
        },
{
    reveal_strlit("");
    assert(""@ =~= seq![]);
}

/// An event is taken as it is once it is read as JSON.
pub proof fn events_are_read_as_json(
    protocol: &AnthropicProtocol,
    message_id: &mut String,
    other_id: &mut String,
    text: &str,
    parsed: Result<serde_json::Value, String>,
    outcome: Result<StreamStep, LlmConnectorError>,
    other: Result<StreamStep, LlmConnectorError>,
)
    requires
        call_ensures(
            AnthropicProtocol::stream_event,
            (protocol, message_id, text),
            outcome,
        ),
        call_ensures(
            AnthropicProtocol::stream_parsed_event,
            (protocol, other_id, text, parsed),
            other,
        ),
        old(message_id)@ == old(other_id)@,
    ensures
        json_parsed(text@) == (match parsed {
            Ok(value) => Ok::<JsonView, Seq<char>>(json_view(value)),
            Err(why) => Err(why@),
        }) ==> final(message_id)@ == final(other_id)@ && match (outcome, other) {
            (Ok(a), Ok(b)) => a@ == b@,
            (Err(a), Err(b)) => a@ == b@,
            _ => false,
        },
{
}

// Addresses and headers.

proof fn lemma_slashes(head: Seq<char>, slashes: Seq<char>)
    requires
        head.len() == 0 || head.last() != '/',
        forall|i: int| 0 <= i < slashes.len() ==> #[trigger] slashes[i] == '/',
    ensures
        without_trailing(head + slashes, '/') == head,
    decreases slashes.len(),
{
    if slashes.len() == 0 {
        assert(head + slashes =~= head);
    } else {
        assert((head + slashes).drop_last() =~= head + slashes.drop_last());
        assert((head + slashes).last() == slashes[slashes.len() - 1]);
        lemma_slashes(head, slashes.drop_last());
    }
}

/// Chat requests go to the base address without the slashes at its end, then the version where it
/// does not name it already, then the messages.
pub proof fn chat_requests_go_to_the_messages(
    protocol: &AnthropicProtocol,
    base_url: &str,
    model: &str,
    url: String,
    head: Seq<char>,
    slashes: Seq<char>,
)
    requires
        call_ensures(AnthropicProtocol::chat_endpoint, (protocol, base_url, model), url),
        base_url@ == head + slashes,
        head.len() == 0 || head.last() != '/',
        forall|i: int| 0 <= i < slashes.len() ==> #[trigger] slashes[i] == '/',
    ensures
        (exists|host: Seq<char>| head == #[trigger] (host + "/v1"@)) ==> url@ == head
            + "/messages"@,
        !(exists|host: Seq<char>| head == #[trigger] (host + "/v1"@)) ==> url@ == head
            + "/v1/messages"@,
{
    lemma_slashes(head, slashes);
    reveal_strlit("/v1");
    assert("/v1"@.len() == 3);
    let at = head.len() - 3;
    if ends_in(head, "/v1"@) {
        assert(head =~= head.take(at) + head.subrange(at, at + 3));
        assert(head == head.take(at) + "/v1"@);
    }
    if exists|host: Seq<char>| head == #[trigger] (host + "/v1"@) {
        let host = choose|host: Seq<char>| head == #[trigger] (host + "/v1"@);
        assert(head.subrange(at, at + 3) =~= "/v1"@);
    }
}

/// The headers of a request carry the key that the protocol was made with and the version of the
/// API, and those of an override carry the other key alone.
pub proof fn headers_carry_the_key(
    key: &str,
    protocol: AnthropicProtocol,
    kept: &str,
    copy: AnthropicProtocol,
    kept_by_copy: &str,
    headers: Vec<(String, String)>,
    other: &str,
    overriding: Vec<(String, String)>,
    name: &str,
)
    requires
        call_ensures(AnthropicProtocol::new, (key,), protocol),
        call_ensures(AnthropicProtocol::api_key, (&protocol,), kept),
        call_ensures(AnthropicProtocol::clone, (&protocol,), copy),
        call_ensures(AnthropicProtocol::api_key, (&copy,), kept_by_copy),
        call_ensures(AnthropicProtocol::auth_headers, (&protocol,), headers),
        call_ensures(
            AnthropicProtocol::build_auth_headers_for_override,
            (&protocol, other),
            overriding,
        ),
        call_ensures(AnthropicProtocol::name, (&protocol,), name),
    ensures
        kept@ == key@,
        kept_by_copy@ == key@,
        name@ == "anthropic"@,
        headers@.len() == 2,
        headers@[0].0@ == "x-api-key"@ && headers@[0].1@ == key@,
        headers@[1].0@ == "anthropic-version"@ && headers@[1].1@ == "2023-06-01"@,
        overriding@.len() == 1,
        overriding@[0].0@ == "x-api-key"@ && overriding@[0].1@ == other@,
{
    assert(header_views(headers@).len() == headers@.len());
    assert(header_views(overriding@).len() == overriding@.len());
    assert(header_views(headers@)[0] == (headers@[0].0@, headers@[0].1@));
    assert(header_views(headers@)[1] == (headers@[1].0@, headers@[1].1@));
    assert(header_views(overriding@)[0] == (overriding@[0].0@, overriding@[0].1@));
}

} // verus!
