//! What holds of every request and every response of the messages API.

use vstd::prelude::*;

use crate::anthropic::failure::{error_message, is_context_overflow, meant_error};
use crate::anthropic::request::{
    anthropic_choice, anthropic_tool, asked_tokens, block_wires, is_spoken, is_system,
    join_paragraphs, opt_choice, opt_thinking, opt_tools, system_text, system_texts, token_limit,
    tool_input, tool_use, tool_use_id, wire_content, wire_message, wire_messages, wire_request,
    wire_tools, AnthropicMessageView, AnthropicRequestView,
};
use crate::anthropic::response::{
    answer, chat_response, input_reads_back, inputs_read_back, is_call, lemma_message_blocks_push,
    message_block, message_blocks, tool_calls, AnthropicContentView, AnthropicResponseView,
};
use crate::anthropic::stream::{
    carries_part, event_type, id_after, opened_id, step_for, StreamStepView,
};
use crate::anthropic::{endpoint, key_headers, request_headers};
use crate::chat::ChatRequestView;
use crate::error::LlmConnectorErrorView;
use crate::json::{
    is_kept_as_text, json_field, json_parsed, json_text, opt_str, reads_back, with_entry, JsonView,
};
use crate::message::{text_of, MessageView};
use crate::request::lemma_filter_push;
use crate::text::{decimal, ends_in, lemma_decimal_injective, without_trailing};
use crate::tool::{
    opt_bool, AnthropicToolDefinitionView, ToolCallView, ToolChoiceView, ToolView,
};

verus! {

// Requests.

/// What the system says goes apart: the messages of a request are those of the chat that are not
/// the system's, each from the user or the assistant and each with a list of blocks.
pub proof fn system_messages_go_apart(messages: Seq<MessageView>)
    ensures
        wire_messages(messages).len() == messages.filter(is_spoken()).len(),
        messages.filter(is_spoken()).len() + messages.filter(is_system()).len() == messages.len(),
        forall|i: int|
            0 <= i < wire_messages(messages).len() ==> {
                let message = #[trigger] wire_messages(messages)[i];
                (message.role == "user"@ || message.role == "assistant"@) && message.content
                    is Array
            },
        system_text(messages) is None <==> messages.filter(is_system()).len() == 0,
    decreases messages.len(),
{
    reveal(Seq::filter);
    if messages.len() > 0 {
        system_messages_go_apart(messages.drop_last());
    }
}

proof fn lemma_join_paragraphs_add(a: Seq<Seq<char>>, b: Seq<Seq<char>>)
    requires
        a.len() > 0,
        b.len() > 0,
    ensures
        join_paragraphs(a + b) == join_paragraphs(a) + "\n\n"@ + join_paragraphs(b),
    decreases b.len(),
{
    let (last, rest) = (b.last(), b.drop_last());
    assert((a + b).drop_last() =~= a + rest);
    assert((a + b).last() == last);
    if b.len() == 1 {
        assert(a + rest =~= a);
    } else {
        lemma_join_paragraphs_add(a, rest);
        assert(join_paragraphs(a + b) =~= join_paragraphs(a) + "\n\n"@ + join_paragraphs(b));
    }
}

/// A chat is mapped message by message: its two parts are mapped one after the other, and what the
/// system says in them is joined by an empty line.
pub proof fn chats_are_mapped_by_message(a: Seq<MessageView>, b: Seq<MessageView>)
    ensures
        wire_messages(a + b) == wire_messages(a) + wire_messages(b),
        system_text(a + b) == match (system_text(a), system_text(b)) {
            (Some(x), Some(y)) => Some(x + "\n\n"@ + y),
            (Some(x), None) => Some(x),
            (None, y) => y,
        },
{
    Seq::filter_distributes_over_add(a, b, is_spoken());
    Seq::filter_distributes_over_add(a, b, is_system());
    assert(wire_messages(a + b) =~= wire_messages(a) + wire_messages(b));
    let (x, y) = (system_texts(a), system_texts(b));
    assert(system_texts(a + b) =~= x + y);
    if x.len() > 0 && y.len() > 0 {
        lemma_join_paragraphs_add(x, y);
    } else if x.len() == 0 {
        assert(x + y =~= y);
    } else {
        assert(x + y =~= x);
    }
}

/// The answer has room beside the thinking: the limit is above the budget and never below what was
/// asked for. Without thinking it is what was asked for.
pub proof fn limit_is_above_budget(max_tokens: Option<u32>, thinking_budget: Option<u32>)
    ensures
        thinking_budget matches Some(budget) ==> token_limit(max_tokens, thinking_budget) > budget,
        token_limit(max_tokens, thinking_budget) >= asked_tokens(max_tokens),
        thinking_budget is None ==> token_limit(max_tokens, thinking_budget) == asked_tokens(
            max_tokens,
        ),
{
}

/// Tools and a tool choice in Anthropic's own form are sent as they are, whatever the request says
/// in the other form.
pub proof fn native_tools_take_precedence(request: ChatRequestView, thinking_budget: Option<u32>)
    ensures
        request.anthropic_tools is Some ==> wire_request(request, thinking_budget).tools
            == request.anthropic_tools,
        request.anthropic_tool_choice is Some ==> wire_request(request, thinking_budget).tool_choice
            == request.anthropic_tool_choice,
{
}

/// Every tool of a request is sent, in its place.
pub proof fn generic_tools_are_all_sent(request: ChatRequestView, tools: Seq<ToolView>, i: int)
    requires
        request.anthropic_tools is None,
        request.tools == Some(tools),
        0 <= i < tools.len(),
    ensures
        wire_tools(request) matches Some(sent) && sent.len() == tools.len() && sent[i]
            == anthropic_tool(tools[i]),
{
}

/// A mapped tool choice is of one of four types, and it has a name exactly where it is a tool.
pub proof fn choices_are_of_four_types(choice: ToolChoiceView)
    ensures
        ({
            let mapped = anthropic_choice(choice);
            &&& mapped.choice_type == "none"@ || mapped.choice_type == "any"@ || mapped.choice_type
                == "auto"@ || mapped.choice_type == "tool"@
            &&& mapped.name is Some <==> choice is Function
            &&& choice is Function <==> mapped.choice_type == "tool"@
        }),
{
    reveal_strlit("none");
    reveal_strlit("any");
    reveal_strlit("auto");
    reveal_strlit("tool");
    assert("none"@[0] != "tool"@[0]);
    assert("auto"@[0] != "tool"@[0]);
    assert("any"@.len() != "tool"@.len());
}

/// The keys under which a tool definition carries its named entries.
pub open spec fn is_named_key(key: Seq<char>) -> bool {
    ||| key == "type"@
    ||| key == "name"@
    ||| key == "description"@
    ||| key == "input_schema"@
    ||| key == "custom_input_schema"@
    ||| key == "input_examples"@
    ||| key == "strict"@
    ||| key == "allowed_callers"@
    ||| key == "defer_loading"@
    ||| key == "cache_control"@
    ||| key == "eager_input_streaming"@
}

proof fn lemma_named_keys_differ()
    ensures
        "type"@.len() == 4,
        "name"@.len() == 4,
        "type"@ != "name"@,
        "description"@.len() == 11,
        "input_schema"@.len() == 12,
        "custom_input_schema"@.len() == 19,
        "input_examples"@.len() == 14,
        "strict"@.len() == 6,
        "allowed_callers"@.len() == 15,
        "defer_loading"@.len() == 13,
        "cache_control"@.len() == 13,
        "defer_loading"@ != "cache_control"@,
        "eager_input_streaming"@.len() == 21,
{
    reveal_strlit("type");
    reveal_strlit("name");
    reveal_strlit("description");
    reveal_strlit("input_schema");
    reveal_strlit("custom_input_schema");
    reveal_strlit("input_examples");
    reveal_strlit("strict");
    reveal_strlit("allowed_callers");
    reveal_strlit("defer_loading");
    reveal_strlit("cache_control");
    reveal_strlit("eager_input_streaming");
    assert("type"@[0] != "name"@[0]);
    assert("defer_loading"@[0] != "cache_control"@[0]);
}

/// A tool definition is sent without loss: each of its fields is found under its key, each entry
/// of `extra` under its own, and nothing else is there. Where `extra` holds one of the named keys,
/// its entry is the one that is sent.
pub proof fn tool_definitions_are_sent_without_loss(tool: AnthropicToolDefinitionView)
    ensures
        forall|key: Seq<char>| #[trigger]
            tool.extra.contains_key(key) ==> json_field(tool.wire(), key) == Some(tool.extra[key]),
        !tool.extra.contains_key("type"@) ==> json_field(tool.wire(), "type"@) == opt_str(
            tool.tool_type,
        ),
        !tool.extra.contains_key("name"@) ==> json_field(tool.wire(), "name"@) == opt_str(
            tool.name,
        ),
        !tool.extra.contains_key("description"@) ==> json_field(tool.wire(), "description"@)
            == opt_str(tool.description),
        !tool.extra.contains_key("input_schema"@) ==> json_field(tool.wire(), "input_schema"@)
            == tool.input_schema,
        !tool.extra.contains_key("custom_input_schema"@) ==> json_field(
            tool.wire(),
            "custom_input_schema"@,
        ) == tool.custom_input_schema,
        !tool.extra.contains_key("input_examples"@) ==> json_field(tool.wire(), "input_examples"@)
            == tool.input_examples,
        !tool.extra.contains_key("strict"@) ==> json_field(tool.wire(), "strict"@) == opt_bool(
            tool.strict,
        ),
        !tool.extra.contains_key("allowed_callers"@) ==> json_field(tool.wire(), "allowed_callers"@)
            == tool.allowed_callers,
        !tool.extra.contains_key("defer_loading"@) ==> json_field(tool.wire(), "defer_loading"@)
            == opt_bool(tool.defer_loading),
        !tool.extra.contains_key("cache_control"@) ==> json_field(tool.wire(), "cache_control"@)
            == tool.cache_control,
        !tool.extra.contains_key("eager_input_streaming"@) ==> json_field(
            tool.wire(),
            "eager_input_streaming"@,
        ) == opt_bool(tool.eager_input_streaming),
        forall|key: Seq<char>|
            !is_named_key(key) && !tool.extra.contains_key(key) ==> #[trigger] json_field(
                tool.wire(),
                key,
            ) is None,
{
    lemma_named_keys_differ();
}

/// Each part of a request is found under its key in what is sent, and a part that it has no value
/// for is not there.
pub proof fn request_entries_are_found(
    request: AnthropicRequestView,
    temperature: Option<JsonView>,
    top_p: Option<JsonView>,
)
    ensures
        ({
            let sent = request.wire(temperature, top_p);
            &&& json_field(sent, "model"@) == Some(JsonView::Str(request.model))
            &&& json_field(sent, "max_tokens"@) == Some(
                JsonView::Number(decimal(request.max_tokens as nat)),
            )
            &&& json_field(sent, "messages"@) == Some(
                JsonView::Array(
                    request.messages.map_values(|message: AnthropicMessageView| message.wire()),
                ),
            )
            &&& json_field(sent, "system"@) == opt_str(request.system)
            &&& json_field(sent, "temperature"@) == temperature
            &&& json_field(sent, "top_p"@) == top_p
            &&& json_field(sent, "stream"@) == opt_bool(request.stream)
            &&& json_field(sent, "thinking"@) == opt_thinking(request.thinking)
            &&& json_field(sent, "tools"@) == opt_tools(request.tools)
            &&& json_field(sent, "tool_choice"@) == opt_choice(request.tool_choice)
        }),
{
    reveal_strlit("model");
    reveal_strlit("max_tokens");
    reveal_strlit("messages");
    reveal_strlit("system");
    reveal_strlit("temperature");
    reveal_strlit("top_p");
    reveal_strlit("stream");
    reveal_strlit("thinking");
    reveal_strlit("tools");
    reveal_strlit("tool_choice");
    assert("model"@.len() == 5);
    assert("max_tokens"@.len() == 10);
    assert("messages"@.len() == 8);
    assert("system"@.len() == 6);
    assert("temperature"@.len() == 11);
    assert("top_p"@.len() == 5);
    assert("stream"@.len() == 6);
    assert("thinking"@.len() == 8);
    assert("tools"@.len() == 5);
    assert("tool_choice"@.len() == 11);
    assert("model"@[0] != "top_p"@[0]);
    assert("model"@[0] != "tools"@[0]);
    assert("top_p"@[2] != "tools"@[2]);
    assert("messages"@[0] != "thinking"@[0]);
    assert("system"@[1] != "stream"@[1]);
    assert("temperature"@[1] != "tool_choice"@[1]);
}

/// A call always has an id, and calls at different positions that have none of their own get
/// different ones.
pub proof fn made_up_ids_differ(i: nat, a: ToolCallView, j: nat, b: ToolCallView)
    ensures
        tool_use_id(i, a).len() > 0,
        a.id.len() == 0 && b.id.len() == 0 && i != j ==> tool_use_id(i, a) != tool_use_id(j, b),
{
    reveal_strlit("toolu_");
    if a.id.len() == 0 && b.id.len() == 0 && tool_use_id(i, a) == tool_use_id(j, b) {
        let n = "toolu_"@.len() as int;
        assert(tool_use_id(i, a).skip(n) =~= decimal(i));
        assert(tool_use_id(j, b).skip(n) =~= decimal(j));
        lemma_decimal_injective(i, j);
    }
}

// Responses.

proof fn lemma_message_blocks_add(a: Seq<AnthropicContentView>, b: Seq<AnthropicContentView>)
    ensures
        message_blocks(a + b) == message_blocks(a) + message_blocks(b),
    decreases b.len(),
{
    if b.len() == 0 {
        reveal(Seq::filter);
        assert(a + b =~= a);
        assert(message_blocks(b) =~= seq![]);
        assert(message_blocks(a) + message_blocks(b) =~= message_blocks(a));
    } else {
        lemma_message_blocks_add(a, b.drop_last());
        lemma_message_blocks_push(a + b.drop_last(), b.last());
        lemma_message_blocks_push(b.drop_last(), b.last());
        assert((a + b.drop_last()).push(b.last()) =~= a + b);
        assert(b.drop_last().push(b.last()) =~= b);
        assert(message_blocks(a + b) =~= message_blocks(a) + message_blocks(b));
    }
}

/// A block that is no text, no thought and no call is passed over: the answer is the same without
/// it.
pub proof fn unknown_blocks_are_passed_over(
    before: Seq<AnthropicContentView>,
    block: AnthropicContentView,
    after: Seq<AnthropicContentView>,
)
    requires
        message_block(block) is None,
        !is_call()(block),
    ensures
        answer(before + seq![block] + after) == answer(before + after),
{
    let none: Seq<AnthropicContentView> = seq![];
    reveal(Seq::filter);
    assert(none.push(block) =~= seq![block]);
    lemma_message_blocks_push(none, block);
    lemma_message_blocks_add(before, seq![block]);
    lemma_message_blocks_add(before + seq![block], after);
    lemma_message_blocks_add(before, after);
    assert(message_blocks(none) =~= seq![]);
    assert(message_blocks(before) + message_blocks(seq![block]) =~= message_blocks(before));
    lemma_filter_push(none, block, is_call());
    Seq::filter_distributes_over_add(before, seq![block], is_call());
    Seq::filter_distributes_over_add(before + seq![block], after, is_call());
    Seq::filter_distributes_over_add(before, after, is_call());
    assert(none.filter(is_call()) =~= none);
    assert(before.filter(is_call()) + seq![block].filter(is_call()) =~= before.filter(is_call()));
    assert(tool_calls(before + seq![block] + after) =~= tool_calls(before + after));
}

/// The calls of a response are numbered from zero, and there are as many as the response has call
/// blocks.
pub proof fn calls_are_numbered_from_zero(content: Seq<AnthropicContentView>, i: int)
    requires
        0 <= i < tool_calls(content).len() <= usize::MAX,
    ensures
        tool_calls(content).len() == content.filter(is_call()).len(),
        tool_calls(content)[i].index == Some(i as usize),
{
}

/// A response has one choice, the first, which says why the answer ended. Its content is what the
/// texts of its message say, and its tokens are those of the prompt and the completion together.
pub proof fn responses_have_one_choice(response: AnthropicResponseView, created: u64)
    requires
        response.usage.input_tokens + response.usage.output_tokens <= u32::MAX,
    ensures
        ({
            let made = chat_response(response, created);
            &&& made.choices.len() == 1
            &&& made.choices[0].index == 0
            &&& made.choices[0].finish_reason is Some
            &&& made.content == text_of(made.choices[0].message.content)
            &&& made.usage matches Some(usage) && usage.total_tokens == usage.prompt_tokens
                + usage.completion_tokens
        }),
{
}

/// A content block of a response as it was sent, where it is a text or a thought.
pub open spec fn received_block(block: AnthropicContentView) -> JsonView {
    if block.content_type == "text"@ {
        JsonView::Object(
            map!["type"@ => JsonView::Str("text"@), "text"@ => JsonView::Str(block.text->0)],
        )
    } else {
        JsonView::Object(
            with_entry(
                map![
                    "type"@ => JsonView::Str("thinking"@),
                    "thinking"@ => JsonView::Str(block.thinking->0)
                ],
                "signature"@,
                opt_str(block.signature),
            ),
        )
    }
}

/// Whether a content block stands for a message block.
pub open spec fn is_said() -> spec_fn(AnthropicContentView) -> bool {
    |block: AnthropicContentView| message_block(block) is Some
}

proof fn lemma_blocks_round_trip(content: Seq<AnthropicContentView>)
    ensures
        block_wires(message_blocks(content)) == content.filter(is_said()).map_values(
            |block: AnthropicContentView| received_block(block),
        ),
    decreases content.len(),
{
    reveal(Seq::filter);
    let f = |block: AnthropicContentView| received_block(block);
    if content.len() == 0 {
        assert(message_blocks(content) =~= seq![]);
        assert(block_wires(message_blocks(content)) =~= content.filter(is_said()).map_values(f));
    } else {
        let (rest, block) = (content.drop_last(), content.last());
        lemma_blocks_round_trip(rest);
        lemma_message_blocks_push(rest, block);
        assert(rest.push(block) =~= content);
        lemma_filter_push(rest, block, is_said());
        let blocks = message_blocks(rest);
        match message_block(block) {
            Some(found) => {
                assert(found.wire() == received_block(block));
                assert(block_wires(blocks.push(found)) =~= block_wires(blocks).push(found.wire()));
                assert(rest.filter(is_said()).push(block).map_values(f) =~= rest.filter(
                    is_said(),
                ).map_values(f).push(received_block(block)));
            },
            None => {},
        }
    }
}

/// An answer that is sent back keeps what it said: its texts and its thoughts, each thought with
/// its signature, go back as they came and in their order, and its calls come after them.
pub proof fn answers_go_back_as_they_came(content: Seq<AnthropicContentView>)
    ensures
        ({
            let said = content.filter(is_said()).map_values(
                |block: AnthropicContentView| received_block(block),
            );
            let sent = wire_content(answer(content));
            &&& sent.len() == said.len() + content.filter(is_call()).len()
            &&& sent.take(said.len() as int) == said
        }),
{
    let said = content.filter(is_said()).map_values(
        |block: AnthropicContentView| received_block(block),
    );
    let sent = wire_content(answer(content));
    lemma_blocks_round_trip(content);
    assert(block_wires(message_blocks(content)) == said);
    assert(sent.take(said.len() as int) =~= said);
}

/// A call of a response as it was sent.
pub open spec fn received_call(block: AnthropicContentView) -> JsonView {
    JsonView::Object(
        map![
            "type"@ => JsonView::Str("tool_use"@),
            "id"@ => JsonView::Str(block.id->0),
            "name"@ => JsonView::Str(block.name->0),
            "input"@ => block.input->0
        ],
    )
}

/// A call that is sent back goes with the id, the name and the input that it came with, where JSON
/// text keeps the input, and where it is read back as another, only there. This holds of a call
/// with an id, since one without is given one. What a parsed response holds is kept where its
/// numbers are integers and exact fractions and it is no deeper than the parser goes.
pub proof fn calls_go_back_as_they_came(content: Seq<AnthropicContentView>, i: int)
    requires
        0 <= i < content.filter(is_call()).len(),
        content.filter(is_call())[i].id->0.len() > 0,
        content.filter(is_call())[i].input is Some,
    ensures
        ({
            let call = content.filter(is_call())[i];
            let input = call.input->0;
            let sent = wire_content(answer(content))[content.filter(is_said()).len() + i];
            &&& is_kept_as_text(input) ==> sent == received_call(call)
            &&& json_parsed(json_text(input)) is Ok && sent == received_call(call)
                ==> is_kept_as_text(input)
            &&& inputs_read_back(content) && reads_back(input) ==> is_kept_as_text(input)
        }),
{
    let call = content.filter(is_call())[i];
    let input = call.input->0;
    let sent = wire_content(answer(content))[content.filter(is_said()).len() + i];
    content.lemma_filter_pred(is_call(), i);
    content.lemma_filter_contains_rev(is_call(), call);
    answers_go_back_as_they_came(content);
    lemma_blocks_round_trip(content);
    let calls = tool_calls(content);
    assert(calls[i].function.arguments == json_text(input));
    assert(answer(content).tool_calls == Some(calls));
    assert(sent == tool_use(i as nat, calls[i], json_parsed(json_text(input))));
    assert(json_field(sent, "input"@) == Some(
        tool_input(json_text(input), json_parsed(json_text(input))),
    ));
    assert(json_field(received_call(call), "input"@) == Some(input));
    let k = choose|k: int| 0 <= k < content.len() && content[k] == call;
    assert(is_call()(content[k]));
    assert(inputs_read_back(content) ==> input_reads_back(content[k].input));
}

proof fn lemma_calls_alone(content: Seq<AnthropicContentView>)
    requires
        forall|i: int| 0 <= i < content.len() ==> is_call()(#[trigger] content[i]),
    ensures
        content.filter(is_call()) == content,
        content.filter(is_said()).len() == 0,
    decreases content.len(),
{
    reveal(Seq::filter);
    if content.len() > 0 {
        lemma_calls_alone(content.drop_last());
        assert(is_call()(content[content.len() - 1]));
        assert(content.drop_last().push(content.last()) =~= content);
        reveal_strlit("text");
        reveal_strlit("thinking");
        reveal_strlit("tool_use");
        assert("text"@.len() != "tool_use"@.len());
        assert("thinking"@[1] != "tool_use"@[1]);
    }
}

/// A response that is all calls, parsed and put into a request, makes one message of the
/// assistant, whose blocks are the calls as they came. This holds where JSON text keeps their
/// inputs, which it does for integers and exact fractions no deeper than the parser goes.
pub proof fn responses_of_calls_go_back_as_they_came(
    response: AnthropicResponseView,
    created: u64,
    request: ChatRequestView,
    thinking_budget: Option<u32>,
)
    requires
        forall|i: int|
            0 <= i < response.content.len() ==> is_call()(#[trigger] response.content[i])
                && response.content[i].id->0.len() > 0 && response.content[i].input is Some,
        request.messages == seq![chat_response(response, created).choices[0].message],
    ensures
        ({
            let content = response.content;
            let goes_back = wire_request(request, thinking_budget).messages == seq![
                AnthropicMessageView {
                    role: "assistant"@,
                    content: JsonView::Array(
                        content.map_values(|block: AnthropicContentView| received_call(block)),
                    ),
                },
            ];
            &&& (forall|i: int|
                0 <= i < content.len() ==> is_kept_as_text((#[trigger] content[i]).input->0))
                ==> goes_back
            &&& inputs_read_back(content) && (forall|i: int|
                0 <= i < content.len() ==> reads_back((#[trigger] content[i]).input->0))
                ==> goes_back
        }),
{
    let content = response.content;
    let message = answer(content);
    let calls = content.map_values(|block: AnthropicContentView| received_call(block));
    let sent = wire_content(message);
    lemma_calls_alone(content);
    answers_go_back_as_they_came(content);
    assert(message == chat_response(response, created).choices[0].message);
    assert(wire_messages(request.messages) =~= seq![wire_message(message)]) by {
        reveal(Seq::filter);
        let none: Seq<MessageView> = seq![];
        assert(none.push(message) =~= seq![message]);
        lemma_filter_push(none, message, is_spoken());
        assert(none.filter(is_spoken()) =~= none);
    }
    assert forall|i: int| 0 <= i < content.len() implies {
        let input = (#[trigger] content[i]).input->0;
        is_kept_as_text(input) || (inputs_read_back(content) && reads_back(input)) ==> sent[i]
            == calls[i]
    } by {
        assert(content.filter(is_call())[i] == content[i]);
        calls_go_back_as_they_came(content, i);
    }
    if forall|i: int|
        0 <= i < content.len() ==> is_kept_as_text((#[trigger] content[i]).input->0) {
        assert forall|i: int| 0 <= i < content.len() implies sent[i] == calls[i] by {
            assert(is_kept_as_text(content[i].input->0));
        }
        assert(sent =~= calls);
    }
    if inputs_read_back(content) && forall|i: int|
        0 <= i < content.len() ==> reads_back((#[trigger] content[i]).input->0) {
        assert forall|i: int| 0 <= i < content.len() implies sent[i] == calls[i] by {
            assert(reads_back(content[i].input->0));
        }
        assert(sent =~= calls);
    }
}

// Addresses and headers.

proof fn lemma_without_trailing(text: Seq<char>, c: char)
    ensures
        without_trailing(text, c).len() == 0 || without_trailing(text, c).last() != c,
        text.len() == 0 || text.last() != c ==> without_trailing(text, c) == text,
    decreases text.len(),
{
    if text.len() > 0 && text.last() == c {
        lemma_without_trailing(text.drop_last(), c);
    }
}

/// A slash at the end of the base address does not matter.
pub proof fn trailing_slash_does_not_matter(base_url: Seq<char>)
    ensures
        endpoint(base_url.push('/')) == endpoint(base_url),
{
    assert(base_url.push('/').drop_last() =~= base_url);
}

/// Naming the version in the base address does not matter, where it is not named already.
pub proof fn named_version_does_not_matter(base_url: Seq<char>)
    requires
        base_url.len() > 0 ==> base_url.last() != '/',
        !ends_in(base_url, "/v1"@),
    ensures
        endpoint(base_url + "/v1"@) == endpoint(base_url),
{
    reveal_strlit("/v1");
    reveal_strlit("/messages");
    reveal_strlit("/v1/messages");
    let named = base_url + "/v1"@;
    lemma_without_trailing(base_url, '/');
    lemma_without_trailing(named, '/');
    assert(named.subrange(named.len() - 3, named.len() as int) =~= "/v1"@);
    assert("/v1/messages"@ =~= "/v1"@ + "/messages"@);
    assert(named + "/messages"@ =~= base_url + "/v1/messages"@);
}

/// Chat requests go to the messages of the first version of the API, whatever the base address.
pub proof fn endpoint_names_messages(base_url: Seq<char>)
    ensures
        ends_in(endpoint(base_url), "/v1/messages"@),
{
    reveal_strlit("/v1");
    reveal_strlit("/messages");
    reveal_strlit("/v1/messages");
    let base = without_trailing(base_url, '/');
    let url = endpoint(base_url);
    let n = "/v1/messages"@.len();
    if ends_in(base, "/v1"@) {
        assert("/v1/messages"@ =~= "/v1"@ + "/messages"@);
        let head = base.take(base.len() - 3);
        assert(base =~= head + base.subrange(base.len() - 3, base.len() as int));
        assert(url =~= head + "/v1/messages"@);
        assert(url.subrange(url.len() - n, url.len() as int) =~= "/v1/messages"@);
    } else {
        assert(url.subrange(url.len() - n, url.len() as int) =~= "/v1/messages"@);
    }
}

/// The headers of a request are those that carry its key, and the version of the API after them.
pub proof fn headers_carry_key_and_version(api_key: Seq<char>)
    ensures
        request_headers(api_key) == key_headers(api_key) + seq![
            ("anthropic-version"@, "2023-06-01"@),
        ],
        key_headers(api_key) == seq![("x-api-key"@, api_key)],
{
    assert(request_headers(api_key) =~= key_headers(api_key) + seq![
        ("anthropic-version"@, "2023-06-01"@),
    ]);
}

// Errors.

/// The message of an error.
pub open spec fn message_of(error: LlmConnectorErrorView) -> Seq<char> {
    match error {
        LlmConnectorErrorView::ParseError(text) => text,
        LlmConnectorErrorView::InvalidRequest(text) => text,
        LlmConnectorErrorView::AuthenticationError(text) => text,
        LlmConnectorErrorView::PermissionError(text) => text,
        LlmConnectorErrorView::RateLimitError(text) => text,
        LlmConnectorErrorView::ServerError(text) => text,
        LlmConnectorErrorView::ApiError(text) => text,
        LlmConnectorErrorView::ContextLengthExceeded(text) => text,
    }
}

/// Every error hands on what the provider said: its message ends in the provider's.
pub proof fn errors_hand_on_the_message(status: u16, info: JsonView)
    ensures
        error_message(info).is_suffix_of(message_of(meant_error(status, info))),
{
    let said = error_message(info);
    let text = message_of(meant_error(status, info));
    assert(said =~= text.skip(text.len() - said.len()));
}

/// A context overflow is recognised whatever the status, and nothing else is taken for one.
pub proof fn overflow_is_recognised_at_any_status(a: u16, b: u16, info: JsonView)
    ensures
        is_context_overflow(info) <==> meant_error(a, info) is ContextLengthExceeded,
        is_context_overflow(info) ==> meant_error(a, info) == meant_error(b, info),
{
}

/// Errors that are no context overflow are told apart by the status alone.
pub proof fn status_tells_errors_apart(status: u16, info: JsonView)
    requires
        !is_context_overflow(info),
    ensures
        meant_error(status, info) is InvalidRequest <==> status == 400,
        meant_error(status, info) is AuthenticationError <==> status == 401,
        meant_error(status, info) is PermissionError <==> status == 403,
        meant_error(status, info) is RateLimitError <==> status == 429,
        meant_error(status, info) is ServerError <==> 500 <= status <= 599,
        !(meant_error(status, info) is ParseError),
{
}

// Streams.

/// The id of the message in progress after some events.
pub open spec fn id_after_all(
    message_id: Seq<char>,
    events: Seq<Result<JsonView, Seq<char>>>,
) -> Seq<char>
    decreases events.len(),
{
    if events.len() == 0 {
        message_id
    } else {
        id_after(id_after_all(message_id, events.drop_last()), events.last())
    }
}

/// Whether an event opens a message.
pub open spec fn opens_message(event: Result<JsonView, Seq<char>>) -> bool {
    event matches Ok(tree) && event_type(tree) == "message_start"@ && opened_id(tree) is Some
}

proof fn lemma_id_is_kept(message_id: Seq<char>, events: Seq<Result<JsonView, Seq<char>>>)
    requires
        forall|i: int| 0 <= i < events.len() ==> !opens_message(#[trigger] events[i]),
    ensures
        id_after_all(message_id, events) == message_id,
    decreases events.len(),
{
    if events.len() > 0 {
        lemma_id_is_kept(message_id, events.drop_last());
        assert(!opens_message(events[events.len() - 1]));
    }
}

/// The parts of a streamed message carry the id that the message was opened with, however many
/// events came between.
pub proof fn parts_carry_the_opened_id(
    message_id: Seq<char>,
    start: JsonView,
    between: Seq<Result<JsonView, Seq<char>>>,
    text: Seq<char>,
    part: JsonView,
)
    requires
        opens_message(Ok(start)),
        forall|i: int| 0 <= i < between.len() ==> !opens_message(#[trigger] between[i]),
        carries_part(part),
    ensures
        step_for(
            id_after_all(id_after(message_id, Ok(start)), between),
            text,
            Ok(part),
        ) == Ok::<StreamStepView, LlmConnectorErrorView>(
            StreamStepView::Interpret { event: part, message_id: opened_id(start)->0 },
        ),
{
    lemma_id_is_kept(id_after(message_id, Ok(start)), between);
}

/// An event that is not JSON is refused and leaves the message in progress as it was.
pub proof fn refused_events_change_nothing(
    message_id: Seq<char>,
    text: Seq<char>,
    message: Seq<char>,
)
    ensures
        step_for(message_id, text, Err(message)) is Err,
        id_after(message_id, Err(message)) == message_id,
{
}

} // verus!
