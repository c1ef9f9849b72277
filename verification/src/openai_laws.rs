//! What holds of every conversion for OpenAI-compatible providers.

use vstd::prelude::*;

use crate::block::MessageBlockView;
use crate::capabilities::{
    ContentBlockMode, EmptyAssistantToolContentStrategy, StreamReasoningStrategy,
};
use crate::chat::ChatRequestView;
use crate::json::{json_field, json_text_field, opt_str, JsonView};
use crate::message::{text_of, MessageView};
use crate::openai_compatible::{
    embeds_reasoning, lemma_tags_apart, mapped_messages, mapped_response_format, mapped_tool_choice,
    normalized, OpenAICompatibleCapabilities,
};
use crate::request::{
    append_line, complex_blocks, exported_reasoning, is_complex, is_silent_tool_call, join_lines,
    lemma_filter_push, openai_block, openai_content, openai_message, openai_messages, opt_calls,
    or_empty, reasoning_lines, role_name, says_something, text_content, text_message, text_messages,
    thoughts, visible_blocks,
};
use crate::text::{find, is_white_space, lemma_find, trim, trim_end, trim_start};

verus! {

/// Every block but thinking becomes a `text` or an `image_url`. In particular none is sent as an
/// `image`, which only Anthropic knows.
pub proof fn blocks_become_text_or_image_url(block: MessageBlockView)
    requires
        !(block is Thinking),
    ensures
        json_text_field(openai_block(block), "type"@) == Some("text"@) || json_text_field(
            openai_block(block),
            "type"@,
        ) == Some("image_url"@),
        json_text_field(openai_block(block), "type"@) != Some("image"@),
{
    reveal_strlit("type");
    reveal_strlit("text");
    reveal_strlit("image");
    reveal_strlit("image_url");
    assert("type"@[1] != "text"@[1]);
    assert("type"@.len() != "image_url"@.len());
    assert("image"@.len() != "image_url"@.len());
    assert("image"@.len() != "text"@.len());
}

/// A content that is sent as a list holds only texts and images by their address: no thinking is
/// among them.
pub proof fn content_lists_hold_text_and_images(
    msg: MessageView,
    strategy: EmptyAssistantToolContentStrategy,
    i: int,
)
    requires
        openai_content(msg, strategy) matches JsonView::Array(items) && 0 <= i < items.len(),
    ensures
        json_text_field(openai_content(msg, strategy)->Array_0[i], "type"@) == Some("text"@)
            || json_text_field(openai_content(msg, strategy)->Array_0[i], "type"@) == Some(
            "image_url"@,
        ),
{
    let pred = |block: MessageBlockView| !(block is Thinking);
    msg.content.lemma_filter_pred(pred, i);
    blocks_become_text_or_image_url(visible_blocks(msg.content)[i]);
}

/// Each entry of a converted message is found under its key, and an entry for which the message
/// has no value is not there.
pub proof fn message_entries_are_found(
    msg: MessageView,
    strategy: EmptyAssistantToolContentStrategy,
)
    ensures
        json_field(openai_message(msg, strategy), "role"@) == Some(
            JsonView::Str(role_name(msg.role)),
        ),
        json_field(openai_message(msg, strategy), "content"@) == Some(
            openai_content(msg, strategy),
        ),
        json_field(openai_message(msg, strategy), "tool_calls"@) == opt_calls(msg.tool_calls),
        json_field(openai_message(msg, strategy), "tool_call_id"@) == opt_str(msg.tool_call_id),
        json_field(openai_message(msg, strategy), "name"@) == opt_str(msg.name),
        json_field(openai_message(msg, strategy), "reasoning_content"@) == opt_str(
            exported_reasoning(msg, join_lines(thoughts(msg.content))),
        ),
{
    reveal_strlit("role");
    reveal_strlit("content");
    reveal_strlit("tool_calls");
    reveal_strlit("tool_call_id");
    reveal_strlit("name");
    reveal_strlit("reasoning_content");
    assert("role"@[0] != "name"@[0]);
    assert("role"@.len() == 4);
    assert("content"@.len() == 7);
    assert("tool_calls"@.len() == 10);
    assert("tool_call_id"@.len() == 12);
    assert("name"@.len() == 4);
    assert("reasoning_content"@.len() == 17);
}

/// Thinking that says something is handed on: the reasoning of the converted message ends in it.
pub proof fn thinking_becomes_reasoning(
    msg: MessageView,
    strategy: EmptyAssistantToolContentStrategy,
)
    requires
        join_lines(thoughts(msg.content)).len() > 0,
    ensures
        json_text_field(openai_message(msg, strategy), "reasoning_content"@) matches Some(reasoning)
            && join_lines(thoughts(msg.content)).is_suffix_of(reasoning),
{
    let thinking = join_lines(thoughts(msg.content));
    let own = match msg.reasoning_content {
        Some(text) => seq![text],
        None => seq![
            or_empty(msg.reasoning),
            or_empty(msg.thought),
            or_empty(msg.thinking),
        ],
    };
    let kept = own.filter(says_something());
    message_entries_are_found(msg, strategy);
    lemma_filter_push(own, thinking, says_something());
    assert(kept.push(thinking).drop_last() =~= kept);
    let reasoning = append_line(join_lines(kept), thinking);
    assert(exported_reasoning(msg, thinking) == Some(reasoning));
    assert(thinking =~= reasoning.skip(reasoning.len() - thinking.len()));
}

/// Thinking alone that a message carries becomes its reasoning as it is.
pub proof fn thinking_alone_is_the_reasoning(
    msg: MessageView,
    strategy: EmptyAssistantToolContentStrategy,
)
    requires
        join_lines(thoughts(msg.content)).len() > 0,
        msg.reasoning_content is None,
        msg.reasoning is None,
        msg.thought is None,
        msg.thinking is None,
    ensures
        json_text_field(openai_message(msg, strategy), "reasoning_content"@) == Some(
            join_lines(thoughts(msg.content)),
        ),
{
    let thinking = join_lines(thoughts(msg.content));
    let none: Seq<Seq<char>> = seq![];
    let own: Seq<Seq<char>> = seq![seq![], seq![], seq![]];
    message_entries_are_found(msg, strategy);
    reveal(Seq::filter);
    lemma_filter_push(none, seq![], says_something());
    lemma_filter_push(none.push(seq![]), seq![], says_something());
    lemma_filter_push(none.push(seq![]).push(seq![]), seq![], says_something());
    assert(own =~= none.push(seq![]).push(seq![]).push(seq![]));
    lemma_filter_push(own, thinking, says_something());
    assert(reasoning_lines(msg, thinking) =~= seq![thinking]);
    assert(seq![thinking].drop_last() =~= none);
    assert(join_lines(seq![thinking]) == append_line(join_lines(none), thinking));
}

/// Where `reasoning_content` is given, the other three reasoning fields do not matter.
pub proof fn reasoning_content_takes_precedence(
    msg: MessageView,
    other: MessageView,
    thinking: Seq<char>,
)
    requires
        msg.reasoning_content is Some,
        other.reasoning_content == msg.reasoning_content,
    ensures
        exported_reasoning(msg, thinking) == exported_reasoning(other, thinking),
{
}

/// Thinking does not change what is shown: two messages that differ in their thinking only have
/// the same content.
pub proof fn thinking_leaves_content_alone(
    msg: MessageView,
    other: MessageView,
    strategy: EmptyAssistantToolContentStrategy,
)
    requires
        msg.role == other.role,
        msg.tool_calls == other.tool_calls,
        visible_blocks(msg.content) == visible_blocks(other.content),
        msg.content.len() == 0 <==> other.content.len() == 0,
    ensures
        openai_content(msg, strategy) == openai_content(other, strategy),
{
}

/// The strategy for empty contents matters to no other message.
pub proof fn strategy_is_for_silent_calls_only(
    msg: MessageView,
    a: EmptyAssistantToolContentStrategy,
    b: EmptyAssistantToolContentStrategy,
)
    requires
        !is_silent_tool_call(msg),
    ensures
        openai_message(msg, a) == openai_message(msg, b),
        text_message(msg, a) == text_message(msg, b),
{
}

proof fn lemma_text_of_visible(content: Seq<MessageBlockView>)
    ensures
        text_of(visible_blocks(content)) == text_of(content),
    decreases content.len(),
{
    reveal(Seq::filter);
    if content.len() > 0 {
        lemma_text_of_visible(content.drop_last());
        let shown = visible_blocks(content.drop_last());
        if !(content.last() is Thinking) {
            assert(shown.push(content.last()).drop_last() =~= shown);
        }
    } else {
        assert(visible_blocks(content) =~= content);
    }
}

/// A message that shows one text is converted alike for every provider, whether or not it takes
/// more than text.
pub proof fn converters_agree_on_one_text(
    msg: MessageView,
    strategy: EmptyAssistantToolContentStrategy,
)
    requires
        visible_blocks(msg.content).len() == 1,
        visible_blocks(msg.content)[0] is Text,
    ensures
        openai_message(msg, strategy) == text_message(msg, strategy),
{
    let shown = visible_blocks(msg.content);
    lemma_text_of_visible(msg.content);
    assert(msg.content.len() > 0) by {
        reveal(Seq::filter);
    }
    let none: Seq<MessageBlockView> = seq![];
    assert(shown.drop_last() =~= none);
    assert(text_of(none) =~= seq![]);
    assert(text_of(shown) =~= text_of(none) + shown[0]->text);
    assert(openai_content(msg, strategy) == text_content(msg, strategy));
}

/// The content that a provider of text alone is sent is a text, or null where an empty content is
/// to be null.
pub proof fn text_content_is_text(msg: MessageView, strategy: EmptyAssistantToolContentStrategy)
    ensures
        text_content(msg, strategy) == JsonView::Str(text_of(msg.content)) || (text_content(
            msg,
            strategy,
        ) == JsonView::Null && strategy == EmptyAssistantToolContentStrategy::Null
            && is_silent_tool_call(msg)),
{
}

proof fn lemma_complex_blocks_add(a: Seq<MessageView>, b: Seq<MessageView>)
    ensures
        complex_blocks(a + b) == complex_blocks(a) + complex_blocks(b),
    decreases b.len(),
{
    if b.len() == 0 {
        assert(a + b =~= a);
        assert(complex_blocks(a) + complex_blocks(b) =~= complex_blocks(a));
    } else {
        lemma_complex_blocks_add(a, b.drop_last());
        assert((a + b).drop_last() =~= a + b.drop_last());
        assert(complex_blocks(a + b) =~= complex_blocks(a) + complex_blocks(b));
    }
}

/// Messages are converted one by one: a chat in two parts is converted part by part. Where text
/// alone is taken, the first part that is refused refuses the chat.
pub proof fn conversion_is_by_message(
    a: Seq<MessageView>,
    b: Seq<MessageView>,
    strategy: EmptyAssistantToolContentStrategy,
)
    ensures
        openai_messages(a + b, strategy) == openai_messages(a, strategy) + openai_messages(
            b,
            strategy,
        ),
        text_messages(a + b, strategy) == match (
            text_messages(a, strategy),
            text_messages(b, strategy),
        ) {
            (Ok(x), Ok(y)) => Ok(x + y),
            (Err(error), _) => Err(error),
            (Ok(_), Err(error)) => Err(error),
        },
{
    assert(openai_messages(a + b, strategy) =~= openai_messages(a, strategy) + openai_messages(
        b,
        strategy,
    ));
    lemma_complex_blocks_add(a, b);
    let f = |msg: MessageView| text_message(msg, strategy);
    assert((a + b).map_values(f) =~= a.map_values(f) + b.map_values(f));
}

/// A chat is refused by providers of text alone exactly where some message has a block that is
/// more than text.
pub proof fn text_alone_refuses_complex_blocks(
    messages: Seq<MessageView>,
    strategy: EmptyAssistantToolContentStrategy,
)
    ensures
        text_messages(messages, strategy) is Err <==> exists|i: int, j: int|
            0 <= i < messages.len() && 0 <= j < messages[i].content.len() && is_complex()(
                #[trigger] messages[i].content[j],
            ),
    decreases messages.len(),
{
    if messages.len() > 0 {
        let rest = messages.drop_last();
        let content = messages.last().content;
        text_alone_refuses_complex_blocks(rest, strategy);
        assert(forall|i: int| 0 <= i < rest.len() ==> rest[i] == messages[i]);
        if content.filter(is_complex()).len() > 0 {
            let found = content.filter(is_complex())[0];
            content.lemma_filter_pred(is_complex(), 0);
            content.lemma_filter_contains_rev(is_complex(), found);
            let j = choose|j: int| 0 <= j < content.len() && content[j] == found;
            assert(is_complex()(messages[messages.len() - 1].content[j]));
        }
        if complex_blocks(rest).len() > 0 {
            let (i, j) = choose|i: int, j: int|
                0 <= i < rest.len() && 0 <= j < rest[i].content.len() && is_complex()(
                    #[trigger] rest[i].content[j],
                );
            assert(is_complex()(messages[i].content[j]));
        }
        assert forall|i: int, j: int|
            0 <= i < messages.len() && 0 <= j < messages[i].content.len() && is_complex()(
                #[trigger] messages[i].content[j],
            ) implies complex_blocks(messages).len() > 0 by {
            if i == messages.len() - 1 {
                content.lemma_filter_contains(is_complex(), j);
            } else {
                assert(is_complex()(rest[i].content[j]));
            }
        }
    }
}

/// A provider with native messages is sent the same messages as one with content blocks.
pub proof fn native_messages_are_standard(
    request: ChatRequestView,
    a: OpenAICompatibleCapabilities,
    b: OpenAICompatibleCapabilities,
)
    requires
        a.content_block_mode == ContentBlockMode::NativeMessage,
        b.content_block_mode == ContentBlockMode::Standard,
        a.empty_assistant_tool_content_strategy == b.empty_assistant_tool_content_strategy,
    ensures
        mapped_messages(request, a) == mapped_messages(request, b),
{
}

/// What a provider cannot take is not sent.
pub proof fn unsupported_parts_are_left_out(
    request: ChatRequestView,
    capabilities: OpenAICompatibleCapabilities,
)
    ensures
        !capabilities.supports_tool_choice ==> mapped_tool_choice(request, capabilities) is None,
        !capabilities.supports_response_format ==> mapped_response_format(request, capabilities)
            is None,
{
}

/// Setting the reasoning apart takes the content to pieces and loses none of them: what stood
/// before the opening tag, the reasoning, and what stood after the closing tag.
pub proof fn normalizing_keeps_every_piece(
    content: Seq<char>,
    strategy: StreamReasoningStrategy,
)
    requires
        embeds_reasoning(content, None, strategy),
        find(content, "<think>"@)->0 <= find(content, "</think>"@)->0,
    ensures
        ({
            let open = find(content, "<think>"@)->0;
            let close = find(content, "</think>"@)->0;
            let before = content.take(open);
            let after = content.skip(close + "</think>"@.len());
            &&& normalized(content, None, strategy).reasoning matches Some(reasoning) && content
                == before + "<think>"@ + reasoning + "</think>"@ + after
            &&& normalized(content, None, strategy).content == trim(before + after)
        }),
{
    let open = find(content, "<think>"@)->0;
    let close = find(content, "</think>"@)->0;
    lemma_find(content, "<think>"@);
    lemma_find(content, "</think>"@);
    lemma_tags_apart(content, open, close);
    let reasoning = content.subrange(open + "<think>"@.len() as int, close);
    let before = content.take(open);
    let after = content.skip(close + "</think>"@.len());
    assert(content.subrange(open, open + "<think>"@.len()) == "<think>"@);
    assert(content.subrange(close, close + "</think>"@.len()) == "</think>"@);
    assert(content =~= before + content.subrange(open, open + "<think>"@.len()) + reasoning
        + content.subrange(close, close + "</think>"@.len()) + after);
}

/// A content whose reasoning is not embedded is left as it is.
pub proof fn normalizing_leaves_others_alone(
    content: Seq<char>,
    reasoning: Option<Seq<char>>,
    strategy: StreamReasoningStrategy,
)
    requires
        strategy == StreamReasoningStrategy::SeparateField || reasoning is Some || find(
            content,
            "<think>"@,
        ) is None || find(content, "</think>"@) is None,
    ensures
        normalized(content, reasoning, strategy).content == content,
        normalized(content, reasoning, strategy).reasoning == reasoning,
{
}

/// Setting the reasoning apart a second time changes nothing.
pub proof fn normalizing_twice_is_once(
    content: Seq<char>,
    reasoning: Option<Seq<char>>,
    strategy: StreamReasoningStrategy,
)
    ensures
        ({
            let once = normalized(content, reasoning, strategy);
            normalized(once.content, once.reasoning, strategy) == once
        }),
{
}

proof fn lemma_trim_start(text: Seq<char>)
    ensures
        trim_start(text).len() == 0 || !is_white_space(trim_start(text).first()),
    decreases text.len(),
{
    if text.len() > 0 && is_white_space(text.first()) {
        lemma_trim_start(text.drop_first());
    }
}

proof fn lemma_trim_end(text: Seq<char>)
    ensures
        trim_end(text).is_prefix_of(text),
        trim_end(text).len() == 0 || !is_white_space(trim_end(text).last()),
    decreases text.len(),
{
    if text.len() > 0 && is_white_space(text.last()) {
        lemma_trim_end(text.drop_last());
    }
}

/// A content from which reasoning was taken has no white space at its ends.
pub proof fn normalized_content_is_trimmed(
    content: Seq<char>,
    strategy: StreamReasoningStrategy,
)
    requires
        embeds_reasoning(content, None, strategy),
    ensures
        ({
            let kept = normalized(content, None, strategy).content;
            kept.len() > 0 ==> !is_white_space(kept.first()) && !is_white_space(kept.last())
        }),
{
    let open = find(content, "<think>"@)->0;
    let close = find(content, "</think>"@)->0;
    let around = content.take(open) + content.skip(close + "</think>"@.len());
    lemma_trim_start(around);
    lemma_trim_end(trim_start(around));
}

} // verus!
