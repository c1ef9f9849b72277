//! What the conversions for OpenAI-compatible providers do, stated of the operations themselves:
//! of what goes into them and what comes out.

use vstd::prelude::*;
use vstd::utf8::encode_utf8;

use crate::block::{DocumentSource, ImageSource, MessageBlock, MessageBlockView};
use crate::capabilities::{
    ContentBlockMode, EmptyAssistantToolContentStrategy, ReasoningRequestParts,
    ReasoningRequestStrategy, StreamReasoningStrategy,
};
use crate::chat::{ChatRequest, ChatResponse};
use crate::error::LlmConnectorError;
use crate::json::{json_field, json_view, json_views, opt_json, opt_jsons, JsonView};
use crate::message::{Message, Role};
use crate::model_laws::{
    carries_call, holds_text, is_blank, lemma_call_is_carried, lemma_said, lemma_trimmed, said,
};
use crate::openai_compatible::{
    build_openai_compatible_request_parts, embeds_reasoning, map_openai_compatible_messages,
    map_openai_compatible_response_format, map_openai_compatible_tool_calls,
    map_openai_compatible_tool_choice, map_openai_compatible_tools,
    normalize_openai_compatible_content, parse_openai_compatible_chat_response, NormalizedContent,
    OpenAICompatibleCapabilities, OpenAICompatibleRequestParts,
};
use crate::request::{
    block_to_openai_value, blocks_to_openai_content, complex_blocks, exported_reasoning, is_complex,
    join_lines, lemma_filter_push, openai_block, openai_content, openai_entries,
    openai_export_reasoning_content, openai_message, openai_message_converter,
    openai_message_converter_downgrade, openai_message_converter_downgrade_with_strategy,
    openai_message_converter_with_strategy, partition_openai_visible_blocks, says_something,
    serialize_empty_assistant_tool_content, should_use_empty_assistant_tool_content_override,
    text_content, text_message, thoughts, visible_blocks,
};
use crate::text::{decimal, find, first_at, is_white_space, lemma_find, occurs_at, opt_view, views};
use crate::tool::{ToolCall, ToolChoice};

verus! {

// Blocks.

/// Whether a block is shown to the provider: it is a text, an image or a document.
pub open spec fn is_shown() -> spec_fn(MessageBlock) -> bool {
    |block: MessageBlock|
        block is Text || block is Image || block is ImageUrl || block is Document
            || block is DocumentUrl
}

/// The blocks of a content that are shown, in their order.
pub open spec fn shown(content: Seq<MessageBlock>) -> Seq<MessageBlock> {
    content.filter(is_shown())
}

/// Whether a block is an image or a document, which a provider of text alone does not take.
pub open spec fn is_more_than_text(block: MessageBlock) -> bool {
    block is Image || block is ImageUrl || block is Document || block is DocumentUrl
}

/// What the thoughts of some blocks say, each on a line of its own.
pub open spec fn thought(content: Seq<MessageBlock>) -> Seq<char>
    decreases content.len(),
{
    if content.len() == 0 {
        seq![]
    } else {
        let before = thought(content.drop_last());
        match content.last() {
            MessageBlock::Thinking { thinking, .. } => if before.len() == 0 {
                thinking@
            } else {
                before + "\n"@ + thinking@
            },
            _ => before,
        }
    }
}

/// Whether a tree is a text in OpenAI's form.
pub open spec fn is_text_part(text: Seq<char>, sent: JsonView) -> bool {
    sent == JsonView::Object(
        map!["type"@ => JsonView::Str("text"@), "text"@ => JsonView::Str(text)],
    )
}

/// Whether a tree is an image by its address in OpenAI's form.
pub open spec fn is_image_part(url: Seq<char>, sent: JsonView) -> bool {
    sent == JsonView::Object(
        map![
            "type"@ => JsonView::Str("image_url"@),
            "image_url"@ => JsonView::Object(map!["url"@ => JsonView::Str(url)])
        ],
    )
}

/// Whether a tree shows a block in OpenAI's form: a text by its text, an image by its address or by
/// an address that holds its data, and a document by a text that names it.
pub open spec fn shows_block(block: MessageBlock, sent: JsonView) -> bool {
    match block {
        MessageBlock::Text { text } => is_text_part(text@, sent),
        MessageBlock::ImageUrl { image_url } => is_image_part(image_url.url@, sent),
        MessageBlock::Image { source: ImageSource::Url { url } } => is_image_part(url@, sent),
        MessageBlock::Image { source: ImageSource::Base64 { media_type, data } } => is_image_part(
            "data:"@ + media_type@ + ";base64,"@ + data@,
            sent,
        ),
        MessageBlock::Document { source: DocumentSource::Base64 { media_type, data } } =>
        is_text_part(
            "[Document: "@ + media_type@ + " (base64, "@ + decimal(encode_utf8(data@).len())
                + " chars)]"@,
            sent,
        ),
        MessageBlock::DocumentUrl { document_url } => is_text_part(
            "[Document: "@ + document_url.url@ + "]"@,
            sent,
        ),
        MessageBlock::Thinking { .. } => false,
    }
}

/// A block that is shown keeps what it holds, and thinking is never shown.
pub proof fn blocks_are_shown_in_openai_form(block: &MessageBlock, value: serde_json::Value)
    requires
        call_ensures(block_to_openai_value, (block,), value),
    ensures
        is_shown()(*block) ==> shows_block(*block, json_view(value)),
        !is_shown()(*block) ==> json_view(value) == JsonView::Null,
{
    lemma_block_is_shown(*block);
}

proof fn lemma_block_is_shown(block: MessageBlock)
    ensures
        is_shown()(block) ==> shows_block(block, openai_block(block@)),
        !is_shown()(block) ==> openai_block(block@) == JsonView::Null,
{
}

/// Every block of a list is converted, in its place.
pub proof fn lists_of_blocks_are_converted_one_by_one(
    blocks: &[MessageBlock],
    values: Vec<serde_json::Value>,
    i: int,
)
    requires
        call_ensures(blocks_to_openai_content, (blocks,), values),
        0 <= i < blocks@.len(),
    ensures
        values@.len() == blocks@.len(),
        is_shown()(blocks@[i]) ==> shows_block(blocks@[i], json_view(values@[i])),
{
    lemma_block_is_shown(blocks@[i]);
    assert(json_views(values@).len() == values@.len());
    assert(json_views(values@)[i] == json_view(values@[i]));
    assert(views(blocks@)[i] == blocks@[i]@);
}

pub(crate) proof fn lemma_views_filter<T: View>(
    items: Seq<T>,
    p: spec_fn(T) -> bool,
    q: spec_fn(T::V) -> bool,
)
    requires
        forall|item: T| #[trigger] p(item) == q(item@),
    ensures
        views(items.filter(p)) == views(items).filter(q),
    decreases items.len(),
{
    if items.len() == 0 {
        reveal(Seq::filter);
        assert(views(items.filter(p)) =~= views(items).filter(q));
    } else {
        let (rest, last) = (items.drop_last(), items.last());
        lemma_views_filter(rest, p, q);
        lemma_filter_push(rest, last, p);
        lemma_filter_push(views(rest), last@, q);
        assert(rest.push(last) =~= items);
        assert(views(rest).push(last@) =~= views(items));
        assert(p(last) == q(last@));
        assert(views(rest.filter(p).push(last)) =~= views(rest.filter(p)).push(last@));
    }
}

proof fn lemma_shown(content: Seq<MessageBlock>)
    ensures
        views(shown(content)) == visible_blocks(views(content)),
{
    lemma_views_filter(
        content,
        is_shown(),
        |block: MessageBlockView| !(block is Thinking),
    );
}

proof fn lemma_thought(content: Seq<MessageBlock>)
    ensures
        join_lines(thoughts(views(content))) == thought(content),
    decreases content.len(),
{
    let pred = |block: MessageBlockView| block is Thinking;
    if content.len() == 0 {
        reveal(Seq::filter);
        assert(thoughts(views(content)) =~= seq![]);
    } else {
        let (rest, last) = (content.drop_last(), content.last());
        lemma_thought(rest);
        lemma_filter_push(views(rest), last@, pred);
        assert(views(rest).push(last@) =~= views(content));
        let lines = thoughts(views(rest));
        if last is Thinking {
            assert(thoughts(views(content)) =~= lines.push(last@->thinking));
            assert(lines.push(last@->thinking).drop_last() =~= lines);
        } else {
            assert(thoughts(views(content)) =~= lines);
        }
    }
}

/// A content is split into the blocks that are shown, all of them and in their order, and what its
/// thoughts say.
pub proof fn contents_are_split_into_shown_and_thought(
    content: &[MessageBlock],
    parts: (Vec<MessageBlock>, String),
)
    requires
        call_ensures(partition_openai_visible_blocks, (content,), parts),
    ensures
        parts.0@.len() == shown(content@).len(),
        forall|i: int| 0 <= i < parts.0@.len() ==> (#[trigger] parts.0@[i])@ == shown(content@)[i]@,
        parts.1@ == thought(content@),
{
    lemma_shown(content@);
    lemma_thought(content@);
    assert(views(parts.0@).len() == parts.0@.len());
    assert(views(shown(content@)).len() == shown(content@).len());
    assert forall|i: int| 0 <= i < parts.0@.len() implies (#[trigger] parts.0@[i])@ == shown(
        content@,
    )[i]@ by {
        assert(views(parts.0@)[i] == parts.0@[i]@);
        assert(views(shown(content@))[i] == shown(content@)[i]@);
    }
}

// Reasoning.

/// A text with a line after it. One that says nothing is left out.
pub open spec fn then_line(text: Seq<char>, line: Seq<char>) -> Seq<char> {
    if line.len() == 0 {
        text
    } else if text.len() == 0 {
        line
    } else {
        text + "\n"@ + line
    }
}

/// What an optional text says.
pub open spec fn what_is_said(text: Option<String>) -> Seq<char> {
    match text {
        Some(text) => text@,
        None => seq![],
    }
}

/// The reasoning that a message hands on, with what its blocks thought: its `reasoning_content`
/// where there is one, or else its `reasoning`, its `thought` and its `thinking`, and then the
/// thoughts, each that says something on lines of its own.
pub open spec fn handed_on(msg: Message, thinking: Seq<char>) -> Seq<char> {
    let own = match msg.reasoning_content {
        Some(text) => text@,
        None => then_line(
            then_line(what_is_said(msg.reasoning), what_is_said(msg.thought)),
            what_is_said(msg.thinking),
        ),
    };
    then_line(own, thinking)
}

proof fn lemma_lines(lines: Seq<Seq<char>>, line: Seq<char>)
    ensures
        join_lines(lines.push(line).filter(says_something())) == then_line(
            join_lines(lines.filter(says_something())),
            line,
        ),
{
    lemma_filter_push(lines, line, says_something());
    let kept = lines.filter(says_something());
    assert(kept.push(line).drop_last() =~= kept);
}

proof fn lemma_lines_len(lines: Seq<Seq<char>>)
    ensures
        join_lines(lines.filter(says_something())).len() == 0 <==> lines.filter(
            says_something(),
        ).len() == 0,
    decreases lines.len(),
{
    reveal(Seq::filter);
    if lines.len() > 0 {
        lemma_lines_len(lines.drop_last());
        lemma_lines(lines.drop_last(), lines.last());
        lemma_filter_push(lines.drop_last(), lines.last(), says_something());
        assert(lines.drop_last().push(lines.last()) =~= lines);
        reveal_strlit("\n");
    }
}

proof fn lemma_handed_on(msg: Message, thinking: Seq<char>)
    ensures
        exported_reasoning(msg@, thinking) == (if handed_on(msg, thinking).len() == 0 {
            None
        } else {
            Some(handed_on(msg, thinking))
        }),
{
    reveal(Seq::filter);
    reveal_strlit("\n");
    let none: Seq<Seq<char>> = seq![];
    assert(none.filter(says_something()) =~= none);
    match msg.reasoning_content {
        Some(text) => {
            lemma_lines(none, text@);
            lemma_lines(none.push(text@), thinking);
            lemma_lines_len(none.push(text@).push(thinking));
            assert(none.push(text@).push(thinking) =~= seq![text@].push(thinking));
        },
        None => {
            let (a, b, c) = (
                what_is_said(msg.reasoning),
                what_is_said(msg.thought),
                what_is_said(msg.thinking),
            );
            lemma_lines(none, a);
            lemma_lines(none.push(a), b);
            lemma_lines(none.push(a).push(b), c);
            lemma_lines(none.push(a).push(b).push(c), thinking);
            lemma_lines_len(none.push(a).push(b).push(c).push(thinking));
            assert(none.push(a).push(b).push(c).push(thinking) =~= seq![a, b, c].push(thinking));
        },
    }
}

/// The reasoning of a message is handed on in full, and there is none exactly where it says
/// nothing.
pub proof fn reasoning_is_handed_on(msg: &Message, thinking: &str, exported: Option<String>)
    requires
        call_ensures(openai_export_reasoning_content, (msg, thinking), exported),
    ensures
        match exported {
            Some(text) => text@ == handed_on(*msg, thinking@) && text@.len() > 0,
            None => handed_on(*msg, thinking@).len() == 0,
        },
{
    lemma_handed_on(*msg, thinking@);
}

// Messages.

/// The field of a converted message.
pub open spec fn field(values: Vec<serde_json::Value>, i: int, key: Seq<char>) -> Option<JsonView> {
    json_field(json_view(values@[i]), key)
}

/// Whether a message makes calls as the assistant and has no block.
pub open spec fn is_silent(msg: Message) -> bool {
    msg.role == Role::Assistant && msg.tool_calls is Some && msg.content@.len() == 0
}

/// Whether the entries of a converted message around its content are those of the message: its
/// role, all of its calls, the id that it answers, its name and its reasoning, where it has them,
/// and no other.
pub open spec fn keeps_entries(msg: Message, sent: JsonView) -> bool {
    &&& sent is Object
    &&& json_field(sent, "role"@) == Some(
        JsonView::Str(
            match msg.role {
                Role::System => "system"@,
                Role::User => "user"@,
                Role::Assistant => "assistant"@,
                Role::Tool => "tool"@,
            },
        ),
    )
    &&& match msg.tool_calls {
        Some(calls) => json_field(sent, "tool_calls"@) matches Some(JsonView::Array(items))
            && items.len() == calls@.len() && forall|j: int|
            0 <= j < calls@.len() ==> carries_call(calls@[j], #[trigger] items[j]),
        None => json_field(sent, "tool_calls"@) is None,
    }
    &&& holds_text(sent, "tool_call_id"@, msg.tool_call_id)
    &&& holds_text(sent, "name"@, msg.name)
    &&& json_field(sent, "reasoning_content"@) == (if handed_on(
        msg,
        thought(msg.content@),
    ).len() == 0 {
        None
    } else {
        Some(JsonView::Str(handed_on(msg, thought(msg.content@))))
    })
    &&& json_field(sent, "content"@) is Some
    &&& forall|key: Seq<char>| #[trigger]
        json_field(sent, key) is Some ==> key == "role"@ || key == "content"@ || key
            == "tool_calls"@ || key == "tool_call_id"@ || key == "name"@ || key
            == "reasoning_content"@
}

proof fn lemma_keeps_entries(msg: Message, content: JsonView)
    ensures
        ({
            let sent = JsonView::Object(openai_entries(msg@, content));
            keeps_entries(msg, sent) && json_field(sent, "content"@) == Some(content)
        }),
{
    let sent = JsonView::Object(openai_entries(msg@, content));
    reveal_strlit("role");
    reveal_strlit("content");
    reveal_strlit("tool_calls");
    reveal_strlit("tool_call_id");
    reveal_strlit("name");
    reveal_strlit("reasoning_content");
    assert("role"@[0] != "name"@[0]);
    assert("role"@.len() == 4);
    assert("content"@.len() == 7);
    assert("tool_calls"@.len() == 10);
    assert("tool_call_id"@.len() == 12);
    assert("name"@.len() == 4);
    assert("reasoning_content"@.len() == 17);
    lemma_thought(msg.content@);
    lemma_handed_on(msg, thought(msg.content@));
    match msg.tool_calls {
        Some(calls) => {
            let items = json_field(sent, "tool_calls"@)->0->Array_0;
            assert(items.len() == views(calls@).len());
            assert forall|j: int| 0 <= j < calls@.len() implies carries_call(
                calls@[j],
                #[trigger] items[j],
            ) by {
                lemma_call_is_carried(calls@[j]);
                assert(views(calls@)[j] == calls@[j]@);
            }
        },
        None => {},
    }
}

/// There is one converted message for each message, and it keeps the entries of that message: in
/// particular each of its calls, in its place and with its id, type, name and arguments.
pub proof fn converted_messages_keep_their_entries(
    messages: &[Message],
    strategy: EmptyAssistantToolContentStrategy,
    values: Vec<serde_json::Value>,
    i: int,
)
    requires
        call_ensures(openai_message_converter_with_strategy, (messages, strategy), values),
        0 <= i < messages@.len(),
    ensures
        values@.len() == messages@.len(),
        keeps_entries(messages@[i], json_view(values@[i])),
{
    lemma_converted(messages, strategy, values, i);
    lemma_keeps_entries(messages@[i], openai_content(messages@[i]@, strategy));
}

proof fn lemma_converted(
    messages: &[Message],
    strategy: EmptyAssistantToolContentStrategy,
    values: Vec<serde_json::Value>,
    i: int,
)
    requires
        call_ensures(openai_message_converter_with_strategy, (messages, strategy), values),
        0 <= i < messages@.len(),
    ensures
        values@.len() == messages@.len(),
        json_view(values@[i]) == openai_message(messages@[i]@, strategy),
{
    assert(json_views(values@).len() == values@.len());
    assert(json_views(values@)[i] == json_view(values@[i]));
    assert(views(messages@)[i] == messages@[i]@);
}

/// The content of a converted message is what stands for an empty one where it makes calls and has
/// no block; its text where it shows one text and nothing else; and else the list of the blocks
/// that it shows, all of them and in their order.
pub proof fn converted_messages_show_their_blocks(
    messages: &[Message],
    strategy: EmptyAssistantToolContentStrategy,
    values: Vec<serde_json::Value>,
    i: int,
)
    requires
        call_ensures(openai_message_converter_with_strategy, (messages, strategy), values),
        0 <= i < messages@.len(),
    ensures
        ({
            let msg = messages@[i];
            let blocks = shown(msg.content@);
            let content = field(values, i, "content"@);
            if is_silent(msg) {
                content == Some(
                    match strategy {
                        EmptyAssistantToolContentStrategy::Null => JsonView::Null,
                        EmptyAssistantToolContentStrategy::EmptyString => JsonView::Str(seq![]),
                        EmptyAssistantToolContentStrategy::EmptyArray => JsonView::Array(seq![]),
                    },
                )
            } else if blocks.len() == 1 && blocks[0] is Text {
                content == Some(JsonView::Str(blocks[0]->text@))
            } else {
                content matches Some(JsonView::Array(items)) && items.len() == blocks.len()
                    && forall|k: int|
                    0 <= k < blocks.len() ==> shows_block(blocks[k], #[trigger] items[k])
            }
        }),
{
    let msg = messages@[i];
    let blocks = shown(msg.content@);
    lemma_converted(messages, strategy, values, i);
    lemma_keeps_entries(msg, openai_content(msg@, strategy));
    lemma_shown(msg.content@);
    assert(views(blocks).len() == blocks.len());
    assert(views(msg.content@).len() == msg.content@.len());
    if !is_silent(msg) {
        if blocks.len() == 1 {
            assert(views(blocks)[0] == blocks[0]@);
        }
        if !(blocks.len() == 1 && blocks[0] is Text) {
            let items = field(values, i, "content"@)->0->Array_0;
            assert forall|k: int| 0 <= k < blocks.len() implies shows_block(
                blocks[k],
                #[trigger] items[k],
            ) by {
                msg.content@.lemma_filter_pred(is_shown(), k);
                lemma_block_is_shown(blocks[k]);
                assert(views(blocks)[k] == blocks[k]@);
            }
        }
    }
}

/// The empty list stands for an empty content where no strategy is given.
pub proof fn the_empty_list_is_the_default(
    messages: &[Message],
    plain: Vec<serde_json::Value>,
    values: Vec<serde_json::Value>,
)
    requires
        call_ensures(openai_message_converter, (messages,), plain),
        call_ensures(
            openai_message_converter_with_strategy,
            (messages, EmptyAssistantToolContentStrategy::EmptyArray),
            values,
        ),
    ensures
        json_views(plain@) == json_views(values@),
{
}

/// What stands for an empty content, and for which messages.
pub proof fn empty_contents_have_a_stand_in(
    strategy: EmptyAssistantToolContentStrategy,
    value: serde_json::Value,
    msg: &Message,
    stands_in: bool,
)
    requires
        call_ensures(serialize_empty_assistant_tool_content, (strategy,), value),
        call_ensures(should_use_empty_assistant_tool_content_override, (msg,), stands_in),
    ensures
        stands_in <==> is_silent(*msg),
        strategy == EmptyAssistantToolContentStrategy::Null ==> json_view(value) == JsonView::Null,
        strategy == EmptyAssistantToolContentStrategy::EmptyString ==> json_view(value)
            == JsonView::Str(seq![]),
        strategy == EmptyAssistantToolContentStrategy::EmptyArray ==> json_view(value)
            == JsonView::Array(seq![]),
{
    assert(views(msg.content@).len() == msg.content@.len());
}

// Text alone.

/// Whether a block of a chat is an image or a document.
pub open spec fn is_refused_at(messages: Seq<Message>, i: int, j: int) -> bool {
    0 <= i < messages.len() && 0 <= j < messages[i].content@.len() && is_more_than_text(
        messages[i].content@[j],
    )
}

proof fn lemma_complex_content(content: Seq<MessageBlock>)
    ensures
        views(content).filter(is_complex()).len() > 0 <==> exists|j: int|
            0 <= j < content.len() && is_more_than_text(#[trigger] content[j]),
        views(content).filter(is_complex()).len() > 0 ==> exists|j: int|
            0 <= j < content.len() && is_more_than_text(#[trigger] content[j]) && content[j]@
                == views(content).filter(is_complex())[0] && forall|k: int|
                0 <= k < j ==> !is_more_than_text(#[trigger] content[k]),
    decreases content.len(),
{
    if content.len() == 0 {
        reveal(Seq::filter);
    } else {
        let (rest, last) = (content.drop_last(), content.last());
        lemma_complex_content(rest);
        lemma_filter_push(views(rest), last@, is_complex());
        assert(views(rest).push(last@) =~= views(content));
        let found = views(rest).filter(is_complex());
        if found.len() > 0 {
            let j = choose|j: int|
                0 <= j < rest.len() && is_more_than_text(#[trigger] rest[j]) && rest[j]@
                    == found[0] && forall|k: int|
                    0 <= k < j ==> !is_more_than_text(#[trigger] rest[k]);
            assert(content[j] == rest[j]);
            assert forall|k: int| 0 <= k < j implies !is_more_than_text(#[trigger] content[k]) by {
                assert(content[k] == rest[k]);
            }
        } else {
            assert forall|k: int| 0 <= k < rest.len() implies !is_more_than_text(
                #[trigger] content[k],
            ) by {
                assert(content[k] == rest[k]);
            }
            assert(content[content.len() - 1] == last);
        }
    }
}

proof fn lemma_complex_messages(messages: Seq<Message>)
    ensures
        complex_blocks(views(messages)).len() > 0 <==> exists|i: int, j: int|
            #[trigger] is_refused_at(messages, i, j),
        complex_blocks(views(messages)).len() > 0 ==> exists|i: int, j: int|
            {
                &&& #[trigger] is_refused_at(messages, i, j)
                &&& messages[i].content@[j]@ == complex_blocks(views(messages))[0]
                &&& forall|k: int, l: int|
                    k < i || k == i && l < j ==> !#[trigger] is_refused_at(messages, k, l)
            },
    decreases messages.len(),
{
    if messages.len() > 0 {
        let (rest, last) = (messages.drop_last(), messages.last());
        let n = messages.len() - 1;
        let content = last.content@;
        lemma_complex_messages(rest);
        lemma_complex_content(content);
        assert(views(messages).drop_last() =~= views(rest));
        assert(views(messages).last() == last@);
        let earlier = complex_blocks(views(rest));
        let own = views(content).filter(is_complex());
        assert forall|k: int, l: int| k < n implies #[trigger] is_refused_at(messages, k, l)
            == is_refused_at(rest, k, l) by {
            if 0 <= k {
                assert(rest[k] == messages[k]);
            }
        }
        if earlier.len() > 0 {
            let (i, j) = choose|i: int, j: int|
                {
                    &&& #[trigger] is_refused_at(rest, i, j)
                    &&& rest[i].content@[j]@ == earlier[0]
                    &&& forall|k: int, l: int|
                        k < i || k == i && l < j ==> !#[trigger] is_refused_at(rest, k, l)
                };
            assert(is_refused_at(messages, i, j));
        } else if own.len() > 0 {
            let j = choose|j: int|
                0 <= j < content.len() && is_more_than_text(#[trigger] content[j]) && content[j]@
                    == own[0] && forall|k: int|
                    0 <= k < j ==> !is_more_than_text(#[trigger] content[k]);
            assert(is_refused_at(messages, n, j));
            assert forall|k: int, l: int|
                k < n || k == n && l < j implies !#[trigger] is_refused_at(messages, k, l) by {
                if k < n {
                    assert(!is_refused_at(rest, k, l));
                }
            }
        } else {
            assert forall|k: int, l: int| !#[trigger] is_refused_at(messages, k, l) by {
                if k < n {
                    assert(!is_refused_at(rest, k, l));
                }
            }
        }
    }
}

/// A provider of text alone refuses a chat exactly where some message has an image or a document,
/// by its source or by its address. So in a chat that it takes every block is a text or a thought.
pub proof fn text_alone_refuses_images_and_documents(
    messages: &[Message],
    strategy: EmptyAssistantToolContentStrategy,
    outcome: Result<Vec<serde_json::Value>, LlmConnectorError>,
)
    requires
        call_ensures(
            openai_message_converter_downgrade_with_strategy,
            (messages, strategy),
            outcome,
        ),
    ensures
        outcome is Err <==> exists|i: int, j: int|
            0 <= i < messages@.len() && 0 <= j < messages@[i].content@.len() && (
            #[trigger] messages@[i].content@[j] is Image || messages@[i].content@[j] is ImageUrl
                || messages@[i].content@[j] is Document || messages@[i].content@[j] is DocumentUrl),
        outcome is Ok ==> forall|i: int, j: int|
            0 <= i < messages@.len() && 0 <= j < messages@[i].content@.len() ==> (
            #[trigger] messages@[i].content@[j] is Text || messages@[i].content@[j] is Thinking),
{
    lemma_complex_messages(messages@);
    if outcome is Err {
        let (i, j) = choose|i: int, j: int| #[trigger] is_refused_at(messages@, i, j);
        assert(is_more_than_text(messages@[i].content@[j]));
    }
    assert forall|i: int, j: int|
        0 <= i < messages@.len() && 0 <= j < messages@[i].content@.len() && is_more_than_text(
            #[trigger] messages@[i].content@[j],
        ) implies outcome is Err by {
        assert(is_refused_at(messages@, i, j));
    }
}

/// What refuses a chat is its first image or document, which the error shows.
pub proof fn the_first_refused_block_is_shown(
    messages: &[Message],
    strategy: EmptyAssistantToolContentStrategy,
    outcome: Result<Vec<serde_json::Value>, LlmConnectorError>,
    i: int,
    j: int,
    shown: String,
)
    requires
        call_ensures(
            openai_message_converter_downgrade_with_strategy,
            (messages, strategy),
            outcome,
        ),
        is_refused_at(messages@, i, j),
        forall|k: int, l: int|
            k < i || k == i && l < j ==> !#[trigger] is_refused_at(messages@, k, l),
        call_ensures(MessageBlock::debug_text, (&messages@[i].content@[j],), shown),
    ensures
        outcome matches Err(LlmConnectorError::InvalidRequest(message)) && message@
            == "Provider does not support complex content blocks (found "@ + shown@ + ")"@,
{
    lemma_complex_messages(messages@);
    let first = complex_blocks(views(messages@))[0];
    let (k, l) = choose|k: int, l: int|
        {
            &&& #[trigger] is_refused_at(messages@, k, l)
            &&& messages@[k].content@[l]@ == first
            &&& forall|a: int, b: int|
                a < k || a == k && b < l ==> !#[trigger] is_refused_at(messages@, a, b)
        };
    assert(!(k < i || k == i && l < j));
    assert(!(i < k || i == k && j < l));
    assert(k == i && l == j);
}

/// The messages that a provider of text alone is sent keep their entries, and their content is all
/// that their texts say, or null where they make calls, have no block and are to be null.
pub proof fn text_alone_is_sent_as_text(
    messages: &[Message],
    strategy: EmptyAssistantToolContentStrategy,
    outcome: Result<Vec<serde_json::Value>, LlmConnectorError>,
    i: int,
)
    requires
        call_ensures(
            openai_message_converter_downgrade_with_strategy,
            (messages, strategy),
            outcome,
        ),
        outcome is Ok,
        0 <= i < messages@.len(),
    ensures
        ({
            let values = outcome->Ok_0;
            let msg = messages@[i];
            &&& values@.len() == messages@.len()
            &&& keeps_entries(msg, json_view(values@[i]))
            &&& field(values, i, "content"@) == Some(
                if is_silent(msg) && strategy == EmptyAssistantToolContentStrategy::Null {
                    JsonView::Null
                } else {
                    JsonView::Str(said(msg.content@))
                },
            )
        }),
{
    let values = outcome->Ok_0;
    let msg = messages@[i];
    assert(json_views(values@).len() == values@.len());
    assert(json_views(values@)[i] == json_view(values@[i]));
    assert(views(messages@)[i] == msg@);
    assert(json_view(values@[i]) == text_message(msg@, strategy));
    lemma_keeps_entries(msg, text_content(msg@, strategy));
    lemma_said(msg.content@);
    assert(views(msg.content@).len() == msg.content@.len());
}

/// The empty text stands for an empty content where no strategy is given.
pub proof fn the_empty_text_is_the_default(
    messages: &[Message],
    plain: Result<Vec<serde_json::Value>, LlmConnectorError>,
    outcome: Result<Vec<serde_json::Value>, LlmConnectorError>,
)
    requires
        call_ensures(openai_message_converter_downgrade, (messages,), plain),
        call_ensures(
            openai_message_converter_downgrade_with_strategy,
            (messages, EmptyAssistantToolContentStrategy::EmptyString),
            outcome,
        ),
    ensures
        match (plain, outcome) {
            (Ok(a), Ok(b)) => json_views(a@) == json_views(b@),
            (Err(a), Err(b)) => a@ == b@,
            _ => false,
        },
{
}

// Requests.

/// The messages of a request are converted as text alone exactly where the provider takes no more,
/// with the provider's strategy.
pub proof fn the_provider_decides_how_messages_are_converted(
    request: &ChatRequest,
    capabilities: &OpenAICompatibleCapabilities,
    outcome: Result<Vec<serde_json::Value>, LlmConnectorError>,
    messages: &[Message],
    blocks: Vec<serde_json::Value>,
    text: Result<Vec<serde_json::Value>, LlmConnectorError>,
)
    requires
        call_ensures(map_openai_compatible_messages, (request, capabilities), outcome),
        messages@ == request.messages@,
        call_ensures(
            openai_message_converter_with_strategy,
            (messages, capabilities.empty_assistant_tool_content_strategy),
            blocks,
        ),
        call_ensures(
            openai_message_converter_downgrade_with_strategy,
            (messages, capabilities.empty_assistant_tool_content_strategy),
            text,
        ),
    ensures
        capabilities.content_block_mode == ContentBlockMode::Standard
            || capabilities.content_block_mode == ContentBlockMode::NativeMessage
            ==> (outcome matches Ok(values) && json_views(values@) == json_views(blocks@)),
        capabilities.content_block_mode == ContentBlockMode::TextOnly ==> match (outcome, text) {
            (Ok(a), Ok(b)) => json_views(a@) == json_views(b@),
            (Err(a), Err(b)) => a@ == b@,
            _ => false,
        },
{
}

/// Every tool of a request is sent, in its place, with its type, its name, its description, which
/// is null where there is none, and its parameters.
pub proof fn every_tool_is_sent(
    request: &ChatRequest,
    values: Option<Vec<serde_json::Value>>,
    i: int,
)
    requires
        call_ensures(map_openai_compatible_tools, (request,), values),
    ensures
        match (request.tools, values) {
            (Some(tools), Some(sent)) => sent@.len() == tools@.len() && (0 <= i < tools@.len()
                ==> json_view(sent@[i]) == JsonView::Object(
                map![
                    "type"@ => JsonView::Str(tools@[i].tool_type@),
                    "function"@ => JsonView::Object(
                        map![
                            "name"@ => JsonView::Str(tools@[i].function.name@),
                            "description"@ => (match tools@[i].function.description {
                                Some(text) => JsonView::Str(text@),
                                None => JsonView::Null,
                            }),
                            "parameters"@ => json_view(tools@[i].function.parameters)
                        ],
                    )
                ],
            )),
            (None, None) => true,
            _ => false,
        },
{
    match (request.tools, values) {
        (Some(tools), Some(sent)) => {
            assert(json_views(sent@).len() == sent@.len());
            assert(views(tools@).len() == tools@.len());
            if 0 <= i < tools@.len() {
                assert(json_views(sent@)[i] == json_view(sent@[i]));
                assert(views(tools@)[i] == tools@[i]@);
            }
        },
        _ => {},
    }
}

/// The tool choice of a request is sent as it is where the provider takes one: a mode as the text
/// of that mode, and a function by its name. Different choices are sent differently.
pub proof fn the_tool_choice_is_sent_as_it_is(
    request: &ChatRequest,
    capabilities: &OpenAICompatibleCapabilities,
    value: Option<serde_json::Value>,
    other: &ChatRequest,
    other_value: Option<serde_json::Value>,
)
    requires
        call_ensures(map_openai_compatible_tool_choice, (request, capabilities), value),
        call_ensures(map_openai_compatible_tool_choice, (other, capabilities), other_value),
    ensures
        value is Some <==> capabilities.supports_tool_choice && request.tool_choice is Some,
        capabilities.supports_tool_choice && request.tool_choice is Some ==> (value matches Some(
            sent,
        ) && json_view(sent) == match request.tool_choice->0 {
            ToolChoice::Mode(mode) => JsonView::Str(mode@),
            ToolChoice::Function { choice_type, function } => JsonView::Object(
                map![
                    "type"@ => JsonView::Str(choice_type@),
                    "function"@ => JsonView::Object(
                        map!["name"@ => JsonView::Str(function.name@)],
                    )
                ],
            ),
        }),
        capabilities.supports_tool_choice ==> (request.tool_choice matches Some(ToolChoice::Mode(a))
            ==> (other.tool_choice matches Some(ToolChoice::Mode(b)) ==> (a@ != b@ ==> json_view(
            value->0,
        ) != json_view(other_value->0)))),
{
}

/// The response format of a request is sent by its type where the provider takes one.
pub proof fn the_response_format_is_sent_as_it_is(
    request: &ChatRequest,
    capabilities: &OpenAICompatibleCapabilities,
    value: Option<serde_json::Value>,
)
    requires
        call_ensures(map_openai_compatible_response_format, (request, capabilities), value),
    ensures
        value is Some <==> capabilities.supports_response_format && request.response_format is Some,
        value matches Some(sent) ==> json_view(sent) == JsonView::Object(
            map!["type"@ => JsonView::Str(request.response_format->0.format_type@)],
        ),
{
}

/// The parts of a request are what each of them is mapped to, and its effort is that of its
/// reasoning. There are none exactly where the messages are refused.
pub proof fn request_parts_are_those_of_the_request<R>(
    request: &ChatRequest,
    capabilities: &OpenAICompatibleCapabilities,
    map_reasoning: R,
    outcome: Result<OpenAICompatibleRequestParts, LlmConnectorError>,
    messages: Result<Vec<serde_json::Value>, LlmConnectorError>,
    tools: Option<Vec<serde_json::Value>>,
    tool_choice: Option<serde_json::Value>,
    response_format: Option<serde_json::Value>,
) where R: Fn(&ChatRequest, ReasoningRequestStrategy) -> ReasoningRequestParts
    requires
        call_ensures(
            build_openai_compatible_request_parts::<R>,
            (request, capabilities, map_reasoning),
            outcome,
        ),
        call_ensures(map_openai_compatible_messages, (request, capabilities), messages),
        call_ensures(map_openai_compatible_tools, (request,), tools),
        call_ensures(map_openai_compatible_tool_choice, (request, capabilities), tool_choice),
        call_ensures(
            map_openai_compatible_response_format,
            (request, capabilities),
            response_format,
        ),
    ensures
        match (outcome, messages) {
            (Ok(parts), Ok(values)) => {
                &&& json_views(parts.messages@) == json_views(values@)
                &&& parts.tools is Some <==> tools is Some
                &&& tools matches Some(list) ==> json_views(parts.tools->0@) == json_views(list@)
                &&& parts.tool_choice is Some <==> tool_choice is Some
                &&& tool_choice matches Some(value) ==> json_view(parts.tool_choice->0)
                    == json_view(value)
                &&& parts.response_format is Some <==> response_format is Some
                &&& response_format matches Some(value) ==> json_view(parts.response_format->0)
                    == json_view(value)
                &&& parts.reasoning_effort == parts.reasoning_parts.reasoning_effort
                &&& call_ensures(
                    map_reasoning,
                    (request, capabilities.reasoning_request_strategy),
                    parts.reasoning_parts,
                )
            },
            (Err(a), Err(b)) => a@ == b@,
            _ => false,
        },
{
}

/// A provider of which nothing is said takes content blocks, tool choices and response formats, is
/// asked to reason by an effort, carries its reasoning in a field of its own, and is sent null for
/// an empty content. A copy of what is said of a provider says the same.
pub proof fn providers_take_everything_by_default(
    made: OpenAICompatibleCapabilities,
    capabilities: &OpenAICompatibleCapabilities,
    copy: OpenAICompatibleCapabilities,
)
    requires
        call_ensures(OpenAICompatibleCapabilities::default, (), made),
        call_ensures(OpenAICompatibleCapabilities::clone, (capabilities,), copy),
    ensures
        made.content_block_mode == ContentBlockMode::Standard,
        made.supports_tool_choice && made.supports_response_format,
        made.reasoning_request_strategy == ReasoningRequestStrategy::ReasoningEffort,
        made.stream_reasoning_strategy == StreamReasoningStrategy::SeparateField,
        made.empty_assistant_tool_content_strategy == EmptyAssistantToolContentStrategy::Null,
        copy == *capabilities,
{
}

// Responses.

/// A chat response is what the given reader makes of the text, for the given provider and strategy.
pub proof fn chat_responses_are_what_the_reader_makes<P>(
    response: &str,
    provider_name: &str,
    strategy: StreamReasoningStrategy,
    parse: P,
    outcome: Result<ChatResponse, LlmConnectorError>,
) where P: Fn(&str, &str, StreamReasoningStrategy) -> Result<ChatResponse, LlmConnectorError>
    requires
        call_ensures(
            parse_openai_compatible_chat_response::<P>,
            (response, provider_name, strategy, parse),
            outcome,
        ),
    ensures
        call_ensures(parse, (response, provider_name, strategy), outcome),
{
}

/// The text of a content, which is empty where there is none.
pub open spec fn text_given(content: Option<String>) -> Seq<char> {
    match content {
        Some(text) => text@,
        None => seq![],
    }
}

/// Reasoning that is given apart, or that is not looked for, or whose tags are not both there, is
/// left where it is: the content stays as it was given.
pub proof fn contents_without_embedded_reasoning_stay(
    content: Option<String>,
    reasoning: Option<String>,
    strategy: StreamReasoningStrategy,
    result: NormalizedContent,
)
    requires
        call_ensures(
            normalize_openai_compatible_content,
            (content, reasoning, strategy),
            result,
        ),
        strategy == StreamReasoningStrategy::SeparateField || reasoning is Some || (forall|at: int|
            0 <= at <= text_given(content).len() - 7 ==> #[trigger] text_given(content).subrange(
                at,
                at + 7,
            ) != "<think>"@) || (forall|at: int|
            0 <= at <= text_given(content).len() - 8 ==> #[trigger] text_given(content).subrange(
                at,
                at + 8,
            ) != "</think>"@),
    ensures
        result.content@ == text_given(content),
        result.reasoning is Some <==> reasoning is Some,
        reasoning matches Some(text) ==> result.reasoning->0@ == text@,
{
    reveal_strlit("<think>");
    reveal_strlit("</think>");
    let text = text_given(content);
    lemma_find(text, "<think>"@);
    lemma_find(text, "</think>"@);
    assert("<think>"@.len() == 7);
    assert("</think>"@.len() == 8);
    if embeds_reasoning(text, opt_view(reasoning), strategy) {
        let open = find(text, "<think>"@)->0;
        let close = find(text, "</think>"@)->0;
        assert(text.subrange(open, open + 7) == "<think>"@);
        assert(text.subrange(close, close + 8) == "</think>"@);
    }
}

/// Reasoning that is embedded is taken out whole: a content that is something, the opening tag, the
/// reasoning, the closing tag and something more, where neither tag stands earlier, gives that
/// reasoning, and what is left is what stood around the tags without the white space at its ends.
pub proof fn embedded_reasoning_is_taken_out_whole(
    before: Seq<char>,
    inner: Seq<char>,
    after: Seq<char>,
    content: Option<String>,
    result: NormalizedContent,
)
    requires
        call_ensures(
            normalize_openai_compatible_content,
            (content, None, StreamReasoningStrategy::EmbeddedThinkTags),
            result,
        ),
        text_given(content) == before + "<think>"@ + inner + "</think>"@ + after,
        forall|at: int|
            0 <= at < before.len() ==> #[trigger] text_given(content).subrange(at, at + 7)
                != "<think>"@,
        forall|at: int|
            0 <= at < before.len() + 7 + inner.len() && at + 8 <= text_given(content).len()
                ==> #[trigger] text_given(content).subrange(at, at + 8) != "</think>"@,
    ensures
        result.reasoning matches Some(text) && text@ == inner,
        exists|left: Seq<char>, right: Seq<char>|
            #[trigger] is_blank(left) && #[trigger] is_blank(right) && before + after == left
                + result.content@ + right,
        result.content@.len() > 0 ==> !is_white_space(result.content@.first())
            && !is_white_space(result.content@.last()),
{
    reveal_strlit("<think>");
    reveal_strlit("</think>");
    let text = text_given(content);
    assert("<think>"@.len() == 7);
    assert("</think>"@.len() == 8);
    let open = before.len() as int;
    let close = before.len() as int + 7 + inner.len();
    lemma_find(text, "<think>"@);
    lemma_find(text, "</think>"@);
    assert(text.subrange(open, open + 7) =~= "<think>"@);
    assert(text.subrange(close, close + 8) =~= "</think>"@);
    assert(occurs_at(text, "<think>"@, open));
    assert(occurs_at(text, "</think>"@, close));
    assert(first_at(text, "<think>"@, open));
    assert(first_at(text, "</think>"@, close));
    assert(text.take(open) =~= before);
    assert(text.skip(close + 8) =~= after);
    assert(text.subrange(open + 7, close) =~= inner);
    lemma_trimmed(before + after, result.content@);
}

/// Every content is taken in which the first closing tag does not come before the first opening
/// tag, and every content at all where none is looked for.
pub proof fn contents_are_taken(
    content: Option<String>,
    reasoning: Option<String>,
    strategy: StreamReasoningStrategy,
    open: int,
)
    requires
        strategy == StreamReasoningStrategy::SeparateField || reasoning is Some || (0 <= open
            <= text_given(content).len() - 7 && text_given(content).subrange(open, open + 7)
            == "<think>"@ && forall|at: int|
            0 <= at < open && at + 8 <= text_given(content).len() ==> #[trigger] text_given(
                content,
            ).subrange(at, at + 8) != "</think>"@),
    ensures
        call_requires(normalize_openai_compatible_content, (content, reasoning, strategy)),
{
    reveal_strlit("<think>");
    reveal_strlit("</think>");
    let text = text_given(content);
    lemma_find(text, "<think>"@);
    lemma_find(text, "</think>"@);
    assert("<think>"@.len() == 7);
    assert("</think>"@.len() == 8);
    if strategy == StreamReasoningStrategy::EmbeddedThinkTags && reasoning is None {
        assert(occurs_at(text, "<think>"@, open));
        if find(text, "</think>"@) is Some {
            let close = find(text, "</think>"@)->0;
            assert(text.subrange(close, close + 8) == "</think>"@);
            assert(!(close < open));
        }
    }
}

/// A copy of a content with its reasoning set apart, or of the parts of a request, holds the same.
pub proof fn copies_hold_the_same(
    content: &NormalizedContent,
    content_copy: NormalizedContent,
    parts: &OpenAICompatibleRequestParts,
    parts_copy: OpenAICompatibleRequestParts,
)
    requires
        call_ensures(NormalizedContent::clone, (content,), content_copy),
        call_ensures(OpenAICompatibleRequestParts::clone, (parts,), parts_copy),
    ensures
        content_copy.content@ == content.content@,
        opt_view(content_copy.reasoning) == opt_view(content.reasoning),
        json_views(parts_copy.messages@) == json_views(parts.messages@),
        opt_jsons(parts_copy.tools) == opt_jsons(parts.tools),
        opt_json(parts_copy.tool_choice) == opt_json(parts.tool_choice),
        opt_json(parts_copy.response_format) == opt_json(parts.response_format),
        parts_copy.reasoning_effort == parts.reasoning_effort,
        parts_copy.reasoning_parts == parts.reasoning_parts,
{
}

/// Tool calls are what the decoder makes of the value, and there are none where it refuses it or
/// where there is no value.
pub proof fn tool_calls_are_what_the_decoder_makes<D>(
    tool_calls: Option<serde_json::Value>,
    decode: D,
    calls: Option<Vec<ToolCall>>,
) where D: Fn(serde_json::Value) -> Result<Vec<ToolCall>, String>
    requires
        call_ensures(map_openai_compatible_tool_calls::<D>, (tool_calls, decode), calls),
    ensures
        tool_calls is None ==> calls is None,
        tool_calls is Some && calls is Some ==> call_ensures(
            decode,
            (tool_calls->0,),
            Ok(calls->0),
        ),
        tool_calls is Some && (forall|decoded: Result<Vec<ToolCall>, String>| #[trigger]
            call_ensures(decode, (tool_calls->0,), decoded) ==> decoded is Ok) ==> calls is Some,
{
}

} // verus!
