//! Messages in the form of the OpenAI chat completions API.

use vstd::prelude::*;
use vstd::string::*;
use vstd::utf8::encode_utf8;

use crate::block::{
    DocumentSource, DocumentSourceView, ImageSource, ImageSourceView, MessageBlock,
    MessageBlockView,
};
use crate::capabilities::EmptyAssistantToolContentStrategy;
use crate::error::{LlmConnectorError, LlmConnectorErrorView};
use crate::json::{
    json_array, json_null, json_object, json_string, json_view, json_views, opt_str, put, put_text,
    put_text_if_some, single, single_value, tagged, tagged_value, with_entry, JsonView,
};
use crate::message::{text_of, Message, MessageView, Role};
use crate::text::{decimal, decimal_text, join3, opt_view, views};
use crate::tool::{ToolCall, ToolCallView};

verus! {

/// What a content shows to an OpenAI-compatible provider: every block but the thinking.
pub open spec fn visible_blocks(content: Seq<MessageBlockView>) -> Seq<MessageBlockView> {
    content.filter(|block: MessageBlockView| !(block is Thinking))
}

/// The thoughts of a content, in their order.
pub open spec fn thoughts(content: Seq<MessageBlockView>) -> Seq<Seq<char>> {
    content.filter(|block: MessageBlockView| block is Thinking).map_values(
        |block: MessageBlockView| block->thinking,
    )
}

/// A text with a line put after it, or the line alone where there is no text yet.
pub open spec fn append_line(text: Seq<char>, line: Seq<char>) -> Seq<char> {
    if text.len() == 0 {
        line
    } else {
        text + "\n"@ + line
    }
}

/// Lines put one after the other.
pub open spec fn join_lines(lines: Seq<Seq<char>>) -> Seq<char>
    decreases lines.len(),
{
    if lines.len() == 0 {
        seq![]
    } else {
        append_line(join_lines(lines.drop_last()), lines.last())
    }
}

/// A text, or the empty text where there is none.
pub open spec fn or_empty(text: Option<Seq<char>>) -> Seq<char> {
    match text {
        Some(text) => text,
        None => seq![],
    }
}

/// Whether a line says something.
pub open spec fn says_something() -> spec_fn(Seq<char>) -> bool {
    |line: Seq<char>| line.len() > 0
}

/// The reasoning of a message, as the lines that say something: what stands in
/// `reasoning_content`, or else in the other three fields, and then the thinking of its blocks.
pub open spec fn reasoning_lines(msg: MessageView, thinking: Seq<char>) -> Seq<Seq<char>> {
    let own = match msg.reasoning_content {
        Some(text) => seq![text],
        None => seq![or_empty(msg.reasoning), or_empty(msg.thought), or_empty(msg.thinking)],
    };
    own.push(thinking).filter(says_something())
}

/// The reasoning that an OpenAI-compatible message carries.
pub open spec fn exported_reasoning(msg: MessageView, thinking: Seq<char>) -> Option<Seq<char>> {
    if reasoning_lines(msg, thinking).len() == 0 {
        None
    } else {
        Some(join_lines(reasoning_lines(msg, thinking)))
    }
}

pub(crate) proof fn lemma_filter_push<A>(s: Seq<A>, item: A, pred: spec_fn(A) -> bool)
    ensures
        s.push(item).filter(pred) == if pred(item) {
            s.filter(pred).push(item)
        } else {
            s.filter(pred)
        },
{
    reveal(Seq::filter);
    assert(s.push(item).drop_last() =~= s);
}

/// Splits a content into the blocks that it shows and its thinking.
pub fn partition_openai_visible_blocks(content: &[MessageBlock]) -> (parts: (
    Vec<MessageBlock>,
    String,
))
    ensures
        views(parts.0@) == visible_blocks(views(content@)),
        parts.1@ == join_lines(thoughts(views(content@))),
{
    let mut thinking_agg = String::new();
    let mut visible: Vec<MessageBlock> = Vec::new();
    let ghost model = views(content@);
    let mut i: usize = 0;
    proof {
        reveal(Seq::filter);
        assert(views(visible@) =~= visible_blocks(model.take(0)));
        assert(thoughts(model.take(0)) =~= seq![]);
    }
    while i < content.len()
        invariant
            i <= content@.len(),
            model == views(content@),
            views(visible@) == visible_blocks(model.take(i as int)),
            thinking_agg@ == join_lines(thoughts(model.take(i as int))),
        decreases content@.len() - i,
    {
        let ghost before = model.take(i as int);
        let ghost shown = visible@;
        let block = &content[i];
        proof {
            assert(model.take(i + 1) =~= before.push(block@));
            lemma_filter_push(before, block@, |b: MessageBlockView| !(b is Thinking));
            lemma_filter_push(before, block@, |b: MessageBlockView| b is Thinking);
        }
        match block {
            MessageBlock::Thinking { thinking, .. } => {
                if !thinking_agg.as_str().is_empty() {
                    thinking_agg.append("\n");
                }
                thinking_agg.append(thinking.as_str());
                proof {
                    let lines = thoughts(before);
                    assert(thoughts(model.take(i + 1)) =~= lines.push(thinking@));
                    assert(lines.push(thinking@).drop_last() =~= lines);
                    assert(thinking_agg@ =~= append_line(join_lines(lines), thinking@));
                }
            },
            _ => {
                visible.push(block.clone());
                assert(views(visible@) =~= views(shown).push(block@));
            },
        }
        i += 1;
    }
    assert(model.take(i as int) =~= model);
    (visible, thinking_agg)
}

proof fn lemma_says_something(lines: Seq<Seq<char>>, line: Seq<char>)
    ensures
        join_lines(lines.push(line).filter(says_something())) == if line.len() == 0 {
            join_lines(lines.filter(says_something()))
        } else {
            append_line(join_lines(lines.filter(says_something())), line)
        },
{
    lemma_filter_push(lines, line, says_something());
    let kept = lines.filter(says_something());
    assert(kept.push(line).drop_last() =~= kept);
}

proof fn lemma_lines_say_something(lines: Seq<Seq<char>>)
    ensures
        join_lines(lines.filter(says_something())).len() == 0 <==> lines.filter(
            says_something(),
        ).len() == 0,
    decreases lines.len(),
{
    reveal(Seq::filter);
    if lines.len() > 0 {
        lemma_lines_say_something(lines.drop_last());
        lemma_says_something(lines.drop_last(), lines.last());
        assert(lines.drop_last().push(lines.last()) =~= lines);
        reveal_strlit("\n");
    }
}

/// Puts a line that says something after a text.
fn add_line(text: &mut String, line: &str)
    ensures
        final(text)@ == if line@.len() == 0 {
            old(text)@
        } else {
            append_line(old(text)@, line@)
        },
{
    if !line.is_empty() {
        if !text.as_str().is_empty() {
            text.append("\n");
        }
        text.append(line);
        assert(text@ =~= append_line(old(text)@, line@));
    }
}

fn add_opt_line(text: &mut String, line: &Option<String>)
    ensures
        final(text)@ == if or_empty(opt_view(*line)).len() == 0 {
            old(text)@
        } else {
            append_line(old(text)@, or_empty(opt_view(*line)))
        },
{
    match line {
        Some(line) => add_line(text, line.as_str()),
        None => {},
    }
}

/// The reasoning that an OpenAI-compatible message carries.
pub fn openai_export_reasoning_content(msg: &Message, thinking_from_blocks: &str) -> (exported:
    Option<String>)
    ensures
        opt_view(exported) == exported_reasoning(msg@, thinking_from_blocks@),
{
    let mut out = String::new();
    let ghost none: Seq<Seq<char>> = seq![];
    proof {
        reveal(Seq::filter);
        assert(none.filter(says_something()) =~= seq![]);
    }
    let ghost own: Seq<Seq<char>>;
    match &msg.reasoning_content {
        Some(text) => {
            add_line(&mut out, text.as_str());
            proof {
                lemma_says_something(none, text@);
                own = seq![text@];
                assert(own =~= none.push(text@));
            }
        },
        None => {
            add_opt_line(&mut out, &msg.reasoning);
            add_opt_line(&mut out, &msg.thought);
            add_opt_line(&mut out, &msg.thinking);
            proof {
                let a = or_empty(opt_view(msg.reasoning));
                let b = or_empty(opt_view(msg.thought));
                let c = or_empty(opt_view(msg.thinking));
                lemma_says_something(none, a);
                lemma_says_something(none.push(a), b);
                lemma_says_something(none.push(a).push(b), c);
                own = seq![a, b, c];
                assert(own =~= none.push(a).push(b).push(c));
            }
        },
    }
    add_line(&mut out, thinking_from_blocks);
    proof {
        lemma_says_something(own, thinking_from_blocks@);
        lemma_lines_say_something(own.push(thinking_from_blocks@));
        assert(reasoning_lines(msg@, thinking_from_blocks@) == own.push(
            thinking_from_blocks@,
        ).filter(says_something()));
    }
    if out.as_str().is_empty() {
        None
    } else {
        Some(out)
    }
}

/// Whether a message makes calls as the assistant and says nothing.
pub open spec fn is_silent_tool_call(msg: MessageView) -> bool {
    msg.role == Role::Assistant && msg.tool_calls is Some && msg.content.len() == 0
}

/// Whether a message makes calls as the assistant and says nothing.
pub fn should_use_empty_assistant_tool_content_override(msg: &Message) -> (silent: bool)
    ensures
        silent == is_silent_tool_call(msg@),
{
    msg.role == Role::Assistant && msg.tool_calls.is_some() && msg.content.len() == 0
}

/// What stands for an empty content.
pub open spec fn empty_tool_content(strategy: EmptyAssistantToolContentStrategy) -> JsonView {
    match strategy {
        EmptyAssistantToolContentStrategy::Null => JsonView::Null,
        EmptyAssistantToolContentStrategy::EmptyString => JsonView::Str(seq![]),
        EmptyAssistantToolContentStrategy::EmptyArray => JsonView::Array(seq![]),
    }
}

/// What stands for an empty content.
pub fn serialize_empty_assistant_tool_content(strategy: EmptyAssistantToolContentStrategy) -> (value:
    serde_json::Value)
    ensures
        json_view(value) == empty_tool_content(strategy),
{
    match strategy {
        EmptyAssistantToolContentStrategy::Null => json_null(),
        EmptyAssistantToolContentStrategy::EmptyString => json_string(String::new()),
        EmptyAssistantToolContentStrategy::EmptyArray => {
            let items: Vec<serde_json::Value> = Vec::new();
            assert(json_views(items@) =~= seq![]);
            json_array(items)
        },
    }
}

/// An image by its address, in OpenAI's form.
pub open spec fn openai_image(url: Seq<char>) -> JsonView {
    tagged("image_url"@, "image_url"@, single("url"@, JsonView::Str(url)))
}

/// A text, in OpenAI's form.
pub open spec fn openai_text(text: Seq<char>) -> JsonView {
    tagged("text"@, "text"@, JsonView::Str(text))
}

/// The address that holds an image itself.
pub open spec fn data_url(media_type: Seq<char>, data: Seq<char>) -> Seq<char> {
    "data:"@ + media_type + ";base64,"@ + data
}

/// What is said in place of a document: its type and how many bytes its base64 text takes.
pub open spec fn document_note(media_type: Seq<char>, data: Seq<char>) -> Seq<char> {
    "[Document: "@ + media_type + " (base64, "@ + decimal(encode_utf8(data).len()) + " chars)]"@
}

/// A block in OpenAI's form. An image becomes an `image_url` whatever its source, and a document,
/// which that form does not know, becomes a text that names it.
pub open spec fn openai_block(block: MessageBlockView) -> JsonView {
    match block {
        MessageBlockView::Text { text } => openai_text(text),
        MessageBlockView::ImageUrl { url } => openai_image(url),
        MessageBlockView::Image { source } => match source {
            ImageSourceView::Base64 { media_type, data } => openai_image(
                data_url(media_type, data),
            ),
            ImageSourceView::Url { url } => openai_image(url),
        },
        MessageBlockView::Document { source } => match source {
            DocumentSourceView::Base64 { media_type, data } => openai_text(
                document_note(media_type, data),
            ),
        },
        MessageBlockView::DocumentUrl { url } => openai_text("[Document: "@ + url + "]"@),
        MessageBlockView::Thinking { .. } => JsonView::Null,
    }
}

fn openai_image_value(url: String) -> (value: serde_json::Value)
    ensures
        json_view(value) == openai_image(url@),
{
    tagged_value("image_url", "image_url", single_value("url", json_string(url)))
}

fn openai_text_value(text: String) -> (value: serde_json::Value)
    ensures
        json_view(value) == openai_text(text@),
{
    tagged_value("text", "text", json_string(text))
}

/// Converts a block to OpenAI's form.
///
/// - A text, and an image by its address, have that form already.
/// - An image in base64 becomes a data address.
/// - A document becomes a text that names it.
/// - Thinking has no place in the content; callers take it out first. It becomes null.
pub fn block_to_openai_value(block: &MessageBlock) -> (value: serde_json::Value)
    ensures
        json_view(value) == openai_block(block@),
{
    match block {
        MessageBlock::Text { .. } => block.to_value(),
        MessageBlock::ImageUrl { .. } => block.to_value(),
        MessageBlock::Image { source } => match source {
            ImageSource::Base64 { media_type, data } => openai_image_value(
                join3("data:", media_type.as_str(), ";base64,").concat(data.as_str()),
            ),
            ImageSource::Url { url } => openai_image_value(url.clone()),
        },
        MessageBlock::Document { source } => match source {
            DocumentSource::Base64 { media_type, data } => {
                let head = join3("[Document: ", media_type.as_str(), " (base64, ");
                let count = decimal_text(data.as_str().as_bytes().len() as u64);
                openai_text_value(head.concat(count.as_str()).concat(" chars)]"))
            },
        },
        MessageBlock::DocumentUrl { document_url } => openai_text_value(
            join3("[Document: ", document_url.url.as_str(), "]"),
        ),
        MessageBlock::Thinking { .. } => json_null(),
    }
}

/// The blocks of a content in OpenAI's form.
pub open spec fn openai_blocks(blocks: Seq<MessageBlockView>) -> Seq<JsonView> {
    blocks.map_values(|block: MessageBlockView| openai_block(block))
}

/// Converts blocks to OpenAI's form, one by one.
pub fn blocks_to_openai_content(blocks: &[MessageBlock]) -> (values: Vec<serde_json::Value>)
    ensures
        json_views(values@) == openai_blocks(views(blocks@)),
{
    let mut values: Vec<serde_json::Value> = Vec::new();
    let mut i: usize = 0;
    while i < blocks.len()
        invariant
            i <= blocks@.len(),
            values@.len() == i,
            forall|j: int|
                0 <= j < i ==> json_view(#[trigger] values@[j]) == openai_block(blocks@[j]@),
        decreases blocks@.len() - i,
    {
        values.push(block_to_openai_value(&blocks[i]));
        i += 1;
    }
    assert(json_views(values@) =~= openai_blocks(views(blocks@)));
    values
}

/// The name of a role.
pub open spec fn role_name(role: Role) -> Seq<char> {
    match role {
        Role::User => "user"@,
        Role::Assistant => "assistant"@,
        Role::System => "system"@,
        Role::Tool => "tool"@,
    }
}

fn role_text(role: Role) -> (name: &'static str)
    ensures
        name@ == role_name(role),
{
    match role {
        Role::User => "user",
        Role::Assistant => "assistant",
        Role::System => "system",
        Role::Tool => "tool",
    }
}

/// The content of a message in OpenAI's form: what stands for an empty one, or the text where one
/// text is all it shows, or the list of its visible blocks.
pub open spec fn openai_content(
    msg: MessageView,
    strategy: EmptyAssistantToolContentStrategy,
) -> JsonView {
    let visible = visible_blocks(msg.content);
    if is_silent_tool_call(msg) {
        empty_tool_content(strategy)
    } else if visible.len() == 1 && visible[0] is Text {
        JsonView::Str(visible[0]->text)
    } else {
        JsonView::Array(openai_blocks(visible))
    }
}

/// Optional tool calls as an optional tree.
pub open spec fn opt_calls(calls: Option<Seq<ToolCallView>>) -> Option<JsonView> {
    match calls {
        Some(calls) => Some(JsonView::Array(calls.map_values(|call: ToolCallView| call.wire()))),
        None => None,
    }
}

/// The entries of a message around a given content. An entry that the message has no value for is
/// left out.
pub open spec fn openai_entries(msg: MessageView, content: JsonView) -> Map<Seq<char>, JsonView> {
    let entries = map!["role"@ => JsonView::Str(role_name(msg.role)), "content"@ => content];
    let entries = with_entry(entries, "tool_calls"@, opt_calls(msg.tool_calls));
    let entries = with_entry(entries, "tool_call_id"@, opt_str(msg.tool_call_id));
    let entries = with_entry(entries, "name"@, opt_str(msg.name));
    with_entry(
        entries,
        "reasoning_content"@,
        opt_str(exported_reasoning(msg, join_lines(thoughts(msg.content)))),
    )
}

fn tool_calls_value(calls: &Vec<ToolCall>) -> (value: serde_json::Value)
    ensures
        Some(json_view(value)) == opt_calls(Some(views(calls@))),
{
    let mut values: Vec<serde_json::Value> = Vec::new();
    let mut i: usize = 0;
    while i < calls.len()
        invariant
            i <= calls@.len(),
            values@.len() == i,
            forall|j: int| 0 <= j < i ==> json_view(#[trigger] values@[j]) == calls@[j]@.wire(),
        decreases calls@.len() - i,
    {
        values.push(calls[i].to_value());
        i += 1;
    }
    assert(json_views(values@) =~= views(calls@).map_values(|call: ToolCallView| call.wire()));
    json_array(values)
}

/// The message around a given content, with the thinking of its blocks as reasoning.
fn openai_message_value(
    msg: &Message,
    content: serde_json::Value,
    thinking_from_blocks: &str,
) -> (value: serde_json::Value)
    requires
        thinking_from_blocks@ == join_lines(thoughts(msg@.content)),
    ensures
        json_view(value) == JsonView::Object(openai_entries(msg@, json_view(content))),
{
    let mut map = serde_json::Map::new();
    put_text(&mut map, "role", role_text(msg.role));
    put(&mut map, "content", content);
    match &msg.tool_calls {
        Some(calls) => put(&mut map, "tool_calls", tool_calls_value(calls)),
        None => {},
    }
    put_text_if_some(&mut map, "tool_call_id", &msg.tool_call_id);
    put_text_if_some(&mut map, "name", &msg.name);
    let reasoning = openai_export_reasoning_content(msg, thinking_from_blocks);
    put_text_if_some(&mut map, "reasoning_content", &reasoning);
    json_object(map)
}

/// A message in OpenAI's form.
pub open spec fn openai_message(
    msg: MessageView,
    strategy: EmptyAssistantToolContentStrategy,
) -> JsonView {
    JsonView::Object(openai_entries(msg, openai_content(msg, strategy)))
}

/// Messages in OpenAI's form, one by one.
pub open spec fn openai_messages(
    messages: Seq<MessageView>,
    strategy: EmptyAssistantToolContentStrategy,
) -> Seq<JsonView> {
    messages.map_values(|msg: MessageView| openai_message(msg, strategy))
}

/// Converts messages for OpenAI-compatible providers, with the empty list for an empty content.
pub fn openai_message_converter(messages: &[Message]) -> (values: Vec<serde_json::Value>)
    ensures
        json_views(values@) == openai_messages(
            views(messages@),
            EmptyAssistantToolContentStrategy::EmptyArray,
        ),
{
    openai_message_converter_with_strategy(messages, EmptyAssistantToolContentStrategy::EmptyArray)
}

fn convert_message(
    msg: &Message,
    empty_assistant_tool_content_strategy: EmptyAssistantToolContentStrategy,
) -> (value: serde_json::Value)
    ensures
        json_view(value) == openai_message(msg@, empty_assistant_tool_content_strategy),
{
    let (visible, thinking_from_blocks) = partition_openai_visible_blocks(msg.content.as_slice());
    proof {
        assert forall|i: int| 0 <= i < visible@.len() implies (#[trigger] visible@[i])@
            == visible_blocks(msg@.content)[i] by {
            assert(views(visible@)[i] == visible@[i]@);
        }
        assert(visible@.len() == views(visible@).len());
    }
    let content = if should_use_empty_assistant_tool_content_override(msg) {
        serialize_empty_assistant_tool_content(empty_assistant_tool_content_strategy)
    } else {
        let only_text = if visible.len() == 1 {
            visible[0].as_text()
        } else {
            None
        };
        match only_text {
            Some(text) => json_string(text.to_owned()),
            None => json_array(blocks_to_openai_content(visible.as_slice())),
        }
    };
    openai_message_value(msg, content, thinking_from_blocks.as_str())
}

/// Converts messages for OpenAI-compatible providers.
pub fn openai_message_converter_with_strategy(
    messages: &[Message],
    empty_assistant_tool_content_strategy: EmptyAssistantToolContentStrategy,
) -> (values: Vec<serde_json::Value>)
    ensures
        json_views(values@) == openai_messages(
            views(messages@),
            empty_assistant_tool_content_strategy,
        ),
{
    let mut values: Vec<serde_json::Value> = Vec::new();
    let mut i: usize = 0;
    while i < messages.len()
        invariant
            i <= messages@.len(),
            values@.len() == i,
            forall|j: int|
                0 <= j < i ==> json_view(#[trigger] values@[j]) == openai_message(
                    messages@[j]@,
                    empty_assistant_tool_content_strategy,
                ),
        decreases messages@.len() - i,
    {
        values.push(convert_message(&messages[i], empty_assistant_tool_content_strategy));
        i += 1;
    }
    assert(json_views(values@) =~= openai_messages(
        views(messages@),
        empty_assistant_tool_content_strategy,
    ));
    values
}

/// Whether a block is more than text, and is shown.
pub open spec fn is_complex() -> spec_fn(MessageBlockView) -> bool {
    |block: MessageBlockView| !(block is Text) && !(block is Thinking)
}

/// The blocks of a chat that are more than text, in their order.
pub open spec fn complex_blocks(messages: Seq<MessageView>) -> Seq<MessageBlockView>
    decreases messages.len(),
{
    if messages.len() == 0 {
        seq![]
    } else {
        complex_blocks(messages.drop_last()) + messages.last().content.filter(is_complex())
    }
}

/// The content of a message as text alone, or what stands for an empty one, where the empty list
/// is not text and becomes the empty text.
pub open spec fn text_content(
    msg: MessageView,
    strategy: EmptyAssistantToolContentStrategy,
) -> JsonView {
    if is_silent_tool_call(msg) && strategy == EmptyAssistantToolContentStrategy::Null {
        JsonView::Null
    } else {
        JsonView::Str(text_of(msg.content))
    }
}

/// A message in OpenAI's form, with text alone as its content.
pub open spec fn text_message(
    msg: MessageView,
    strategy: EmptyAssistantToolContentStrategy,
) -> JsonView {
    JsonView::Object(openai_entries(msg, text_content(msg, strategy)))
}

/// The error that refuses a block that is more than text.
pub open spec fn complex_block_error(block: MessageBlockView) -> LlmConnectorErrorView {
    LlmConnectorErrorView::InvalidRequest(
        "Provider does not support complex content blocks (found "@ + block.debug() + ")"@,
    )
}

/// Messages with text alone as their content, or the error that refuses the first block that is
/// more than text.
pub open spec fn text_messages(
    messages: Seq<MessageView>,
    strategy: EmptyAssistantToolContentStrategy,
) -> Result<Seq<JsonView>, LlmConnectorErrorView> {
    if complex_blocks(messages).len() == 0 {
        Ok(messages.map_values(|msg: MessageView| text_message(msg, strategy)))
    } else {
        Err(complex_block_error(complex_blocks(messages)[0]))
    }
}

/// The outcome of a conversion, over what its values and its error hold.
pub open spec fn conversion_view(
    outcome: Result<Vec<serde_json::Value>, LlmConnectorError>,
) -> Result<Seq<JsonView>, LlmConnectorErrorView> {
    match outcome {
        Ok(values) => Ok(json_views(values@)),
        Err(error) => Err(error@),
    }
}

/// The text of a content, or the error that refuses the first block that is more than text.
fn plain_text(content: &[MessageBlock]) -> (text: Result<String, LlmConnectorError>)
    ensures
        match text {
            Ok(text) => views(content@).filter(is_complex()).len() == 0 && text@ == text_of(
                views(content@),
            ),
            Err(error) => views(content@).filter(is_complex()).len() > 0 && error@
                == complex_block_error(views(content@).filter(is_complex())[0]),
        },
{
    let mut text = String::new();
    let ghost model = views(content@);
    let mut i: usize = 0;
    proof {
        reveal(Seq::filter);
        assert(model.take(0).filter(is_complex()) =~= seq![]);
    }
    while i < content.len()
        invariant
            i <= content@.len(),
            model == views(content@),
            model.take(i as int).filter(is_complex()).len() == 0,
            text@ == text_of(model.take(i as int)),
        decreases content@.len() - i,
    {
        let block = &content[i];
        proof {
            assert(model.take(i + 1) =~= model.take(i as int).push(block@));
            assert(model.take(i + 1).drop_last() =~= model.take(i as int));
            lemma_filter_push(model.take(i as int), block@, is_complex());
        }
        match block {
            MessageBlock::Thinking { .. } => {},
            _ => match block.as_text() {
                Some(part) => text.append(part),
                None => {
                    proof {
                        lemma_filter_prefix(model, i + 1, is_complex());
                        let found = model.take(i + 1).filter(is_complex());
                        assert(found[0] == block@);
                        assert(model.filter(is_complex()).take(found.len() as int)[0] == block@);
                    }
                    let shown = block.debug_text();
                    return Err(
                        LlmConnectorError::InvalidRequest(
                            join3(
                                "Provider does not support complex content blocks (found ",
                                shown.as_str(),
                                ")",
                            ),
                        ),
                    );
                },
            },
        }
        i += 1;
    }
    assert(model.take(i as int) =~= model);
    Ok(text)
}

proof fn lemma_filter_prefix<A>(s: Seq<A>, n: int, pred: spec_fn(A) -> bool)
    requires
        0 <= n <= s.len(),
    ensures
        s.take(n).filter(pred).len() <= s.filter(pred).len(),
        s.filter(pred).take(s.take(n).filter(pred).len() as int) == s.take(n).filter(pred),
    decreases s.len() - n,
{
    if n == s.len() {
        assert(s.take(n) =~= s);
        assert(s.filter(pred).take(s.filter(pred).len() as int) =~= s.filter(pred));
    } else {
        lemma_filter_prefix(s, n + 1, pred);
        assert(s.take(n + 1) =~= s.take(n).push(s[n]));
        lemma_filter_push(s.take(n), s[n], pred);
        let longer = s.take(n + 1).filter(pred);
        let shorter = s.take(n).filter(pred);
        assert(longer.take(shorter.len() as int) =~= shorter);
        assert(s.filter(pred).take(shorter.len() as int) =~= s.filter(pred).take(
            longer.len() as int,
        ).take(shorter.len() as int));
    }
}

proof fn lemma_complex_prefix(messages: Seq<MessageView>, n: int)
    requires
        0 <= n <= messages.len(),
    ensures
        complex_blocks(messages.take(n)).len() <= complex_blocks(messages).len(),
        complex_blocks(messages.take(n)).len() > 0 ==> complex_blocks(messages)[0]
            == complex_blocks(messages.take(n))[0],
    decreases messages.len() - n,
{
    if n == messages.len() {
        assert(messages.take(n) =~= messages);
    } else {
        lemma_complex_prefix(messages, n + 1);
        assert(messages.take(n + 1).drop_last() =~= messages.take(n));
    }
}

/// Converts a message for a provider that takes text alone.
fn downgrade_message(
    msg: &Message,
    empty_assistant_tool_content_strategy: EmptyAssistantToolContentStrategy,
) -> (outcome: Result<serde_json::Value, LlmConnectorError>)
    ensures
        match outcome {
            Ok(value) => msg@.content.filter(is_complex()).len() == 0 && json_view(value)
                == text_message(msg@, empty_assistant_tool_content_strategy),
            Err(error) => msg@.content.filter(is_complex()).len() > 0 && error@
                == complex_block_error(msg@.content.filter(is_complex())[0]),
        },
{
    let (_visible, thinking_from_blocks) = partition_openai_visible_blocks(msg.content.as_slice());
    let content = if should_use_empty_assistant_tool_content_override(msg) {
        proof {
            reveal(Seq::filter);
            assert(msg@.content =~= seq![]);
        }
        match empty_assistant_tool_content_strategy {
            EmptyAssistantToolContentStrategy::Null => json_null(),
            EmptyAssistantToolContentStrategy::EmptyString
            | EmptyAssistantToolContentStrategy::EmptyArray => json_string(String::new()),
        }
    } else {
        match plain_text(msg.content.as_slice()) {
            Ok(text) => json_string(text),
            Err(error) => {
                return Err(error);
            },
        }
    };
    Ok(openai_message_value(msg, content, thinking_from_blocks.as_str()))
}

/// Converts messages for providers that take text alone, with the empty text for an empty content.
pub fn openai_message_converter_downgrade(messages: &[Message]) -> (outcome: Result<
    Vec<serde_json::Value>,
    LlmConnectorError,
>)
    ensures
        conversion_view(outcome) == text_messages(
            views(messages@),
            EmptyAssistantToolContentStrategy::EmptyString,
        ),
{
    openai_message_converter_downgrade_with_strategy(
        messages,
        EmptyAssistantToolContentStrategy::EmptyString,
    )
}

/// Converts messages for providers that take text alone.
pub fn openai_message_converter_downgrade_with_strategy(
    messages: &[Message],
    empty_assistant_tool_content_strategy: EmptyAssistantToolContentStrategy,
) -> (outcome: Result<Vec<serde_json::Value>, LlmConnectorError>)
    ensures
        conversion_view(outcome) == text_messages(
            views(messages@),
            empty_assistant_tool_content_strategy,
        ),
{
    let mut values: Vec<serde_json::Value> = Vec::new();
    let ghost model = views(messages@);
    let mut i: usize = 0;
    while i < messages.len()
        invariant
            i <= messages@.len(),
            model == views(messages@),
            values@.len() == i,
            complex_blocks(model.take(i as int)).len() == 0,
            forall|j: int|
                0 <= j < i ==> json_view(#[trigger] values@[j]) == text_message(
                    messages@[j]@,
                    empty_assistant_tool_content_strategy,
                ),
        decreases messages@.len() - i,
    {
        proof {
            assert(model.take(i + 1).drop_last() =~= model.take(i as int));
            assert(model.take(i + 1).last() == messages@[i as int]@);
            lemma_complex_prefix(model, i + 1);
        }
        match downgrade_message(&messages[i], empty_assistant_tool_content_strategy) {
            Ok(value) => values.push(value),
            Err(error) => {
                return Err(error);
            },
        }
        i += 1;
    }
    proof {
        assert(model.take(i as int) =~= model);
        assert(json_views(values@) =~= model.map_values(
            |msg: MessageView| text_message(msg, empty_assistant_tool_content_strategy),
        ));
    }
    Ok(values)
}

} // verus!
