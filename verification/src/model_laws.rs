//! What the chat model is and how it is written, stated of the operations themselves: of what goes
//! into them and what comes out.

use vstd::prelude::*;

use crate::block::{
    DocumentSource, DocumentUrl, ImageSource, ImageUrl, MessageBlock, MessageBlockView,
};
use crate::chat::{ChatRequest, ResponseFormat};
use crate::json::{
    digits_value, is_digits, json_field, json_parsed, json_str, json_text_field, json_view,
    map_view, opt_str, single, tagged, with_entry, JsonView,
};
use crate::message::{text_of, Message, Role};
use crate::text::{
    contains_text, decimal, decimal_text, drop_trailing, ends_in_text, find_text, is_white_space,
    lemma_find, occurs, occurs_at, opt_view, opt_views, quoted, trim_end, trim_start, trim_text,
    views, white_space, without_trailing,
};
use crate::tool::{
    opt_bool, AnthropicToolChoice, AnthropicToolDefinition, FunctionCall, Tool, ToolCall,
    ToolChoice,
};

verus! {

// Text.

/// Digits that are kept stand for what they stood for, and one more counts for itself.
proof fn lemma_digits_value_push(digits: Seq<char>, digit: char)
    ensures
        digits_value(digits.push(digit)) == digits_value(digits) * 10 + (digit as nat
            - '0' as nat) as nat,
{
    assert(digits.push(digit).drop_last() =~= digits);
}

proof fn lemma_decimal_is_the_numeral(n: nat)
    ensures
        is_digits(decimal(n)),
        digits_value(decimal(n)) == n,
        n > 0 ==> decimal(n)[0] != '0',
        n == 0 ==> decimal(n) == seq!['0'],
    decreases n,
{
    let none: Seq<char> = seq![];
    if n < 10 {
        lemma_digits_value_push(none, decimal(n)[0]);
        assert(decimal(n) =~= none.push(decimal(n)[0]));
    } else {
        let head = decimal(n / 10);
        lemma_decimal_is_the_numeral(n / 10);
        lemma_digits_value_push(head, decimal(n).last());
        assert(decimal(n) =~= head.push(decimal(n).last()));
        assert(forall|i: int| 0 <= i < head.len() ==> decimal(n)[i] == head[i]);
        assert(n == (n / 10) * 10 + n % 10);
    }
}

/// A number is written as decimal digits that stand for it, the first of which is not zero but for
/// zero itself.
pub proof fn numbers_are_written_in_decimal(n: u64, text: String)
    requires
        call_ensures(decimal_text, (n,), text),
    ensures
        is_digits(text@),
        digits_value(text@) == n,
        n > 0 ==> text@[0] != '0',
        n == 0 ==> text@ == seq!['0'],
{
    lemma_decimal_is_the_numeral(n as nat);
}

/// A text that is found stands at the place given, and at no place before it. Where none is given
/// it stands nowhere.
pub proof fn texts_are_found_where_they_first_stand(
    whole: &str,
    part: &str,
    found: Option<usize>,
    at: int,
)
    requires
        call_ensures(find_text, (whole, part), found),
        0 <= at <= whole@.len() - part@.len(),
    ensures
        found matches Some(first) && first == at ==> whole@.subrange(at, at + part@.len()) == part@,
        found is None ==> whole@.subrange(at, at + part@.len()) != part@,
        found matches Some(first) && at < first ==> whole@.subrange(at, at + part@.len()) != part@,
        found matches Some(first) ==> first + part@.len() <= whole@.len(),
{
    lemma_find(whole@, part@);
    assert(occurs_at(whole@, part@, at) <==> whole@.subrange(at, at + part@.len()) == part@);
}

/// Whether a text can be cut into something, another text, and something more.
pub open spec fn stands_in(whole: Seq<char>, part: Seq<char>) -> bool {
    exists|head: Seq<char>, tail: Seq<char>| whole == #[trigger] (head + part + tail)
}

/// A text occurs in another exactly where it stands in it.
pub proof fn lemma_stands_in(whole: Seq<char>, part: Seq<char>)
    ensures
        occurs(whole, part) <==> stands_in(whole, part),
{
    if occurs(whole, part) {
        let at = choose|at: int| occurs_at(whole, part, at);
        let (head, tail) = (whole.take(at), whole.skip(at + part.len()));
        assert(whole =~= head + whole.subrange(at, at + part.len()) + tail);
        assert(whole == head + part + tail);
    }
    if stands_in(whole, part) {
        let (head, tail) = choose|head: Seq<char>, tail: Seq<char>|
            whole == #[trigger] (head + part + tail);
        let at = head.len() as int;
        assert(whole.subrange(at, at + part.len()) =~= part);
        assert(occurs_at(whole, part, at));
    }
}

/// A text contains another exactly where it can be cut into what stands before it, the other, and
/// what stands after it.
pub proof fn a_text_contains_what_stands_in_it(whole: &str, part: &str, contains: bool)
    requires
        call_ensures(contains_text, (whole, part), contains),
    ensures
        contains <==> stands_in(whole@, part@),
{
    lemma_stands_in(whole@, part@);
}

/// A text ends in another exactly where it is something followed by the other.
pub proof fn a_text_ends_in_what_comes_last(whole: &str, part: &str, ends: bool)
    requires
        call_ensures(ends_in_text, (whole, part), ends),
    ensures
        ends <==> exists|head: Seq<char>| whole@ == #[trigger] (head + part@),
{
    let at = whole@.len() - part@.len();
    if ends {
        assert(whole@ =~= whole@.take(at) + whole@.subrange(at, at + part@.len()));
        assert(whole@ == whole@.take(at) + part@);
    }
    if exists|head: Seq<char>| whole@ == #[trigger] (head + part@) {
        let head = choose|head: Seq<char>| whole@ == #[trigger] (head + part@);
        assert(whole@.subrange(at, at + part@.len()) =~= part@);
    }
}

pub(crate) proof fn lemma_without_trailing(text: Seq<char>, c: char)
    ensures
        ({
            let kept = without_trailing(text, c);
            &&& kept.len() <= text.len()
            &&& text.take(kept.len() as int) == kept
            &&& forall|i: int| kept.len() <= i < text.len() ==> text[i] == c
            &&& kept.len() > 0 ==> kept.last() != c
        }),
    decreases text.len(),
{
    if text.len() > 0 && text.last() == c {
        lemma_without_trailing(text.drop_last(), c);
        let kept = without_trailing(text, c);
        assert(text.take(kept.len() as int) =~= text.drop_last().take(kept.len() as int));
        assert forall|i: int| kept.len() <= i < text.len() implies text[i] == c by {
            if i < text.len() - 1 {
                assert(text.drop_last()[i] == c);
            }
        }
    } else {
        assert(text.take(text.len() as int) =~= text);
    }
}

/// Dropping a character at the end leaves the text up to it: what is dropped is that character and
/// nothing else, and none of it is left.
pub proof fn only_the_trailing_character_is_dropped(text: &str, c: char, kept: &str)
    requires
        call_ensures(drop_trailing, (text, c), kept),
    ensures
        kept@.len() <= text@.len(),
        text@.take(kept@.len() as int) == kept@,
        forall|i: int| kept@.len() <= i < text@.len() ==> text@[i] == c,
        kept@.len() > 0 ==> kept@.last() != c,
{
    lemma_without_trailing(text@, c);
}

proof fn lemma_trim_start_skips(text: Seq<char>)
    ensures
        ({
            let n = text.len() - trim_start(text).len();
            &&& 0 <= n
            &&& text.skip(n) == trim_start(text)
            &&& forall|i: int| 0 <= i < n ==> is_white_space(text[i])
            &&& trim_start(text).len() > 0 ==> !is_white_space(trim_start(text)[0])
        }),
    decreases text.len(),
{
    if text.len() > 0 && is_white_space(text.first()) {
        let rest = text.drop_first();
        lemma_trim_start_skips(rest);
        let n = text.len() - trim_start(text).len();
        assert(text.skip(n) =~= rest.skip(n - 1));
        assert forall|i: int| 0 <= i < n implies is_white_space(text[i]) by {
            if i > 0 {
                assert(is_white_space(rest[i - 1]));
            }
        }
    } else {
        assert(text.skip(0) =~= text);
    }
}

proof fn lemma_trim_end_takes(text: Seq<char>)
    ensures
        ({
            let kept = trim_end(text);
            &&& kept.len() <= text.len()
            &&& text.take(kept.len() as int) == kept
            &&& forall|i: int| kept.len() <= i < text.len() ==> is_white_space(text[i])
            &&& kept.len() > 0 ==> !is_white_space(kept.last())
        }),
    decreases text.len(),
{
    if text.len() > 0 && is_white_space(text.last()) {
        lemma_trim_end_takes(text.drop_last());
        let kept = trim_end(text);
        assert(text.take(kept.len() as int) =~= text.drop_last().take(kept.len() as int));
        assert forall|i: int| kept.len() <= i < text.len() implies is_white_space(text[i]) by {
            if i < text.len() - 1 {
                assert(is_white_space(text.drop_last()[i]));
            }
        }
    } else {
        assert(text.take(text.len() as int) =~= text);
    }
}

/// The white space of Unicode is the tab and the four controls after it, the space, the next line,
/// and the spaces and separators at the code points given here.
pub proof fn white_space_is_that_of_unicode(c: char, white: bool)
    requires
        call_ensures(white_space, (c,), white),
    ensures
        ({
            let code = c as int;
            white <==> {
                ||| 0x09 <= code <= 0x0D
                ||| code == 0x20 || code == 0x85 || code == 0xA0 || code == 0x1680
                ||| 0x2000 <= code <= 0x200A
                ||| code == 0x2028 || code == 0x2029 || code == 0x202F || code == 0x205F
                ||| code == 0x3000
            }
        }),
{
}

/// Whether a text is all white space.
pub open spec fn is_blank(text: Seq<char>) -> bool {
    forall|i: int| 0 <= i < text.len() ==> is_white_space(#[trigger] text[i])
}

/// Trimming takes white space off both ends, and nothing else, and leaves none there.
pub proof fn trimming_takes_white_space_off_the_ends(text: &str, kept: &str)
    requires
        call_ensures(trim_text, (text,), kept),
    ensures
        exists|before: Seq<char>, after: Seq<char>|
            #[trigger] is_blank(before) && #[trigger] is_blank(after) && text@ == before + kept@
                + after,
        kept@.len() > 0 ==> !is_white_space(kept@.first()) && !is_white_space(kept@.last()),
{
    lemma_trimmed(text@, kept@);
}

/// What trimming leaves, of a text that is given as a sequence.
pub proof fn lemma_trimmed(text: Seq<char>, kept: Seq<char>)
    requires
        kept == trim_end(trim_start(text)),
    ensures
        exists|before: Seq<char>, after: Seq<char>|
            #[trigger] is_blank(before) && #[trigger] is_blank(after) && text == before + kept
                + after,
        kept.len() > 0 ==> !is_white_space(kept.first()) && !is_white_space(kept.last()),
{
    lemma_trim_start_skips(text);
    lemma_trim_end_takes(trim_start(text));
    let rest = trim_start(text);
    let n = text.len() - rest.len();
    let (before, after) = (text.take(n), rest.skip(kept.len() as int));
    assert(is_blank(before));
    assert(is_blank(after)) by {
        assert forall|i: int| 0 <= i < after.len() implies is_white_space(#[trigger] after[i]) by {
            assert(after[i] == rest[kept.len() + i]);
        }
    }
    assert(rest =~= rest.take(kept.len() as int) + after);
    assert(text =~= before + text.skip(n));
    assert(text =~= before + kept + after);
    if kept.len() > 0 {
        assert(kept.first() == rest[0]);
    }
}

// JSON.

/// A field is read from an object under its key, and from nothing else.
pub proof fn fields_are_read_from_objects(
    entries: Map<Seq<char>, JsonView>,
    key: Seq<char>,
    tree: JsonView,
)
    ensures
        json_field(JsonView::Object(entries), key) == (if entries.contains_key(key) {
            Some(entries[key])
        } else {
            None
        }),
        !(tree is Object) ==> json_field(tree, key) is None,
        entries.contains_key(key) ==> json_text_field(JsonView::Object(entries), key) == (
        match entries[key] {
            JsonView::Str(text) => Some(text),
            _ => None,
        }),
        !entries.contains_key(key) ==> json_text_field(JsonView::Object(entries), key) is None,
        json_str(tree) == (match tree {
            JsonView::Str(text) => Some(text),
            _ => None,
        }),
{
}

/// An entry is put in exactly where there is a value for it, whatever the value, and an optional
/// value is written as the value that it holds.
pub proof fn optional_entries_are_put_in_where_given(
    entries: Map<Seq<char>, JsonView>,
    key: Seq<char>,
    value: JsonView,
    text: Seq<char>,
    flag: bool,
)
    ensures
        with_entry(entries, key, Some(value)) == entries.insert(key, value),
        with_entry(entries, key, None) == entries,
        opt_str(Some(text)) == Some(JsonView::Str(text)),
        opt_str(None) is None,
        opt_bool(Some(flag)) == Some(JsonView::Bool(flag)),
        opt_bool(None) is None,
        single(key, value) == JsonView::Object(map![key => value]),
        key != "type"@ ==> tagged(text, key, value) == JsonView::Object(
            map!["type"@ => JsonView::Str(text), key => value],
        ),
{
}

// Blocks.

/// Whether a tree carries base64 data with its media type.
pub open spec fn carries_base64(media_type: Seq<char>, data: Seq<char>, sent: JsonView) -> bool {
    sent == JsonView::Object(
        map![
            "type"@ => JsonView::Str("base64"@),
            "media_type"@ => JsonView::Str(media_type),
            "data"@ => JsonView::Str(data)
        ],
    )
}

/// Whether a tree carries an address alone.
pub open spec fn carries_url(url: Seq<char>, sent: JsonView) -> bool {
    sent == JsonView::Object(map!["url"@ => JsonView::Str(url)])
}

/// Whether a tree carries a block: it has the type of the block, what the block holds under its
/// keys, and nothing else.
pub open spec fn carries_block(block: MessageBlock, sent: JsonView) -> bool {
    match block {
        MessageBlock::Text { text } => sent == JsonView::Object(
            map!["type"@ => JsonView::Str("text"@), "text"@ => JsonView::Str(text@)],
        ),
        MessageBlock::Image { source } => exists|inner: JsonView|
            sent == JsonView::Object(
                map!["type"@ => JsonView::Str("image"@), "source"@ => inner],
            ) && (#[trigger] carries_image_source(source, inner)),
        MessageBlock::ImageUrl { image_url } => exists|inner: JsonView|
            sent == JsonView::Object(
                map!["type"@ => JsonView::Str("image_url"@), "image_url"@ => inner],
            ) && (#[trigger] carries_url(image_url.url@, inner)),
        MessageBlock::Document { source } => exists|inner: JsonView|
            sent == JsonView::Object(
                map!["type"@ => JsonView::Str("document"@), "source"@ => inner],
            ) && (#[trigger] carries_document_source(source, inner)),
        MessageBlock::DocumentUrl { document_url } => exists|inner: JsonView|
            sent == JsonView::Object(
                map!["type"@ => JsonView::Str("document_url"@), "document_url"@ => inner],
            ) && (#[trigger] carries_url(document_url.url@, inner)),
        MessageBlock::Thinking { thinking, signature: Some(signature) } => sent
            == JsonView::Object(
            map![
                "type"@ => JsonView::Str("thinking"@),
                "thinking"@ => JsonView::Str(thinking@),
                "signature"@ => JsonView::Str(signature@)
            ],
        ),
        MessageBlock::Thinking { thinking, signature: None } => sent == JsonView::Object(
            map!["type"@ => JsonView::Str("thinking"@), "thinking"@ => JsonView::Str(thinking@)],
        ),
    }
}

/// Whether a tree carries an image source.
pub open spec fn carries_image_source(source: ImageSource, sent: JsonView) -> bool {
    match source {
        ImageSource::Base64 { media_type, data } => carries_base64(media_type@, data@, sent),
        ImageSource::Url { url } => sent == JsonView::Object(
            map!["type"@ => JsonView::Str("url"@), "url"@ => JsonView::Str(url@)],
        ),
    }
}

/// Whether a tree carries a document source.
pub open spec fn carries_document_source(source: DocumentSource, sent: JsonView) -> bool {
    match source {
        DocumentSource::Base64 { media_type, data } => carries_base64(media_type@, data@, sent),
    }
}

/// The tree that stands for a block carries it.
pub proof fn lemma_block_is_carried(block: MessageBlock)
    ensures
        carries_block(block, block@.wire()),
{
    match block {
        MessageBlock::Image { source } => {
            assert(carries_image_source(source, source@.wire()));
        },
        MessageBlock::ImageUrl { image_url } => {
            assert(carries_url(image_url.url@, single("url"@, JsonView::Str(image_url.url@))));
        },
        MessageBlock::Document { source } => {
            assert(carries_document_source(source, source@.wire()));
        },
        MessageBlock::DocumentUrl { document_url } => {
            assert(carries_url(
                document_url.url@,
                single("url"@, JsonView::Str(document_url.url@)),
            ));
        },
        _ => {},
    }
}

/// A block is written with its type and all that it holds.
pub proof fn blocks_are_written_in_full(block: &MessageBlock, value: serde_json::Value)
    requires
        call_ensures(MessageBlock::to_value, (block,), value),
    ensures
        carries_block(*block, json_view(value)),
{
    lemma_block_is_carried(*block);
}

/// What `Debug` shows of a block names its kind and shows every text that it holds.
pub proof fn blocks_are_shown_in_full(block: &MessageBlock, shown: String)
    requires
        call_ensures(MessageBlock::debug_text, (block,), shown),
    ensures
        *block matches MessageBlock::Text { text } ==> shown@ == "Text { text: "@ + quoted(text@)
            + " }"@,
        *block matches MessageBlock::Image { source: ImageSource::Base64 { media_type, data } }
            ==> shown@ == "Image { source: "@ + ("Base64 { media_type: "@ + quoted(media_type@)
            + ", data: "@ + quoted(data@) + " }"@) + " }"@,
        *block matches MessageBlock::Image { source: ImageSource::Url { url } } ==> shown@
            == "Image { source: "@ + ("Url"@ + " { url: "@ + quoted(url@) + " }"@) + " }"@,
        *block matches MessageBlock::ImageUrl { image_url } ==> shown@ == "ImageUrl { image_url: "@
            + ("ImageUrl"@ + " { url: "@ + quoted(image_url.url@) + " }"@) + " }"@,
        *block matches MessageBlock::Document {
            source: DocumentSource::Base64 { media_type, data },
        } ==> shown@ == "Document { source: "@ + ("Base64 { media_type: "@ + quoted(media_type@)
            + ", data: "@ + quoted(data@) + " }"@) + " }"@,
        *block matches MessageBlock::DocumentUrl { document_url } ==> shown@
            == "DocumentUrl { document_url: "@ + ("DocumentUrl"@ + " { url: "@ + quoted(
            document_url.url@,
        ) + " }"@) + " }"@,
        *block matches MessageBlock::Thinking { thinking, signature: None } ==> shown@
            == "Thinking { thinking: "@ + quoted(thinking@) + ", signature: "@ + "None"@ + " }"@,
        *block matches MessageBlock::Thinking { thinking, signature: Some(signature) } ==> shown@
            == "Thinking { thinking: "@ + quoted(thinking@) + ", signature: "@ + ("Some("@ + quoted(
            signature@,
        ) + ")"@) + " }"@,
{
}

/// A block is text exactly where it has a text, and the text is the one that it holds.
pub proof fn text_blocks_have_a_text(block: &MessageBlock, text: Option<&str>, is_text: bool)
    requires
        call_ensures(MessageBlock::as_text, (block,), text),
        call_ensures(MessageBlock::is_text, (block,), is_text),
    ensures
        is_text <==> text is Some,
        *block matches MessageBlock::Text { text: held } ==> text matches Some(found) && found@
            == held@,
        !(*block is Text) ==> text is None,
{
}

/// A block is made of what it is given.
pub proof fn blocks_are_made_of_what_is_given(
    a: &str,
    b: &str,
    text: MessageBlock,
    thought: MessageBlock,
    image: MessageBlock,
    image_url: MessageBlock,
    document: MessageBlock,
    document_url: MessageBlock,
)
    requires
        call_ensures(MessageBlock::text, (a,), text),
        call_ensures(MessageBlock::thinking_unsigned, (a,), thought),
        call_ensures(MessageBlock::image_base64, (a, b), image),
        call_ensures(MessageBlock::image_url, (a,), image_url),
        call_ensures(MessageBlock::document_base64, (a, b), document),
        call_ensures(MessageBlock::document_url, (a,), document_url),
    ensures
        text matches MessageBlock::Text { text: held } && held@ == a@,
        thought matches MessageBlock::Thinking { thinking, signature } && thinking@ == a@
            && signature is None,
        image matches MessageBlock::Image { source: ImageSource::Base64 { media_type, data } }
            && media_type@ == a@ && data@ == b@,
        image_url matches MessageBlock::ImageUrl { image_url: ImageUrl { url } } && url@ == a@,
        document matches MessageBlock::Document {
            source: DocumentSource::Base64 { media_type, data },
        } && media_type@ == a@ && data@ == b@,
        document_url matches MessageBlock::DocumentUrl { document_url: DocumentUrl { url } }
            && url@ == a@,
{
}

// Messages.

/// What the texts of some blocks say, one after the other.
pub open spec fn said(content: Seq<MessageBlock>) -> Seq<char>
    decreases content.len(),
{
    if content.len() == 0 {
        seq![]
    } else {
        (match content[0] {
            MessageBlock::Text { text } => text@,
            _ => seq![],
        }) + said(content.skip(1))
    }
}

proof fn lemma_said_push(content: Seq<MessageBlock>, block: MessageBlock)
    ensures
        said(content.push(block)) == said(content) + (match block {
            MessageBlock::Text { text } => text@,
            _ => seq![],
        }),
    decreases content.len(),
{
    let longer = content.push(block);
    if content.len() == 0 {
        assert(longer.skip(1) =~= seq![]);
        assert(said(longer.skip(1)) =~= seq![]);
        assert(said(longer) =~= said(content) + (match block {
            MessageBlock::Text { text } => text@,
            _ => seq![],
        }));
    } else {
        lemma_said_push(content.skip(1), block);
        assert(longer.skip(1) =~= content.skip(1).push(block));
        assert(longer[0] == content[0]);
        assert(said(longer) =~= said(content) + (match block {
            MessageBlock::Text { text } => text@,
            _ => seq![],
        }));
    }
}

/// What a content says is the text of its view.
pub proof fn lemma_said(content: Seq<MessageBlock>)
    ensures
        text_of(views(content)) == said(content),
    decreases content.len(),
{
    if content.len() > 0 {
        let rest = content.drop_last();
        lemma_said(rest);
        lemma_said_push(rest, content.last());
        assert(rest.push(content.last()) =~= content);
        assert(views(content).drop_last() =~= views(rest));
        assert(views(content).last() == content.last()@);
        assert(text_of(views(content)) =~= said(content));
    }
}

/// The text of a message is what its text blocks say, in their order and with nothing between.
pub proof fn a_message_says_what_its_texts_say(message: &Message, text: String)
    requires
        call_ensures(Message::content_as_text, (message,), text),
    ensures
        text@ == said(message.content@),
{
    lemma_said(message.content@);
}

/// Whether a message has no name, no id, no calls and no reasoning.
pub open spec fn is_bare(message: Message) -> bool {
    &&& message.name is None
    &&& message.reasoning_content is None
    &&& message.reasoning is None
    &&& message.thought is None
    &&& message.thinking is None
}

/// A message is from the one that it is made for, and holds what it is given and no more.
pub proof fn messages_are_made_of_what_is_given(
    text: &str,
    id: &str,
    calls: Vec<ToolCall>,
    user: Message,
    assistant: Message,
    tool: Message,
)
    requires
        call_ensures(Message::user, (text,), user),
        call_ensures(Message::assistant_with_tool_calls, (calls,), assistant),
        call_ensures(Message::tool, (text, id), tool),
    ensures
        user.role == Role::User,
        user.content@.len() == 1,
        said(user.content@) == text@,
        user.tool_calls is None && user.tool_call_id is None && is_bare(user),
        assistant.role == Role::Assistant,
        assistant.content@.len() == 0,
        assistant.tool_calls matches Some(held) && views(held@) == views(calls@),
        assistant.tool_call_id is None && is_bare(assistant),
        tool.role == Role::Tool,
        tool.content@.len() == 1,
        said(tool.content@) == text@,
        tool.tool_call_id matches Some(held) && held@ == id@,
        tool.tool_calls is None && is_bare(tool),
{
    lemma_said(user.content@);
    lemma_said(tool.content@);
    let none: Seq<MessageBlockView> = seq![];
    let one = seq![MessageBlockView::Text { text: text@ }];
    assert(one.drop_last() =~= none);
    assert(text_of(one) =~= text_of(none) + text@);
    assert(views(user.content@).len() == 1);
    assert(views(tool.content@).len() == 1);
    assert(views(assistant.content@).len() == 0);
}

/// A copy of a message holds what the message holds, and a message that is made of nothing is the
/// user's and says nothing.
pub proof fn messages_are_copied_in_full(message: &Message, copy: Message, made: Message)
    requires
        call_ensures(Message::clone, (message,), copy),
        call_ensures(Message::default, (), made),
    ensures
        copy.role == message.role,
        views(copy.content@) == views(message.content@),
        opt_view(copy.name) == opt_view(message.name),
        opt_views(copy.tool_calls) == opt_views(message.tool_calls),
        opt_view(copy.tool_call_id) == opt_view(message.tool_call_id),
        opt_view(copy.reasoning_content) == opt_view(message.reasoning_content),
        opt_view(copy.reasoning) == opt_view(message.reasoning),
        opt_view(copy.thought) == opt_view(message.thought),
        opt_view(copy.thinking) == opt_view(message.thinking),
        made.role == Role::User,
        made.content@.len() == 0,
        made.tool_calls is None && made.tool_call_id is None && is_bare(made),
{
    assert(views(made.content@).len() == made.content@.len());
}

/// Whether two requests agree on everything but their messages, their tools and their choices.
pub open spec fn agree_on_settings(a: ChatRequest, b: ChatRequest) -> bool {
    &&& a.model@ == b.model@
    &&& a.max_tokens == b.max_tokens
    &&& a.temperature == b.temperature
    &&& a.top_p == b.top_p
    &&& a.stream == b.stream
    &&& opt_view(a.response_format) == opt_view(b.response_format)
}

/// A request starts with its model alone.
pub proof fn requests_start_with_their_model(model: &str, start: ChatRequest)
    requires
        call_ensures(ChatRequest::new, (model,), start),
    ensures
        start.model@ == model@,
        start.messages@.len() == 0,
        start.max_tokens is None && start.temperature is None && start.top_p is None,
        start.stream is None && start.tools is None && start.tool_choice is None,
        start.response_format is None && start.anthropic_tools is None,
        start.anthropic_tool_choice is None,
{
    assert(views(start.messages@).len() == start.messages@.len());
}

/// A message that is added comes after those that are there, and the rest is kept.
pub proof fn added_messages_come_last(before: ChatRequest, message: Message, after: ChatRequest)
    requires
        call_ensures(ChatRequest::add_message, (before, message), after),
    ensures
        after.messages@.len() == before.messages@.len() + 1,
        after.messages@.last()@ == message@,
        views(after.messages@).drop_last() == views(before.messages@),
        agree_on_settings(before, after),
        opt_views(after.tools) == opt_views(before.tools),
        opt_view(after.tool_choice) == opt_view(before.tool_choice),
        opt_views(after.anthropic_tools) == opt_views(before.anthropic_tools),
        opt_view(after.anthropic_tool_choice) == opt_view(before.anthropic_tool_choice),
{
    assert(views(after.messages@).len() == after.messages@.len());
    assert(views(before.messages@).len() == before.messages@.len());
    assert(views(after.messages@).last() == after.messages@.last()@);
    assert(views(after.messages@).drop_last() =~= views(before.messages@));
}

/// Tools and choices that are given to a request are those that it has, and the rest is kept.
pub proof fn given_tools_are_kept(
    before: ChatRequest,
    tools: Vec<Tool>,
    tooled: ChatRequest,
    choice: ToolChoice,
    chosen: ChatRequest,
    own_tools: Vec<AnthropicToolDefinition>,
    own_tooled: ChatRequest,
    own_choice: AnthropicToolChoice,
    own_chosen: ChatRequest,
)
    requires
        call_ensures(ChatRequest::with_tools, (before, tools), tooled),
        call_ensures(ChatRequest::with_tool_choice, (before, choice), chosen),
        call_ensures(ChatRequest::with_anthropic_tools, (before, own_tools), own_tooled),
        call_ensures(ChatRequest::with_anthropic_tool_choice, (before, own_choice), own_chosen),
    ensures
        opt_views(tooled.tools) == Some(views(tools@)),
        opt_view(tooled.tool_choice) == opt_view(before.tool_choice),
        views(tooled.messages@) == views(before.messages@) && agree_on_settings(before, tooled),
        opt_view(chosen.tool_choice) == Some(choice@),
        opt_views(chosen.tools) == opt_views(before.tools),
        views(chosen.messages@) == views(before.messages@) && agree_on_settings(before, chosen),
        opt_views(own_tooled.anthropic_tools) == Some(views(own_tools@)),
        opt_view(own_tooled.anthropic_tool_choice) == opt_view(before.anthropic_tool_choice),
        views(own_tooled.messages@) == views(before.messages@) && agree_on_settings(
            before,
            own_tooled,
        ),
        opt_view(own_chosen.anthropic_tool_choice) == Some(own_choice@),
        opt_views(own_chosen.anthropic_tools) == opt_views(before.anthropic_tools),
        views(own_chosen.messages@) == views(before.messages@) && agree_on_settings(
            before,
            own_chosen,
        ),
{
}

// Tools.

/// Whether a field is there exactly where there is a text for it, and is that text.
pub open spec fn holds_text(sent: JsonView, key: Seq<char>, text: Option<String>) -> bool {
    json_field(sent, key) == match text {
        Some(text) => Some(JsonView::Str(text@)),
        None => None,
    }
}

/// Whether a field is there exactly where there is a flag for it, and is that flag.
pub open spec fn holds_flag(sent: JsonView, key: Seq<char>, flag: Option<bool>) -> bool {
    json_field(sent, key) == match flag {
        Some(flag) => Some(JsonView::Bool(flag)),
        None => None,
    }
}

/// Whether a field is there exactly where there is a value for it, and is that value.
pub open spec fn holds_value(
    sent: JsonView,
    key: Seq<char>,
    value: Option<serde_json::Value>,
) -> bool {
    json_field(sent, key) == match value {
        Some(value) => Some(json_view(value)),
        None => None,
    }
}

/// Whether a tree carries the function of a call.
pub open spec fn carries_function(function: FunctionCall, sent: JsonView) -> bool {
    &&& sent is Object
    &&& json_field(sent, "name"@) == Some(JsonView::Str(function.name@))
    &&& json_field(sent, "arguments"@) == Some(JsonView::Str(function.arguments@))
    &&& holds_text(sent, "thought_signature"@, function.thought_signature)
    &&& forall|key: Seq<char>| #[trigger]
        json_field(sent, key) is Some ==> key == "name"@ || key == "arguments"@ || key
            == "thought_signature"@
}

/// Whether a tree carries a call: its id, its type, its function with the arguments, its position
/// and its signature where it has them, and nothing else.
pub open spec fn carries_call(call: ToolCall, sent: JsonView) -> bool {
    &&& sent is Object
    &&& json_field(sent, "id"@) == Some(JsonView::Str(call.id@))
    &&& json_field(sent, "type"@) == Some(JsonView::Str(call.call_type@))
    &&& json_field(sent, "function"@) matches Some(function) && carries_function(
        call.function,
        function,
    )
    &&& json_field(sent, "index"@) == match call.index {
        Some(index) => Some(JsonView::Number(decimal(index as nat))),
        None => None,
    }
    &&& holds_text(sent, "thought_signature"@, call.thought_signature)
    &&& forall|key: Seq<char>| #[trigger]
        json_field(sent, key) is Some ==> key == "id"@ || key == "type"@ || key == "function"@
            || key == "index"@ || key == "thought_signature"@
}

/// The tree that stands for a call carries it.
pub proof fn lemma_call_is_carried(call: ToolCall)
    ensures
        carries_call(call, call@.wire()),
{
    reveal_strlit("id");
    reveal_strlit("type");
    reveal_strlit("function");
    reveal_strlit("index");
    reveal_strlit("thought_signature");
    reveal_strlit("name");
    reveal_strlit("arguments");
    assert("id"@.len() == 2);
    assert("type"@.len() == 4);
    assert("function"@.len() == 8);
    assert("index"@.len() == 5);
    assert("thought_signature"@.len() == 17);
    assert("name"@.len() == 4);
    assert("arguments"@.len() == 9);
    assert(carries_function(call.function, call.function@.wire()));
}

/// A call is written in full.
pub proof fn calls_are_written_in_full(call: &ToolCall, value: serde_json::Value)
    requires
        call_ensures(ToolCall::to_value, (call,), value),
    ensures
        carries_call(*call, json_view(value)),
{
    lemma_call_is_carried(*call);
}

/// The arguments of a call are read as the JSON that its text is.
pub proof fn arguments_are_read_as_json(
    call: &ToolCall,
    parsed: Result<serde_json::Value, String>,
)
    requires
        call_ensures(ToolCall::arguments_value, (call,), parsed),
    ensures
        match (json_parsed(call.function.arguments@), parsed) {
            (Ok(tree), Ok(value)) => json_view(value) == tree,
            (Err(why), Err(message)) => message@ == why,
            _ => false,
        },
{
}

/// A tool choice is written as its mode, or as the function that it names with its type. Choices
/// of different modes are written differently.
pub proof fn choices_are_written_as_they_are(
    choice: &ToolChoice,
    value: serde_json::Value,
    other: &ToolChoice,
    other_value: serde_json::Value,
)
    requires
        call_ensures(ToolChoice::to_value, (choice,), value),
        call_ensures(ToolChoice::to_value, (other,), other_value),
    ensures
        *choice matches ToolChoice::Mode(mode) ==> json_view(value) == JsonView::Str(mode@),
        *choice matches ToolChoice::Function { choice_type, function } ==> json_view(value)
            == JsonView::Object(
            map![
                "type"@ => JsonView::Str(choice_type@),
                "function"@ => JsonView::Object(map!["name"@ => JsonView::Str(function.name@)])
            ],
        ),
        choice@ != other@ ==> json_view(value) != json_view(other_value),
{
    match (*choice, *other) {
        (
            ToolChoice::Function { choice_type: a, function: f },
            ToolChoice::Function { choice_type: b, function: g },
        ) => {
            reveal_strlit("type");
            reveal_strlit("function");
            assert("type"@.len() != "function"@.len());
            assert(json_field(json_view(value), "type"@) == Some(JsonView::Str(a@)));
            assert(json_field(json_view(other_value), "type"@) == Some(JsonView::Str(b@)));
            let (x, y) = (
                single("name"@, JsonView::Str(f.name@)),
                single("name"@, JsonView::Str(g.name@)),
            );
            assert(json_field(json_view(value), "function"@) == Some(x));
            assert(json_field(json_view(other_value), "function"@) == Some(y));
            assert(json_field(x, "name"@) == Some(JsonView::Str(f.name@)));
            assert(json_field(y, "name"@) == Some(JsonView::Str(g.name@)));
        },
        _ => {},
    }
}

/// The modes of a tool choice are named.
pub proof fn choices_are_made_by_name(
    name: &str,
    none: ToolChoice,
    auto: ToolChoice,
    required: ToolChoice,
    function: ToolChoice,
)
    requires
        call_ensures(ToolChoice::none, (), none),
        call_ensures(ToolChoice::auto, (), auto),
        call_ensures(ToolChoice::required, (), required),
        call_ensures(ToolChoice::function, (name,), function),
    ensures
        none matches ToolChoice::Mode(mode) && mode@ == "none"@,
        auto matches ToolChoice::Mode(mode) && mode@ == "auto"@,
        required matches ToolChoice::Mode(mode) && mode@ == "required"@,
        function matches ToolChoice::Function { choice_type, function: held } && choice_type@
            == "function"@ && held.name@ == name@,
{
}

/// A choice in Anthropic's own form is of the type that it is made for, and is written with that
/// type, with its name where it has one, and with nothing else.
pub proof fn anthropic_choices_are_written_in_full(
    choice: &AnthropicToolChoice,
    value: serde_json::Value,
)
    requires
        call_ensures(AnthropicToolChoice::to_value, (choice,), value),
    ensures
        json_field(json_view(value), "type"@) == Some(JsonView::Str(choice.choice_type@)),
        holds_text(json_view(value), "name"@, choice.name),
        forall|key: Seq<char>| #[trigger]
            json_field(json_view(value), key) is Some ==> key == "type"@ || key == "name"@,
{
    reveal_strlit("type");
    reveal_strlit("name");
    assert("type"@[0] != "name"@[0]);
}

/// The types of a choice in Anthropic's own form are named.
pub proof fn anthropic_choices_are_made_by_name(
    name: &str,
    none: AnthropicToolChoice,
    auto: AnthropicToolChoice,
    any: AnthropicToolChoice,
    tool: AnthropicToolChoice,
)
    requires
        call_ensures(AnthropicToolChoice::none, (), none),
        call_ensures(AnthropicToolChoice::auto, (), auto),
        call_ensures(AnthropicToolChoice::any, (), any),
        call_ensures(AnthropicToolChoice::tool, (name,), tool),
    ensures
        none.choice_type@ == "none"@ && none.name is None,
        auto.choice_type@ == "auto"@ && auto.name is None,
        any.choice_type@ == "any"@ && any.name is None,
        tool.choice_type@ == "tool"@,
        tool.name matches Some(held) && held@ == name@,
{
}

/// Whether a tree carries a tool definition. What `extra` holds is there as it is, and each field
/// under its key where `extra` does not hold that key. Nothing else is there.
pub open spec fn carries_definition(tool: AnthropicToolDefinition, sent: JsonView) -> bool {
    let extra = map_view(tool.extra);
    &&& sent is Object
    &&& forall|key: Seq<char>| #[trigger]
        extra.contains_key(key) ==> json_field(sent, key) == Some(extra[key])
    &&& extra.contains_key("type"@) || holds_text(sent, "type"@, tool.tool_type)
    &&& extra.contains_key("name"@) || holds_text(sent, "name"@, tool.name)
    &&& extra.contains_key("description"@) || holds_text(sent, "description"@, tool.description)
    &&& extra.contains_key("input_schema"@) || holds_value(
        sent,
        "input_schema"@,
        tool.input_schema,
    )
    &&& extra.contains_key("custom_input_schema"@) || holds_value(
        sent,
        "custom_input_schema"@,
        tool.custom_input_schema,
    )
    &&& extra.contains_key("input_examples"@) || holds_value(
        sent,
        "input_examples"@,
        tool.input_examples,
    )
    &&& extra.contains_key("strict"@) || holds_flag(sent, "strict"@, tool.strict)
    &&& extra.contains_key("allowed_callers"@) || holds_value(
        sent,
        "allowed_callers"@,
        tool.allowed_callers,
    )
    &&& extra.contains_key("defer_loading"@) || holds_flag(
        sent,
        "defer_loading"@,
        tool.defer_loading,
    )
    &&& extra.contains_key("cache_control"@) || holds_value(
        sent,
        "cache_control"@,
        tool.cache_control,
    )
    &&& extra.contains_key("eager_input_streaming"@) || holds_flag(
        sent,
        "eager_input_streaming"@,
        tool.eager_input_streaming,
    )
    &&& forall|key: Seq<char>| #[trigger]
        json_field(sent, key) is Some ==> {
            ||| extra.contains_key(key)
            ||| key == "type"@
            ||| key == "name"@
            ||| key == "description"@
            ||| key == "input_schema"@
            ||| key == "custom_input_schema"@
            ||| key == "input_examples"@
            ||| key == "strict"@
            ||| key == "allowed_callers"@
            ||| key == "defer_loading"@
            ||| key == "cache_control"@
            ||| key == "eager_input_streaming"@
        }
}

/// The tree that stands for a tool definition carries it.
pub proof fn lemma_definition_is_carried(tool: AnthropicToolDefinition)
    ensures
        carries_definition(tool, tool@.wire()),
{
    reveal_strlit("type");
    reveal_strlit("name");
    reveal_strlit("description");
    reveal_strlit("input_schema");
    reveal_strlit("custom_input_schema");
    reveal_strlit("input_examples");
    reveal_strlit("strict");
    reveal_strlit("allowed_callers");
    reveal_strlit("defer_loading");
    reveal_strlit("cache_control");
    reveal_strlit("eager_input_streaming");
    assert("type"@[0] != "name"@[0]);
    assert("defer_loading"@[0] != "cache_control"@[0]);
    assert("type"@.len() == 4);
    assert("name"@.len() == 4);
    assert("description"@.len() == 11);
    assert("input_schema"@.len() == 12);
    assert("custom_input_schema"@.len() == 19);
    assert("input_examples"@.len() == 14);
    assert("strict"@.len() == 6);
    assert("allowed_callers"@.len() == 15);
    assert("defer_loading"@.len() == 13);
    assert("cache_control"@.len() == 13);
    assert("eager_input_streaming"@.len() == 21);
}

/// A tool definition is written in full.
pub proof fn definitions_are_written_in_full(
    tool: &AnthropicToolDefinition,
    value: serde_json::Value,
)
    requires
        call_ensures(AnthropicToolDefinition::to_value, (tool,), value),
    ensures
        carries_definition(*tool, json_view(value)),
{
    lemma_definition_is_carried(*tool);
}

/// A function tool is made of what it is given.
pub proof fn tools_are_made_of_what_is_given(
    name: &str,
    description: Option<String>,
    parameters: serde_json::Value,
    tool: Tool,
)
    requires
        call_ensures(Tool::function, (name, description, parameters), tool),
    ensures
        tool.tool_type@ == "function"@,
        tool.function.name@ == name@,
        opt_view(tool.function.description) == opt_view(description),
        json_view(tool.function.parameters) == json_view(parameters),
{
}

/// A response format is written as its type alone.
pub proof fn formats_are_written_by_type(format: &ResponseFormat, value: serde_json::Value)
    requires
        call_ensures(ResponseFormat::to_value, (format,), value),
    ensures
        json_view(value) == JsonView::Object(
            map!["type"@ => JsonView::Str(format.format_type@)],
        ),
{
}

} // verus!
