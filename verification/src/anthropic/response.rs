//! Responses of the messages API.

use vstd::prelude::*;
use vstd::string::*;

use crate::anthropic::AnthropicProtocol;
use crate::block::{MessageBlock, MessageBlockView};
use crate::chat::{
    ChatResponse, ChatResponseView, Choice, ChoiceView, PromptTokensDetails, Usage, UsageView,
};
use crate::clock::{can_show, counted, unix_seconds};
use crate::error::{LlmConnectorError, LlmConnectorErrorView};
use crate::json::{is_kept_as_text, json_text, json_to_text, opt_json, reads_back, JsonView};
use crate::message::{text_of, Message, MessageView, Role};
use crate::text::{opt_view, same_text, views};
use crate::tool::{FunctionCall, FunctionCallView, ToolCall, ToolCallView};

verus! {

/// A content block of a response.
#[derive(Debug)]
pub struct AnthropicContent {
    pub content_type: String,
    pub text: Option<String>,
    pub thinking: Option<String>,
    pub signature: Option<String>,
    pub id: Option<String>,
    pub name: Option<String>,
    pub input: Option<serde_json::Value>,
}

/// How many tokens an exchange took.
#[derive(Clone, Copy, Debug, PartialEq, Eq, Structural)]
pub struct AnthropicUsage {
    pub input_tokens: u32,
    pub output_tokens: u32,
    pub cache_creation_input_tokens: Option<u32>,
    pub cache_read_input_tokens: Option<u32>,
}

/// A response.
#[derive(Debug)]
pub struct AnthropicResponse {
    pub id: String,
    pub model: String,
    pub content: Vec<AnthropicContent>,
    pub stop_reason: Option<String>,
    pub usage: AnthropicUsage,
}

/// What a content block holds.
pub struct AnthropicContentView {
    pub content_type: Seq<char>,
    pub text: Option<Seq<char>>,
    pub thinking: Option<Seq<char>>,
    pub signature: Option<Seq<char>>,
    pub id: Option<Seq<char>>,
    pub name: Option<Seq<char>>,
    pub input: Option<JsonView>,
}

/// What a response holds.
pub struct AnthropicResponseView {
    pub id: Seq<char>,
    pub model: Seq<char>,
    pub content: Seq<AnthropicContentView>,
    pub stop_reason: Option<Seq<char>>,
    pub usage: AnthropicUsage,
}

impl View for AnthropicContent {
    type V = AnthropicContentView;

    open spec fn view(&self) -> AnthropicContentView {
        AnthropicContentView {
            content_type: self.content_type@,
            text: opt_view(self.text),
            thinking: opt_view(self.thinking),
            signature: opt_view(self.signature),
            id: opt_view(self.id),
            name: opt_view(self.name),
            input: opt_json(self.input),
        }
    }
}

impl View for AnthropicResponse {
    type V = AnthropicResponseView;

    open spec fn view(&self) -> AnthropicResponseView {
        AnthropicResponseView {
            id: self.id@,
            model: self.model@,
            content: views(self.content@),
            stop_reason: opt_view(self.stop_reason),
            usage: self.usage,
        }
    }
}

/// The message block that a content block stands for: a text or a thought. A block of another
/// type, or without what its type promises, stands for none.
pub open spec fn message_block(block: AnthropicContentView) -> Option<MessageBlockView> {
    if block.content_type == "text"@ {
        match block.text {
            Some(text) => Some(MessageBlockView::Text { text }),
            None => None,
        }
    } else if block.content_type == "thinking"@ {
        match block.thinking {
            Some(thinking) => Some(
                MessageBlockView::Thinking { thinking, signature: block.signature },
            ),
            None => None,
        }
    } else {
        None
    }
}

/// The message blocks of a response, in their order.
pub open spec fn message_blocks(content: Seq<AnthropicContentView>) -> Seq<MessageBlockView> {
    content.map_values(|block: AnthropicContentView| message_block(block)).filter(
        |block: Option<MessageBlockView>| block is Some,
    ).map_values(|block: Option<MessageBlockView>| block->0)
}

/// The thoughts of a content, one after the other.
pub open spec fn thinking_of(content: Seq<MessageBlockView>) -> Seq<char>
    decreases content.len(),
{
    if content.len() == 0 {
        seq![]
    } else {
        match content.last() {
            MessageBlockView::Thinking { thinking, .. } => thinking_of(content.drop_last())
                + thinking,
            _ => thinking_of(content.drop_last()),
        }
    }
}

/// Whether a content block is a call: it has that type, an id and a name.
pub open spec fn is_call() -> spec_fn(AnthropicContentView) -> bool {
    |block: AnthropicContentView|
        block.content_type == "tool_use"@ && block.id is Some && block.name is Some
}

/// The arguments of a call, as JSON text. A call without input has the empty object.
pub open spec fn call_arguments(input: Option<JsonView>) -> Seq<char> {
    match input {
        Some(tree) => json_text(tree),
        None => "{}"@,
    }
}

/// The tool call at a position among the calls of a response.
pub open spec fn tool_call(
    id: Seq<char>,
    name: Seq<char>,
    arguments: Seq<char>,
    index: usize,
) -> ToolCallView {
    ToolCallView {
        id,
        call_type: "function"@,
        function: FunctionCallView { name, arguments, thought_signature: None },
        index: Some(index),
        thought_signature: None,
    }
}

/// The tool calls of a response, in their order and numbered from zero.
pub open spec fn tool_calls(content: Seq<AnthropicContentView>) -> Seq<ToolCallView> {
    let calls = content.filter(is_call());
    Seq::new(
        calls.len(),
        |i: int|
            tool_call(
                calls[i].id->0,
                calls[i].name->0,
                call_arguments(calls[i].input),
                i as usize,
            ),
    )
}

/// Why an answer ended: to call tools, for the reason that the provider gives, or because it was
/// complete where none is given.
pub open spec fn finish_reason(stop_reason: Option<Seq<char>>) -> Seq<char> {
    match stop_reason {
        Some(reason) => if reason == "tool_use"@ {
            "tool_calls"@
        } else {
            reason
        },
        None => "stop"@,
    }
}

/// How many tokens an exchange took.
pub open spec fn chat_usage(usage: AnthropicUsage) -> UsageView {
    UsageView {
        prompt_tokens: usage.input_tokens,
        completion_tokens: usage.output_tokens,
        total_tokens: (usage.input_tokens + usage.output_tokens) as u32,
        completion_tokens_details: None,
        prompt_cache_hit_tokens: usage.cache_read_input_tokens,
        prompt_cache_miss_tokens: None,
        prompt_tokens_details: Some(
            PromptTokensDetails {
                cached_tokens: usage.cache_read_input_tokens,
                cache_read_input_tokens: usage.cache_read_input_tokens,
                cache_creation_input_tokens: usage.cache_creation_input_tokens,
            },
        ),
    }
}

/// The message that a response answers with.
pub open spec fn answer(content: Seq<AnthropicContentView>) -> MessageView {
    let blocks = message_blocks(content);
    MessageView {
        content: blocks,
        tool_calls: if tool_calls(content).len() == 0 {
            None
        } else {
            Some(tool_calls(content))
        },
        thinking: if thinking_of(blocks).len() == 0 {
            None
        } else {
            Some(thinking_of(blocks))
        },
        ..MessageView::blank(Role::Assistant)
    }
}

/// The chat response that a response stands for, made at a given time.
pub open spec fn chat_response(
    response: AnthropicResponseView,
    created: u64,
) -> ChatResponseView {
    ChatResponseView {
        id: response.id,
        object: "chat.completion"@,
        created,
        model: response.model,
        choices: seq![
            ChoiceView {
                index: 0,
                message: answer(response.content),
                finish_reason: Some(finish_reason(response.stop_reason)),
                logprobs: None,
            },
        ],
        content: text_of(message_blocks(response.content)),
        reasoning_content: None,
        usage: Some(chat_usage(response.usage)),
        system_fingerprint: None,
    }
}

/// What becomes of an answer that was decoded at a given time: the chat response, or the error
/// that says why it was not decoded.
pub open spec fn parsed_response(
    decoded: Result<AnthropicResponse, String>,
    created: u64,
) -> Result<ChatResponseView, LlmConnectorErrorView> {
    match decoded {
        Ok(response) => Ok(chat_response(response@, created)),
        Err(message) => Err(
            LlmConnectorErrorView::ParseError(
                "Failed to parse Anthropic response: "@ + message@,
            ),
        ),
    }
}

/// The outcome of reading an answer, over what its response and its error hold.
pub open spec fn response_view(outcome: Result<ChatResponse, LlmConnectorError>) -> Result<
    ChatResponseView,
    LlmConnectorErrorView,
> {
    match outcome {
        Ok(response) => Ok(response@),
        Err(error) => Err(error@),
    }
}

/// Whether the tokens of an answer can be counted together.
pub open spec fn total_fits(decoded: Result<AnthropicResponse, String>) -> bool {
    decoded matches Ok(response) ==> response.usage.input_tokens + response.usage.output_tokens
        <= u32::MAX
}

/// Whether the input of a call is kept as the text of its arguments, where it is sure to be.
pub open spec fn input_reads_back(input: Option<JsonView>) -> bool {
    input matches Some(tree) ==> (reads_back(tree) ==> is_kept_as_text(tree))
}

/// Whether the inputs of all the calls of a content are kept where they are sure to be.
pub open spec fn inputs_read_back(content: Seq<AnthropicContentView>) -> bool {
    forall|i: int|
        0 <= i < content.len() && is_call()(content[i]) ==> input_reads_back(
            (#[trigger] content[i]).input,
        )
}

pub(crate) proof fn lemma_message_blocks_push(
    content: Seq<AnthropicContentView>,
    block: AnthropicContentView,
)
    ensures
        message_blocks(content.push(block)) == match message_block(block) {
            Some(found) => message_blocks(content).push(found),
            None => message_blocks(content),
        },
{
    reveal(Seq::filter);
    let mapped = content.map_values(|b: AnthropicContentView| message_block(b));
    let longer = content.push(block).map_values(|b: AnthropicContentView| message_block(b));
    assert(longer.drop_last() =~= mapped);
    assert(longer.last() == message_block(block));
    let pred = |b: Option<MessageBlockView>| b is Some;
    let get = |b: Option<MessageBlockView>| b->0;
    match message_block(block) {
        Some(found) => {
            assert(longer.filter(pred) == mapped.filter(pred).push(Some(found)));
            assert(mapped.filter(pred).push(Some(found)).map_values(get) =~= mapped.filter(
                pred,
            ).map_values(get).push(found));
        },
        None => {
            assert(longer.filter(pred) == mapped.filter(pred));
        },
    }
}

proof fn lemma_tool_calls_push(content: Seq<AnthropicContentView>, block: AnthropicContentView)
    ensures
        is_call()(block) ==> tool_calls(content.push(block)) == tool_calls(content).push(
            tool_call(
                block.id->0,
                block.name->0,
                call_arguments(block.input),
                content.filter(is_call()).len() as usize,
            ),
        ),
        !is_call()(block) ==> tool_calls(content.push(block)) == tool_calls(content),
{
    reveal(Seq::filter);
    assert(content.push(block).drop_last() =~= content);
    if is_call()(block) {
        assert(tool_calls(content.push(block)) =~= tool_calls(content).push(
            tool_call(
                block.id->0,
                block.name->0,
                call_arguments(block.input),
                content.filter(is_call()).len() as usize,
            ),
        ));
    }
}

/// Makes the tool call at a position among the calls of a response.
pub fn make_tool_call(id: &str, name: &str, arguments: String, index: usize) -> (call: ToolCall)
    ensures
        call@ == tool_call(id@, name@, arguments@, index),
{
    ToolCall {
        id: id.to_owned(),
        call_type: "function".to_owned(),
        function: FunctionCall { name: name.to_owned(), arguments, thought_signature: None },
        index: Some(index),
        thought_signature: None,
    }
}

/// The arguments of a call, as JSON text.
fn arguments_text(input: &Option<serde_json::Value>) -> (text: String)
    ensures
        text@ == call_arguments(opt_json(*input)),
        input_reads_back(opt_json(*input)),
{
    match input {
        Some(value) => json_to_text(value),
        None => "{}".to_owned(),
    }
}

/// What the content of a response adds up to.
struct Collected {
    message_blocks: Vec<MessageBlock>,
    thinking_content: String,
    text_content: String,
    tool_calls: Vec<ToolCall>,
}

impl Collected {
    spec fn holds(self, content: Seq<AnthropicContentView>) -> bool {
        &&& views(self.message_blocks@) == message_blocks(content)
        &&& self.thinking_content@ == thinking_of(message_blocks(content))
        &&& self.text_content@ == text_of(message_blocks(content))
        &&& views(self.tool_calls@) == tool_calls(content)
        &&& inputs_read_back(content)
    }

    fn new() -> (collected: Self)
        ensures
            collected.holds(seq![]),
    {
        let collected = Collected {
            message_blocks: Vec::new(),
            thinking_content: String::new(),
            text_content: String::new(),
            tool_calls: Vec::new(),
        };
        proof {
            reveal(Seq::filter);
            let none: Seq<AnthropicContentView> = seq![];
            assert(message_blocks(none) =~= seq![]);
            assert(views(collected.message_blocks@) =~= seq![]);
            assert(none.filter(is_call()) =~= seq![]);
            assert(tool_calls(none) =~= seq![]);
            assert(views(collected.tool_calls@) =~= seq![]);
        }
        collected
    }

    fn add_text(&mut self, text: &str)
        ensures
            views(final(self).message_blocks@) == views(old(self).message_blocks@).push(
                MessageBlockView::Text { text: text@ },
            ),
            final(self).thinking_content == old(self).thinking_content,
            final(self).text_content@ == old(self).text_content@ + text@,
            final(self).tool_calls == old(self).tool_calls,
    {
        self.message_blocks.push(MessageBlock::text(text));
        self.text_content.append(text);
        assert(views(self.message_blocks@) =~= views(old(self).message_blocks@).push(
            MessageBlockView::Text { text: text@ },
        ));
    }

    fn add_thinking(&mut self, thinking: &str, signature: Option<String>)
        ensures
            views(final(self).message_blocks@) == views(old(self).message_blocks@).push(
                MessageBlockView::Thinking { thinking: thinking@, signature: opt_view(signature) },
            ),
            final(self).thinking_content@ == old(self).thinking_content@ + thinking@,
            final(self).text_content == old(self).text_content,
            final(self).tool_calls == old(self).tool_calls,
    {
        self.thinking_content.append(thinking);
        self.message_blocks.push(
            MessageBlock::Thinking { thinking: thinking.to_owned(), signature },
        );
        assert(views(self.message_blocks@) =~= views(old(self).message_blocks@).push(
            MessageBlockView::Thinking { thinking: thinking@, signature: opt_view(signature) },
        ));
    }

    /// Takes the next block of a content.
    fn add(&mut self, block: &AnthropicContent, content: Ghost<Seq<AnthropicContentView>>)
        requires
            old(self).holds(content@),
        ensures
            final(self).holds(content@.push(block@)),
    {
        proof {
            lemma_message_blocks_push(content@, block@);
            lemma_tool_calls_push(content@, block@);
            let blocks = message_blocks(content@);
            match message_block(block@) {
                Some(found) => {
                    assert(blocks.push(found).drop_last() =~= blocks);
                },
                None => {},
            }
        }
        if same_text(block.content_type.as_str(), "text") {
            proof {
                reveal_strlit("text");
                reveal_strlit("tool_use");
                assert("text"@.len() != "tool_use"@.len());
            }
            match &block.text {
                Some(text) => self.add_text(text.as_str()),
                None => {},
            }
        } else if same_text(block.content_type.as_str(), "thinking") {
            proof {
                reveal_strlit("thinking");
                reveal_strlit("tool_use");
                assert("thinking"@[1] != "tool_use"@[1]);
            }
            match &block.thinking {
                Some(thinking) => self.add_thinking(thinking.as_str(), block.signature.clone()),
                None => {},
            }
        } else if same_text(block.content_type.as_str(), "tool_use") {
            match (&block.id, &block.name) {
                (Some(id), Some(name)) => {
                    let index = self.tool_calls.len();
                    let call = make_tool_call(
                        id.as_str(),
                        name.as_str(),
                        arguments_text(&block.input),
                        index,
                    );
                    proof {
                        assert(views(self.tool_calls@).len() == index);
                        assert(tool_calls(content@).len() == content@.filter(is_call()).len());
                    }
                    self.tool_calls.push(call);
                    assert(views(self.tool_calls@) =~= views(old(self).tool_calls@).push(call@));
                },
                _ => {},
            }
        }
    }
}

impl AnthropicProtocol {
    /// Makes the chat response of an answer, which is decoded with the given decoder, or the error
    /// that says why it could not be decoded. The response carries the present time: the seconds
    /// that a reading of the clock counts.
    ///
    /// What the decoder makes of the answer must count tokens that can be counted together.
    pub fn parse_response<D>(&self, response: &str, decode: D) -> (outcome: Result<
        ChatResponse,
        LlmConnectorError,
    >) where D: Fn(&str) -> Result<AnthropicResponse, String>
        requires
            call_requires(decode, (response,)),
            forall|decoded: Result<AnthropicResponse, String>| #[trigger]
                call_ensures(decode, (response,), decoded) ==> total_fits(decoded),
        ensures
            exists|decoded: Result<AnthropicResponse, String>, reading: Option<u64>|
                {
                    &&& #[trigger] call_ensures(decode, (response,), decoded)
                    &&& #[trigger] can_show(reading)
                    &&& response_view(outcome) == parsed_response(decoded, counted(reading))
                    &&& decoded matches Ok(answer) ==> inputs_read_back(answer@.content)
                },
    {
        let decoded = decode(response);
        let ghost model = decoded;
        let created = unix_seconds();
        let outcome = self.parse_response_at(decoded, created);
        proof {
            let reading = choose|reading: Option<u64>| #[trigger]
                can_show(reading) && created == counted(reading);
            assert(response_view(outcome) == parsed_response(model, counted(reading)));
        }
        outcome
    }

    /// Makes the chat response of an answer that came back at a given time, or the error that says
    /// why it could not be decoded.
    pub fn parse_response_at(
        &self,
        decoded: Result<AnthropicResponse, String>,
        created: u64,
    ) -> (outcome: Result<ChatResponse, LlmConnectorError>)
        requires
            total_fits(decoded),
        ensures
            response_view(outcome) == parsed_response(decoded, created),
            decoded matches Ok(response) ==> inputs_read_back(response@.content),
    {
        let response = match decoded {
            Ok(response) => response,
            Err(message) => {
                return Err(
                    LlmConnectorError::ParseError(
                        "Failed to parse Anthropic response: ".to_owned().concat(message.as_str()),
                    ),
                );
            },
        };
        let ghost content = response@.content;
        let mut collected = Collected::new();
        let mut i: usize = 0;
        assert(content.take(0) =~= seq![]);
        while i < response.content.len()
            invariant
                i <= response.content@.len(),
                content == views(response.content@),
                collected.holds(content.take(i as int)),
            decreases response.content@.len() - i,
        {
            assert(content.take(i + 1) =~= content.take(i as int).push(
                response.content@[i as int]@,
            ));
            collected.add(&response.content[i], Ghost(content.take(i as int)));
            i += 1;
        }
        assert(content.take(i as int) =~= content);
        let Collected { message_blocks, thinking_content, text_content, tool_calls } = collected;
        let thinking = if !thinking_content.as_str().is_empty() {
            Some(thinking_content)
        } else {
            None
        };
        let tool_calls = if tool_calls.len() == 0 {
            None
        } else {
            Some(tool_calls)
        };
        let finish_reason = match response.stop_reason {
            Some(reason) => if same_text(reason.as_str(), "tool_use") {
                "tool_calls".to_owned()
            } else {
                reason
            },
            None => "stop".to_owned(),
        };
        let message = Message {
            role: Role::Assistant,
            content: message_blocks,
            name: None,
            tool_calls,
            tool_call_id: None,
            reasoning_content: None,
            reasoning: None,
            thought: None,
            thinking,
        };
        let usage = Usage {
            prompt_tokens: response.usage.input_tokens,
            completion_tokens: response.usage.output_tokens,
            total_tokens: response.usage.input_tokens + response.usage.output_tokens,
            completion_tokens_details: None,
            prompt_cache_hit_tokens: response.usage.cache_read_input_tokens,
            prompt_cache_miss_tokens: None,
            prompt_tokens_details: Some(
                PromptTokensDetails {
                    cached_tokens: response.usage.cache_read_input_tokens,
                    cache_read_input_tokens: response.usage.cache_read_input_tokens,
                    cache_creation_input_tokens: response.usage.cache_creation_input_tokens,
                },
            ),
        };
        let mut choices: Vec<Choice> = Vec::new();
        choices.push(
            Choice { index: 0, message, finish_reason: Some(finish_reason), logprobs: None },
        );
        let result = ChatResponse {
            id: response.id,
            object: "chat.completion".to_owned(),
            created,
            model: response.model,
            choices,
            content: text_content,
            reasoning_content: None,
            usage: Some(usage),
            system_fingerprint: None,
        };
        proof {
            assert(message@ == answer(content));
            assert(usage@ == chat_usage(response.usage));
            assert(result@.choices =~= chat_response(response@, created).choices);
        }
        Ok(result)
    }
}

} // verus!
