//! The events of a streamed answer.

use vstd::prelude::*;
use vstd::string::*;

use crate::anthropic::AnthropicProtocol;
use crate::error::{LlmConnectorError, LlmConnectorErrorView};
use crate::json::{
    json_field, json_from_text, json_get, json_parsed, json_text_field, json_view, parsed_view,
    text_field, JsonView,
};
use crate::text::{join3, same_text};

verus! {

/// What is to be done about an event.
#[derive(Debug)]
pub enum StreamStep {
    /// Nothing.
    Skip,
    /// The event carries a part of the message with the given id.
    Interpret { event: serde_json::Value, message_id: String },
}

/// What a step holds.
pub enum StreamStepView {
    Skip,
    Interpret { event: JsonView, message_id: Seq<char> },
}

impl View for StreamStep {
    type V = StreamStepView;

    open spec fn view(&self) -> StreamStepView {
        match self {
            StreamStep::Skip => StreamStepView::Skip,
            StreamStep::Interpret { event, message_id } => StreamStepView::Interpret {
                event: json_view(*event),
                message_id: message_id@,
            },
        }
    }
}

/// The outcome of an event, over what its step and its error hold.
pub open spec fn step_view(outcome: Result<StreamStep, LlmConnectorError>) -> Result<
    StreamStepView,
    LlmConnectorErrorView,
> {
    match outcome {
        Ok(step) => Ok(step@),
        Err(error) => Err(error@),
    }
}

/// The type of an event.
pub open spec fn event_type(event: JsonView) -> Seq<char> {
    match json_text_field(event, "type"@) {
        Some(text) => text,
        None => ""@,
    }
}

/// The id of the message that an event opens.
pub open spec fn opened_id(event: JsonView) -> Option<Seq<char>> {
    match json_field(event, "message"@) {
        Some(message) => json_text_field(message, "id"@),
        None => None,
    }
}

/// Whether an event carries a part of a message.
pub open spec fn carries_part(event: JsonView) -> bool {
    ||| event_type(event) == "content_block_start"@
    ||| event_type(event) == "content_block_delta"@
    ||| event_type(event) == "message_delta"@
}

/// The id of the message in progress after an event: a `message_start` that names one sets it, and
/// nothing else does.
pub open spec fn id_after(
    message_id: Seq<char>,
    parsed: Result<JsonView, Seq<char>>,
) -> Seq<char> {
    match parsed {
        Ok(event) => match opened_id(event) {
            Some(id) if event_type(event) == "message_start"@ => id,
            _ => message_id,
        },
        Err(_) => message_id,
    }
}

/// What is to be done about an event, given as a text and as what became of it when it was read as
/// JSON.
pub open spec fn step_for(
    message_id: Seq<char>,
    text: Seq<char>,
    parsed: Result<JsonView, Seq<char>>,
) -> Result<StreamStepView, LlmConnectorErrorView> {
    match parsed {
        Ok(event) => if carries_part(event) {
            Ok(StreamStepView::Interpret { event, message_id })
        } else {
            Ok(StreamStepView::Skip)
        },
        Err(message) => Err(
            LlmConnectorErrorView::ParseError(
                "Failed to parse Anthropic streaming event: "@ + message + ". JSON: "@ + text,
            ),
        ),
    }
}

impl AnthropicProtocol {
    /// Takes an event of a stream. `message_id` is the id of the message in progress.
    pub fn stream_event(&self, message_id: &mut String, json_str: &str) -> (outcome: Result<
        StreamStep,
        LlmConnectorError,
    >)
        ensures
            final(message_id)@ == id_after(old(message_id)@, json_parsed(json_str@)),
            step_view(outcome) == step_for(
                old(message_id)@,
                json_str@,
                json_parsed(json_str@),
            ),
    {
        self.stream_parsed_event(message_id, json_str, json_from_text(json_str))
    }

    /// Takes an event of a stream, from what became of it when it was read as JSON.
    pub fn stream_parsed_event(
        &self,
        message_id: &mut String,
        json_str: &str,
        parsed: Result<serde_json::Value, String>,
    ) -> (outcome: Result<StreamStep, LlmConnectorError>)
        ensures
            final(message_id)@ == id_after(old(message_id)@, parsed_view(parsed)),
            step_view(outcome) == step_for(old(message_id)@, json_str@, parsed_view(parsed)),
    {
        let event = match parsed {
            Ok(event) => event,
            Err(message) => {
                let head = join3(
                    "Failed to parse Anthropic streaming event: ",
                    message.as_str(),
                    ". JSON: ",
                );
                return Err(LlmConnectorError::ParseError(head.concat(json_str)));
            },
        };
        let kind = match text_field(&event, "type") {
            Some(text) => text,
            None => "",
        };
        if same_text(kind, "message_start") {
            proof {
                reveal_strlit("message_start");
                reveal_strlit("content_block_start");
                reveal_strlit("content_block_delta");
                reveal_strlit("message_delta");
                assert("message_start"@.len() != "content_block_start"@.len());
                assert("message_start"@.len() != "content_block_delta"@.len());
                assert("message_start"@[8] != "message_delta"@[8]);
            }
            let opened = match json_get(&event, "message") {
                Some(message) => text_field(message, "id"),
                None => None,
            };
            match opened {
                Some(id) => {
                    *message_id = id.to_owned();
                },
                None => {},
            }
            Ok(StreamStep::Skip)
        } else if same_text(kind, "content_block_start") || same_text(kind, "content_block_delta")
            || same_text(kind, "message_delta") {
            Ok(StreamStep::Interpret { event, message_id: message_id.clone() })
        } else {
            Ok(StreamStep::Skip)
        }
    }
}

} // verus!
