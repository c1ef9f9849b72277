//! What an error answer of the provider means.

use vstd::prelude::*;
use vstd::string::*;

use crate::anthropic::AnthropicProtocol;
use crate::error::{LlmConnectorError, LlmConnectorErrorView};
use crate::json::{
    json_field, json_from_text, json_get, json_parsed, json_text_field, parsed_view, single,
    text_field, JsonView,
};
use crate::text::{contains_text, decimal, decimal_text, join3, occurs, same_text};

verus! {

/// What an answer says of the error: its `error` entry, or the whole answer as the message where
/// it is no JSON object with such an entry.
pub open spec fn error_info(body: Seq<char>, parsed: Result<JsonView, Seq<char>>) -> JsonView {
    match parsed {
        Ok(tree) => match json_field(tree, "error"@) {
            Some(info) => info,
            None => single("message"@, JsonView::Str(body)),
        },
        Err(_) => single("message"@, JsonView::Str(body)),
    }
}

/// The message of an error.
pub open spec fn error_message(info: JsonView) -> Seq<char> {
    match json_text_field(info, "message"@) {
        Some(text) => text,
        None => "Unknown Anthropic error"@,
    }
}

/// The type of an error.
pub open spec fn error_type(info: JsonView) -> Seq<char> {
    match json_text_field(info, "type"@) {
        Some(text) => text,
        None => ""@,
    }
}

/// Whether an error says that the request is too long for the model.
pub open spec fn is_context_overflow(info: JsonView) -> bool {
    &&& error_type(info) == "invalid_request_error"@
    &&& occurs(error_message(info), "too long"@) || occurs(error_message(info), "maximum"@)
        || occurs(error_message(info), "context"@)
}

/// The error that an answer means: a context overflow whatever its status, else what the status
/// says.
pub open spec fn meant_error(status: u16, info: JsonView) -> LlmConnectorErrorView {
    let message = "Anthropic: "@ + error_message(info);
    if is_context_overflow(info) {
        LlmConnectorErrorView::ContextLengthExceeded(message)
    } else if status == 400 {
        LlmConnectorErrorView::InvalidRequest(message)
    } else if status == 401 {
        LlmConnectorErrorView::AuthenticationError(message)
    } else if status == 403 {
        LlmConnectorErrorView::PermissionError(message)
    } else if status == 429 {
        LlmConnectorErrorView::RateLimitError(message)
    } else if 500 <= status <= 599 {
        LlmConnectorErrorView::ServerError(message)
    } else {
        LlmConnectorErrorView::ApiError(
            "Anthropic HTTP "@ + decimal(status as nat) + ": "@ + error_message(info),
        )
    }
}

impl AnthropicProtocol {
    /// The error that an answer means.
    pub fn map_error(&self, status: u16, body: &str) -> (error: LlmConnectorError)
        ensures
            error@ == meant_error(status, error_info(body@, json_parsed(body@))),
    {
        self.map_parsed_error(status, body, json_from_text(body))
    }

    /// The error that an answer means, from what became of it when it was read as JSON.
    pub fn map_parsed_error(
        &self,
        status: u16,
        body: &str,
        parsed: Result<serde_json::Value, String>,
    ) -> (error: LlmConnectorError)
        ensures
            error@ == meant_error(status, error_info(body@, parsed_view(parsed))),
    {
        let info = match &parsed {
            Ok(value) => json_get(value, "error"),
            Err(_) => None,
        };
        let (message, error_type) = match info {
            Some(info) => (
                match text_field(info, "message") {
                    Some(text) => text,
                    None => "Unknown Anthropic error",
                },
                match text_field(info, "type") {
                    Some(text) => text,
                    None => "",
                },
            ),
            None => (body, ""),
        };
        proof {
            let tree = error_info(body@, parsed_view(parsed));
            reveal_strlit("message");
            reveal_strlit("type");
            assert("message"@.len() != "type"@.len());
            assert(message@ == error_message(tree));
            assert(error_type@ == crate::anthropic::failure::error_type(tree));
        }
        let msg = "Anthropic: ".to_owned().concat(message);
        if same_text(error_type, "invalid_request_error") && (contains_text(message, "too long")
            || contains_text(message, "maximum") || contains_text(message, "context")) {
            return LlmConnectorError::ContextLengthExceeded(msg);
        }
        if status == 400 {
            LlmConnectorError::InvalidRequest(msg)
        } else if status == 401 {
            LlmConnectorError::AuthenticationError(msg)
        } else if status == 403 {
            LlmConnectorError::PermissionError(msg)
        } else if status == 429 {
            LlmConnectorError::RateLimitError(msg)
        } else if 500 <= status && status <= 599 {
            LlmConnectorError::ServerError(msg)
        } else {
            let code = decimal_text(status as u64);
            LlmConnectorError::ApiError(
                join3("Anthropic HTTP ", code.as_str(), ": ").concat(message),
            )
        }
    }
}

} // verus!
