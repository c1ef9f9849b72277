//! Tools that a model may call, the calls it makes, and how it is told to choose among them.

use vstd::prelude::*;

use crate::json::{
    json_bool, json_from_text, json_number, json_object, json_parsed, json_string, json_view,
    map_view, no_entries, opt_json, opt_str, parsed_view, put, put_if_some, put_text,
    put_text_if_some, single, single_value, with_entry, JsonView,
};
use crate::text::{decimal, opt_view};

verus! {

/// The function that a call names, and the arguments it passes, as JSON text.
#[derive(Debug)]
pub struct FunctionCall {
    pub name: String,
    pub arguments: String,
    pub thought_signature: Option<String>,
}

/// A call that a model makes.
#[derive(Debug)]
pub struct ToolCall {
    pub id: String,
    pub call_type: String,
    pub function: FunctionCall,
    pub index: Option<usize>,
    pub thought_signature: Option<String>,
}

/// What a function call holds.
pub struct FunctionCallView {
    pub name: Seq<char>,
    pub arguments: Seq<char>,
    pub thought_signature: Option<Seq<char>>,
}

/// What a tool call holds.
pub struct ToolCallView {
    pub id: Seq<char>,
    pub call_type: Seq<char>,
    pub function: FunctionCallView,
    pub index: Option<usize>,
    pub thought_signature: Option<Seq<char>>,
}

impl View for FunctionCall {
    type V = FunctionCallView;

    open spec fn view(&self) -> FunctionCallView {
        FunctionCallView {
            name: self.name@,
            arguments: self.arguments@,
            thought_signature: opt_view(self.thought_signature),
        }
    }
}

impl View for ToolCall {
    type V = ToolCallView;

    open spec fn view(&self) -> ToolCallView {
        ToolCallView {
            id: self.id@,
            call_type: self.call_type@,
            function: self.function@,
            index: self.index,
            thought_signature: opt_view(self.thought_signature),
        }
    }
}

impl Clone for FunctionCall {
    fn clone(&self) -> (copy: Self)
        ensures
            copy@ == self@,
    {
        FunctionCall {
            name: self.name.clone(),
            arguments: self.arguments.clone(),
            thought_signature: self.thought_signature.clone(),
        }
    }
}

impl Clone for ToolCall {
    fn clone(&self) -> (copy: Self)
        ensures
            copy@ == self@,
    {
        ToolCall {
            id: self.id.clone(),
            call_type: self.call_type.clone(),
            function: self.function.clone(),
            index: self.index,
            thought_signature: self.thought_signature.clone(),
        }
    }
}

impl FunctionCallView {
    /// The JSON object that carries a function call.
    pub open spec fn wire(self) -> JsonView {
        JsonView::Object(
            with_entry(
                map![
                    "name"@ => JsonView::Str(self.name),
                    "arguments"@ => JsonView::Str(self.arguments)
                ],
                "thought_signature"@,
                opt_str(self.thought_signature),
            ),
        )
    }
}

/// An optional position as an optional tree.
pub open spec fn opt_index(index: Option<usize>) -> Option<JsonView> {
    match index {
        Some(index) => Some(JsonView::Number(decimal(index as nat))),
        None => None,
    }
}

impl ToolCallView {
    /// The JSON object that carries a tool call.
    pub open spec fn wire(self) -> JsonView {
        let entries = map![
            "id"@ => JsonView::Str(self.id),
            "type"@ => JsonView::Str(self.call_type),
            "function"@ => self.function.wire()
        ];
        let entries = with_entry(entries, "index"@, opt_index(self.index));
        JsonView::Object(
            with_entry(entries, "thought_signature"@, opt_str(self.thought_signature)),
        )
    }
}

impl FunctionCall {
    /// The JSON object that carries the function call.
    pub fn to_value(&self) -> (value: serde_json::Value)
        ensures
            json_view(value) == self@.wire(),
    {
        let mut map = serde_json::Map::new();
        put_text(&mut map, "name", self.name.as_str());
        put_text(&mut map, "arguments", self.arguments.as_str());
        put_text_if_some(&mut map, "thought_signature", &self.thought_signature);
        json_object(map)
    }
}

impl ToolCall {
    /// The arguments of the call, read as JSON, or the message of the error that refuses them.
    pub fn arguments_value(&self) -> (parsed: Result<serde_json::Value, String>)
        ensures
            parsed_view(parsed) == json_parsed(self@.function.arguments),
    {
        json_from_text(self.function.arguments.as_str())
    }

    /// The JSON object that carries the call.
    pub fn to_value(&self) -> (value: serde_json::Value)
        ensures
            json_view(value) == self@.wire(),
    {
        let mut map = serde_json::Map::new();
        put_text(&mut map, "id", self.id.as_str());
        put_text(&mut map, "type", self.call_type.as_str());
        put(&mut map, "function", self.function.to_value());
        match self.index {
            Some(index) => put(&mut map, "index", json_number(index as u64)),
            None => {},
        }
        put_text_if_some(&mut map, "thought_signature", &self.thought_signature);
        json_object(map)
    }
}

/// The function that a tool offers. Its parameters are a JSON schema.
#[derive(Debug)]
pub struct Function {
    pub name: String,
    pub description: Option<String>,
    pub parameters: serde_json::Value,
}

/// A tool that a model may call.
#[derive(Debug)]
pub struct Tool {
    pub tool_type: String,
    pub function: Function,
}

/// What a function holds.
pub struct FunctionView {
    pub name: Seq<char>,
    pub description: Option<Seq<char>>,
    pub parameters: JsonView,
}

/// What a tool holds.
pub struct ToolView {
    pub tool_type: Seq<char>,
    pub function: FunctionView,
}

impl View for Function {
    type V = FunctionView;

    open spec fn view(&self) -> FunctionView {
        FunctionView {
            name: self.name@,
            description: opt_view(self.description),
            parameters: json_view(self.parameters),
        }
    }
}

impl View for Tool {
    type V = ToolView;

    open spec fn view(&self) -> ToolView {
        ToolView { tool_type: self.tool_type@, function: self.function@ }
    }
}

impl Tool {
    /// A tool that offers a function.
    pub fn function(
        name: &str,
        description: Option<String>,
        parameters: serde_json::Value,
    ) -> (tool: Self)
        ensures
            tool@ == (ToolView {
                tool_type: "function"@,
                function: FunctionView {
                    name: name@,
                    description: opt_view(description),
                    parameters: json_view(parameters),
                },
            }),
    {
        Tool {
            tool_type: "function".to_owned(),
            function: Function { name: name.to_owned(), description, parameters },
        }
    }
}

/// The function that a model is told to call.
#[derive(Debug)]
pub struct FunctionChoice {
    pub name: String,
}

/// How a model is told to choose among its tools.
#[derive(Debug)]
pub enum ToolChoice {
    /// A mode: `none`, `auto` or `required`.
    Mode(String),
    /// One function.
    Function { choice_type: String, function: FunctionChoice },
}

/// What a tool choice holds.
pub enum ToolChoiceView {
    Mode(Seq<char>),
    Function { choice_type: Seq<char>, name: Seq<char> },
}

impl View for ToolChoice {
    type V = ToolChoiceView;

    open spec fn view(&self) -> ToolChoiceView {
        match self {
            ToolChoice::Mode(mode) => ToolChoiceView::Mode(mode@),
            ToolChoice::Function { choice_type, function } => ToolChoiceView::Function {
                choice_type: choice_type@,
                name: function.name@,
            },
        }
    }
}

impl ToolChoiceView {
    /// The JSON value that carries a tool choice.
    pub open spec fn wire(self) -> JsonView {
        match self {
            ToolChoiceView::Mode(mode) => JsonView::Str(mode),
            ToolChoiceView::Function { choice_type, name } => JsonView::Object(
                map![
                    "type"@ => JsonView::Str(choice_type),
                    "function"@ => single("name"@, JsonView::Str(name))
                ],
            ),
        }
    }
}

impl ToolChoice {
    /// The model calls no tool.
    pub fn none() -> (choice: Self)
        ensures
            choice@ == ToolChoiceView::Mode("none"@),
    {
        ToolChoice::Mode("none".to_owned())
    }

    /// The model decides.
    pub fn auto() -> (choice: Self)
        ensures
            choice@ == ToolChoiceView::Mode("auto"@),
    {
        ToolChoice::Mode("auto".to_owned())
    }

    /// The model calls some tool.
    pub fn required() -> (choice: Self)
        ensures
            choice@ == ToolChoiceView::Mode("required"@),
    {
        ToolChoice::Mode("required".to_owned())
    }

    /// The model calls the named function.
    pub fn function(name: &str) -> (choice: Self)
        ensures
            choice@ == (ToolChoiceView::Function { choice_type: "function"@, name: name@ }),
    {
        ToolChoice::Function {
            choice_type: "function".to_owned(),
            function: FunctionChoice { name: name.to_owned() },
        }
    }

    /// The JSON value that carries the choice.
    pub fn to_value(&self) -> (value: serde_json::Value)
        ensures
            json_view(value) == self@.wire(),
    {
        match self {
            ToolChoice::Mode(mode) => json_string(mode.clone()),
            ToolChoice::Function { choice_type, function } => {
                let mut map = serde_json::Map::new();
                put_text(&mut map, "type", choice_type.as_str());
                put(
                    &mut map,
                    "function",
                    single_value("name", json_string(function.name.clone())),
                );
                json_object(map)
            },
        }
    }
}

/// A tool in Anthropic's own form. What `extra` holds goes beside the named entries.
#[derive(Debug)]
pub struct AnthropicToolDefinition {
    pub tool_type: Option<String>,
    pub name: Option<String>,
    pub description: Option<String>,
    pub input_schema: Option<serde_json::Value>,
    pub custom_input_schema: Option<serde_json::Value>,
    pub input_examples: Option<serde_json::Value>,
    pub strict: Option<bool>,
    pub allowed_callers: Option<serde_json::Value>,
    pub defer_loading: Option<bool>,
    pub cache_control: Option<serde_json::Value>,
    pub eager_input_streaming: Option<bool>,
    pub extra: serde_json::Map<String, serde_json::Value>,
}

/// What an Anthropic tool definition holds.
pub struct AnthropicToolDefinitionView {
    pub tool_type: Option<Seq<char>>,
    pub name: Option<Seq<char>>,
    pub description: Option<Seq<char>>,
    pub input_schema: Option<JsonView>,
    pub custom_input_schema: Option<JsonView>,
    pub input_examples: Option<JsonView>,
    pub strict: Option<bool>,
    pub allowed_callers: Option<JsonView>,
    pub defer_loading: Option<bool>,
    pub cache_control: Option<JsonView>,
    pub eager_input_streaming: Option<bool>,
    pub extra: Map<Seq<char>, JsonView>,
}

impl View for AnthropicToolDefinition {
    type V = AnthropicToolDefinitionView;

    open spec fn view(&self) -> AnthropicToolDefinitionView {
        AnthropicToolDefinitionView {
            tool_type: opt_view(self.tool_type),
            name: opt_view(self.name),
            description: opt_view(self.description),
            input_schema: opt_json(self.input_schema),
            custom_input_schema: opt_json(self.custom_input_schema),
            input_examples: opt_json(self.input_examples),
            strict: self.strict,
            allowed_callers: opt_json(self.allowed_callers),
            defer_loading: self.defer_loading,
            cache_control: opt_json(self.cache_control),
            eager_input_streaming: self.eager_input_streaming,
            extra: map_view(self.extra),
        }
    }
}

impl AnthropicToolDefinitionView {
    /// The definition that says nothing.
    pub open spec fn empty() -> AnthropicToolDefinitionView {
        AnthropicToolDefinitionView {
            tool_type: None,
            name: None,
            description: None,
            input_schema: None,
            custom_input_schema: None,
            input_examples: None,
            strict: None,
            allowed_callers: None,
            defer_loading: None,
            cache_control: None,
            eager_input_streaming: None,
            extra: no_entries(),
        }
    }

    /// The named entries of a definition: one for each field that has a value.
    pub open spec fn named_entries(self) -> Map<Seq<char>, JsonView> {
        let entries = with_entry(no_entries(), "type"@, opt_str(self.tool_type));
        let entries = with_entry(entries, "name"@, opt_str(self.name));
        let entries = with_entry(entries, "description"@, opt_str(self.description));
        let entries = with_entry(entries, "input_schema"@, self.input_schema);
        let entries = with_entry(entries, "custom_input_schema"@, self.custom_input_schema);
        let entries = with_entry(entries, "input_examples"@, self.input_examples);
        let entries = with_entry(entries, "strict"@, opt_bool(self.strict));
        let entries = with_entry(entries, "allowed_callers"@, self.allowed_callers);
        let entries = with_entry(entries, "defer_loading"@, opt_bool(self.defer_loading));
        let entries = with_entry(entries, "cache_control"@, self.cache_control);
        with_entry(entries, "eager_input_streaming"@, opt_bool(self.eager_input_streaming))
    }

    /// The JSON object that carries a definition: the named entries and those of `extra`.
    pub open spec fn wire(self) -> JsonView {
        JsonView::Object(self.named_entries().union_prefer_right(self.extra))
    }
}

/// An optional truth value as an optional tree.
pub open spec fn opt_bool(flag: Option<bool>) -> Option<JsonView> {
    match flag {
        Some(flag) => Some(JsonView::Bool(flag)),
        None => None,
    }
}

fn put_bool_if_some(
    map: &mut serde_json::Map<String, serde_json::Value>,
    key: &str,
    flag: Option<bool>,
)
    ensures
        map_view(*final(map)) == with_entry(map_view(*old(map)), key@, opt_bool(flag)),
{
    match flag {
        Some(flag) => put(map, key, json_bool(flag)),
        None => {},
    }
}

impl Clone for AnthropicToolDefinition {
    fn clone(&self) -> (copy: Self)
        ensures
            copy@ == self@,
    {
        AnthropicToolDefinition {
            tool_type: self.tool_type.clone(),
            name: self.name.clone(),
            description: self.description.clone(),
            input_schema: self.input_schema.clone(),
            custom_input_schema: self.custom_input_schema.clone(),
            input_examples: self.input_examples.clone(),
            strict: self.strict,
            allowed_callers: self.allowed_callers.clone(),
            defer_loading: self.defer_loading,
            cache_control: self.cache_control.clone(),
            eager_input_streaming: self.eager_input_streaming,
            extra: self.extra.clone(),
        }
    }
}

impl Default for AnthropicToolDefinition {
    fn default() -> (definition: Self)
        ensures
            definition@ == AnthropicToolDefinitionView::empty(),
    {
        AnthropicToolDefinition {
            tool_type: None,
            name: None,
            description: None,
            input_schema: None,
            custom_input_schema: None,
            input_examples: None,
            strict: None,
            allowed_callers: None,
            defer_loading: None,
            cache_control: None,
            eager_input_streaming: None,
            extra: serde_json::Map::new(),
        }
    }
}

impl AnthropicToolDefinition {
    /// The JSON object that carries the definition.
    pub fn to_value(&self) -> (value: serde_json::Value)
        ensures
            json_view(value) == self@.wire(),
    {
        let mut map = serde_json::Map::new();
        put_text_if_some(&mut map, "type", &self.tool_type);
        put_text_if_some(&mut map, "name", &self.name);
        put_text_if_some(&mut map, "description", &self.description);
        put_if_some(&mut map, "input_schema", self.input_schema.clone());
        put_if_some(&mut map, "custom_input_schema", self.custom_input_schema.clone());
        put_if_some(&mut map, "input_examples", self.input_examples.clone());
        put_bool_if_some(&mut map, "strict", self.strict);
        put_if_some(&mut map, "allowed_callers", self.allowed_callers.clone());
        put_bool_if_some(&mut map, "defer_loading", self.defer_loading);
        put_if_some(&mut map, "cache_control", self.cache_control.clone());
        put_bool_if_some(&mut map, "eager_input_streaming", self.eager_input_streaming);
        let mut extra = self.extra.clone();
        map.append(&mut extra);
        json_object(map)
    }
}

/// A tool choice in Anthropic's own form.
#[derive(Debug)]
pub struct AnthropicToolChoice {
    pub choice_type: String,
    pub name: Option<String>,
}

/// What an Anthropic tool choice holds.
pub struct AnthropicToolChoiceView {
    pub choice_type: Seq<char>,
    pub name: Option<Seq<char>>,
}

impl View for AnthropicToolChoice {
    type V = AnthropicToolChoiceView;

    open spec fn view(&self) -> AnthropicToolChoiceView {
        AnthropicToolChoiceView { choice_type: self.choice_type@, name: opt_view(self.name) }
    }
}

impl AnthropicToolChoiceView {
    /// The JSON object that carries a choice.
    pub open spec fn wire(self) -> JsonView {
        JsonView::Object(
            with_entry(
                map!["type"@ => JsonView::Str(self.choice_type)],
                "name"@,
                opt_str(self.name),
            ),
        )
    }
}

impl Clone for AnthropicToolChoice {
    fn clone(&self) -> (copy: Self)
        ensures
            copy@ == self@,
    {
        AnthropicToolChoice { choice_type: self.choice_type.clone(), name: self.name.clone() }
    }
}

impl AnthropicToolChoice {
    /// The model calls no tool.
    pub fn none() -> (choice: Self)
        ensures
            choice@ == (AnthropicToolChoiceView { choice_type: "none"@, name: None }),
    {
        AnthropicToolChoice { choice_type: "none".to_owned(), name: None }
    }

    /// The model decides.
    pub fn auto() -> (choice: Self)
        ensures
            choice@ == (AnthropicToolChoiceView { choice_type: "auto"@, name: None }),
    {
        AnthropicToolChoice { choice_type: "auto".to_owned(), name: None }
    }

    /// The model calls some tool.
    pub fn any() -> (choice: Self)
        ensures
            choice@ == (AnthropicToolChoiceView { choice_type: "any"@, name: None }),
    {
        AnthropicToolChoice { choice_type: "any".to_owned(), name: None }
    }

    /// The model calls the named tool.
    pub fn tool(name: &str) -> (choice: Self)
        ensures
            choice@ == (AnthropicToolChoiceView { choice_type: "tool"@, name: Some(name@) }),
    {
        AnthropicToolChoice { choice_type: "tool".to_owned(), name: Some(name.to_owned()) }
    }

    /// The JSON object that carries the choice.
    pub fn to_value(&self) -> (value: serde_json::Value)
        ensures
            json_view(value) == self@.wire(),
    {
        let mut map = serde_json::Map::new();
        put_text(&mut map, "type", self.choice_type.as_str());
        put_text_if_some(&mut map, "name", &self.name);
        json_object(map)
    }
}

} // verus!
