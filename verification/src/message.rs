//! Chat messages.

use vstd::prelude::*;
use vstd::string::*;

use crate::block::{MessageBlock, MessageBlockView};
use crate::text::{opt_view, opt_views, views};
use crate::tool::{ToolCall, ToolCallView};

verus! {

/// Who speaks in a message.
#[derive(Clone, Copy, Debug, PartialEq, Eq, Structural)]
pub enum Role {
    System,
    User,
    Assistant,
    Tool,
}

/// A message of a chat.
#[derive(Debug)]
pub struct Message {
    pub role: Role,
    pub content: Vec<MessageBlock>,
    pub name: Option<String>,
    pub tool_calls: Option<Vec<ToolCall>>,
    pub tool_call_id: Option<String>,
    pub reasoning_content: Option<String>,
    pub reasoning: Option<String>,
    pub thought: Option<String>,
    pub thinking: Option<String>,
}

/// What a message holds.
pub struct MessageView {
    pub role: Role,
    pub content: Seq<MessageBlockView>,
    pub name: Option<Seq<char>>,
    pub tool_calls: Option<Seq<ToolCallView>>,
    pub tool_call_id: Option<Seq<char>>,
    pub reasoning_content: Option<Seq<char>>,
    pub reasoning: Option<Seq<char>>,
    pub thought: Option<Seq<char>>,
    pub thinking: Option<Seq<char>>,
}

impl View for Message {
    type V = MessageView;

    open spec fn view(&self) -> MessageView {
        MessageView {
            role: self.role,
            content: views(self.content@),
            name: opt_view(self.name),
            tool_calls: opt_views(self.tool_calls),
            tool_call_id: opt_view(self.tool_call_id),
            reasoning_content: opt_view(self.reasoning_content),
            reasoning: opt_view(self.reasoning),
            thought: opt_view(self.thought),
            thinking: opt_view(self.thinking),
        }
    }
}

/// The texts of the text blocks of a content, one after the other.
pub open spec fn text_of(content: Seq<MessageBlockView>) -> Seq<char>
    decreases content.len(),
{
    if content.len() == 0 {
        seq![]
    } else {
        match content.last().as_text() {
            Some(text) => text_of(content.drop_last()) + text,
            None => text_of(content.drop_last()),
        }
    }
}

impl MessageView {
    /// The message of a role that says nothing.
    pub open spec fn blank(role: Role) -> MessageView {
        MessageView {
            role,
            content: seq![],
            name: None,
            tool_calls: None,
            tool_call_id: None,
            reasoning_content: None,
            reasoning: None,
            thought: None,
            thinking: None,
        }
    }
}

impl Clone for Message {
    fn clone(&self) -> (copy: Self)
        ensures
            copy@ == self@,
    {
        let content = self.content.clone();
        let tool_calls = match &self.tool_calls {
            Some(calls) => {
                let copies = calls.clone();
                assert(views(copies@) =~= views(calls@));
                Some(copies)
            },
            None => None,
        };
        assert(views(content@) =~= views(self.content@));
        Message {
            role: self.role,
            content,
            name: self.name.clone(),
            tool_calls,
            tool_call_id: self.tool_call_id.clone(),
            reasoning_content: self.reasoning_content.clone(),
            reasoning: self.reasoning.clone(),
            thought: self.thought.clone(),
            thinking: self.thinking.clone(),
        }
    }
}

impl Default for Message {
    fn default() -> (message: Self)
        ensures
            message@ == MessageView::blank(Role::User),
    {
        Message::blank(Role::User)
    }
}

impl Message {
    /// The message of a role that says nothing.
    fn blank(role: Role) -> (message: Self)
        ensures
            message@ == MessageView::blank(role),
    {
        let content: Vec<MessageBlock> = Vec::new();
        assert(views(content@) =~= seq![]);
        Message {
            role,
            content,
            name: None,
            tool_calls: None,
            tool_call_id: None,
            reasoning_content: None,
            reasoning: None,
            thought: None,
            thinking: None,
        }
    }

    /// A text that the user says.
    pub fn user(text: &str) -> (message: Self)
        ensures
            message@ == (MessageView {
                content: seq![MessageBlockView::Text { text: text@ }],
                ..MessageView::blank(Role::User)
            }),
    {
        let mut message = Message::blank(Role::User);
        message.content.push(MessageBlock::text(text));
        assert(views(message.content@) =~= seq![MessageBlockView::Text { text: text@ }]);
        message
    }

    /// Calls that the assistant makes.
    pub fn assistant_with_tool_calls(tool_calls: Vec<ToolCall>) -> (message: Self)
        ensures
            message@ == (MessageView {
                tool_calls: Some(views(tool_calls@)),
                ..MessageView::blank(Role::Assistant)
            }),
    {
        let mut message = Message::blank(Role::Assistant);
        message.tool_calls = Some(tool_calls);
        message
    }

    /// What a tool answers to a call.
    pub fn tool(text: &str, tool_call_id: &str) -> (message: Self)
        ensures
            message@ == (MessageView {
                content: seq![MessageBlockView::Text { text: text@ }],
                tool_call_id: Some(tool_call_id@),
                ..MessageView::blank(Role::Tool)
            }),
    {
        let mut message = Message::blank(Role::Tool);
        message.content.push(MessageBlock::text(text));
        message.tool_call_id = Some(tool_call_id.to_owned());
        assert(views(message.content@) =~= seq![MessageBlockView::Text { text: text@ }]);
        message
    }

    /// The texts of the message's text blocks, one after the other.
    pub fn content_as_text(&self) -> (text: String)
        ensures
            text@ == text_of(self@.content),
    {
        let mut text = String::new();
        let mut i: usize = 0;
        while i < self.content.len()
            invariant
                i <= self.content@.len(),
                text@ == text_of(self@.content.take(i as int)),
            decreases self.content@.len() - i,
        {
            proof {
                assert(self@.content.take(i + 1).drop_last() =~= self@.content.take(i as int));
            }
            match self.content[i].as_text() {
                Some(part) => text.append(part),
                None => {},
            }
            i += 1;
        }
        assert(self@.content.take(i as int) =~= self@.content);
        text
    }
}

} // verus!
