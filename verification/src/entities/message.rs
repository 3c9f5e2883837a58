use vstd::prelude::*;

use crate::entities::role::Role;
use crate::entities::tool_call::{clone_tool_calls, ToolCall, ToolCallView};
use crate::text::{clone_opt_string, opt_as_str, opt_str_view, opt_view};

verus! {

/// One message of a conversation.
#[derive(Debug)]
pub struct Message {
    role: Role,
    contents: Option<String>,
    tool_call_id: Option<String>,
    tool_calls: Option<Vec<ToolCall>>,
}

/// What a message holds.
pub struct MessageView {
    pub role: Role,
    pub content: Option<Seq<char>>,
    pub tool_call_id: Option<Seq<char>>,
    pub tool_calls: Option<Seq<ToolCallView>>,
}

/// The views of a sequence of tool calls.
pub open spec fn tool_call_views(calls: Seq<ToolCall>) -> Seq<ToolCallView> {
    calls.map_values(|c: ToolCall| c@)
}

/// The views of optional tool calls.
pub open spec fn opt_tool_call_views(calls: Option<Vec<ToolCall>>) -> Option<Seq<ToolCallView>> {
    match calls {
        Some(v) => Some(tool_call_views(v@)),
        None => None,
    }
}

impl View for Message {
    type V = MessageView;

    closed spec fn view(&self) -> MessageView {
        MessageView {
            role: self.role,
            content: opt_view(self.contents),
            tool_call_id: opt_view(self.tool_call_id),
            tool_calls: opt_tool_call_views(self.tool_calls),
        }
    }
}

/// The message that `Message::new(role, contents)` builds.
pub open spec fn plain_message(role: Role, contents: Seq<char>) -> MessageView {
    MessageView { role, content: Some(contents), tool_call_id: None, tool_calls: None }
}

impl Clone for Message {
    fn clone(&self) -> (r: Self)
        ensures
            r@ == self@,
    {
        let tool_calls = match &self.tool_calls {
            Some(v) => Some(clone_tool_calls(v.as_slice())),
            None => None,
        };
        Message {
            role: self.role,
            contents: clone_opt_string(&self.contents),
            tool_call_id: clone_opt_string(&self.tool_call_id),
            tool_calls,
        }
    }
}

impl Message {
    /// A message of the given role with the given text, no tool call id and
    /// no tool calls.
    pub fn new(role: Role, contents: &str) -> (r: Self)
        ensures
            r@ == plain_message(role, contents@),
    {
        Message {
            role,
            contents: Some(String::from_str(contents)),
            tool_call_id: None,
            tool_calls: None,
        }
    }

    /// The assistant's message that requests the given tool calls.
    pub fn assistant_tool_call(contents: Option<String>, tool_calls: Vec<ToolCall>) -> (r: Self)
        ensures
            r@ == (MessageView {
                role: Role::Assistant,
                content: opt_view(contents),
                tool_call_id: None,
                tool_calls: Some(tool_call_views(tool_calls@)),
            }),
    {
        Message { role: Role::Assistant, contents, tool_call_id: None, tool_calls: Some(tool_calls) }
    }

    /// A message made of the given parts.
    pub fn from_parts(
        role: Role,
        contents: Option<String>,
        tool_call_id: Option<String>,
        tool_calls: Option<Vec<ToolCall>>,
    ) -> (r: Self)
        ensures
            r@ == (MessageView {
                role,
                content: opt_view(contents),
                tool_call_id: opt_view(tool_call_id),
                tool_calls: opt_tool_call_views(tool_calls),
            }),
    {
        Message { role, contents, tool_call_id, tool_calls }
    }

    /// The same message, answering the tool call with the given id.
    pub fn with_tool_call_id(self, tool_call_id: String) -> (r: Self)
        ensures
            r@ == (MessageView { tool_call_id: Some(tool_call_id@), ..self@ }),
    {
        let mut m = self;
        m.tool_call_id = Some(tool_call_id);
        m
    }

    pub fn content(&self) -> (r: Option<&str>)
        ensures
            opt_str_view(r) == self@.content,
    {
        opt_as_str(&self.contents)
    }

    pub fn role(&self) -> (r: &Role)
        ensures
            *r == self@.role,
    {
        &self.role
    }

    pub fn tool_call_id(&self) -> (r: Option<&str>)
        ensures
            opt_str_view(r) == self@.tool_call_id,
    {
        opt_as_str(&self.tool_call_id)
    }

    pub fn tool_calls(&self) -> (r: Option<&[ToolCall]>)
        ensures
            match r {
                Some(s) => self@.tool_calls == Some(tool_call_views(s@)),
                None => self@.tool_calls is None,
            },
    {
        match &self.tool_calls {
            Some(v) => Some(v.as_slice()),
            None => None,
        }
    }
}

/// The views of a sequence of messages.
pub open spec fn message_views(ms: Seq<Message>) -> Seq<MessageView> {
    ms.map_values(|m: Message| m@)
}

/// A copy of each message, in order.
pub fn clone_messages(v: &[Message]) -> (r: Vec<Message>)
    ensures
        message_views(r@) == message_views(v@),
{
    let mut r: Vec<Message> = Vec::new();
    let mut i: usize = 0;
    while i < v.len()
        invariant
            i <= v.len(),
            message_views(r@) == message_views(v@.take(i as int)),
        decreases v.len() - i,
    {
        let c = v[i].clone();
        let ghost old = r@;
        r.push(c);
        assert(message_views(r@) =~= message_views(old).push(v@[i as int]@));
        assert(message_views(v@.take(i + 1)) =~= message_views(v@.take(i as int)).push(
            v@[i as int]@,
        ));
        i = i + 1;
    }
    assert(v@.take(v.len() as int) =~= v@);
    r
}

} // verus!
