//! Conversation messages and incoming inputs.

use vstd::prelude::*;

verus! {

/// One incoming payload from a messaging surface.
#[derive(Debug, PartialEq, Eq)]
pub enum Input {
    /// Plain text typed by the user.
    Text(String),
    /// A URL, path or encoded reference to an image.
    Image(String),
    /// Raw audio bytes.
    Audio(Vec<u8>),
    /// A URL or path to a video.
    Video(String),
}

pub ghost enum InputView {
    Text(Seq<char>),
    Image(Seq<char>),
    Audio(Seq<u8>),
    Video(Seq<char>),
}

impl View for Input {
    type V = InputView;

    open spec fn view(&self) -> InputView {
        match self {
            Input::Text(t) => InputView::Text(t@),
            Input::Image(r) => InputView::Image(r@),
            Input::Audio(b) => InputView::Audio(b@),
            Input::Video(r) => InputView::Video(r@),
        }
    }
}

/// A role-tagged entry of a conversation.
#[derive(Debug, PartialEq, Eq)]
pub struct Message {
    pub role: String,
    pub content: String,
    pub user_id: Option<String>,
}

/// What a message is, independent of how its strings are stored.
pub ghost struct MessageView {
    pub role: Seq<char>,
    pub content: Seq<char>,
    pub user_id: Option<Seq<char>>,
}

pub open spec fn opt_view(o: Option<String>) -> Option<Seq<char>> {
    match o {
        Some(s) => Some(s@),
        None => None,
    }
}

impl View for Message {
    type V = MessageView;

    open spec fn view(&self) -> MessageView {
        MessageView { role: self.role@, content: self.content@, user_id: opt_view(self.user_id) }
    }
}

/// The views of a sequence of messages, in order.
pub open spec fn messages_view(s: Seq<Message>) -> Seq<MessageView> {
    s.map_values(|m: Message| m@)
}

pub open spec fn system_role() -> Seq<char> {
    "system"@
}

pub open spec fn user_role() -> Seq<char> {
    "user"@
}

pub open spec fn assistant_role() -> Seq<char> {
    "assistant"@
}

/// The system message carrying `content`.
pub open spec fn system_view(content: Seq<char>) -> MessageView {
    MessageView { role: system_role(), content, user_id: None }
}

/// The user message carrying `content`, sent by `user_id` if known.
pub open spec fn user_view(content: Seq<char>, user_id: Option<Seq<char>>) -> MessageView {
    MessageView { role: user_role(), content, user_id }
}

/// The assistant message carrying `content`.
pub open spec fn assistant_view(content: Seq<char>) -> MessageView {
    MessageView { role: assistant_role(), content, user_id: None }
}

/// A copy of an optional string.
pub(crate) fn clone_opt(o: &Option<String>) -> (r: Option<String>)
    ensures
        r == *o,
{
    match o {
        Some(s) => Some(s.clone()),
        None => None,
    }
}

impl Clone for Message {
    fn clone(&self) -> (r: Self)
        ensures
            r == *self,
    {
        Message {
            role: self.role.clone(),
            content: self.content.clone(),
            user_id: clone_opt(&self.user_id),
        }
    }
}

impl Clone for Input {
    fn clone(&self) -> (r: Self)
        ensures
            r@ == self@,
    {
        match self {
            Input::Text(t) => Input::Text(t.clone()),
            Input::Image(r) => Input::Image(r.clone()),
            Input::Audio(b) => Input::Audio(b.clone()),
            Input::Video(r) => Input::Video(r.clone()),
        }
    }
}

impl Message {
    #[must_use]
    pub fn new(role: &str, content: &str, user_id: Option<String>) -> (r: Self)
        ensures
            r@ == (MessageView { role: role@, content: content@, user_id: opt_view(user_id) }),
            r.user_id == user_id,
    {
        Message { role: role.to_string(), content: content.to_string(), user_id }
    }

    #[must_use]
    pub fn system(content: &str) -> (r: Self)
        ensures
            r@ == system_view(content@),
    {
        Self::new("system", content, None)
    }

    #[must_use]
    pub fn user(content: &str, user_id: Option<String>) -> (r: Self)
        ensures
            r@ == user_view(content@, opt_view(user_id)),
            r.user_id == user_id,
    {
        Self::new("user", content, user_id)
    }

    #[must_use]
    pub fn assistant(content: &str) -> (r: Self)
        ensures
            r@ == assistant_view(content@),
    {
        Self::new("assistant", content, None)
    }
}

} // verus!
