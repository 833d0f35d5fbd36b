//! A stand-in language model that answers without any service behind it.

use vstd::prelude::*;
use vstd::string::StringExecFns;
use crate::prompt::{Message, MessageView, messages_view};

verus! {

/// The content of the last message of `context`, empty for an empty context.
pub open spec fn last_content(context: Seq<MessageView>) -> Seq<char> {
    if context.len() == 0 {
        Seq::empty()
    } else {
        context.last().content
    }
}

/// The stand-in's answer to `context`: it quotes the last message.
pub open spec fn mock_reply(context: Seq<MessageView>) -> Seq<char> {
    "MockAI: I received your message: '"@ + last_content(context) + "'"@
}

/// A language model that echoes the last message of its context.
pub struct MockLLM;

impl MockLLM {
    pub fn reply_to(&self, messages: &[Message]) -> (r: String)
        ensures
            r@ == mock_reply(messages_view(messages@)),
    {
        let n = messages.len();
        let mut reply = String::from_str("MockAI: I received your message: '");
        if n > 0 {
            reply.append(messages[n - 1].content.as_str());
        } else {
            assert(last_content(messages_view(messages@)) =~= Seq::<char>::empty());
        }
        reply.append("'");
        reply
    }
}

} // verus!
