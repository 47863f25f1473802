//! The message that a session publishes for every other session to receive.

use vstd::prelude::*;
use vstd::string::*;

verus! {

/// The text that stands between the origin and the text of a rendered message.
pub open spec fn separator() -> Seq<char> {
    seq![':', ' ']
}

/// The line that is distributed for a message from `origin` with text `text`:
/// the origin, a colon, a space, the text.
pub open spec fn rendered_line(origin: Seq<char>, text: Seq<char>) -> Seq<char> {
    origin + separator() + text
}

/// A line of text on its way from one peer to all of them.
///
/// `origin` identifies the connection that sent it, `text` is what it sent.
/// A session creates one for each non-empty text frame that it receives, so
/// the text is never empty.
#[derive(Debug, PartialEq, Eq)]
pub struct BroadcastMessage {
    origin: String,
    text: String,
}

/// The mathematical value of a [`BroadcastMessage`].
pub struct BroadcastMessageView {
    pub origin: Seq<char>,
    pub text: Seq<char>,
}

impl BroadcastMessageView {
    /// The line under which the message is distributed.
    pub open spec fn line(self) -> Seq<char> {
        rendered_line(self.origin, self.text)
    }
}

impl View for BroadcastMessage {
    type V = BroadcastMessageView;

    closed spec fn view(&self) -> BroadcastMessageView {
        BroadcastMessageView { origin: self.origin@, text: self.text@ }
    }
}

impl BroadcastMessage {
    #[verifier::type_invariant]
    spec fn has_text(self) -> bool {
        self.text@.len() > 0
    }

    /// The message from `origin` with text `text`, or `None` where the text is
    /// empty: an empty text is never distributed.
    pub fn new(origin: String, text: String) -> (message: Option<BroadcastMessage>)
        ensures
            text@.len() == 0 ==> message.is_none(),
            text@.len() > 0 ==> message.is_some() && message.unwrap()@ == (BroadcastMessageView {
                origin: origin@,
                text: text@,
            }),
    {
        if text.as_str().is_empty() {
            None
        } else {
            Some(BroadcastMessage { origin, text })
        }
    }

    /// The connection that sent the message.
    pub fn origin(&self) -> (origin: &str)
        ensures
            origin@ == self@.origin,
    {
        self.origin.as_str()
    }

    /// What the connection sent; never empty.
    pub fn text(&self) -> (text: &str)
        ensures
            text@ == self@.text,
            text@.len() > 0,
    {
        proof {
            use_type_invariant(self);
        }
        self.text.as_str()
    }

    /// The line under which the message is distributed.
    pub fn render(&self) -> (line: String)
        ensures
            line@ == self@.line(),
    {
        let mut line = self.origin.clone();
        proof {
            reveal_strlit(": ");
            assert(": "@ =~= separator());
        }
        line.append(": ");
        line.append(self.text.as_str());
        line
    }
}

} // verus!
