//! The frames that travel over a connection, reduced to what the service reads.

use vstd::prelude::*;

verus! {

/// One discrete unit of exchange with a peer.
///
/// Only text and close frames mean anything to the service; binary and
/// control frames are told apart so that they can be accepted and ignored.
#[derive(Clone, Debug, PartialEq, Eq)]
pub enum Frame {
    /// A text frame with its payload.
    Text(String),
    /// A binary frame; its payload is never read.
    Binary,
    /// A ping or a pong.
    Control,
    /// The peer's (or our own) request to end the connection.
    Close,
}

/// The mathematical value of a [`Frame`].
pub enum FrameView {
    Text(Seq<char>),
    Binary,
    Control,
    Close,
}

impl View for Frame {
    type V = FrameView;

    open spec fn view(&self) -> FrameView {
        match self {
            Frame::Text(payload) => FrameView::Text(payload@),
            Frame::Binary => FrameView::Binary,
            Frame::Control => FrameView::Control,
            Frame::Close => FrameView::Close,
        }
    }
}

/// The frame that a message of the transport stands for, from what the
/// transport tells of it: whether it is text, its payload as text if that can
/// be had, whether it is a close message, whether it is binary.
///
/// Text comes first, then close. A text message whose payload cannot be had
/// as text is binary data; what is neither text, close nor binary is a
/// control message.
pub open spec fn frame_of(
    is_text: bool,
    text: Option<Seq<char>>,
    is_close: bool,
    is_binary: bool,
) -> FrameView {
    if is_text {
        match text {
            Some(payload) => FrameView::Text(payload),
            None => FrameView::Binary,
        }
    } else if is_close {
        FrameView::Close
    } else if is_binary {
        FrameView::Binary
    } else {
        FrameView::Control
    }
}

impl Frame {
    /// The frame that a message of the transport stands for, as [`frame_of`]
    /// defines.
    pub fn from_parts(is_text: bool, text: Option<&str>, is_close: bool, is_binary: bool) -> (frame: Frame)
        ensures
            frame@ == frame_of(
                is_text,
                match text {
                    Some(payload) => Some(payload@),
                    None => None,
                },
                is_close,
                is_binary,
            ),
    {
        if is_text {
            match text {
                Some(payload) => Frame::Text(String::from_str(payload)),
                None => Frame::Binary,
            }
        } else if is_close {
            Frame::Close
        } else if is_binary {
            Frame::Binary
        } else {
            Frame::Control
        }
    }

    /// A text frame that carries `payload`.
    pub fn text(payload: &str) -> (frame: Frame)
        ensures
            frame@ == FrameView::Text(payload@),
    {
        Frame::Text(String::from_str(payload))
    }

    /// The payload of a text frame, and `None` for every other kind.
    pub fn as_text(&self) -> (payload: Option<&str>)
        ensures
            match self@ {
                FrameView::Text(t) => payload.is_some() && payload.unwrap()@ == t,
                _ => payload.is_none(),
            },
    {
        match self {
            Frame::Text(payload) => Some(payload.as_str()),
            _ => None,
        }
    }

    /// Whether this is a close frame.
    pub fn is_close(&self) -> (close: bool)
        ensures
            close == (self@ == FrameView::Close),
    {
        match self {
            Frame::Close => true,
            _ => false,
        }
    }
}

} // verus!
