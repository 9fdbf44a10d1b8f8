pub mod message;

use crate::decode::FromJson;
use crate::error::ProtocolError;
use crate::error::ProtocolErrorView;
use crate::json::backend::json_parse;
use crate::json::Json;
use crate::json::JsonValue;
use message::Message;
use message::MessageView;
use message::WechatMsg;
use vstd::prelude::*;

verus! {

/// One frame of the push channel, as the transport hands it over.
#[derive(Clone, Debug, PartialEq, Eq)]
pub enum Frame {
    Text(String),
    Binary(Vec<u8>),
    Ping(Vec<u8>),
    Pong(Vec<u8>),
    Close,
    /// A frame that the transport did not take apart.
    Raw,
}

/// A frame as a mathematical value.
pub enum FrameView {
    Text(Seq<char>),
    Binary(Seq<u8>),
    Ping(Seq<u8>),
    Pong(Seq<u8>),
    Close,
    Raw,
}

impl DeepView for Frame {
    type V = FrameView;

    open spec fn deep_view(&self) -> FrameView {
        match self {
            Frame::Text(text) => FrameView::Text(text@),
            Frame::Binary(payload) => FrameView::Binary(payload@),
            Frame::Ping(payload) => FrameView::Ping(payload@),
            Frame::Pong(payload) => FrameView::Pong(payload@),
            Frame::Close => FrameView::Close,
            Frame::Raw => FrameView::Raw,
        }
    }
}

/// The token that the host sends as text to show that it is alive.
pub open spec fn pong_token() -> Seq<char> {
    "pong"@
}

/// What a text frame other than the pong token is, given the document that
/// its text denotes, if it denotes one: the message that the document fits,
/// or a failure that carries the text.
pub open spec fn classified_text(text: Seq<char>, parsed: Option<JsonValue>) -> Result<
    MessageView,
    ProtocolErrorView,
> {
    match parsed {
        Some(doc) => match WechatMsg::decoded(doc) {
            Some(m) => Ok(MessageView::Msg(m)),
            None => Err(ProtocolErrorView::Classify(text)),
        },
        None => Err(ProtocolErrorView::Classify(text)),
    }
}

/// What a frame is.
///
/// The text `pong` is a pong without payload, and is never looked at as
/// JSON.  Any other text is a message of the host, or a failure that
/// carries the text.  Ping, pong and close frames pass through.  No other
/// kind of frame belongs on the channel.
pub open spec fn classified(frame: FrameView) -> Result<MessageView, ProtocolErrorView> {
    match frame {
        FrameView::Text(text) => if text == pong_token() {
            Ok(MessageView::Pong(Seq::empty()))
        } else {
            classified_text(text, json_parse(text))
        },
        FrameView::Close => Ok(MessageView::Closed),
        FrameView::Ping(payload) => Ok(MessageView::Ping(payload)),
        FrameView::Pong(payload) => Ok(MessageView::Pong(payload)),
        FrameView::Binary(_) => Err(ProtocolErrorView::UnsupportedFrame),
        FrameView::Raw => Err(ProtocolErrorView::UnsupportedFrame),
    }
}

/// Classifies a text frame other than the pong token, given the document
/// that its text denotes, if it denotes one.
pub fn classify_text(text: String, parsed: Option<Json>) -> (r: Result<Message, ProtocolError>)
    ensures
        match r {
            Ok(m) => classified_text(text@, parsed.deep_view()) == Ok::<_, ProtocolErrorView>(
                m.deep_view(),
            ),
            Err(e) => classified_text(text@, parsed.deep_view()) == Err::<MessageView, _>(e@),
        },
{
    let found = match parsed {
        Some(doc) => WechatMsg::from_json(&doc),
        None => None,
    };
    match found {
        Some(m) => Ok(Message::Msg(m)),
        None => Err(ProtocolError::Classify(text)),
    }
}

/// Classifies one frame of the push channel.
pub fn parse_message(frame: Frame) -> (r: Result<Message, ProtocolError>)
    ensures
        match r {
            Ok(m) => classified(frame.deep_view()) == Ok::<_, ProtocolErrorView>(m.deep_view()),
            Err(e) => classified(frame.deep_view()) == Err::<MessageView, _>(e@),
        },
{
    match frame {
        Frame::Text(text) => {
            if text == "pong".to_owned() {
                Ok(Message::Pong(Vec::new()))
            } else {
                let parsed = Json::parse(text.as_str());
                classify_text(text, parsed)
            }
        },
        Frame::Close => Ok(Message::Closed),
        Frame::Ping(payload) => Ok(Message::Ping(payload)),
        Frame::Pong(payload) => Ok(Message::Pong(payload)),
        Frame::Binary(_) => Err(ProtocolError::UnsupportedFrame),
        Frame::Raw => Err(ProtocolError::UnsupportedFrame),
    }
}

/// The pong token comes first: a text frame that holds exactly `pong` is a
/// pong without payload, whatever a JSON reader would make of that text.
pub proof fn lemma_pong_token_first()
    ensures
        classified(FrameView::Text(pong_token())) == Ok::<_, ProtocolErrorView>(
            MessageView::Pong(Seq::empty()),
        ),
{
}

/// A text frame that is refused is handed back whole: the failure carries
/// the frame's text, character for character.
pub proof fn lemma_refused_text_is_kept(text: Seq<char>)
    requires
        classified(FrameView::Text(text)) is Err,
    ensures
        classified(FrameView::Text(text)) == Err::<MessageView, _>(ProtocolErrorView::Classify(text)),
        classified(FrameView::Text(text))->Err_0.context() == Some(text),
{
}

} // verus!
