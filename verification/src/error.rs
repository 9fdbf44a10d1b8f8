use vstd::prelude::*;

verus! {

/// What can go wrong in the protocol layer.  Every failure carries the text
/// that caused it, so that a caller can see what the other side sent.
#[derive(Clone, Debug, PartialEq, Eq)]
pub enum ProtocolError {
    /// A reply was not a reply envelope with the expected payload; holds the
    /// reply text.
    Decode(String),
    /// The text inside a reply envelope was not the expected record; holds
    /// that inner text.
    InnerDecode(String),
    /// A pushed text matched none of the known message shapes; holds the
    /// text.
    NoVariantMatched(String),
    /// A text frame could not be classified; holds the frame's text.
    Classify(String),
    /// A frame of a kind that the push channel does not define.
    UnsupportedFrame,
    /// A send was answered without the success marker; holds the reply.
    OperationFailed(String),
}

/// A protocol error as a mathematical value.
pub enum ProtocolErrorView {
    Decode(Seq<char>),
    InnerDecode(Seq<char>),
    NoVariantMatched(Seq<char>),
    Classify(Seq<char>),
    UnsupportedFrame,
    OperationFailed(Seq<char>),
}

impl View for ProtocolError {
    type V = ProtocolErrorView;

    open spec fn view(&self) -> ProtocolErrorView {
        match self {
            ProtocolError::Decode(t) => ProtocolErrorView::Decode(t@),
            ProtocolError::InnerDecode(t) => ProtocolErrorView::InnerDecode(t@),
            ProtocolError::NoVariantMatched(t) => ProtocolErrorView::NoVariantMatched(t@),
            ProtocolError::Classify(t) => ProtocolErrorView::Classify(t@),
            ProtocolError::UnsupportedFrame => ProtocolErrorView::UnsupportedFrame,
            ProtocolError::OperationFailed(t) => ProtocolErrorView::OperationFailed(t@),
        }
    }
}

impl ProtocolErrorView {
    /// The text that the error carries, if it carries one.
    pub open spec fn context(self) -> Option<Seq<char>> {
        match self {
            ProtocolErrorView::Decode(t) => Some(t),
            ProtocolErrorView::InnerDecode(t) => Some(t),
            ProtocolErrorView::NoVariantMatched(t) => Some(t),
            ProtocolErrorView::Classify(t) => Some(t),
            ProtocolErrorView::UnsupportedFrame => None,
            ProtocolErrorView::OperationFailed(t) => Some(t),
        }
    }
}

impl ProtocolError {
    /// The text that the error carries, if it carries one.
    pub fn context(&self) -> (r: Option<&String>)
        ensures
            match r {
                Some(text) => self@.context() == Some(text@),
                None => self@.context() is None,
            },
    {
        match self {
            ProtocolError::Decode(t) => Some(t),
            ProtocolError::InnerDecode(t) => Some(t),
            ProtocolError::NoVariantMatched(t) => Some(t),
            ProtocolError::Classify(t) => Some(t),
            ProtocolError::UnsupportedFrame => None,
            ProtocolError::OperationFailed(t) => Some(t),
        }
    }
}

} // verus!
