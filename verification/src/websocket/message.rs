use crate::decode::field;
use crate::decode::field_either;
use crate::decode::read_field;
use crate::decode::read_field_either;
use crate::decode::FromJson;
use crate::error::ProtocolError;
use crate::error::ProtocolErrorView;
use crate::json::Json;
use crate::json::JsonValue;
use crate::proto::inner_content;
use crate::proto::DataType;
use crate::text::contains;
use crate::text::ends_with;
use crate::text::str_contains;
use crate::text::str_ends_with;
use vstd::prelude::*;

verus! {

/// What the push channel delivers: a control event or a message of the
/// chat host.
#[derive(Clone, Debug, PartialEq, Eq)]
pub enum Message {
    Ping(Vec<u8>),
    Pong(Vec<u8>),
    Closed,
    Msg(WechatMsg),
}

/// A message of the chat host.  The wire carries no mark that tells the
/// shapes apart, so a message is whichever shape fits first, in the order
/// written here.
#[derive(Clone, Debug, PartialEq, Eq)]
pub enum WechatMsg {
    HeartBeat(HeartBeat),
    TextMsg(TextMsg),
    PicMsg(PicMsg),
}

/// The host's sign of life.
#[derive(Clone, Debug, PartialEq, Eq)]
pub struct HeartBeat {
    pub content: String,
    pub id: String,
    pub receiver: String,
    pub sender: String,
    pub srvid: u64,
    pub status: String,
    pub time: String,
    pub data_type: DataType,
}

/// A text that somebody sent, to the account or to a room it is in.
#[derive(Clone, Debug, PartialEq, Eq)]
pub struct TextMsg {
    pub content: String,
    pub id: String,
    pub id1: String,
    pub id2: String,
    pub id3: String,
    pub srvid: u64,
    pub time: String,
    pub data_type: DataType,
    /// The room for a text sent to a room, else the sender.
    pub wx_id: String,
}

/// Where a received picture lies and whom it came from.
#[derive(Clone, Debug, PartialEq, Eq)]
pub struct PicDetail {
    pub content: String,
    pub detail: String,
    pub id1: String,
    pub id2: String,
    pub thumb: String,
}

/// A picture that somebody sent.
#[derive(Clone, Debug, PartialEq, Eq)]
pub struct PicMsg {
    pub content: PicDetail,
    pub id: String,
    pub receiver: String,
    pub sender: String,
    pub srvid: u64,
    pub status: String,
    pub time: String,
    pub data_type: DataType,
}

/// A heartbeat as a mathematical value.
pub struct HeartBeatView {
    pub content: Seq<char>,
    pub id: Seq<char>,
    pub receiver: Seq<char>,
    pub sender: Seq<char>,
    pub srvid: u64,
    pub status: Seq<char>,
    pub time: Seq<char>,
    pub data_type: DataType,
}

/// A text message as a mathematical value.
pub struct TextMsgView {
    pub content: Seq<char>,
    pub id: Seq<char>,
    pub id1: Seq<char>,
    pub id2: Seq<char>,
    pub id3: Seq<char>,
    pub srvid: u64,
    pub time: Seq<char>,
    pub data_type: DataType,
    pub wx_id: Seq<char>,
}

/// The detail of a picture as a mathematical value.
pub struct PicDetailView {
    pub content: Seq<char>,
    pub detail: Seq<char>,
    pub id1: Seq<char>,
    pub id2: Seq<char>,
    pub thumb: Seq<char>,
}

/// A picture message as a mathematical value.
pub struct PicMsgView {
    pub content: PicDetailView,
    pub id: Seq<char>,
    pub receiver: Seq<char>,
    pub sender: Seq<char>,
    pub srvid: u64,
    pub status: Seq<char>,
    pub time: Seq<char>,
    pub data_type: DataType,
}

/// A message of the chat host as a mathematical value.
pub enum WechatMsgView {
    HeartBeat(HeartBeatView),
    TextMsg(TextMsgView),
    PicMsg(PicMsgView),
}

/// What the push channel delivers, as a mathematical value.
pub enum MessageView {
    Ping(Seq<u8>),
    Pong(Seq<u8>),
    Closed,
    Msg(WechatMsgView),
}

impl DeepView for HeartBeat {
    type V = HeartBeatView;

    open spec fn deep_view(&self) -> HeartBeatView {
        HeartBeatView {
            content: self.content@,
            id: self.id@,
            receiver: self.receiver@,
            sender: self.sender@,
            srvid: self.srvid,
            status: self.status@,
            time: self.time@,
            data_type: self.data_type,
        }
    }
}

impl DeepView for TextMsg {
    type V = TextMsgView;

    open spec fn deep_view(&self) -> TextMsgView {
        TextMsgView {
            content: self.content@,
            id: self.id@,
            id1: self.id1@,
            id2: self.id2@,
            id3: self.id3@,
            srvid: self.srvid,
            time: self.time@,
            data_type: self.data_type,
            wx_id: self.wx_id@,
        }
    }
}

impl DeepView for PicDetail {
    type V = PicDetailView;

    open spec fn deep_view(&self) -> PicDetailView {
        PicDetailView {
            content: self.content@,
            detail: self.detail@,
            id1: self.id1@,
            id2: self.id2@,
            thumb: self.thumb@,
        }
    }
}

impl DeepView for PicMsg {
    type V = PicMsgView;

    open spec fn deep_view(&self) -> PicMsgView {
        PicMsgView {
            content: self.content.deep_view(),
            id: self.id@,
            receiver: self.receiver@,
            sender: self.sender@,
            srvid: self.srvid,
            status: self.status@,
            time: self.time@,
            data_type: self.data_type,
        }
    }
}

impl DeepView for WechatMsg {
    type V = WechatMsgView;

    open spec fn deep_view(&self) -> WechatMsgView {
        match self {
            WechatMsg::HeartBeat(m) => WechatMsgView::HeartBeat(m.deep_view()),
            WechatMsg::TextMsg(m) => WechatMsgView::TextMsg(m.deep_view()),
            WechatMsg::PicMsg(m) => WechatMsgView::PicMsg(m.deep_view()),
        }
    }
}

impl DeepView for Message {
    type V = MessageView;

    open spec fn deep_view(&self) -> MessageView {
        match self {
            Message::Ping(payload) => MessageView::Ping(payload@),
            Message::Pong(payload) => MessageView::Pong(payload@),
            Message::Closed => MessageView::Closed,
            Message::Msg(m) => MessageView::Msg(m.deep_view()),
        }
    }
}

impl FromJson for HeartBeat {
    /// A heartbeat is read from an object with the strings `content`, `id`,
    /// `receiver`, `sender`, `status` and `time`, an integer `srvid`, and a
    /// known operation number under `data_type` or under `type`.
    open spec fn decoded(doc: JsonValue) -> Option<HeartBeatView> {
        let content = field::<String>(doc, "content"@);
        let id = field::<String>(doc, "id"@);
        let receiver = field::<String>(doc, "receiver"@);
        let sender = field::<String>(doc, "sender"@);
        let srvid = field::<u64>(doc, "srvid"@);
        let status = field::<String>(doc, "status"@);
        let time = field::<String>(doc, "time"@);
        let data_type = field_either::<DataType>(doc, "data_type"@, "type"@);
        if content is Some && id is Some && receiver is Some && sender is Some && srvid is Some
            && status is Some && time is Some && data_type is Some {
            Some(
                HeartBeatView {
                    content: content.unwrap(),
                    id: id.unwrap(),
                    receiver: receiver.unwrap(),
                    sender: sender.unwrap(),
                    srvid: srvid.unwrap(),
                    status: status.unwrap(),
                    time: time.unwrap(),
                    data_type: data_type.unwrap(),
                },
            )
        } else {
            None
        }
    }

    fn from_json(doc: &Json) -> (r: Option<HeartBeat>) {
        let content = read_field::<String>(doc, "content")?;
        let id = read_field::<String>(doc, "id")?;
        let receiver = read_field::<String>(doc, "receiver")?;
        let sender = read_field::<String>(doc, "sender")?;
        let srvid = read_field::<u64>(doc, "srvid")?;
        let status = read_field::<String>(doc, "status")?;
        let time = read_field::<String>(doc, "time")?;
        let data_type = read_field_either::<DataType>(doc, "data_type", "type")?;
        Some(HeartBeat { content, id, receiver, sender, srvid, status, time, data_type })
    }
}

impl FromJson for TextMsg {
    /// A text message is read from an object with the strings `content`,
    /// `id`, `id1`, `id2`, `id3` and `time`, an integer `srvid`, a known
    /// operation number under `data_type` or under `type`, and a string
    /// under `wx_id` or under `wxid`.
    open spec fn decoded(doc: JsonValue) -> Option<TextMsgView> {
        let content = field::<String>(doc, "content"@);
        let id = field::<String>(doc, "id"@);
        let id1 = field::<String>(doc, "id1"@);
        let id2 = field::<String>(doc, "id2"@);
        let id3 = field::<String>(doc, "id3"@);
        let srvid = field::<u64>(doc, "srvid"@);
        let time = field::<String>(doc, "time"@);
        let data_type = field_either::<DataType>(doc, "data_type"@, "type"@);
        let wx_id = field_either::<String>(doc, "wx_id"@, "wxid"@);
        if content is Some && id is Some && id1 is Some && id2 is Some && id3 is Some && srvid is Some
            && time is Some && data_type is Some && wx_id is Some {
            Some(
                TextMsgView {
                    content: content.unwrap(),
                    id: id.unwrap(),
                    id1: id1.unwrap(),
                    id2: id2.unwrap(),
                    id3: id3.unwrap(),
                    srvid: srvid.unwrap(),
                    time: time.unwrap(),
                    data_type: data_type.unwrap(),
                    wx_id: wx_id.unwrap(),
                },
            )
        } else {
            None
        }
    }

    fn from_json(doc: &Json) -> (r: Option<TextMsg>) {
        let content = read_field::<String>(doc, "content")?;
        let id = read_field::<String>(doc, "id")?;
        let id1 = read_field::<String>(doc, "id1")?;
        let id2 = read_field::<String>(doc, "id2")?;
        let id3 = read_field::<String>(doc, "id3")?;
        let srvid = read_field::<u64>(doc, "srvid")?;
        let time = read_field::<String>(doc, "time")?;
        let data_type = read_field_either::<DataType>(doc, "data_type", "type")?;
        let wx_id = read_field_either::<String>(doc, "wx_id", "wxid")?;
        Some(TextMsg { content, id, id1, id2, id3, srvid, time, data_type, wx_id })
    }
}

impl FromJson for PicDetail {
    /// The detail of a picture is read from an object with the strings
    /// `content`, `detail`, `id1`, `id2` and `thumb`.
    open spec fn decoded(doc: JsonValue) -> Option<PicDetailView> {
        let content = field::<String>(doc, "content"@);
        let detail = field::<String>(doc, "detail"@);
        let id1 = field::<String>(doc, "id1"@);
        let id2 = field::<String>(doc, "id2"@);
        let thumb = field::<String>(doc, "thumb"@);
        if content is Some && detail is Some && id1 is Some && id2 is Some && thumb is Some {
            Some(
                PicDetailView {
                    content: content.unwrap(),
                    detail: detail.unwrap(),
                    id1: id1.unwrap(),
                    id2: id2.unwrap(),
                    thumb: thumb.unwrap(),
                },
            )
        } else {
            None
        }
    }

    fn from_json(doc: &Json) -> (r: Option<PicDetail>) {
        let content = read_field::<String>(doc, "content")?;
        let detail = read_field::<String>(doc, "detail")?;
        let id1 = read_field::<String>(doc, "id1")?;
        let id2 = read_field::<String>(doc, "id2")?;
        let thumb = read_field::<String>(doc, "thumb")?;
        Some(PicDetail { content, detail, id1, id2, thumb })
    }
}

impl FromJson for PicMsg {
    /// A picture message is read from an object whose `content` is the
    /// detail of a picture, with the strings `id`, `receiver`, `sender`,
    /// `status` and `time`, an integer `srvid`, and a known operation number
    /// under `data_type` or under `type`.
    open spec fn decoded(doc: JsonValue) -> Option<PicMsgView> {
        let content = field::<PicDetail>(doc, "content"@);
        let id = field::<String>(doc, "id"@);
        let receiver = field::<String>(doc, "receiver"@);
        let sender = field::<String>(doc, "sender"@);
        let srvid = field::<u64>(doc, "srvid"@);
        let status = field::<String>(doc, "status"@);
        let time = field::<String>(doc, "time"@);
        let data_type = field_either::<DataType>(doc, "data_type"@, "type"@);
        if content is Some && id is Some && receiver is Some && sender is Some && srvid is Some
            && status is Some && time is Some && data_type is Some {
            Some(
                PicMsgView {
                    content: content.unwrap(),
                    id: id.unwrap(),
                    receiver: receiver.unwrap(),
                    sender: sender.unwrap(),
                    srvid: srvid.unwrap(),
                    status: status.unwrap(),
                    time: time.unwrap(),
                    data_type: data_type.unwrap(),
                },
            )
        } else {
            None
        }
    }

    fn from_json(doc: &Json) -> (r: Option<PicMsg>) {
        let content = read_field::<PicDetail>(doc, "content")?;
        let id = read_field::<String>(doc, "id")?;
        let receiver = read_field::<String>(doc, "receiver")?;
        let sender = read_field::<String>(doc, "sender")?;
        let srvid = read_field::<u64>(doc, "srvid")?;
        let status = read_field::<String>(doc, "status")?;
        let time = read_field::<String>(doc, "time")?;
        let data_type = read_field_either::<DataType>(doc, "data_type", "type")?;
        Some(PicMsg { content, id, receiver, sender, srvid, status, time, data_type })
    }
}

impl FromJson for WechatMsg {
    /// A message is the first shape that the document fits: a heartbeat
    /// before a text message, a text message before a picture message.
    open spec fn decoded(doc: JsonValue) -> Option<WechatMsgView> {
        if HeartBeat::decoded(doc) is Some {
            Some(WechatMsgView::HeartBeat(HeartBeat::decoded(doc).unwrap()))
        } else if TextMsg::decoded(doc) is Some {
            Some(WechatMsgView::TextMsg(TextMsg::decoded(doc).unwrap()))
        } else if PicMsg::decoded(doc) is Some {
            Some(WechatMsgView::PicMsg(PicMsg::decoded(doc).unwrap()))
        } else {
            None
        }
    }

    fn from_json(doc: &Json) -> (r: Option<WechatMsg>) {
        if let Some(m) = HeartBeat::from_json(doc) {
            return Some(WechatMsg::HeartBeat(m));
        }
        if let Some(m) = TextMsg::from_json(doc) {
            return Some(WechatMsg::TextMsg(m));
        }
        if let Some(m) = PicMsg::from_json(doc) {
            return Some(WechatMsg::PicMsg(m));
        }
        None
    }
}

impl WechatMsg {
    /// Reads a message from a pushed text.  Fails with `NoVariantMatched`,
    /// carrying the text, exactly when the text is not JSON or fits none of
    /// the shapes.
    pub fn resolve(text: &str) -> (r: Result<WechatMsg, ProtocolError>)
        ensures
            match r {
                Ok(m) => inner_content::<WechatMsg>(text@) == Some(m.deep_view()),
                Err(e) => inner_content::<WechatMsg>(text@) is None && e@
                    == ProtocolErrorView::NoVariantMatched(text@),
            },
    {
        let found = match Json::parse(text) {
            Some(doc) => WechatMsg::from_json(&doc),
            None => None,
        };
        match found {
            Some(m) => Ok(m),
            None => Err(ProtocolError::NoVariantMatched(text.to_owned())),
        }
    }
}

/// Where the shapes overlap the order decides: a document that fits a
/// heartbeat is a heartbeat, whatever else it fits.
pub proof fn lemma_heart_beat_first(doc: JsonValue)
    requires
        HeartBeat::decoded(doc) is Some,
    ensures
        WechatMsg::decoded(doc) == Some(WechatMsgView::HeartBeat(HeartBeat::decoded(doc).unwrap())),
{
}

/// A document that fits a text message is one unless it fits a heartbeat.
pub proof fn lemma_text_before_picture(doc: JsonValue)
    requires
        HeartBeat::decoded(doc) is None,
        TextMsg::decoded(doc) is Some,
    ensures
        WechatMsg::decoded(doc) == Some(WechatMsgView::TextMsg(TextMsg::decoded(doc).unwrap())),
{
}

impl TextMsgView {
    /// Whether the text was sent to a room: the overloaded id has
    /// `chatroom` somewhere in it.
    pub open spec fn is_group(self) -> bool {
        contains(self.wx_id, "chatroom"@)
    }

    /// The room that the text was sent to: the overloaded id, where it ends
    /// with `@chatroom`.
    pub open spec fn room(self) -> Option<Seq<char>> {
        if ends_with(self.wx_id, "@chatroom"@) {
            Some(self.wx_id)
        } else {
            None
        }
    }

    /// Who wrote the text: for a text sent to a room `id1`, else the
    /// overloaded id.
    pub open spec fn originator(self) -> Seq<char> {
        if self.is_group() {
            self.id1
        } else {
            self.wx_id
        }
    }
}

/// Where a text came from: whether it was sent to a room, the room if its
/// id has the form of a room's id, and who wrote it.
#[derive(Clone, Debug, PartialEq, Eq)]
pub struct Identity {
    pub is_group: bool,
    pub room_id: Option<String>,
    pub originator_id: String,
}

impl TextMsg {
    /// Where the text came from.
    pub fn resolve_identity(&self) -> (r: Identity)
        ensures
            r.is_group == self.deep_view().is_group(),
            r.room_id.deep_view() == self.deep_view().room(),
            r.originator_id@ == self.deep_view().originator(),
    {
        Identity {
            is_group: self.is_chatroom_msg(),
            room_id: self.room_id(),
            originator_id: self.wechat_id(),
        }
    }

    /// Whether the text was sent to a room.
    pub fn is_chatroom_msg(&self) -> (r: bool)
        ensures
            r == self.deep_view().is_group(),
    {
        str_contains(self.wx_id.as_str(), "chatroom")
    }

    /// The room that the text was sent to, if its id has the form of a
    /// room's id.
    pub fn room_id(&self) -> (r: Option<String>)
        ensures
            match r {
                Some(room) => self.deep_view().room() == Some(room@),
                None => self.deep_view().room() is None,
            },
    {
        if str_ends_with(self.wx_id.as_str(), "@chatroom") {
            Some(self.wx_id.clone())
        } else {
            None
        }
    }

    /// Who wrote the text.
    pub fn wechat_id(&self) -> (r: String)
        ensures
            r@ == self.deep_view().originator(),
    {
        if str_contains(self.wx_id.as_str(), "chatroom") {
            self.id1.clone()
        } else {
            self.wx_id.clone()
        }
    }
}

/// A text with a room is a text sent to a room: an id that ends with
/// `@chatroom` has `chatroom` in it.  The converse does not hold.
pub proof fn lemma_room_implies_group(m: TextMsgView)
    requires
        m.room() is Some,
    ensures
        m.is_group(),
        m.originator() == m.id1,
{
    reveal_strlit("chatroom");
    reveal_strlit("@chatroom");
    let s = m.wx_id;
    let at = s.len() - 9;
    let tail = s.subrange(at, at + 9);
    assert(tail == "@chatroom"@);
    assert forall|k: int| 0 <= k < 8 implies s.subrange(at + 1, at + 9)[k] == "chatroom"@[k] by {
        assert(s.subrange(at + 1, at + 9)[k] == tail[k + 1]);
    }
    assert(s.subrange(at + 1, at + 1 + 8) =~= "chatroom"@);
    assert(crate::text::occurs_at(s, "chatroom"@, at + 1));
}

} // verus!
