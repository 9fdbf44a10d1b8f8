use crate::decode::field;
use crate::decode::read_field;
use crate::decode::FromJson;
use crate::error::ProtocolError;
use crate::error::ProtocolErrorView;
use crate::json::backend::json_parse;
use crate::json::backend::json_text;
use crate::json::entries_view;
use crate::json::member;
use crate::json::renderable;
use crate::json::Json;
use crate::json::JsonValue;
use vstd::prelude::*;

verus! {

/// The operations and event kinds of the protocol.  Each has a number of its
/// own, which is what travels on the wire.
#[derive(Clone, Copy, Debug, PartialEq, Eq, Structural)]
pub enum DataType {
    RecvTxtMsg,
    RecvPicMsg,
    TxtMsg,
    PicMsg,
    AtMsg,
    GetUserListSuccess,
    GetUserListFail,
    UserList,
    HeartBeat,
    DebugSwitch,
    PersonalDetail,
    ChatroomMember,
    ChatroomMemberNick,
    PersonalInfo,
    AttachFile,
}

impl View for DataType {
    type V = DataType;

    open spec fn view(&self) -> DataType {
        *self
    }
}

impl DeepView for DataType {
    type V = DataType;

    open spec fn deep_view(&self) -> DataType {
        *self
    }
}

impl DataType {
    /// The number that stands for the operation on the wire.
    pub open spec fn wire_tag(self) -> u32 {
        match self {
            DataType::RecvTxtMsg => 1,
            DataType::RecvPicMsg => 3,
            DataType::TxtMsg => 555,
            DataType::PicMsg => 500,
            DataType::AtMsg => 550,
            DataType::GetUserListSuccess => 5001,
            DataType::GetUserListFail => 5002,
            DataType::UserList => 5000,
            DataType::HeartBeat => 5005,
            DataType::DebugSwitch => 6000,
            DataType::PersonalDetail => 6550,
            DataType::ChatroomMember => 5010,
            DataType::ChatroomMemberNick => 5020,
            DataType::PersonalInfo => 6500,
            DataType::AttachFile => 5003,
        }
    }

    /// The operation that a number stands for, if it stands for one.
    pub open spec fn with_tag(n: int) -> Option<DataType> {
        if n == 1 {
            Some(DataType::RecvTxtMsg)
        } else if n == 3 {
            Some(DataType::RecvPicMsg)
        } else if n == 555 {
            Some(DataType::TxtMsg)
        } else if n == 500 {
            Some(DataType::PicMsg)
        } else if n == 550 {
            Some(DataType::AtMsg)
        } else if n == 5001 {
            Some(DataType::GetUserListSuccess)
        } else if n == 5002 {
            Some(DataType::GetUserListFail)
        } else if n == 5000 {
            Some(DataType::UserList)
        } else if n == 5005 {
            Some(DataType::HeartBeat)
        } else if n == 6000 {
            Some(DataType::DebugSwitch)
        } else if n == 6550 {
            Some(DataType::PersonalDetail)
        } else if n == 5010 {
            Some(DataType::ChatroomMember)
        } else if n == 5020 {
            Some(DataType::ChatroomMemberNick)
        } else if n == 6500 {
            Some(DataType::PersonalInfo)
        } else if n == 5003 {
            Some(DataType::AttachFile)
        } else {
            None
        }
    }

    /// The number that stands for the operation on the wire.
    pub fn tag(&self) -> (r: u32)
        ensures
            r == self.wire_tag(),
    {
        match self {
            DataType::RecvTxtMsg => 1,
            DataType::RecvPicMsg => 3,
            DataType::TxtMsg => 555,
            DataType::PicMsg => 500,
            DataType::AtMsg => 550,
            DataType::GetUserListSuccess => 5001,
            DataType::GetUserListFail => 5002,
            DataType::UserList => 5000,
            DataType::HeartBeat => 5005,
            DataType::DebugSwitch => 6000,
            DataType::PersonalDetail => 6550,
            DataType::ChatroomMember => 5010,
            DataType::ChatroomMemberNick => 5020,
            DataType::PersonalInfo => 6500,
            DataType::AttachFile => 5003,
        }
    }

    /// The operation that a number stands for, if it stands for one.
    pub fn from_tag(n: u32) -> (r: Option<DataType>)
        ensures
            r == Self::with_tag(n as int),
    {
        match n {
            1 => Some(DataType::RecvTxtMsg),
            3 => Some(DataType::RecvPicMsg),
            555 => Some(DataType::TxtMsg),
            500 => Some(DataType::PicMsg),
            550 => Some(DataType::AtMsg),
            5001 => Some(DataType::GetUserListSuccess),
            5002 => Some(DataType::GetUserListFail),
            5000 => Some(DataType::UserList),
            5005 => Some(DataType::HeartBeat),
            6000 => Some(DataType::DebugSwitch),
            6550 => Some(DataType::PersonalDetail),
            5010 => Some(DataType::ChatroomMember),
            5020 => Some(DataType::ChatroomMemberNick),
            6500 => Some(DataType::PersonalInfo),
            5003 => Some(DataType::AttachFile),
            _ => None,
        }
    }

    /// The operation is found again from its number, and no two operations
    /// share a number.
    pub proof fn lemma_tag_round_trip(t: DataType)
        ensures
            Self::with_tag(t.wire_tag() as int) == Some(t),
    {
    }

    /// A number stands for at most the operation that has it as its tag.
    pub proof fn lemma_tag_exact(n: int, t: DataType)
        requires
            Self::with_tag(n) == Some(t),
        ensures
            t.wire_tag() == n,
    {
    }
}

impl FromJson for DataType {
    /// An operation is read from the integer that is its tag.
    open spec fn decoded(doc: JsonValue) -> Option<DataType> {
        match doc {
            JsonValue::Integer(n) => DataType::with_tag(n),
            _ => None,
        }
    }

    fn from_json(doc: &Json) -> (r: Option<DataType>)
        ensures
            r == DataType::decoded(doc@),
    {
        match u32::from_json(doc) {
            Some(n) => DataType::from_tag(n),
            None => None,
        }
    }
}

/// The text that stands in a request for a field that the operation does
/// not use.  The wire format wants every field present.
pub open spec fn sentinel() -> Seq<char> {
    "null"@
}

/// The request fields that an operation may supply.  One that is left out
/// goes on the wire as the sentinel.
#[derive(Clone, Debug, PartialEq, Eq)]
pub struct Fields {
    pub roomid: Option<String>,
    pub wxid: Option<String>,
    pub content: Option<String>,
    pub nickname: Option<String>,
    pub ext: Option<String>,
}

/// The request fields as mathematical values.
pub struct FieldsView {
    pub roomid: Option<Seq<char>>,
    pub wxid: Option<Seq<char>>,
    pub content: Option<Seq<char>>,
    pub nickname: Option<Seq<char>>,
    pub ext: Option<Seq<char>>,
}

impl View for Fields {
    type V = FieldsView;

    open spec fn view(&self) -> FieldsView {
        FieldsView {
            roomid: self.roomid.deep_view(),
            wxid: self.wxid.deep_view(),
            content: self.content.deep_view(),
            nickname: self.nickname.deep_view(),
            ext: self.ext.deep_view(),
        }
    }
}

impl FieldsView {
    /// No field supplied.
    pub open spec fn none() -> FieldsView {
        FieldsView { roomid: None, wxid: None, content: None, nickname: None, ext: None }
    }
}

impl Fields {
    /// No field supplied.
    pub fn none() -> (r: Fields)
        ensures
            r@ == FieldsView::none(),
    {
        Fields { roomid: None, wxid: None, content: None, nickname: None, ext: None }
    }
}

/// The request envelope: a correlation id, the operation, and five text
/// fields.
#[derive(Clone, Debug, PartialEq, Eq)]
pub struct DataSend {
    pub id: String,
    pub data_type: DataType,
    pub roomid: String,
    pub wxid: String,
    pub content: String,
    pub nickname: String,
    pub ext: String,
}

/// The request envelope as a mathematical value.
pub struct DataSendView {
    pub id: Seq<char>,
    pub data_type: DataType,
    pub roomid: Seq<char>,
    pub wxid: Seq<char>,
    pub content: Seq<char>,
    pub nickname: Seq<char>,
    pub ext: Seq<char>,
}

impl View for DataSend {
    type V = DataSendView;

    open spec fn view(&self) -> DataSendView {
        DataSendView {
            id: self.id@,
            data_type: self.data_type,
            roomid: self.roomid@,
            wxid: self.wxid@,
            content: self.content@,
            nickname: self.nickname@,
            ext: self.ext@,
        }
    }
}

impl DeepView for DataSend {
    type V = DataSendView;

    open spec fn deep_view(&self) -> DataSendView {
        self@
    }
}

/// The text of a field on the wire: what was supplied, or the sentinel.
pub open spec fn or_sentinel(supplied: Option<Seq<char>>) -> Seq<char> {
    match supplied {
        Some(text) => text,
        None => sentinel(),
    }
}

/// The envelope for an operation: the supplied fields as they are, every
/// other field the sentinel.
pub open spec fn envelope(id: Seq<char>, data_type: DataType, fields: FieldsView) -> DataSendView {
    DataSendView {
        id,
        data_type,
        roomid: or_sentinel(fields.roomid),
        wxid: or_sentinel(fields.wxid),
        content: or_sentinel(fields.content),
        nickname: or_sentinel(fields.nickname),
        ext: or_sentinel(fields.ext),
    }
}

/// The object that carries an envelope: one member for each of its parts,
/// the operation as its number under `type`.
pub open spec fn request_document(d: DataSendView) -> JsonValue {
    JsonValue::Object(
        map![
            "id"@ => JsonValue::Text(d.id),
            "type"@ => JsonValue::Integer(d.data_type.wire_tag() as int),
            "roomid"@ => JsonValue::Text(d.roomid),
            "wxid"@ => JsonValue::Text(d.wxid),
            "content"@ => JsonValue::Text(d.content),
            "nickname"@ => JsonValue::Text(d.nickname),
            "ext"@ => JsonValue::Text(d.ext),
        ],
    )
}

/// What goes on the wire for a request: an object whose one member, under
/// `para`, is the envelope.
pub open spec fn wire_document(d: DataSendView) -> JsonValue {
    JsonValue::Object(map!["para"@ => request_document(d)])
}

/// The names of the envelope's members differ from one another.
pub proof fn lemma_member_names_differ()
    ensures
        "id"@ != "type"@,
        "id"@ != "roomid"@,
        "id"@ != "wxid"@,
        "id"@ != "content"@,
        "id"@ != "nickname"@,
        "id"@ != "ext"@,
        "type"@ != "roomid"@,
        "type"@ != "wxid"@,
        "type"@ != "content"@,
        "type"@ != "nickname"@,
        "type"@ != "ext"@,
        "roomid"@ != "wxid"@,
        "roomid"@ != "content"@,
        "roomid"@ != "nickname"@,
        "roomid"@ != "ext"@,
        "wxid"@ != "content"@,
        "wxid"@ != "nickname"@,
        "wxid"@ != "ext"@,
        "content"@ != "nickname"@,
        "content"@ != "ext"@,
        "nickname"@ != "ext"@,
{
    reveal_strlit("id");
    reveal_strlit("type");
    reveal_strlit("roomid");
    reveal_strlit("wxid");
    reveal_strlit("content");
    reveal_strlit("nickname");
    reveal_strlit("ext");
    assert("id"@.len() == 2);
    assert("roomid"@.len() == 6);
    assert("content"@.len() == 7);
    assert("nickname"@.len() == 8);
    assert("ext"@.len() == 3);
    assert("type"@[0] != "wxid"@[0]);
}

/// Reads the clock and writes the local time through `chrono`
/// (`DateTime::<Local>::from` on the system time, then `format`): year,
/// month, day, hour, minute and second without separators, then a dot and
/// the microseconds.  Which text comes out depends on when the call is
/// made.  Whenever that is, the text has at least 21 characters: four or
/// more for the year, two each for month, day, hour, minute and second, the
/// dot, and six for the microseconds.
#[verifier::external_body]
fn get_id() -> (r: String)
    ensures
        r@.len() >= 21,
{
    chrono::DateTime::<chrono::Local>::from(std::time::SystemTime::now())
        .format("%Y%m%d%H%M%S%.6f")
        .to_string()
}

/// The supplied text, or the sentinel.
fn or_null(supplied: Option<String>) -> (r: String)
    ensures
        r@ == or_sentinel(supplied.deep_view()),
{
    match supplied {
        Some(text) => text,
        None => "null".to_owned(),
    }
}

impl DataSend {
    /// The envelope for an operation under a given correlation id.
    pub fn with_id(id: String, data_type: DataType, fields: Fields) -> (r: DataSend)
        ensures
            r@ == envelope(id@, data_type, fields@),
    {
        DataSend {
            id,
            data_type,
            roomid: or_null(fields.roomid),
            wxid: or_null(fields.wxid),
            content: or_null(fields.content),
            nickname: or_null(fields.nickname),
            ext: or_null(fields.ext),
        }
    }

    /// The envelope for an operation, under a correlation id taken from the
    /// clock: a timestamp of at least 21 characters.  Two calls in quick
    /// succession may get the same id.
    pub fn build(data_type: DataType, fields: Fields) -> (r: DataSend)
        ensures
            r@.id.len() >= 21,
            r@ == envelope(r@.id, data_type, fields@),
    {
        Self::with_id(get_id(), data_type, fields)
    }

    /// The envelope as a document.
    pub fn to_json(&self) -> (r: Json)
        ensures
            r@ == request_document(self@),
    {
        let mut entries: Vec<(String, Json)> = Vec::new();
        proof {
            lemma_member_names_differ();
            assert(entries_view(entries@) =~= Seq::empty());
        }
        Json::add_member(&mut entries, "id", Json::Text(self.id.clone()));
        Json::add_member(&mut entries, "type", Json::Unsigned(self.data_type.tag() as u64));
        Json::add_member(&mut entries, "roomid", Json::Text(self.roomid.clone()));
        Json::add_member(&mut entries, "wxid", Json::Text(self.wxid.clone()));
        Json::add_member(&mut entries, "content", Json::Text(self.content.clone()));
        Json::add_member(&mut entries, "nickname", Json::Text(self.nickname.clone()));
        Json::add_member(&mut entries, "ext", Json::Text(self.ext.clone()));
        Json::Object(entries)
    }
}

impl DataSend {
    /// The text that goes on the wire for the request: the envelope inside
    /// its wrapper object, written as compact JSON.
    pub fn encode(&self) -> (r: String)
        ensures
            r@ == json_text(wire_document(self@)),
    {
        let mut outer: Vec<(String, Json)> = Vec::new();
        proof {
            assert(entries_view(outer@) =~= Seq::empty());
        }
        Json::add_member(&mut outer, "para", self.to_json());
        let doc = Json::Object(outer);
        proof {
            lemma_wire_renderable(self@);
        }
        doc.render().unwrap()
    }
}

/// Every request can be written as text: it holds texts and one integer.
pub proof fn lemma_wire_renderable(d: DataSendView)
    ensures
        renderable(wire_document(d)),
{
    reveal_with_fuel(renderable, 3);
    lemma_member_names_differ();
    assert(renderable(request_document(d)));
}

impl FromJson for DataSend {
    /// An envelope is read from an object that has all seven members, the
    /// texts as strings and the operation as a known number under `type`.
    open spec fn decoded(doc: JsonValue) -> Option<DataSendView> {
        let id = field::<String>(doc, "id"@);
        let data_type = field::<DataType>(doc, "type"@);
        let roomid = field::<String>(doc, "roomid"@);
        let wxid = field::<String>(doc, "wxid"@);
        let content = field::<String>(doc, "content"@);
        let nickname = field::<String>(doc, "nickname"@);
        let ext = field::<String>(doc, "ext"@);
        if id is Some && data_type is Some && roomid is Some && wxid is Some && content is Some
            && nickname is Some && ext is Some {
            Some(
                DataSendView {
                    id: id.unwrap(),
                    data_type: data_type.unwrap(),
                    roomid: roomid.unwrap(),
                    wxid: wxid.unwrap(),
                    content: content.unwrap(),
                    nickname: nickname.unwrap(),
                    ext: ext.unwrap(),
                },
            )
        } else {
            None
        }
    }

    fn from_json(doc: &Json) -> (r: Option<DataSend>) {
        let id = read_field::<String>(doc, "id")?;
        let data_type = read_field::<DataType>(doc, "type")?;
        let roomid = read_field::<String>(doc, "roomid")?;
        let wxid = read_field::<String>(doc, "wxid")?;
        let content = read_field::<String>(doc, "content")?;
        let nickname = read_field::<String>(doc, "nickname")?;
        let ext = read_field::<String>(doc, "ext")?;
        Some(DataSend { id, data_type, roomid, wxid, content, nickname, ext })
    }
}

/// Unwrapping what goes on the wire gives the envelope back: the member
/// under `para` of the wire document is the envelope's document, and that
/// document is read as the envelope itself, with the same operation and the
/// same text in every field.
pub proof fn lemma_request_round_trip(d: DataSendView)
    ensures
        member(wire_document(d), "para"@) == Some(request_document(d)),
        DataSend::decoded(request_document(d)) == Some(d),
{
    lemma_member_names_differ();
    DataType::lemma_tag_round_trip(d.data_type);
}

/// Whatever the operation and the fields supplied, the envelope that is
/// built goes on the wire and comes back with that operation, with each
/// supplied field as given and each other field equal to the sentinel.
pub proof fn lemma_build_round_trip(id: Seq<char>, data_type: DataType, fields: FieldsView)
    ensures
        ({
            let sent = envelope(id, data_type, fields);
            let back = DataSend::decoded(member(wire_document(sent), "para"@).unwrap());
            &&& back == Some(sent)
            &&& sent.id == id
            &&& sent.data_type == data_type
            &&& sent.roomid == or_sentinel(fields.roomid)
            &&& sent.wxid == or_sentinel(fields.wxid)
            &&& sent.content == or_sentinel(fields.content)
            &&& sent.nickname == or_sentinel(fields.nickname)
            &&& sent.ext == or_sentinel(fields.ext)
        }),
{
    lemma_request_round_trip(envelope(id, data_type, fields));
}

impl Default for DataSend {
    /// The envelope of a text send with no field supplied, under a
    /// correlation id taken from the clock.
    fn default() -> (r: DataSend)
        ensures
            r@.id.len() >= 21,
            r@ == envelope(r@.id, DataType::TxtMsg, FieldsView::none()),
    {
        DataSend::build(DataType::TxtMsg, Fields::none())
    }
}

/// The reply envelope: the payload, the correlation id that the request
/// carried, and the number of the operation.
#[derive(Clone, Debug, PartialEq, Eq)]
pub struct Response<T> {
    pub content: T,
    pub id: String,
    pub data_type: u32,
}

/// The reply envelope as a mathematical value.
pub struct ResponseView<V> {
    pub content: V,
    pub id: Seq<char>,
    pub data_type: u32,
}

impl<T: DeepView> DeepView for Response<T> {
    type V = ResponseView<<T as DeepView>::V>;

    open spec fn deep_view(&self) -> ResponseView<<T as DeepView>::V> {
        ResponseView { content: self.content.deep_view(), id: self.id@, data_type: self.data_type }
    }
}

impl<T: FromJson> FromJson for Response<T> {
    /// A reply envelope is read from an object with a `content` that has
    /// the payload's shape, a string `id` and a `type` that fits 32 bits.
    /// Other members are passed over.
    open spec fn decoded(doc: JsonValue) -> Option<ResponseView<<T as DeepView>::V>> {
        let content = field::<T>(doc, "content"@);
        let id = field::<String>(doc, "id"@);
        let data_type = field::<u32>(doc, "type"@);
        if content is Some && id is Some && data_type is Some {
            Some(
                ResponseView {
                    content: content.unwrap(),
                    id: id.unwrap(),
                    data_type: data_type.unwrap(),
                },
            )
        } else {
            None
        }
    }

    fn from_json(doc: &Json) -> (r: Option<Response<T>>) {
        let content = read_field::<T>(doc, "content")?;
        let id = read_field::<String>(doc, "id")?;
        let data_type = read_field::<u32>(doc, "type")?;
        Some(Response { content, id, data_type })
    }
}

/// The payload that a reply text carries: the text has to be JSON, and the
/// document a reply envelope around a `T`.
pub open spec fn reply_content<T: FromJson>(text: Seq<char>) -> Option<<T as DeepView>::V> {
    match json_parse(text) {
        Some(doc) => match Response::<T>::decoded(doc) {
            Some(reply) => Some(reply.content),
            None => None,
        },
        None => None,
    }
}

/// The record that the text inside a reply denotes: the text has to be JSON,
/// and the document has to have the shape of a `T`.
pub open spec fn inner_content<T: FromJson>(text: Seq<char>) -> Option<<T as DeepView>::V> {
    match json_parse(text) {
        Some(doc) => T::decoded(doc),
        None => None,
    }
}

/// Reads the payload of a reply.  Fails with `Decode`, carrying the reply
/// text, exactly when the text is no reply envelope around a `T`.
pub fn decode<T: FromJson>(text: &str) -> (r: Result<T, ProtocolError>)
    ensures
        match r {
            Ok(content) => reply_content::<T>(text@) == Some(content.deep_view()),
            Err(e) => reply_content::<T>(text@) is None && e@ == ProtocolErrorView::Decode(text@),
        },
{
    let reply = match Json::parse(text) {
        Some(doc) => Response::<T>::from_json(&doc),
        None => None,
    };
    match reply {
        Some(reply) => Ok(reply.content),
        None => Err(ProtocolError::Decode(text.to_owned())),
    }
}

/// Reads a record from the text that a reply carried as its payload.  Fails
/// with `InnerDecode`, carrying that text, exactly when it does not denote
/// a `T`.
pub fn decode_inner<T: FromJson>(inner: &str) -> (r: Result<T, ProtocolError>)
    ensures
        match r {
            Ok(record) => inner_content::<T>(inner@) == Some(record.deep_view()),
            Err(e) => inner_content::<T>(inner@) is None && e@ == ProtocolErrorView::InnerDecode(
                inner@,
            ),
        },
{
    let record = match Json::parse(inner) {
        Some(doc) => T::from_json(&doc),
        None => None,
    };
    match record {
        Some(record) => Ok(record),
        None => Err(ProtocolError::InnerDecode(inner.to_owned())),
    }
}

/// What a reply gives whose payload is a record written as JSON inside a
/// string: the record, or the error that says which layer did not fit.
pub open spec fn nested_content<T: FromJson>(text: Seq<char>) -> Result<
    <T as DeepView>::V,
    ProtocolErrorView,
> {
    match reply_content::<String>(text) {
        None => Err(ProtocolErrorView::Decode(text)),
        Some(inner) => match inner_content::<T>(inner) {
            None => Err(ProtocolErrorView::InnerDecode(inner)),
            Some(record) => Ok(record),
        },
    }
}

/// Reads a record from a reply that carries it as JSON inside a string:
/// first the envelope with a string payload, then the record from that
/// string.
pub fn decode_nested<T: FromJson>(text: &str) -> (r: Result<T, ProtocolError>)
    ensures
        match r {
            Ok(record) => nested_content::<T>(text@) == Ok::<_, ProtocolErrorView>(record.deep_view()),
            Err(e) => nested_content::<T>(text@) == Err::<<T as DeepView>::V, _>(e@),
        },
{
    match decode::<String>(text) {
        Ok(inner) => decode_inner::<T>(inner.as_str()),
        Err(e) => Err(e),
    }
}

/// The account that the host is logged in with.
#[derive(Clone, Debug, Default, PartialEq, Eq)]
pub struct PersonInfo {
    pub wx_code: String,
    pub wx_id: String,
    pub wx_name: String,
}

/// The account record as a mathematical value.
pub struct PersonInfoView {
    pub wx_code: Seq<char>,
    pub wx_id: Seq<char>,
    pub wx_name: Seq<char>,
}

impl DeepView for PersonInfo {
    type V = PersonInfoView;

    open spec fn deep_view(&self) -> PersonInfoView {
        PersonInfoView { wx_code: self.wx_code@, wx_id: self.wx_id@, wx_name: self.wx_name@ }
    }
}

impl FromJson for PersonInfo {
    /// An account record is read from an object with the strings `wx_code`,
    /// `wx_id` and `wx_name`.
    open spec fn decoded(doc: JsonValue) -> Option<PersonInfoView> {
        let wx_code = field::<String>(doc, "wx_code"@);
        let wx_id = field::<String>(doc, "wx_id"@);
        let wx_name = field::<String>(doc, "wx_name"@);
        if wx_code is Some && wx_id is Some && wx_name is Some {
            Some(
                PersonInfoView {
                    wx_code: wx_code.unwrap(),
                    wx_id: wx_id.unwrap(),
                    wx_name: wx_name.unwrap(),
                },
            )
        } else {
            None
        }
    }

    fn from_json(doc: &Json) -> (r: Option<PersonInfo>) {
        let wx_code = read_field::<String>(doc, "wx_code")?;
        let wx_id = read_field::<String>(doc, "wx_id")?;
        let wx_name = read_field::<String>(doc, "wx_name")?;
        Some(PersonInfo { wx_code, wx_id, wx_name })
    }
}

/// The object that carries an account record.
pub open spec fn person_document(p: PersonInfoView) -> JsonValue {
    JsonValue::Object(
        map![
            "wx_code"@ => JsonValue::Text(p.wx_code),
            "wx_id"@ => JsonValue::Text(p.wx_id),
            "wx_name"@ => JsonValue::Text(p.wx_name),
        ],
    )
}

/// The object that carries a reply: the payload under `content`, the
/// correlation id, and the number of the operation under `type`.
pub open spec fn reply_document(content: JsonValue, id: Seq<char>, data_type: u32) -> JsonValue {
    JsonValue::Object(
        map![
            "content"@ => content,
            "id"@ => JsonValue::Text(id),
            "type"@ => JsonValue::Integer(data_type as int),
        ],
    )
}

/// An account record goes through the string layer unchanged.  The
/// record's document is read as the record; and where a reply carries, as
/// a string, a text that denotes the record's document, reading the reply
/// in two steps gives the record.
pub proof fn lemma_person_info_round_trip(
    p: PersonInfoView,
    inner: Seq<char>,
    text: Seq<char>,
    id: Seq<char>,
    data_type: u32,
)
    ensures
        PersonInfo::decoded(person_document(p)) == Some(p),
        reply_content::<String>(text) == Some(inner) && json_parse(inner) == Some(person_document(p))
            ==> nested_content::<PersonInfo>(text) == Ok::<_, ProtocolErrorView>(p),
        json_parse(text) == Some(reply_document(JsonValue::Text(inner), id, data_type))
            ==> reply_content::<String>(text) == Some(inner),
{
    reveal_strlit("wx_code");
    reveal_strlit("wx_id");
    reveal_strlit("wx_name");
    reveal_strlit("content");
    reveal_strlit("id");
    reveal_strlit("type");
    assert("wx_id"@.len() == 5);
    assert("wx_code"@[3] != "wx_name"@[3]);
    assert("content"@.len() == 7);
    assert("id"@.len() == 2);
    assert("type"@.len() == 4);
}

/// A chat room and who is in it.
#[derive(Clone, Debug, Default, PartialEq, Eq)]
pub struct RoomInfo {
    pub room_id: String,
    pub members: Vec<String>,
    pub address: u64,
}

/// The room record as a mathematical value.
pub struct RoomInfoView {
    pub room_id: Seq<char>,
    pub members: Seq<Seq<char>>,
    pub address: u64,
}

impl DeepView for RoomInfo {
    type V = RoomInfoView;

    open spec fn deep_view(&self) -> RoomInfoView {
        RoomInfoView {
            room_id: self.room_id@,
            members: self.members.deep_view(),
            address: self.address,
        }
    }
}

impl FromJson for RoomInfo {
    /// A room record is read from an object with a string `room_id`, an
    /// array of strings `member` and an integer `address`.
    open spec fn decoded(doc: JsonValue) -> Option<RoomInfoView> {
        let room_id = field::<String>(doc, "room_id"@);
        let members = field::<Vec<String>>(doc, "member"@);
        let address = field::<u64>(doc, "address"@);
        if room_id is Some && members is Some && address is Some {
            Some(
                RoomInfoView {
                    room_id: room_id.unwrap(),
                    members: members.unwrap(),
                    address: address.unwrap(),
                },
            )
        } else {
            None
        }
    }

    fn from_json(doc: &Json) -> (r: Option<RoomInfo>) {
        let room_id = read_field::<String>(doc, "room_id")?;
        let members = read_field::<Vec<String>>(doc, "member")?;
        let address = read_field::<u64>(doc, "address")?;
        Some(RoomInfo { room_id, members, address })
    }
}

/// An entry of the contact list.
#[derive(Clone, Debug, Default, PartialEq, Eq)]
pub struct ContactInfo {
    pub headimg: String,
    pub name: String,
    pub node: u64,
    pub remarks: String,
    pub wxcode: String,
    pub wxid: String,
}

/// The contact record as a mathematical value.
pub struct ContactInfoView {
    pub headimg: Seq<char>,
    pub name: Seq<char>,
    pub node: u64,
    pub remarks: Seq<char>,
    pub wxcode: Seq<char>,
    pub wxid: Seq<char>,
}

impl DeepView for ContactInfo {
    type V = ContactInfoView;

    open spec fn deep_view(&self) -> ContactInfoView {
        ContactInfoView {
            headimg: self.headimg@,
            name: self.name@,
            node: self.node,
            remarks: self.remarks@,
            wxcode: self.wxcode@,
            wxid: self.wxid@,
        }
    }
}

impl FromJson for ContactInfo {
    /// A contact record is read from an object with the strings `headimg`,
    /// `name`, `remarks`, `wxcode` and `wxid` and an integer `node`.
    open spec fn decoded(doc: JsonValue) -> Option<ContactInfoView> {
        let headimg = field::<String>(doc, "headimg"@);
        let name = field::<String>(doc, "name"@);
        let node = field::<u64>(doc, "node"@);
        let remarks = field::<String>(doc, "remarks"@);
        let wxcode = field::<String>(doc, "wxcode"@);
        let wxid = field::<String>(doc, "wxid"@);
        if headimg is Some && name is Some && node is Some && remarks is Some && wxcode is Some
            && wxid is Some {
            Some(
                ContactInfoView {
                    headimg: headimg.unwrap(),
                    name: name.unwrap(),
                    node: node.unwrap(),
                    remarks: remarks.unwrap(),
                    wxcode: wxcode.unwrap(),
                    wxid: wxid.unwrap(),
                },
            )
        } else {
            None
        }
    }

    fn from_json(doc: &Json) -> (r: Option<ContactInfo>) {
        let headimg = read_field::<String>(doc, "headimg")?;
        let name = read_field::<String>(doc, "name")?;
        let node = read_field::<u64>(doc, "node")?;
        let remarks = read_field::<String>(doc, "remarks")?;
        let wxcode = read_field::<String>(doc, "wxcode")?;
        let wxid = read_field::<String>(doc, "wxid")?;
        Some(ContactInfo { headimg, name, node, remarks, wxcode, wxid })
    }
}

/// The name that a member goes by in a room.
#[derive(Clone, Debug, Default, PartialEq, Eq)]
pub struct RoomMemberInfo {
    pub nick: String,
    pub roomid: String,
    pub wxid: String,
}

/// The member record as a mathematical value.
pub struct RoomMemberInfoView {
    pub nick: Seq<char>,
    pub roomid: Seq<char>,
    pub wxid: Seq<char>,
}

impl DeepView for RoomMemberInfo {
    type V = RoomMemberInfoView;

    open spec fn deep_view(&self) -> RoomMemberInfoView {
        RoomMemberInfoView { nick: self.nick@, roomid: self.roomid@, wxid: self.wxid@ }
    }
}

impl FromJson for RoomMemberInfo {
    /// A member record is read from an object with the strings `nick`,
    /// `roomid` and `wxid`.
    open spec fn decoded(doc: JsonValue) -> Option<RoomMemberInfoView> {
        let nick = field::<String>(doc, "nick"@);
        let roomid = field::<String>(doc, "roomid"@);
        let wxid = field::<String>(doc, "wxid"@);
        if nick is Some && roomid is Some && wxid is Some {
            Some(
                RoomMemberInfoView {
                    nick: nick.unwrap(),
                    roomid: roomid.unwrap(),
                    wxid: wxid.unwrap(),
                },
            )
        } else {
            None
        }
    }

    fn from_json(doc: &Json) -> (r: Option<RoomMemberInfo>) {
        let nick = read_field::<String>(doc, "nick")?;
        let roomid = read_field::<String>(doc, "roomid")?;
        let wxid = read_field::<String>(doc, "wxid")?;
        Some(RoomMemberInfo { nick, roomid, wxid })
    }
}

} // verus!
