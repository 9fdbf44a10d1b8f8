use crate::error::ProtocolError;
use crate::error::ProtocolErrorView;
use crate::json::Json;
use crate::proto::decode;
use crate::proto::decode_nested;
use crate::proto::envelope;
use crate::proto::nested_content;
use crate::proto::reply_content;
use crate::proto::ContactInfo;
use crate::proto::DataSend;
use crate::proto::DataType;
use crate::proto::Fields;
use crate::proto::FieldsView;
use crate::proto::PersonInfo;
use crate::proto::RoomInfo;
use crate::proto::RoomMemberInfo;
use crate::text::contains;
use crate::text::str_contains;
use vstd::prelude::*;

verus! {

/// Where on the host each request is posted.
pub const GET_PERSONAL_INFO_URI: &'static str = "api/get_personal_info";

pub const GET_ROOM_INFO_URI: &'static str = "api/getmemberid";

pub const GET_CONTACT_LIST_URI: &'static str = "api/getcontactlist";

pub const GET_MEMBER_NICKNAME_URI: &'static str = "api/getmembernick";

pub const SEND_AT_MSG_URI: &'static str = "api/sendatmsg";

pub const SEND_PIC_URI: &'static str = "api/sendpic";

pub const GET_CHATROOM_MEMBER_LIST_URI: &'static str = "api/get_charroom_member_list";

pub const SEND_TXT_MSG_URI: &'static str = "api/sendtxtmsg";

pub const SEND_ATTACH_URI: &'static str = "api/sendattatch";

/// The marker that the host puts in its reply to a text it has sent on.
/// The spelling is the host's.
pub open spec fn success_marker() -> Seq<char> {
    "succsessed"@
}

/// The content that asks for the rooms and their members.
pub open spec fn list_member_content() -> Seq<char> {
    "op:list member"@
}

/// The request for the record of the account itself.
pub fn get_personal_info_request() -> (r: DataSend)
    ensures
        r@.id.len() >= 21,
        r@ == envelope(r@.id, DataType::PersonalInfo, FieldsView::none()),
{
    DataSend::build(DataType::PersonalInfo, Fields::none())
}

/// Reads the reply to `get_personal_info_request`: the record is written
/// as JSON inside the string that the envelope carries.
pub fn get_personal_info_reply(text: &str) -> (r: Result<PersonInfo, ProtocolError>)
    ensures
        match r {
            Ok(info) => nested_content::<PersonInfo>(text@) == Ok::<_, ProtocolErrorView>(
                info.deep_view(),
            ),
            Err(e) => nested_content::<PersonInfo>(text@) == Err::<
                <PersonInfo as DeepView>::V,
                _,
            >(e@),
        },
{
    decode_nested::<PersonInfo>(text)
}

/// The request for the rooms and their members.
pub fn get_room_info_request() -> (r: DataSend)
    ensures
        r@.id.len() >= 21,
        r@ == envelope(
            r@.id,
            DataType::ChatroomMember,
            FieldsView { content: Some(list_member_content()), ..FieldsView::none() },
        ),
{
    DataSend::build(
        DataType::ChatroomMember,
        Fields {
            roomid: None,
            wxid: None,
            content: Some("op:list member".to_owned()),
            nickname: None,
            ext: None,
        },
    )
}

/// Reads the reply to `get_room_info_request`: a list of rooms.
pub fn get_room_info_reply(text: &str) -> (r: Result<Vec<RoomInfo>, ProtocolError>)
    ensures
        match r {
            Ok(rooms) => reply_content::<Vec<RoomInfo>>(text@) == Some(rooms.deep_view()),
            Err(e) => reply_content::<Vec<RoomInfo>>(text@) is None && e@ == ProtocolErrorView::Decode(
                text@,
            ),
        },
{
    decode::<Vec<RoomInfo>>(text)
}

/// The request for the contact list.
pub fn get_contact_list_request() -> (r: DataSend)
    ensures
        r@.id.len() >= 21,
        r@ == envelope(r@.id, DataType::UserList, FieldsView::none()),
{
    DataSend::build(DataType::UserList, Fields::none())
}

/// Reads the reply to `get_contact_list_request`: a list of contacts.
pub fn get_contact_list_reply(text: &str) -> (r: Result<Vec<ContactInfo>, ProtocolError>)
    ensures
        match r {
            Ok(contacts) => reply_content::<Vec<ContactInfo>>(text@) == Some(contacts.deep_view()),
            Err(e) => reply_content::<Vec<ContactInfo>>(text@) is None && e@
                == ProtocolErrorView::Decode(text@),
        },
{
    decode::<Vec<ContactInfo>>(text)
}

/// The request for the name that a member goes by in a room.
pub fn get_member_nickname_request(wxid: String, roomid: String) -> (r: DataSend)
    ensures
        r@.id.len() >= 21,
        r@ == envelope(
            r@.id,
            DataType::ChatroomMemberNick,
            FieldsView { wxid: Some(wxid@), roomid: Some(roomid@), ..FieldsView::none() },
        ),
{
    DataSend::build(
        DataType::ChatroomMemberNick,
        Fields { roomid: Some(roomid), wxid: Some(wxid), content: None, nickname: None, ext: None },
    )
}

/// The name that a reply to `get_member_nickname_request` gives: the `nick`
/// of the member record inside the envelope's string, or the error that
/// says which layer did not fit.
pub open spec fn nickname_of_reply(text: Seq<char>) -> Result<Seq<char>, ProtocolErrorView> {
    match nested_content::<RoomMemberInfo>(text) {
        Ok(info) => Ok(info.nick),
        Err(e) => Err(e),
    }
}

/// Reads the reply to `get_member_nickname_request`.
pub fn get_member_nickname_reply(text: &str) -> (r: Result<String, ProtocolError>)
    ensures
        match r {
            Ok(nick) => nickname_of_reply(text@) == Ok::<_, ProtocolErrorView>(nick@),
            Err(e) => nickname_of_reply(text@) == Err::<Seq<char>, _>(e@),
        },
{
    match decode_nested::<RoomMemberInfo>(text) {
        Ok(info) => Ok(info.nick),
        Err(e) => Err(e),
    }
}

/// The request that sends a text to a room and mentions a member in it.
pub fn send_at_msg_request(roomid: String, wxid: String, content: String, nickname: String) -> (r:
    DataSend)
    ensures
        r@.id.len() >= 21,
        r@ == envelope(
            r@.id,
            DataType::AtMsg,
            FieldsView {
                roomid: Some(roomid@),
                wxid: Some(wxid@),
                content: Some(content@),
                nickname: Some(nickname@),
                ext: None,
            },
        ),
{
    DataSend::build(
        DataType::AtMsg,
        Fields {
            roomid: Some(roomid),
            wxid: Some(wxid),
            content: Some(content),
            nickname: Some(nickname),
            ext: None,
        },
    )
}

/// The request that sends the picture at a path on the host's machine.
pub fn send_pic_request(to_wxid: String, path: String) -> (r: DataSend)
    ensures
        r@.id.len() >= 21,
        r@ == envelope(
            r@.id,
            DataType::PicMsg,
            FieldsView { wxid: Some(to_wxid@), content: Some(path@), ..FieldsView::none() },
        ),
{
    DataSend::build(
        DataType::PicMsg,
        Fields { roomid: None, wxid: Some(to_wxid), content: Some(path), nickname: None, ext: None },
    )
}

/// The request for the members of every room.
pub fn get_chatroom_member_list_request() -> (r: DataSend)
    ensures
        r@.id.len() >= 21,
        r@ == envelope(r@.id, DataType::ChatroomMember, FieldsView::none()),
{
    DataSend::build(DataType::ChatroomMember, Fields::none())
}

/// Reads the reply to `get_chatroom_member_list_request`: a list of rooms.
pub fn get_chatroom_member_list_reply(text: &str) -> (r: Result<Vec<RoomInfo>, ProtocolError>)
    ensures
        match r {
            Ok(rooms) => reply_content::<Vec<RoomInfo>>(text@) == Some(rooms.deep_view()),
            Err(e) => reply_content::<Vec<RoomInfo>>(text@) is None && e@ == ProtocolErrorView::Decode(
                text@,
            ),
        },
{
    decode::<Vec<RoomInfo>>(text)
}

/// The request that sends a text to a contact or a room.
pub fn send_txt_msg_request(to_id: String, content: String) -> (r: DataSend)
    ensures
        r@.id.len() >= 21,
        r@ == envelope(
            r@.id,
            DataType::TxtMsg,
            FieldsView { wxid: Some(to_id@), content: Some(content@), ..FieldsView::none() },
        ),
{
    DataSend::build(
        DataType::TxtMsg,
        Fields { roomid: None, wxid: Some(to_id), content: Some(content), nickname: None, ext: None },
    )
}

/// Whether the host's answer to a text send reports success: it does
/// exactly when it holds the success marker.  A failure carries the whole
/// answer.
pub fn check_sent(answer: String) -> (r: Result<(), ProtocolError>)
    ensures
        match r {
            Ok(_) => contains(answer@, success_marker()),
            Err(e) => !contains(answer@, success_marker()) && e@ == ProtocolErrorView::OperationFailed(
                answer@,
            ),
        },
{
    if str_contains(answer.as_str(), "succsessed") {
        Ok(())
    } else {
        Err(ProtocolError::OperationFailed(answer))
    }
}

/// What a reply to `send_txt_msg_request` means: the envelope has to carry
/// a string, and the string has to hold the success marker.
pub open spec fn sent_of_reply(text: Seq<char>) -> Result<(), ProtocolErrorView> {
    match reply_content::<String>(text) {
        None => Err(ProtocolErrorView::Decode(text)),
        Some(answer) => if contains(answer, success_marker()) {
            Ok(())
        } else {
            Err(ProtocolErrorView::OperationFailed(answer))
        },
    }
}

/// Reads the reply to `send_txt_msg_request`.
pub fn send_txt_msg_reply(text: &str) -> (r: Result<(), ProtocolError>)
    ensures
        match r {
            Ok(_) => sent_of_reply(text@) == Ok::<(), ProtocolErrorView>(()),
            Err(e) => sent_of_reply(text@) == Err::<(), _>(e@),
        },
{
    match decode::<String>(text) {
        Ok(answer) => check_sent(answer),
        Err(e) => Err(e),
    }
}

/// The request that sends the file at a path on the host's machine.
pub fn send_attach_request(wxid: String, path: String) -> (r: DataSend)
    ensures
        r@.id.len() >= 21,
        r@ == envelope(
            r@.id,
            DataType::AttachFile,
            FieldsView { wxid: Some(wxid@), content: Some(path@), ..FieldsView::none() },
        ),
{
    DataSend::build(
        DataType::AttachFile,
        Fields { roomid: None, wxid: Some(wxid), content: Some(path), nickname: None, ext: None },
    )
}

/// Reads a reply whose payload this library does not look into, as the
/// replies to `send_at_msg_request`, `send_pic_request` and
/// `send_attach_request` are: the payload is whatever document the envelope
/// carries.
pub fn opaque_reply(text: &str) -> (r: Result<Json, ProtocolError>)
    ensures
        match r {
            Ok(payload) => reply_content::<Json>(text@) == Some(payload@),
            Err(e) => reply_content::<Json>(text@) is None && e@ == ProtocolErrorView::Decode(text@),
        },
{
    decode::<Json>(text)
}

} // verus!
