use wechat_client::error::ProtocolError;
use wechat_client::json::Json;
use wechat_client::proto::DataType;
use wechat_client::websocket::classify_text;
use wechat_client::websocket::message::Message;
use wechat_client::websocket::message::TextMsg;
use wechat_client::websocket::message::WechatMsg;
use wechat_client::websocket::parse_message;
use wechat_client::websocket::Frame;

#[test]
fn the_text_pong_is_a_pong_without_payload() {
    assert_eq!(parse_message(Frame::Text("pong".to_string())), Ok(Message::Pong(vec![])));
}

#[test]
fn only_the_exact_text_is_the_pong_token() {
    for s in ["Pong", "pong ", " pong", "\"pong\"", "pon", "pongpong"] {
        assert_eq!(
            parse_message(Frame::Text(s.to_string())),
            Err(ProtocolError::Classify(s.to_string()))
        );
    }
}

#[test]
fn an_unreadable_text_comes_back_in_the_error() {
    let r = parse_message(Frame::Text("not-json-at-all".to_string()));
    assert_eq!(r, Err(ProtocolError::Classify("not-json-at-all".to_string())));
    assert_eq!(r.unwrap_err().context(), Some(&"not-json-at-all".to_string()));
}

#[test]
fn a_text_frame_with_a_message_is_that_message() {
    let s = r#"{"content":"ee","id":"20220629104242","id1":"","id2":"wxid_pu04n556crxe22",
        "id3":"","srvid":1,"time":"2022-06-29 10:42:42","type":1,"wxid":"wxid_qf0161up823v22"}"#;
    assert_eq!(
        parse_message(Frame::Text(s.to_string())),
        Ok(Message::Msg(WechatMsg::TextMsg(TextMsg {
            content: "ee".to_string(),
            id: "20220629104242".to_string(),
            id1: "".to_string(),
            id2: "wxid_pu04n556crxe22".to_string(),
            id3: "".to_string(),
            srvid: 1,
            time: "2022-06-29 10:42:42".to_string(),
            data_type: DataType::RecvTxtMsg,
            wx_id: "wxid_qf0161up823v22".to_string(),
        })))
    );
}

#[test]
fn json_that_fits_no_shape_comes_back_in_the_error() {
    let s = r#"{"content":"ee"}"#;
    assert_eq!(
        parse_message(Frame::Text(s.to_string())),
        Err(ProtocolError::Classify(s.to_string()))
    );
}

#[test]
fn control_frames_pass_through() {
    assert_eq!(parse_message(Frame::Ping(vec![1, 2, 3])), Ok(Message::Ping(vec![1, 2, 3])));
    assert_eq!(parse_message(Frame::Pong(vec![4, 5])), Ok(Message::Pong(vec![4, 5])));
    assert_eq!(parse_message(Frame::Ping(vec![])), Ok(Message::Ping(vec![])));
    assert_eq!(parse_message(Frame::Close), Ok(Message::Closed));
}

#[test]
fn other_frames_are_not_supported() {
    assert_eq!(parse_message(Frame::Binary(vec![1])), Err(ProtocolError::UnsupportedFrame));
    assert_eq!(parse_message(Frame::Binary(vec![])), Err(ProtocolError::UnsupportedFrame));
    assert_eq!(parse_message(Frame::Raw), Err(ProtocolError::UnsupportedFrame));
}

#[test]
fn classify_text_goes_by_the_document_it_is_given() {
    let doc = Json::parse(
        r#"{"content":"c","id":"1","receiver":"r","sender":"s","srvid":1,"status":"ok","time":"t","type":5005}"#,
    );
    match classify_text("raw".to_string(), doc) {
        Ok(Message::Msg(WechatMsg::HeartBeat(m))) => assert_eq!(m.content, "c"),
        other => panic!("expected a heartbeat, got {:?}", other),
    }
    assert_eq!(
        classify_text("raw".to_string(), None),
        Err(ProtocolError::Classify("raw".to_string()))
    );
    assert_eq!(
        classify_text("raw".to_string(), Some(Json::Null)),
        Err(ProtocolError::Classify("raw".to_string()))
    );
}
