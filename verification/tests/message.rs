use wechat_client::decode::FromJson;
use wechat_client::error::ProtocolError;
use wechat_client::json::Json;
use wechat_client::proto::DataType;
use wechat_client::websocket::message::HeartBeat;
use wechat_client::websocket::message::Identity;
use wechat_client::websocket::message::PicDetail;
use wechat_client::websocket::message::PicMsg;
use wechat_client::websocket::message::TextMsg;
use wechat_client::websocket::message::WechatMsg;

fn text_msg(wx_id: &str, id1: &str) -> TextMsg {
    TextMsg {
        content: "ee".to_string(),
        id: "20220629104242".to_string(),
        id1: id1.to_string(),
        id2: "".to_string(),
        id3: "".to_string(),
        srvid: 1,
        time: "2022-06-29 10:42:42".to_string(),
        data_type: DataType::RecvTxtMsg,
        wx_id: wx_id.to_string(),
    }
}

#[test]
fn test_deserde_wechat_msg() {
    let s = r#"{
            "content":"ee",
            "id":"20220629104242",
            "id1":"",
            "id2":"wxid_pu04n556crxe22",
            "id3":"",
            "srvid":1,
            "time":"2022-06-29 10:42:42",
            "type":1,
            "wxid":"wxid_qf0161up823v22"
            }"#;
    let wechat_msg = WechatMsg::resolve(s);
    println!("{:?}", wechat_msg);
    assert!(wechat_msg.is_ok())
}

#[test]
fn a_text_message_is_read_field_by_field() {
    let s = r#"{
            "content":"ee",
            "id":"20220629104242",
            "id1":"",
            "id2":"wxid_pu04n556crxe22",
            "id3":"",
            "srvid":1,
            "time":"2022-06-29 10:42:42",
            "type":1,
            "wxid":"wxid_qf0161up823v22"
            }"#;
    assert_eq!(
        WechatMsg::resolve(s),
        Ok(WechatMsg::TextMsg(TextMsg {
            content: "ee".to_string(),
            id: "20220629104242".to_string(),
            id1: "".to_string(),
            id2: "wxid_pu04n556crxe22".to_string(),
            id3: "".to_string(),
            srvid: 1,
            time: "2022-06-29 10:42:42".to_string(),
            data_type: DataType::RecvTxtMsg,
            wx_id: "wxid_qf0161up823v22".to_string(),
        }))
    );
}

#[test]
fn a_heartbeat_is_read_field_by_field() {
    let s = r#"{"content":"heart beat","id":"20220629104300","receiver":"CLIENT",
        "sender":"SERVER","srvid":1,"status":"SUCCSESSED","time":"2022-06-29 10:43:00","type":5005}"#;
    assert_eq!(
        WechatMsg::resolve(s),
        Ok(WechatMsg::HeartBeat(HeartBeat {
            content: "heart beat".to_string(),
            id: "20220629104300".to_string(),
            receiver: "CLIENT".to_string(),
            sender: "SERVER".to_string(),
            srvid: 1,
            status: "SUCCSESSED".to_string(),
            time: "2022-06-29 10:43:00".to_string(),
            data_type: DataType::HeartBeat,
        }))
    );
}

#[test]
fn a_picture_message_is_read_field_by_field() {
    let s = r#"{"content":{"content":"c","detail":"d:\\pic\\1.dat","id1":"wxid_a","id2":"",
        "thumb":"d:\\pic\\1_t.dat"},"id":"20220629104400","receiver":"CLIENT","sender":"SERVER",
        "srvid":1,"status":"SUCCSESSED","time":"2022-06-29 10:44:00","type":3}"#;
    assert_eq!(
        WechatMsg::resolve(s),
        Ok(WechatMsg::PicMsg(PicMsg {
            content: PicDetail {
                content: "c".to_string(),
                detail: "d:\\pic\\1.dat".to_string(),
                id1: "wxid_a".to_string(),
                id2: "".to_string(),
                thumb: "d:\\pic\\1_t.dat".to_string(),
            },
            id: "20220629104400".to_string(),
            receiver: "CLIENT".to_string(),
            sender: "SERVER".to_string(),
            srvid: 1,
            status: "SUCCSESSED".to_string(),
            time: "2022-06-29 10:44:00".to_string(),
            data_type: DataType::RecvPicMsg,
        }))
    );
}

#[test]
fn a_heartbeat_wins_over_a_text_message() {
    let s = r#"{"content":"both","id":"1","id1":"wxid_a","id2":"","id3":"","receiver":"CLIENT",
        "sender":"SERVER","srvid":9,"status":"ok","time":"t","type":1,"wxid":"12345@chatroom"}"#;
    let doc = Json::parse(s).unwrap();
    assert!(HeartBeat::from_json(&doc).is_some());
    assert!(TextMsg::from_json(&doc).is_some());
    assert_eq!(
        WechatMsg::resolve(s),
        Ok(WechatMsg::HeartBeat(HeartBeat {
            content: "both".to_string(),
            id: "1".to_string(),
            receiver: "CLIENT".to_string(),
            sender: "SERVER".to_string(),
            srvid: 9,
            status: "ok".to_string(),
            time: "t".to_string(),
            data_type: DataType::RecvTxtMsg,
        }))
    );
    assert_eq!(WechatMsg::from_json(&doc), WechatMsg::resolve(s).ok());
}

#[test]
fn a_picture_message_with_a_text_for_content_is_a_heartbeat() {
    let s = r#"{"content":"c","id":"1","receiver":"r","sender":"s","srvid":1,"status":"ok",
        "time":"t","type":3}"#;
    match WechatMsg::resolve(s) {
        Ok(WechatMsg::HeartBeat(m)) => assert_eq!(m.data_type, DataType::RecvPicMsg),
        other => panic!("expected a heartbeat, got {:?}", other),
    }
}

#[test]
fn the_type_may_stand_under_either_name() {
    let s = r#"{"content":"c","id":"1","receiver":"r","sender":"s","srvid":1,"status":"ok",
        "time":"t","data_type":5005}"#;
    match WechatMsg::resolve(s) {
        Ok(WechatMsg::HeartBeat(m)) => assert_eq!(m.data_type, DataType::HeartBeat),
        other => panic!("expected a heartbeat, got {:?}", other),
    }
    let s = r#"{"content":"ee","id":"1","id1":"","id2":"","id3":"","srvid":1,"time":"t",
        "type":1,"wx_id":"wxid_a"}"#;
    match WechatMsg::resolve(s) {
        Ok(WechatMsg::TextMsg(m)) => assert_eq!(m.wx_id, "wxid_a"),
        other => panic!("expected a text message, got {:?}", other),
    }
}

#[test]
fn a_field_under_both_of_its_names_is_refused() {
    let s = r#"{"content":"c","id":"1","receiver":"r","sender":"s","srvid":1,"status":"ok",
        "time":"t","type":5005,"data_type":5005}"#;
    assert_eq!(WechatMsg::resolve(s), Err(ProtocolError::NoVariantMatched(s.to_string())));
    let s = r#"{"content":"ee","id":"1","id1":"","id2":"","id3":"","srvid":1,"time":"t",
        "type":1,"wx_id":"wxid_a","wxid":"wxid_a"}"#;
    assert_eq!(WechatMsg::resolve(s), Err(ProtocolError::NoVariantMatched(s.to_string())));
}

#[test]
fn a_text_that_fits_no_shape_comes_back_in_the_error() {
    let cases = [
        "not-json-at-all",
        "",
        "{}",
        "[]",
        "null",
        r#"{"content":"c","id":"1","receiver":"r","sender":"s","srvid":1,"status":"ok","time":"t"}"#,
        r#"{"content":"c","id":"1","receiver":"r","sender":"s","srvid":1,"status":"ok","time":"t","type":2}"#,
        r#"{"content":"c","id":"1","receiver":"r","sender":"s","srvid":-1,"status":"ok","time":"t","type":1}"#,
        r#"{"content":"c","id":"1","receiver":"r","sender":"s","srvid":1.0,"status":"ok","time":"t","type":1}"#,
        r#"{"content":"c","id":1,"receiver":"r","sender":"s","srvid":1,"status":"ok","time":"t","type":1}"#,
        r#"{"content":"c","id":"1","receiver":null,"sender":"s","srvid":1,"status":"ok","time":"t","type":1}"#,
        r#"{"content":"ee","id":"1","id1":"","id2":"","id3":"","srvid":1,"time":"t","type":1}"#,
        r#"{"content":{"content":"c","detail":"d","id1":"","id2":""},"id":"1","receiver":"r","sender":"s","srvid":1,"status":"ok","time":"t","type":3}"#,
    ];
    for s in cases {
        assert_eq!(WechatMsg::resolve(s), Err(ProtocolError::NoVariantMatched(s.to_string())));
    }
}

#[test]
fn a_text_to_a_room_names_the_room_and_the_writer() {
    let m = text_msg("12345@chatroom", "wxid_abc");
    assert!(m.is_chatroom_msg());
    assert_eq!(m.room_id(), Some("12345@chatroom".to_string()));
    assert_eq!(m.wechat_id(), "wxid_abc");
}

#[test]
fn a_text_to_the_account_names_its_sender() {
    let m = text_msg("wxid_abc", "");
    assert!(!m.is_chatroom_msg());
    assert_eq!(m.room_id(), None);
    assert_eq!(m.wechat_id(), "wxid_abc");
}

#[test]
fn an_id_with_chatroom_inside_is_a_group_without_a_room() {
    let m = text_msg("gh_chatroom_helper", "wxid_writer");
    assert!(m.is_chatroom_msg());
    assert_eq!(m.room_id(), None);
    assert_eq!(m.wechat_id(), "wxid_writer");
}

#[test]
fn the_identity_goes_by_the_exact_literals() {
    let m = text_msg("12345@Chatroom", "wxid_writer");
    assert!(!m.is_chatroom_msg());
    assert_eq!(m.room_id(), None);
    assert_eq!(m.wechat_id(), "12345@Chatroom");
    let m = text_msg("@chatroom", "w");
    assert!(m.is_chatroom_msg());
    assert_eq!(m.room_id(), Some("@chatroom".to_string()));
    assert_eq!(m.wechat_id(), "w");
    let m = text_msg("", "w");
    assert!(!m.is_chatroom_msg());
    assert_eq!(m.room_id(), None);
    assert_eq!(m.wechat_id(), "");
}

#[test]
fn the_identity_is_resolved_in_one_step() {
    assert_eq!(
        text_msg("12345@chatroom", "wxid_abc").resolve_identity(),
        Identity {
            is_group: true,
            room_id: Some("12345@chatroom".to_string()),
            originator_id: "wxid_abc".to_string(),
        }
    );
    assert_eq!(
        text_msg("wxid_abc", "").resolve_identity(),
        Identity { is_group: false, room_id: None, originator_id: "wxid_abc".to_string() }
    );
    assert_eq!(
        text_msg("gh_chatroom_helper", "wxid_writer").resolve_identity(),
        Identity { is_group: true, room_id: None, originator_id: "wxid_writer".to_string() }
    );
}
