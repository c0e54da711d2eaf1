use majsoul_max_rs::modder::{modify_fallback, ModifyError, ModifyResult};
use majsoul_max_rs::frame::{
    frame_header, message_id, BaseMessage, FrameError, MessageKind, ParsedMessage, HEADER_LEN,
};

#[test]
fn parses_response_and_notification_headers() {
    let (kind, len) = frame_header(&[3, 0xff, 0xff], false).unwrap();
    assert_eq!(kind, MessageKind::Response(u16::MAX));
    assert_eq!(len, HEADER_LEN);
    let (kind, len) = frame_header(&[1], false).unwrap();
    assert_eq!(kind, MessageKind::Notify);
    assert_eq!(len, 1);
}

#[test]
fn rejects_truncated_malformed_and_wrong_direction_frames() {
    for wire in [vec![], vec![2], vec![2, 0], vec![3], vec![3, 0], vec![4]] {
        for from_client in [false, true] {
            assert!(frame_header(&wire, from_client).is_err());
        }
    }
    assert!(frame_header(&[2, 0, 0], false).is_err());
    assert!(frame_header(&[3, 0, 0], true).is_err());
    let named = BaseMessage { method_name: "x".to_owned(), data: vec![] };
    assert!(ParsedMessage::assemble(MessageKind::Response(0), Ok(named)).is_err());
    assert!(ParsedMessage::assemble(MessageKind::Request(0), Err(FrameError::MalformedEnvelope))
        .is_err());
}

#[test]
fn truncated_frames_do_not_panic() {
    for raw in [vec![], vec![0x03], vec![0x02, 0x00]] {
        let handled: Result<ModifyResult, ModifyError> = match frame_header(&raw, true) {
            Ok(_) => panic!("a short frame has no complete header"),
            Err(e) => Err(ModifyError::Frame(e)),
        };
        let out = modify_fallback(raw.clone(), handled);
        assert_eq!(out.msg.as_deref(), Some(&raw[..]), "短帧应原样放行");
        assert!(out.inject_msg.is_none());
    }
}

#[test]
fn a_handled_frame_keeps_its_outcome() {
    let dropped = modify_fallback(vec![2, 0, 0], Ok(ModifyResult { msg: None, inject_msg: None }));
    assert!(dropped.msg.is_none());
    let injected = modify_fallback(
        vec![2, 0, 0],
        Ok(ModifyResult { msg: Some(vec![9]), inject_msg: Some(vec![1]) }),
    );
    assert_eq!(injected.msg, Some(vec![9]));
    assert_eq!(injected.inject_msg, Some(vec![1]));
}

#[test]
fn each_refused_header_names_its_reason() {
    assert_eq!(frame_header(&[], true), Err(FrameError::Empty));
    assert_eq!(frame_header(&[9, 1, 2], true), Err(FrameError::InvalidType(9)));
    assert_eq!(frame_header(&[2, 1, 2], false), Err(FrameError::RequestFromServer));
    assert_eq!(frame_header(&[3, 1, 2], true), Err(FrameError::ResponseFromClient));
    assert_eq!(frame_header(&[2, 1], true), Err(FrameError::Truncated));
}

#[test]
fn message_ids_are_little_endian() {
    assert_eq!(message_id(&[2, 7, 0]), Ok(7));
    assert_eq!(message_id(&[2, 0x34, 0x12, 0xff]), Ok(0x1234));
    assert_eq!(message_id(&[2, 7]), Err(FrameError::Truncated));
    assert_eq!(frame_header(&[2, 7, 0], true), Ok((MessageKind::Request(7), 3)));
}

#[test]
fn a_request_keeps_its_envelope() {
    let envelope = BaseMessage { method_name: ".lq.Lobby.login".to_owned(), data: vec![1, 2] };
    let parsed = ParsedMessage::assemble(MessageKind::Request(7), Ok(envelope)).unwrap();
    assert_eq!(parsed.kind, MessageKind::Request(7));
    assert_eq!(parsed.envelope.method_name, ".lq.Lobby.login");
    assert_eq!(parsed.envelope.data, vec![1, 2]);
    let unnamed = BaseMessage { method_name: String::new(), data: vec![3] };
    let parsed = ParsedMessage::assemble(MessageKind::Response(7), Ok(unnamed)).unwrap();
    assert_eq!(parsed.envelope.data, vec![3]);
    let named = BaseMessage { method_name: "y".to_owned(), data: vec![] };
    assert_eq!(
        ParsedMessage::assemble(MessageKind::Response(1), Ok(named)).err(),
        Some(FrameError::NamedResponse)
    );
}

#[test]
fn request_payload_shares_the_original_frame() {
    // The payload is carried through unchanged; whether it shares the
    // frame's memory is a matter of the decoding buffer, not of this rule.
    let payload = vec![0x5a; 4096];
    let envelope = BaseMessage { method_name: ".lq.Lobby.login".into(), data: payload.clone() };
    let (kind, len) = frame_header(&[2, 7, 0], true).unwrap();
    assert_eq!(len, 3);
    let parsed = ParsedMessage::assemble(kind, Ok(envelope)).unwrap();
    assert_eq!(parsed.kind, MessageKind::Request(7));
    assert_eq!(parsed.envelope.method_name, ".lq.Lobby.login");
    assert_eq!(parsed.envelope.data, payload);
}
