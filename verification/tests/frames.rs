use aa_proxy::frame::{
    kind_matches, parse_header, read_message, send_message, FrameError, Header, MessageId, HEADER_LEN,
};
use aa_proxy::config::WifiConfig;
use aa_proxy::handshake::{
    send_params, AccessPointType, ExchangeEvent, ExchangePhase, ExchangeStep, Outgoing, SecurityMode,
};

#[test]
fn packet_has_length_kind_and_body() {
    let p = send_message(MessageId::WifiInfoResponse, &vec![0xaa, 0xbb, 0xcc]);
    assert_eq!(p, vec![0, 3, 0, 3, 0xaa, 0xbb, 0xcc]);
}

#[test]
fn empty_packet_is_a_header() {
    assert_eq!(send_message(MessageId::WifiInfoRequest, &vec![]), vec![0, 0, 0, 2]);
}

#[test]
fn length_has_its_high_byte_first() {
    let p = send_message(MessageId::WifiStartRequest, &vec![7; 300]);
    assert_eq!(&p[..4], &[1, 44, 0, 1]);
    assert_eq!(p.len(), 304);
}

#[test]
fn length_keeps_its_low_sixteen_bits() {
    let p = send_message(MessageId::WifiStartRequest, &vec![0; 65537]);
    assert_eq!(&p[..4], &[0, 1, 0, 1]);
    assert_eq!(p.len(), 65541);
}

#[test]
fn packet_reads_back() {
    let body = vec![8, 0];
    let p = send_message(MessageId::WifiConnectStatus, &body);
    let header = parse_header(&[p[0], p[1], p[2], p[3]]);
    assert_eq!(header, Header { len: 2, message_id: 6 });
    assert_eq!(p[HEADER_LEN..].to_vec(), body);
    assert_eq!(read_message(MessageId::WifiConnectStatus, &header, &body), Ok(6));
}

#[test]
fn codes_of_messages_count_from_one() {
    let ids = [
        MessageId::WifiStartRequest,
        MessageId::WifiInfoRequest,
        MessageId::WifiInfoResponse,
        MessageId::WifiVersionRequest,
        MessageId::WifiVersionResponse,
        MessageId::WifiConnectStatus,
        MessageId::WifiStartResponse,
    ];
    for (i, id) in ids.iter().enumerate() {
        assert_eq!(id.code() as usize, i + 1);
    }
}

#[test]
fn phone_that_cannot_join_ends_the_handshake() {
    let body = vec![0x08, 0xfd, 0xff, 0xff, 0xff, 0xff, 0xff, 0xff, 0xff, 0xff, 0x01];
    let header = Header { len: 11, message_id: 6 };
    assert_eq!(
        read_message(MessageId::WifiConnectStatus, &header, &body),
        Err(FrameError::PhoneCannotConnect)
    );
}

#[test]
fn only_a_connection_status_can_fail() {
    let body = vec![8, 1];
    let header = Header { len: 2, message_id: 7 };
    assert_eq!(read_message(MessageId::WifiStartResponse, &header, &body), Ok(6));
    assert_eq!(
        read_message(MessageId::WifiConnectStatus, &header, &body),
        Err(FrameError::PhoneCannotConnect)
    );
}

#[test]
fn short_status_passes() {
    let header = Header { len: 1, message_id: 6 };
    assert_eq!(read_message(MessageId::WifiConnectStatus, &header, &vec![9]), Ok(5));
    let header = Header { len: 0, message_id: 6 };
    assert_eq!(read_message(MessageId::WifiConnectStatus, &header, &vec![]), Ok(4));
}

#[test]
fn kind_of_a_header_is_compared() {
    let header = parse_header(&[0, 0, 0, 2]);
    assert!(kind_matches(MessageId::WifiInfoRequest, &header));
    assert!(!kind_matches(MessageId::WifiStartResponse, &header));
    let header = parse_header(&[0, 0, 1, 2]);
    assert_eq!(header.message_id, 258);
    assert!(!kind_matches(MessageId::WifiInfoRequest, &header));
}

fn wifi() -> WifiConfig {
    WifiConfig {
        ip_addr: "10.0.0.1".to_string(),
        port: 5288,
        ssid: "net".to_string(),
        bssid: "00:11:22:33:44:55".to_string(),
        wpa_key: "secret".to_string(),
    }
}

fn received(kind: u16, body: &[u8]) -> ExchangeEvent {
    ExchangeEvent::Received(Header { len: body.len(), message_id: kind }, body.to_vec())
}

#[test]
fn exchange_has_five_stages() {
    let wifi = wifi();
    let mut phase = ExchangePhase::New;
    match send_params(&wifi, &mut phase, ExchangeEvent::Begin) {
        ExchangeStep::Send { stage, id, message: Outgoing::WifiStart { ip_address, port } } => {
            assert_eq!((stage, id), (1, MessageId::WifiStartRequest));
            assert_eq!((ip_address.as_str(), port), ("10.0.0.1", 5288));
        }
        other => panic!("{:?}", other),
    }
    assert!(matches!(
        send_params(&wifi, &mut phase, ExchangeEvent::Sent),
        ExchangeStep::Receive { stage: 2, id: MessageId::WifiInfoRequest }
    ));
    match send_params(&wifi, &mut phase, received(2, &[])) {
        ExchangeStep::Send {
            stage,
            id,
            message: Outgoing::WifiInfo { ssid, key, bssid, security_mode, access_point_type },
        } => {
            assert_eq!((stage, id), (3, MessageId::WifiInfoResponse));
            assert_eq!(ssid, "net");
            assert_eq!(key, "secret");
            assert_eq!(bssid, "00:11:22:33:44:55");
            assert_eq!(security_mode, SecurityMode::Wpa2Personal);
            assert_eq!(access_point_type, AccessPointType::Dynamic);
        }
        other => panic!("{:?}", other),
    }
    assert!(matches!(
        send_params(&wifi, &mut phase, ExchangeEvent::Sent),
        ExchangeStep::Receive { stage: 4, id: MessageId::WifiStartResponse }
    ));
    assert!(matches!(
        send_params(&wifi, &mut phase, received(7, &[8, 1])),
        ExchangeStep::Receive { stage: 5, id: MessageId::WifiConnectStatus }
    ));
    assert!(matches!(send_params(&wifi, &mut phase, received(6, &[8, 0])), ExchangeStep::Finished));
    assert_eq!(phase, ExchangePhase::Over);
}

#[test]
fn missing_first_reply_keeps_the_key_from_being_sent() {
    let wifi = wifi();
    let mut phase = ExchangePhase::New;
    send_params(&wifi, &mut phase, ExchangeEvent::Begin);
    send_params(&wifi, &mut phase, ExchangeEvent::Sent);
    assert!(matches!(send_params(&wifi, &mut phase, ExchangeEvent::Failed), ExchangeStep::Failed));
    assert_eq!(phase, ExchangePhase::Over);
}

#[test]
fn first_failure_ends_the_exchange_at_every_stage() {
    for stages in 1..6 {
        let wifi = wifi();
        let mut phase = ExchangePhase::New;
        send_params(&wifi, &mut phase, ExchangeEvent::Begin);
        for stage in 1..stages {
            let event = if stage == 1 || stage == 3 { ExchangeEvent::Sent } else { received(0, &[]) };
            send_params(&wifi, &mut phase, event);
        }
        assert!(matches!(send_params(&wifi, &mut phase, ExchangeEvent::Failed), ExchangeStep::Failed));
        assert_eq!(phase, ExchangePhase::Over);
    }
}

#[test]
fn phone_that_cannot_join_ends_the_exchange() {
    let mut phase = ExchangePhase::AwaitingStatus;
    match send_params(&wifi(), &mut phase, received(6, &[8, 0xfd])) {
        ExchangeStep::Refused(e) => assert_eq!(e.message(), "phone cannot connect to our WiFi AP..."),
        other => panic!("{:?}", other),
    }
}
