use rainmaker::httpd::{endpoint_from_url, endpoint_path, http_callback, HttpConfiguration, TransportHttpd};
use rainmaker::local_ctrl::{
    get_version_info, LocalCtrlConfig, LocalCtrlScheme, LocalCtrlService, CONTROL_ENDPOINT,
    SESSION_ENDPOINT, VERSION_ENDPOINT,
};
use rainmaker::protocomm::{Protocomm, ProtocommError};
use rainmaker::security::{
    CipherOp, HandshakeState, ProtocommSecurity, SecurityError, SecuritySession, STEP_KEY_EXCHANGE,
    STEP_PROOF,
};

type Handler = fn(String, Vec<u8>) -> Vec<u8>;

fn reverse(_ep: String, mut data: Vec<u8>) -> Vec<u8> {
    data.reverse();
    data
}

fn echo(_ep: String, data: Vec<u8>) -> Vec<u8> {
    data
}

fn name_of(ep: String, _data: Vec<u8>) -> Vec<u8> {
    ep.into_bytes()
}

fn clear(_op: CipherOp, d: Vec<u8>) -> Option<Vec<u8>> {
    Some(d)
}

fn xor_cipher(_op: CipherOp, d: Vec<u8>) -> Option<Vec<u8>> {
    Some(d.into_iter().map(|b| b ^ 0x5a).collect())
}

fn refusing_cipher(_op: CipherOp, _d: Vec<u8>) -> Option<Vec<u8>> {
    None
}

fn pop_service(secret: Option<Vec<u8>>) -> Protocomm<Handler> {
    let mut pc: Protocomm<Handler> = Protocomm::new(ProtocommSecurity::ProofOfPossession(secret));
    pc.set_security_endpoint("session").unwrap();
    pc.set_version_endpoint("version", b"v1".to_vec()).unwrap();
    pc.register_endpoint("echo", echo as Handler).unwrap();
    pc
}

#[test]
fn hello_endpoint_reverses_request() {
    let mut pc: Protocomm<Handler> = Protocomm::new(ProtocommSecurity::NoSecurity);
    pc.register_endpoint("hello", reverse as Handler).unwrap();
    assert_eq!(pc.dispatch("hello", vec![1, 2, 3], &clear), vec![3, 2, 1]);
}

#[test]
fn callback_receives_endpoint_name() {
    let mut pc: Protocomm<Handler> = Protocomm::new(ProtocommSecurity::NoSecurity);
    pc.register_endpoint("who", name_of as Handler).unwrap();
    assert_eq!(pc.dispatch("who", vec![], &clear), b"who".to_vec());
}

#[test]
fn unregistered_endpoint_gets_empty_response() {
    let mut pc: Protocomm<Handler> = Protocomm::new(ProtocommSecurity::NoSecurity);
    pc.register_endpoint("hello", reverse as Handler).unwrap();
    assert_eq!(pc.dispatch("nobody", vec![9, 9], &clear), Vec::<u8>::new());
    assert_eq!(pc.dispatch("hello", vec![1, 2], &clear), vec![2, 1]);
}

#[test]
fn duplicate_registration_is_refused_and_first_stays() {
    let mut pc: Protocomm<Handler> = Protocomm::new(ProtocommSecurity::NoSecurity);
    assert_eq!(pc.register_endpoint("ep", reverse as Handler), Ok(()));
    assert_eq!(pc.register_endpoint("ep", echo as Handler), Err(ProtocommError::DuplicateEndpoint));
    assert_eq!(pc.dispatch("ep", vec![1, 2, 3], &clear), vec![3, 2, 1]);
}

#[test]
fn builtin_endpoint_names_are_reserved() {
    let mut pc: Protocomm<Handler> = Protocomm::new(ProtocommSecurity::NoSecurity);
    pc.set_security_endpoint("session").unwrap();
    assert_eq!(pc.set_version_endpoint("session", vec![]), Err(ProtocommError::DuplicateEndpoint));
    assert_eq!(pc.register_endpoint("session", echo as Handler), Err(ProtocommError::DuplicateEndpoint));
    assert_eq!(pc.set_security_endpoint("other"), Err(ProtocommError::RoleAlreadySet));
    pc.set_version_endpoint("version", vec![1]).unwrap();
    assert_eq!(pc.set_version_endpoint("v2", vec![2]), Err(ProtocommError::RoleAlreadySet));
}

#[test]
fn pop_handshake_then_sealed_traffic() {
    let mut pc = pop_service(Some(b"abcd".to_vec()));
    // before the handshake, application traffic is refused
    assert_eq!(pc.dispatch("echo", vec![1, 2], &xor_cipher), Vec::<u8>::new());
    assert_eq!(pc.dispatch("session", vec![STEP_KEY_EXCHANGE, 7, 7], &xor_cipher), vec![STEP_KEY_EXCHANGE]);
    let mut proof = vec![STEP_PROOF];
    proof.extend_from_slice(b"abcd");
    assert_eq!(pc.dispatch("session", proof, &xor_cipher), vec![STEP_PROOF]);
    assert_eq!(pc.session.state, HandshakeState::Established);
    // echo opens then seals: xor twice gives back the request
    assert_eq!(pc.dispatch("echo", vec![1, 2], &xor_cipher), vec![1, 2]);
}

#[test]
fn clear_channel_endpoints_skip_the_cipher() {
    let mut pc = pop_service(None);
    pc.dispatch("session", vec![STEP_KEY_EXCHANGE], &xor_cipher);
    pc.dispatch("session", vec![STEP_PROOF], &xor_cipher);
    assert_eq!(pc.session.state, HandshakeState::Established);
    // the version endpoint answers in the clear even with a session up
    assert_eq!(pc.dispatch("version", vec![0xff], &xor_cipher), b"v1".to_vec());
    // a handshake message is not transformed either: a fresh key exchange
    // is out of order and answered with the empty response
    assert_eq!(pc.dispatch("session", vec![STEP_KEY_EXCHANGE], &refusing_cipher), Vec::<u8>::new());
    assert_eq!(pc.session.state, HandshakeState::AwaitingKeyExchange);
}

#[test]
fn cipher_refusal_gives_empty_response() {
    let mut pc = pop_service(None);
    pc.dispatch("session", vec![STEP_KEY_EXCHANGE], &clear);
    pc.dispatch("session", vec![STEP_PROOF], &clear);
    assert_eq!(pc.dispatch("echo", vec![5], &refusing_cipher), Vec::<u8>::new());
}

#[test]
fn handshake_errors() {
    let mut s = SecuritySession::new(ProtocommSecurity::ProofOfPossession(Some(b"pw".to_vec())));
    assert_eq!(s.establish(&vec![]), Err(SecurityError::MalformedMessage));
    assert_eq!(s.establish(&vec![STEP_PROOF, b'p', b'w']), Err(SecurityError::OutOfOrderStep));
    assert_eq!(s.establish(&vec![STEP_KEY_EXCHANGE]), Ok(vec![STEP_KEY_EXCHANGE]));
    assert_eq!(s.establish(&vec![STEP_KEY_EXCHANGE]), Err(SecurityError::OutOfOrderStep));
    assert_eq!(s.state, HandshakeState::AwaitingKeyExchange);
    assert_eq!(s.establish(&vec![STEP_KEY_EXCHANGE]), Ok(vec![STEP_KEY_EXCHANGE]));
    assert_eq!(s.establish(&vec![STEP_PROOF, b'n', b'o']), Err(SecurityError::ProofMismatch));
    assert_eq!(s.state, HandshakeState::AwaitingKeyExchange);
    assert_eq!(s.encrypt(vec![1], &clear), Err(SecurityError::HandshakeIncomplete));
    assert_eq!(s.decrypt(vec![1], &clear), Err(SecurityError::HandshakeIncomplete));
    s.establish(&vec![STEP_KEY_EXCHANGE]).unwrap();
    assert_eq!(s.establish(&vec![STEP_PROOF, b'p', b'w']), Ok(vec![STEP_PROOF]));
    assert!(s.is_established());
    assert_eq!(s.decrypt(vec![1], &refusing_cipher), Err(SecurityError::AuthenticationFailed));
}

#[test]
fn no_security_roundtrip() {
    let mut s = SecuritySession::new(ProtocommSecurity::NoSecurity);
    assert_eq!(s.establish(&vec![1, 2, 3]), Ok(vec![]));
    assert!(s.is_established());
    for x in [vec![], vec![0u8], vec![1, 2, 3, 255]] {
        let sealed = s.encrypt(x.clone(), &refusing_cipher).unwrap();
        assert_eq!(sealed, x);
        assert_eq!(s.decrypt(sealed, &refusing_cipher).unwrap(), x);
    }
}

#[test]
fn http_paths() {
    assert_eq!(endpoint_path("esp_local_ctrl/control"), "/esp_local_ctrl/control");
    assert_eq!(endpoint_from_url("/esp_local_ctrl/control"), Some("esp_local_ctrl/control".to_string()));
    assert_eq!(endpoint_from_url("/"), Some(String::new()));
    assert_eq!(endpoint_from_url(""), None);
    assert_eq!(endpoint_from_url("x/y"), None);
    let mut t = TransportHttpd::new(HttpConfiguration { port: 8080 });
    assert_eq!(t.add_endpoint("a"), "/a");
    assert_eq!(t.add_endpoint("b"), "/b");
    assert_eq!(t.paths, vec!["/a".to_string(), "/b".to_string()]);
    assert_eq!(t.config.port, 8080);
}

#[test]
fn http_request_reaches_endpoint() {
    let mut pc: Protocomm<Handler> = Protocomm::new(ProtocommSecurity::NoSecurity);
    pc.register_endpoint("hello", reverse as Handler).unwrap();
    assert_eq!(http_callback(&mut pc, "/hello", vec![1, 2, 3], &clear), vec![3, 2, 1]);
    assert_eq!(http_callback(&mut pc, "hello", vec![1, 2, 3], &clear), Vec::<u8>::new());
    assert_eq!(http_callback(&mut pc, "/missing", vec![1], &clear), Vec::<u8>::new());
}

#[test]
fn version_info_text() {
    assert_eq!(
        get_version_info(&ProtocommSecurity::NoSecurity),
        r#"{"local_ctrl":{"cap":["wifi_scan","no_sec"],"sec_ver":0,"ver":"v1.1"}}"#
    );
    assert_eq!(
        get_version_info(&ProtocommSecurity::ProofOfPossession(None)),
        r#"{"local_ctrl":{"cap":["wifi_scan","no_pop"],"sec_ver":1,"ver":"v1.1"}}"#
    );
    assert_eq!(
        get_version_info(&ProtocommSecurity::ProofOfPossession(Some(b"s".to_vec()))),
        r#"{"local_ctrl":{"cap":["wifi_scan"],"sec_ver":1,"ver":"v1.1"}}"#
    );
    let parsed: serde_json::Value =
        serde_json::from_str(&get_version_info(&ProtocommSecurity::NoSecurity)).unwrap();
    assert_eq!(parsed["local_ctrl"]["sec_ver"], serde_json::Value::from(0));
}

#[test]
fn local_ctrl_service_endpoints() {
    let config = LocalCtrlConfig {
        device_name: "dev".to_string(),
        scheme: LocalCtrlScheme::default(),
        security: ProtocommSecurity::NoSecurity,
    };
    let mut svc = LocalCtrlService::new(config, reverse as Handler);
    assert_eq!(
        svc.protocom.dispatch(VERSION_ENDPOINT, vec![], &clear),
        br#"{"local_ctrl":{"cap":["wifi_scan","no_sec"],"sec_ver":0,"ver":"v1.1"}}"#.to_vec()
    );
    assert_eq!(svc.protocom.dispatch(SESSION_ENDPOINT, vec![0], &clear), Vec::<u8>::new());
    assert_eq!(svc.protocom.dispatch(CONTROL_ENDPOINT, vec![4, 5], &clear), vec![5, 4]);
    assert_eq!(
        svc.transport.paths,
        vec![
            "/esp_local_ctrl/session".to_string(),
            "/esp_local_ctrl/version".to_string(),
            "/esp_local_ctrl/control".to_string()
        ]
    );
    assert_eq!(svc.transport.config.port, 8080);
    let d = LocalCtrlConfig::default();
    assert_eq!(d.scheme, LocalCtrlScheme::SoftAP);
    assert!(matches!(d.security, ProtocommSecurity::NoSecurity));
}
