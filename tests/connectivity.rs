use rainmaker::error::{RmakerError, RmakerFactoryError, RmakerMqttError};
use rainmaker::factory::{Factory, NvsRead};
use rainmaker::mdns::MdnsService;
use rainmaker::mqtt::{
    ConnectionStatus, MqttAction, MqttEvent, PublishAction, ReplayPlan, RmakerMqtt, SubscribeAction,
};
use rainmaker::say_hello;

fn started() -> RmakerMqtt<&'static str> {
    let mut m: RmakerMqtt<&'static str> = RmakerMqtt::new();
    m.init_rmaker_mqtt(Some(vec![1]), Some(vec![2]), vec![3]).unwrap();
    m.connect(true).unwrap();
    m
}

fn replay(m: &mut RmakerMqtt<&'static str>) -> ReplayPlan {
    match m.on_event(&MqttEvent::Connected) {
        MqttAction::Replay(plan) => plan,
        _ => panic!("a connection must bring a replay"),
    }
}

#[test]
fn offline_publishes_coalesce_per_topic() {
    let mut m = started();
    assert!(matches!(m.publish("t", b"A".to_vec()), Ok(PublishAction::Queued)));
    assert!(matches!(m.publish("t", b"B".to_vec()), Ok(PublishAction::Queued)));
    assert!(matches!(m.publish("u", b"C".to_vec()), Ok(PublishAction::Queued)));
    let plan = replay(&mut m);
    let for_t: Vec<&(String, Vec<u8>)> = plan.publish.iter().filter(|(t, _)| t == "t").collect();
    assert_eq!(for_t.len(), 1);
    assert_eq!(for_t[0].1, b"B".to_vec());
    assert_eq!(plan.publish.len(), 2);
    // delivered entries leave the queue; the rest stays for the next time
    m.mark_published("t");
    m.on_event(&MqttEvent::Disconnected);
    let plan = replay(&mut m);
    assert_eq!(plan.publish, vec![("u".to_string(), b"C".to_vec())]);
}

#[test]
fn publish_while_connected_goes_out_at_once() {
    let mut m = started();
    replay(&mut m);
    match m.publish("t", vec![7]) {
        Ok(PublishAction::SendNow(t, p)) => {
            assert_eq!(t, "t");
            assert_eq!(p, vec![7]);
        }
        _ => panic!("expected a live publish"),
    }
    m.on_event(&MqttEvent::Disconnected);
    assert!(replay(&mut m).publish.is_empty());
}

#[test]
fn subscribe_before_connection_is_replayed_once() {
    let mut m = started();
    assert!(matches!(m.subscribe("status", "cb"), Ok(SubscribeAction::Deferred)));
    let plan = replay(&mut m);
    assert_eq!(plan.subscribe.iter().filter(|t| t.as_str() == "status").count(), 1);
    assert_eq!(plan.subscribe.len(), 1);
    for _ in 0..3 {
        match m.on_event(&MqttEvent::Received("status".to_string())) {
            MqttAction::Deliver(t) => assert_eq!(m.callback_for(&t), Some(&"cb")),
            _ => panic!("the message must reach its callback"),
        }
    }
}

#[test]
fn reconnect_twice_replays_all_topics() {
    let mut m = started();
    m.subscribe("a", "cb_a").unwrap();
    m.subscribe("b", "cb_b").unwrap();
    replay(&mut m);
    for _ in 0..2 {
        assert!(matches!(m.on_event(&MqttEvent::Disconnected), MqttAction::Ignore));
        assert!(!m.is_mqtt_connected());
        let plan = replay(&mut m);
        assert_eq!(plan.subscribe, vec!["a".to_string(), "b".to_string()]);
        assert!(m.is_mqtt_connected());
    }
}

#[test]
fn second_initialization_is_refused_and_changes_nothing() {
    let mut m = started();
    m.subscribe("a", "cb").unwrap();
    m.publish("q", vec![1]).unwrap();
    assert!(matches!(
        m.init_rmaker_mqtt(Some(vec![1]), Some(vec![2]), vec![]),
        Err(RmakerMqttError::AlreadyInitialized)
    ));
    assert_eq!(m.connect(true), Err(RmakerMqttError::AlreadyInitialized));
    assert_eq!(m.status, ConnectionStatus::Connecting);
    assert_eq!(m.callback_for("a"), Some(&"cb"));
    let plan = replay(&mut m);
    assert_eq!(plan.publish, vec![("q".to_string(), vec![1])]);
}

#[test]
fn operations_before_initialization_fail() {
    let mut m: RmakerMqtt<&'static str> = RmakerMqtt::new();
    assert!(!m.is_mqtt_initialized());
    assert!(matches!(m.publish("t", vec![1]), Err(RmakerMqttError::NotInitialized)));
    assert!(matches!(m.subscribe("t", "cb"), Err(RmakerMqttError::NotInitialized)));
    assert!(matches!(m.on_event(&MqttEvent::Connected), MqttAction::Ignore));
    assert_eq!(m.status, ConnectionStatus::Disconnected);
    assert_eq!(m.connect(false), Err(RmakerMqttError::OtherError));
    assert!(!m.is_mqtt_initialized());
}

#[test]
fn missing_credentials_are_reported() {
    let m: RmakerMqtt<&'static str> = RmakerMqtt::new();
    assert!(matches!(
        m.init_rmaker_mqtt(None, Some(vec![2]), vec![]),
        Err(RmakerMqttError::NodeCredentialsNotFound)
    ));
    assert!(matches!(
        m.init_rmaker_mqtt(Some(vec![1]), None, vec![]),
        Err(RmakerMqttError::NodeCredentialsNotFound)
    ));
    let tls = m.init_rmaker_mqtt(Some(vec![1, 2]), Some(vec![3]), vec![4]).unwrap();
    assert_eq!(tls.client_cert, vec![1, 2, 0]);
    assert_eq!(tls.private_key, vec![3, 0]);
    assert_eq!(tls.server_cert, vec![4, 0]);
}

#[test]
fn live_subscribe_and_stale_topics() {
    let mut m = started();
    replay(&mut m);
    match m.subscribe("live", "cb") {
        Ok(SubscribeAction::SubscribeNow(t)) => assert_eq!(t, "live"),
        _ => panic!("expected a live subscribe"),
    }
    assert!(matches!(m.on_event(&MqttEvent::Received("other".to_string())), MqttAction::Ignore));
    assert!(matches!(m.on_event(&MqttEvent::Other), MqttAction::Ignore));
    assert_eq!(m.callback_for("other"), None);
    m.subscribe("live", "cb2").unwrap();
    assert_eq!(m.callback_for("live"), Some(&"cb2"));
}

#[test]
fn factory_reads() {
    let mut f = Factory::new();
    assert_eq!(f.get_client_random(NvsRead::Value(vec![1])), Err(RmakerFactoryError::NotInitialized));
    assert_eq!(f.init(), Ok(()));
    assert_eq!(f.init(), Err(RmakerFactoryError::AlreadyInitialized));
    assert_eq!(f.get_client_random(NvsRead::Value(vec![1, 2])), Ok(vec![1, 2]));
    assert_eq!(f.get_client_cert(NvsRead::NamespaceMissing), Err(RmakerFactoryError::PartitionNotFound));
    assert_eq!(f.get_client_key(NvsRead::NoValue), Err(RmakerFactoryError::ValueReadError));
    assert_eq!(f.get_node_id(NvsRead::Value(b"node-1".to_vec())), Ok("node-1".to_string()));
    assert_eq!(f.get_node_id(NvsRead::Value(vec![0xff, 0xfe])), Err(RmakerFactoryError::ValueReadError));
}

#[test]
fn errors_convert_and_describe() {
    assert_eq!(RmakerError::from(RmakerMqttError::OtherError), RmakerError::Mqtt(RmakerMqttError::OtherError));
    assert_eq!(
        RmakerError::from(RmakerFactoryError::ValueReadError),
        RmakerError::Factory(RmakerFactoryError::ValueReadError)
    );
    assert_eq!(RmakerMqttError::AlreadyInitialized.message(), "already started");
    assert_eq!(RmakerFactoryError::PartitionNotFound.message(), "partition not found");
    assert_eq!(RmakerError::AlreadyInitialized.message(), "already initialized");
}

#[test]
fn mdns_records() {
    let mut m = MdnsService::mdns_init();
    m.mdns_hostname_set("node");
    assert_eq!(m.hostname.as_deref(), Some("node"));
    m.mdns_service_add("inst", "esp_local_ctrl", "tcp", &[("node_id", "n1"), ("port", "8080")]);
    let rec = &m.services[0];
    assert_eq!(rec.instance_name, "inst");
    assert_eq!(rec.service_type, "_esp_local_ctrl");
    assert_eq!(rec.proto, "_tcp");
    assert_eq!(rec.port, 8080);
    assert_eq!(rec.txt, vec![("node_id".to_string(), "n1".to_string()), ("port".to_string(), "8080".to_string())]);
}

#[test]
fn greeting() {
    assert_eq!(say_hello("linux"), "hello from linux");
}
