use alert_hub::actor::{plan, registration_reply, startup_notification, Command, Persist, Priority};
use alert_hub::lifecycle::{close_connection, handshake_topic, opened_command};
use alert_hub::model::{Alert, DetectionMessage, Device};
use alert_hub::registry::{Connection, ConnectionRegistry, RegistryError, TopicFilter};
use alert_hub::router::{classify, handle_text, route, Action, Outbound, Routing};

fn conn(id: u64, address: &str, topic: &str) -> Connection {
    Connection { id, address: address.to_string(), topic: topic.to_string() }
}

fn device(uuid: u128) -> Device {
    Device { id: 0, uuid, description: "sensor1".to_string(), area: "kitchen".to_string() }
}

fn detection() -> DetectionMessage {
    DetectionMessage { device: device(7), source: "motion".to_string() }
}

/// Registry holding, in order: 1 kitchen, 2 /ui, 3 all, 4 garage, 5 kitchen.
fn sample_registry() -> ConnectionRegistry<u32> {
    let mut r = ConnectionRegistry::new();
    r.insert(conn(1, "10.0.0.1:5001", "kitchen"), 10).unwrap();
    r.insert(conn(2, "10.0.0.2:5002", "/ui"), 20).unwrap();
    r.insert(conn(3, "10.0.0.3:5003", "all"), 30).unwrap();
    r.insert(conn(4, "10.0.0.4:5004", "garage"), 40).unwrap();
    r.insert(conn(5, "10.0.0.5:5005", "kitchen"), 50).unwrap();
    r
}

fn targets(r: &Routing) -> Vec<u64> {
    r.deliveries.iter().map(|d| d.to).collect()
}

fn alert_targets(r: &Routing) -> Vec<u64> {
    r.deliveries.iter().filter(|d| matches!(d.payload, Outbound::Alert(_))).map(|d| d.to).collect()
}

fn text_targets(r: &Routing, text: &str) -> Vec<u64> {
    r.deliveries
        .iter()
        .filter(|d| matches!(&d.payload, Outbound::Text(t) if t == text))
        .map(|d| d.to)
        .collect()
}

#[test]
fn alert_default_turns_everything_on() {
    let a = Alert::default();
    assert!(a.led);
    assert!(a.speaker);
}

#[test]
fn registry_rejects_duplicate_id() {
    let mut r: ConnectionRegistry<u32> = ConnectionRegistry::new();
    assert_eq!(r.insert(conn(1, "a", "t"), 1), Ok(()));
    assert_eq!(r.insert(conn(1, "b", "u"), 2), Err(RegistryError::DuplicateConnection));
    assert_eq!(r.len(), 1);
    assert_eq!(r.channel_of(1), Some(&1));
}

#[test]
fn registry_remove_is_noop_when_absent() {
    let mut r = sample_registry();
    assert!(!r.remove(99));
    assert_eq!(r.len(), 5);
    assert!(r.remove(3));
    assert_eq!(r.len(), 4);
    assert!(!r.contains(3));
    assert!(r.channel_of(3).is_none());
    assert!(!r.remove(3));
    let ids: Vec<u64> = r.snapshot_matching(&TopicFilter::Everyone).iter().map(|c| c.id).collect();
    assert_eq!(ids, vec![1, 2, 4, 5]);
}

#[test]
fn snapshot_selects_by_topic() {
    let r = sample_registry();
    let kitchen: Vec<u64> =
        r.snapshot_matching(&TopicFilter::Topic("kitchen".to_string())).iter().map(|c| c.id).collect();
    assert_eq!(kitchen, vec![1, 5]);
    let group: Vec<u64> = r
        .snapshot_matching(&TopicFilter::TopicOrWildcard("kitchen".to_string()))
        .iter()
        .map(|c| c.id)
        .collect();
    assert_eq!(group, vec![1, 3, 5]);
    let all = r.snapshot_matching(&TopicFilter::Everyone);
    assert_eq!(all.len(), 5);
    assert_eq!(all[1].address, "10.0.0.2:5002");
    assert_eq!(all[1].topic, "/ui");
}

#[test]
fn snapshot_after_interleaved_changes_matches_current_state() {
    let mut r: ConnectionRegistry<u32> = ConnectionRegistry::new();
    r.insert(conn(1, "a", "x"), 0).unwrap();
    r.insert(conn(2, "b", "x"), 0).unwrap();
    let first: Vec<u64> = r.snapshot_matching(&TopicFilter::Topic("x".to_string())).iter().map(|c| c.id).collect();
    r.remove(1);
    r.insert(conn(3, "c", "x"), 0).unwrap();
    let second: Vec<u64> = r.snapshot_matching(&TopicFilter::Topic("x".to_string())).iter().map(|c| c.id).collect();
    assert_eq!(first, vec![1, 2]);
    assert_eq!(second, vec![2, 3]);
}

#[test]
fn classify_prefers_device_then_detection_then_control() {
    let text = "Get Clients".to_string();
    assert!(matches!(classify(&text, Some(device(1)), Some(detection())), Action::DeviceRegistration(_)));
    assert!(matches!(classify(&text, None, Some(detection())), Action::Detection(_)));
    assert!(matches!(classify(&text, None, None), Action::ClientListRequest));
    match classify(&"hello".to_string(), None, None) {
        Action::RawPassthrough(t) => assert_eq!(t, "hello"),
        other => panic!("unexpected {:?}", other),
    }
    assert!(matches!(classify(&"get clients".to_string(), None, None), Action::RawPassthrough(_)));
}

#[test]
fn detection_alerts_sender_group_and_wildcard() {
    let r = sample_registry();
    let sender = conn(1, "10.0.0.1:5001", "kitchen");
    let text = "{\"device\":{},\"source\":\"motion\"}".to_string();
    let routed = route(&r, &sender, &text, Action::Detection(detection()), 0);
    assert_eq!(alert_targets(&routed), vec![1, 3, 5]);
    assert_eq!(text_targets(&routed, &text), vec![2]);
    assert_eq!(targets(&routed), vec![2, 1, 3, 5]);
    for d in &routed.deliveries {
        if let Outbound::Alert(a) = d.payload {
            assert_eq!(a, Alert { led: true, speaker: true });
        }
    }
    match routed.command {
        Some(Command::RecordDetection { event }) => {
            assert_eq!(event.source, "motion");
            assert_eq!(event.device.area, "kitchen");
        }
        other => panic!("unexpected {:?}", other),
    }
}

#[test]
fn every_text_reaches_observers_verbatim() {
    let r = sample_registry();
    let sender = conn(4, "10.0.0.4:5004", "garage");
    for (action, text) in [
        (Action::RawPassthrough("plain words".to_string()), "plain words"),
        (Action::ClientListRequest, "Get Clients"),
        (Action::DeviceRegistration(device(1)), "{\"id\":0}"),
        (Action::Detection(detection()), "{\"device\":1}"),
    ] {
        let text = text.to_string();
        let routed = route(&r, &sender, &text, action, 5);
        assert_eq!(text_targets(&routed, &text), vec![2]);
    }
}

#[test]
fn raw_text_only_goes_to_observers() {
    let r = sample_registry();
    let sender = conn(1, "10.0.0.1:5001", "kitchen");
    let text = "hello".to_string();
    let routed = route(&r, &sender, &text, Action::RawPassthrough(text.clone()), 0);
    assert_eq!(targets(&routed), vec![2]);
    assert!(routed.command.is_none());
}

#[test]
fn client_list_goes_to_requester_only() {
    let r = sample_registry();
    let sender = conn(2, "10.0.0.2:5002", "/ui");
    let text = "Get Clients".to_string();
    let routed = route(&r, &sender, &text, Action::ClientListRequest, 0);
    assert!(routed.command.is_none());
    let lists: Vec<_> = routed
        .deliveries
        .iter()
        .filter_map(|d| match &d.payload {
            Outbound::ClientList(l) => Some((d.to, l)),
            _ => None,
        })
        .collect();
    assert_eq!(lists.len(), 1);
    assert_eq!(lists[0].0, 2);
    let listed: Vec<(String, String)> =
        lists[0].1.iter().map(|e| (e.address.clone(), e.topic.clone())).collect();
    assert_eq!(
        listed,
        vec![
            ("10.0.0.1:5001".to_string(), "kitchen".to_string()),
            ("10.0.0.2:5002".to_string(), "/ui".to_string()),
            ("10.0.0.3:5003".to_string(), "all".to_string()),
            ("10.0.0.4:5004".to_string(), "garage".to_string()),
            ("10.0.0.5:5005".to_string(), "kitchen".to_string()),
        ]
    );
}

#[test]
fn registration_replaces_client_identifier() {
    let r = sample_registry();
    let sender = conn(5, "10.0.0.5:5005", "kitchen");
    let client_supplied: u128 = 0x1234;
    let routed = route(&r, &sender, &"{}".to_string(), Action::DeviceRegistration(device(client_supplied)), 0xabcd);
    match routed.command {
        Some(Command::RegisterDevice { device, origin }) => {
            assert_eq!(origin, 5);
            assert_eq!(device.uuid, 0xabcd);
            assert_eq!(device.description, "sensor1");
            assert_eq!(device.area, "kitchen");
            assert_eq!(device.id, 0);
        }
        other => panic!("unexpected {:?}", other),
    }
}

fn minted(r: &ConnectionRegistry<u32>, sender: &Connection, client_supplied: u128) -> u128 {
    let text = "{\"id\":0,\"uuid\":\"client\",\"name\":\"sensor1\",\"area\":\"kitchen\"}".to_string();
    match handle_text(r, sender, &text, Some(device(client_supplied)), None).command {
        Some(Command::RegisterDevice { device, origin }) => {
            assert_eq!(origin, sender.id);
            device.uuid
        }
        other => panic!("unexpected {:?}", other),
    }
}

#[test]
fn repeated_registration_mints_distinct_identifiers() {
    let r = sample_registry();
    let sender = conn(1, "10.0.0.1:5001", "kitchen");
    let client_supplied: u128 = 0x0123_4567_89ab_cdef_0123_4567_89ab_cdef;
    let first = minted(&r, &sender, client_supplied);
    let second = minted(&r, &sender, client_supplied);
    assert_ne!(first, client_supplied);
    assert_ne!(second, client_supplied);
    assert_ne!(first, second);
    assert_eq!((first >> 76) & 0xf, 4);
    assert_eq!((first >> 62) & 0x3, 2);
}

#[test]
fn handle_text_classifies_before_routing() {
    let r = sample_registry();
    let sender = conn(4, "10.0.0.4:5004", "garage");
    let routed = handle_text(&r, &sender, &"x".to_string(), None, Some(detection()));
    assert_eq!(alert_targets(&routed), vec![3, 4]);
    let routed = handle_text(&r, &sender, &"Get Clients".to_string(), None, None);
    assert_eq!(targets(&routed), vec![2, 4]);
}

#[test]
fn stored_device_is_returned_to_origin() {
    let r = sample_registry();
    let stored = Device { id: 42, uuid: 9, description: "sensor1".to_string(), area: "kitchen".to_string() };
    let reply = registration_reply(&r, 5, Some(stored)).expect("origin is registered");
    assert_eq!(reply.to, 5);
    match reply.payload {
        Outbound::Device(d) => {
            assert_eq!(d.id, 42);
            assert_eq!(d.uuid, 9);
        }
        other => panic!("unexpected {:?}", other),
    }
}

#[test]
fn reply_dropped_when_origin_closed_or_store_failed() {
    let mut r = sample_registry();
    let origin = conn(5, "10.0.0.5:5005", "kitchen");
    let cmd = Command::RegisterDevice { device: device(3), origin: 5 };
    let closed = close_connection(&mut r, &origin);
    assert!(matches!(closed, Command::ConnectionClosed { .. }));
    let p = plan(cmd);
    assert!(matches!(p.persist, Some(Persist::Device(_))));
    assert_eq!(p.reply_to, Some(5));
    assert!(p.notify.is_none());
    let stored = Device { id: 1, uuid: 3, description: "sensor1".to_string(), area: "kitchen".to_string() };
    assert!(registration_reply(&r, 5, Some(stored)).is_none());
    assert!(registration_reply(&r, 1, None).is_none());
}

#[test]
fn detection_notifies_its_area_once() {
    let p = plan(Command::RecordDetection { event: detection() });
    assert!(matches!(p.persist, Some(Persist::Detection(_))));
    assert_eq!(p.reply_to, None);
    let n = p.notify.expect("a detection is notified");
    assert_eq!(n.topic, "Alert-Net-kitchen");
    assert_eq!(n.title, "Bereich kitchen");
    assert_eq!(n.body, "Gerät: sensor1, Auslöser: motion");
    assert_eq!(n.priority, Priority::Default);
}

#[test]
fn connection_status_notifications() {
    let c = conn(1, "10.0.0.1:5001", "/kitchen");
    let opened = plan(opened_command(&c)).notify.expect("opening is notified");
    assert_eq!(opened.topic, "Alert-Net-Status");
    assert_eq!(opened.title, "Verbindung gestartet");
    assert_eq!(opened.body, "Bereich: /kitchen, Adresse: 10.0.0.1:5001");
    assert_eq!(opened.priority, Priority::Default);
    let mut r: ConnectionRegistry<u32> = ConnectionRegistry::new();
    r.insert(c.duplicate(), 0).unwrap();
    let closed = plan(close_connection(&mut r, &c)).notify.expect("closing is notified");
    assert_eq!(r.len(), 0);
    assert_eq!(closed.title, "Verbindung geschlossen");
    assert_eq!(closed.body, "Bereich: /kitchen, Adresse: 10.0.0.1:5001");
    assert_eq!(closed.priority, Priority::High);
}

#[test]
fn startup_is_announced_on_status_topic() {
    let n = startup_notification();
    assert_eq!(n.topic, "Alert-Net-Status");
    assert_eq!(n.title, "Alert Net server");
    assert_eq!(n.body, "Alert Net server gestartet");
}

#[test]
fn handshake_topic_is_target_verbatim() {
    assert_eq!(handshake_topic(&"/kitchen".to_string()), Some("/kitchen".to_string()));
    assert_eq!(handshake_topic(&"".to_string()), None);
}
