use vstd::prelude::*;
use crate::model::{Device, DetectionMessage};
use crate::registry::{has_id, ConnectionRegistry, Peer};
use crate::router::{Delivery, Outbound};

verus! {

/// The notification topic for the hub's own status.
pub const STATUS_TOPIC: &'static str = "Alert-Net-Status";

/// A detection in area `a` is notified on the topic this prefix followed by `a`.
pub const AREA_TOPIC_PREFIX: &'static str = "Alert-Net-";

// The wording of the notifications: titles, and the labels in their bodies.
pub const AREA_TITLE_PREFIX: &'static str = "Bereich ";

pub const DEVICE_LABEL: &'static str = "Gerät: ";

pub const SOURCE_LABEL: &'static str = ", Auslöser: ";

pub const AREA_LABEL: &'static str = "Bereich: ";

pub const ADDRESS_LABEL: &'static str = ", Adresse: ";

pub const OPENED_TITLE: &'static str = "Verbindung gestartet";

pub const CLOSED_TITLE: &'static str = "Verbindung geschlossen";

pub const STARTUP_TITLE: &'static str = "Alert Net server";

pub const STARTUP_BODY: &'static str = "Alert Net server gestartet";

/// A side effect to be carried out, in order, by the single command consumer.
#[derive(Debug)]
pub enum Command {
    /// Persist a device whose external identifier the hub minted, and reply
    /// to the connection `origin` with the stored form.
    RegisterDevice { device: Device, origin: u64 },
    /// Persist a detection and notify about it.
    RecordDetection { event: DetectionMessage },
    /// A connection with this topic and address was opened.
    ConnectionOpened { topic: String, address: String },
    /// A connection with this topic and address was closed.
    ConnectionClosed { topic: String, address: String },
}

/// How urgently a notification is pushed.
#[derive(Debug, Clone, Copy, PartialEq, Eq, Structural)]
pub enum Priority {
    Default,
    High,
}

/// A push notification.
#[derive(Debug)]
pub struct Notification {
    pub topic: String,
    pub title: String,
    pub body: String,
    pub priority: Priority,
}

/// What a notification is, for contracts.
pub ghost struct Notice {
    pub topic: Seq<char>,
    pub title: Seq<char>,
    pub body: Seq<char>,
    pub priority: Priority,
}

impl View for Notification {
    type V = Notice;

    open spec fn view(&self) -> Notice {
        Notice {
            topic: self.topic@,
            title: self.title@,
            body: self.body@,
            priority: self.priority,
        }
    }
}

/// What is handed to the store.
#[derive(Debug)]
pub enum Persist {
    Device(Device),
    Detection(DetectionMessage),
}

/// What the consumer does for one command: what it stores, what it notifies,
/// and to which connection it replies with the stored form. The notification
/// is fixed before the store is called, so it goes out whatever the store does.
#[derive(Debug)]
pub struct Plan {
    pub persist: Option<Persist>,
    pub notify: Option<Notification>,
    pub reply_to: Option<u64>,
}

/// The notice of a detection: on the topic of its area, titled with the area,
/// naming the device and the trigger.
pub open spec fn detection_notice(event: DetectionMessage) -> Notice {
    Notice {
        topic: AREA_TOPIC_PREFIX@ + event.device.area@,
        title: AREA_TITLE_PREFIX@ + event.device.area@,
        body: DEVICE_LABEL@ + event.device.description@ + SOURCE_LABEL@ + event.source@,
        priority: Priority::Default,
    }
}

/// The status notice for a connection that opened or closed.
pub open spec fn status_notice(
    title: Seq<char>,
    topic: Seq<char>,
    address: Seq<char>,
    priority: Priority,
) -> Notice {
    Notice {
        topic: STATUS_TOPIC@,
        title,
        body: AREA_LABEL@ + topic + ADDRESS_LABEL@ + address,
        priority,
    }
}

/// The notice a command causes, if any.
pub open spec fn notice_of(cmd: Command) -> Option<Notice> {
    match cmd {
        Command::RegisterDevice { .. } => None,
        Command::RecordDetection { event } => Some(detection_notice(event)),
        Command::ConnectionOpened { topic, address } => Some(
            status_notice(OPENED_TITLE@, topic@, address@, Priority::Default),
        ),
        Command::ConnectionClosed { topic, address } => Some(
            status_notice(CLOSED_TITLE@, topic@, address@, Priority::High),
        ),
    }
}

/// What a command hands to the store, if anything.
pub open spec fn persisted_by(cmd: Command) -> Option<Persist> {
    match cmd {
        Command::RegisterDevice { device, .. } => Some(Persist::Device(device)),
        Command::RecordDetection { event } => Some(Persist::Detection(event)),
        _ => None,
    }
}

/// The connection a command replies to once the store has answered, if any.
pub open spec fn reply_target(cmd: Command) -> Option<u64> {
    match cmd {
        Command::RegisterDevice { origin, .. } => Some(origin),
        _ => None,
    }
}

/// The notice an optional notification carries.
pub open spec fn notice_view(n: Option<Notification>) -> Option<Notice> {
    match n {
        Some(n) => Some(n@),
        None => None,
    }
}

fn joined(a: &str, b: &String) -> (r: String)
    ensures
        r@ == a@ + b@,
{
    String::from_str(a).concat(b.as_str())
}

/// The notification for a detection.
pub fn detection_notification(event: &DetectionMessage) -> (r: Notification)
    ensures
        r@ == detection_notice(*event),
{
    let topic = joined(AREA_TOPIC_PREFIX, &event.device.area);
    let title = joined(AREA_TITLE_PREFIX, &event.device.area);
    let body = joined(DEVICE_LABEL, &event.device.description).concat(SOURCE_LABEL).concat(
        event.source.as_str(),
    );
    Notification { topic, title, body, priority: Priority::Default }
}

fn status_notification(title: &str, topic: &String, address: &String, priority: Priority) -> (r:
    Notification)
    ensures
        r@ == status_notice(title@, topic@, address@, priority),
{
    let body = joined(AREA_LABEL, topic).concat(ADDRESS_LABEL).concat(address.as_str());
    Notification {
        topic: String::from_str(STATUS_TOPIC),
        title: String::from_str(title),
        body,
        priority,
    }
}

/// The notification that announces the hub has started.
pub fn startup_notification() -> (r: Notification)
    ensures
        r@ == (Notice {
            topic: STATUS_TOPIC@,
            title: STARTUP_TITLE@,
            body: STARTUP_BODY@,
            priority: Priority::Default,
        }),
{
    Notification {
        topic: String::from_str(STATUS_TOPIC),
        title: String::from_str(STARTUP_TITLE),
        body: String::from_str(STARTUP_BODY),
        priority: Priority::Default,
    }
}

/// What the consumer does for `cmd`: a registration is stored and answered to
/// its connection; a detection is stored and notified on its area's topic; an
/// opened or closed connection is notified on the status topic.
pub fn plan(cmd: Command) -> (r: Plan)
    ensures
        r.persist == persisted_by(cmd),
        notice_view(r.notify) == notice_of(cmd),
        r.reply_to == reply_target(cmd),
{
    match cmd {
        Command::RegisterDevice { device, origin } => Plan {
            persist: Some(Persist::Device(device)),
            notify: None,
            reply_to: Some(origin),
        },
        Command::RecordDetection { event } => {
            let notify = detection_notification(&event);
            Plan { persist: Some(Persist::Detection(event)), notify: Some(notify), reply_to: None }
        },
        Command::ConnectionOpened { topic, address } => Plan {
            persist: None,
            notify: Some(status_notification(OPENED_TITLE, &topic, &address, Priority::Default)),
            reply_to: None,
        },
        Command::ConnectionClosed { topic, address } => Plan {
            persist: None,
            notify: Some(status_notification(CLOSED_TITLE, &topic, &address, Priority::High)),
            reply_to: None,
        },
    }
}

/// Whether the stored form of a registration reaches its connection: only
/// when the store succeeded and the connection is still registered.
pub open spec fn reply_delivered(peers: Seq<Peer>, origin: u64, stored: Option<Device>) -> bool {
    stored is Some && has_id(peers, origin)
}

/// The reply to a registration from `origin` once the store has answered with
/// `stored` (`None` where it failed): the stored device, to `origin` alone, if
/// that connection is still registered; nothing otherwise.
pub fn registration_reply<C>(
    registry: &ConnectionRegistry<C>,
    origin: u64,
    stored: Option<Device>,
) -> (r: Option<Delivery>)
    ensures
        r is Some <==> reply_delivered(registry@, origin, stored),
        r is Some ==> r->Some_0.to == origin && stored is Some && r->Some_0.payload
            == Outbound::Device(stored->Some_0),
{
    match stored {
        Some(device) => if registry.contains(origin) {
            Some(Delivery { to: origin, payload: Outbound::Device(device) })
        } else {
            None
        },
        None => None,
    }
}

/// A registration whose connection has closed before the store answered is
/// still handed to the store, and its reply is dropped, whatever the store did.
pub proof fn lemma_registration_outlives_origin(
    device: Device,
    origin: u64,
    peers: Seq<Peer>,
    stored: Option<Device>,
)
    requires
        !has_id(peers, origin),
    ensures
        persisted_by(Command::RegisterDevice { device, origin }) == Some(Persist::Device(device)),
        !reply_delivered(peers, origin, stored),
{
}

/// A detection causes exactly one notification, fixed before the store is
/// called and so the same whether storing succeeds or fails; its topic and its
/// title name the detection's area.
pub proof fn lemma_detection_notified_once(event: DetectionMessage)
    ensures
        notice_of(Command::RecordDetection { event }) == Some(detection_notice(event)),
        detection_notice(event).topic == AREA_TOPIC_PREFIX@ + event.device.area@,
        detection_notice(event).title == AREA_TITLE_PREFIX@ + event.device.area@,
        persisted_by(Command::RecordDetection { event }) == Some(Persist::Detection(event)),
{
}

} // verus!
