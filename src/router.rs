use vstd::prelude::*;
use crate::actor::Command;
use crate::model::{Alert, Device, DetectionMessage};
use crate::registry::{
    ids_unique, Connection, ConnectionRegistry, Peer, TopicFilter, OBSERVER_TOPIC,
    WILDCARD_TOPIC,
};

verus! {

/// The control text by which a dashboard asks for the list of connections.
pub const CLIENT_LIST_REQUEST: &'static str = "Get Clients";

/// What an inbound text asks of the hub.
#[derive(Debug)]
pub enum Action {
    /// Register this device.
    DeviceRegistration(Device),
    /// Record this detection and alert the sender's topic group.
    Detection(DetectionMessage),
    /// Reply with the list of live connections.
    ClientListRequest,
    /// Nothing beyond the forward to the observers.
    RawPassthrough(String),
}

/// The action of `text`, given how it reads as a device and as a detection:
/// a device first, then a detection, then the control text.
pub open spec fn classified(
    text: String,
    as_device: Option<Device>,
    as_detection: Option<DetectionMessage>,
) -> Action {
    match as_device {
        Some(d) => Action::DeviceRegistration(d),
        None => match as_detection {
            Some(m) => Action::Detection(m),
            None => if text@ == CLIENT_LIST_REQUEST@ {
                Action::ClientListRequest
            } else {
                Action::RawPassthrough(text)
            },
        },
    }
}

/// Classifies an inbound text. `as_device` and `as_detection` are the text
/// read as a device and as a detection, `None` where it does not read as one.
pub fn classify(
    text: &String,
    as_device: Option<Device>,
    as_detection: Option<DetectionMessage>,
) -> (r: Action)
    ensures
        r == classified(*text, as_device, as_detection),
{
    match as_device {
        Some(d) => Action::DeviceRegistration(d),
        None => match as_detection {
            Some(m) => Action::Detection(m),
            None => {
                let control = String::from_str(CLIENT_LIST_REQUEST);
                if *text == control {
                    Action::ClientListRequest
                } else {
                    Action::RawPassthrough(text.clone())
                }
            },
        },
    }
}

/// One line of the connection list: a peer's address and topic.
#[derive(Debug)]
pub struct ClientEntry {
    pub address: String,
    pub topic: String,
}

/// A message for one connection's outbound channel.
#[derive(Debug)]
pub enum Outbound {
    /// A text, forwarded as it came.
    Text(String),
    /// An alert.
    Alert(Alert),
    /// The list of live connections.
    ClientList(Vec<ClientEntry>),
    /// A device in its stored form.
    Device(Device),
}

/// What an outbound message is, for contracts.
pub ghost enum Message {
    Text(Seq<char>),
    Alert(Alert),
    ClientList(Seq<(Seq<char>, Seq<char>)>),
    Device(Device),
}

impl View for Outbound {
    type V = Message;

    open spec fn view(&self) -> Message {
        match self {
            Outbound::Text(t) => Message::Text(t@),
            Outbound::Alert(a) => Message::Alert(*a),
            Outbound::ClientList(l) => Message::ClientList(
                l@.map_values(|e: ClientEntry| (e.address@, e.topic@)),
            ),
            Outbound::Device(d) => Message::Device(*d),
        }
    }
}

/// A message and the connection it is for.
#[derive(Debug)]
pub struct Delivery {
    pub to: u64,
    pub payload: Outbound,
}

impl View for Delivery {
    type V = (u64, Message);

    open spec fn view(&self) -> (u64, Message) {
        (self.to, self.payload@)
    }
}

/// What routing an inbound text decides: the messages to enqueue, in order,
/// and the command for the consumer, if any.
#[derive(Debug)]
pub struct Routing {
    pub deliveries: Vec<Delivery>,
    pub command: Option<Command>,
}

/// `msg` for each peer that `pred` selects by topic, in registry order.
pub open spec fn fan_out(peers: Seq<Peer>, pred: spec_fn(Seq<char>) -> bool, msg: Message) -> Seq<
    (u64, Message),
> {
    peers.filter(|p: Peer| pred(p.topic)).map_values(|p: Peer| (p.id, msg))
}

/// The address and topic of each peer, in registry order.
pub open spec fn client_listing(peers: Seq<Peer>) -> Seq<(Seq<char>, Seq<char>)> {
    peers.map_values(|p: Peer| (p.address, p.topic))
}

/// Whether a topic is the observer topic.
pub open spec fn is_observer(topic: Seq<char>) -> bool {
    topic == OBSERVER_TOPIC@
}

/// Whether a topic belongs to the detection broadcast group of `topic`.
pub open spec fn in_group_of(topic: Seq<char>, t: Seq<char>) -> bool {
    t == topic || t == WILDCARD_TOPIC@
}

/// The messages that `text`, classified as `action` and sent by `sender`,
/// causes while the registry holds `peers`: the text itself to every observer,
/// then an alert to every connection of the sender's group for a detection, or
/// the connection list to the sender alone for a list request.
pub open spec fn planned_deliveries(
    peers: Seq<Peer>,
    sender: Peer,
    text: Seq<char>,
    action: Action,
) -> Seq<(u64, Message)> {
    fan_out(peers, |t: Seq<char>| is_observer(t), Message::Text(text)) + match action {
        Action::Detection(_) => fan_out(
            peers,
            |t: Seq<char>| in_group_of(sender.topic, t),
            Message::Alert(Alert::spec_raised()),
        ),
        Action::ClientListRequest => seq![(sender.id, Message::ClientList(client_listing(peers)))],
        _ => Seq::empty(),
    }
}

/// The command that `action`, from the connection `origin`, hands to the
/// consumer; a registered device carries the identifier `fresh_uid` in place of
/// whatever the client sent.
pub open spec fn planned_command(origin: u64, action: Action, fresh_uid: u128) -> Option<Command> {
    match action {
        Action::DeviceRegistration(d) => Some(
            Command::RegisterDevice {
                device: Device {
                    id: d.id,
                    uuid: fresh_uid,
                    description: d.description,
                    area: d.area,
                },
                origin,
            },
        ),
        Action::Detection(m) => Some(Command::RecordDetection { event: m }),
        _ => None,
    }
}

proof fn lemma_filter_everyone(peers: Seq<Peer>)
    ensures
        peers.filter(|p: Peer| TopicFilter::Everyone.admits(p.topic)) == peers,
    decreases peers.len(),
{
    reveal(Seq::filter);
    if peers.len() > 0 {
        lemma_filter_everyone(peers.drop_last());
        assert(peers.drop_last().push(peers.last()) =~= peers);
    }
}

fn push_texts(out: &mut Vec<Delivery>, targets: &Vec<Connection>, text: &String)
    ensures
        final(out)@.map_values(|d: Delivery| d@) == old(out)@.map_values(|d: Delivery| d@)
            + targets@.map_values(|c: Connection| (c.id, Message::Text(text@))),
{
    let mut i: usize = 0;
    while i < targets.len()
        invariant
            i <= targets@.len(),
            out@.map_values(|d: Delivery| d@) == old(out)@.map_values(|d: Delivery| d@)
                + targets@.take(i as int).map_values(|c: Connection| (c.id, Message::Text(text@))),
        decreases targets.len() - i,
    {
        let ghost before = out@;
        out.push(Delivery { to: targets[i].id, payload: Outbound::Text(text.clone()) });
        assert(out@.map_values(|d: Delivery| d@) =~= before.map_values(|d: Delivery| d@).push(
            (targets@[i as int].id, Message::Text(text@)),
        ));
        assert(targets@.take(i + 1).map_values(|c: Connection| (c.id, Message::Text(text@)))
            =~= targets@.take(i as int).map_values(|c: Connection| (c.id, Message::Text(text@))).push(
            (targets@[i as int].id, Message::Text(text@)),
        ));
        i = i + 1;
    }
    assert(targets@.take(targets@.len() as int) =~= targets@);
}

fn push_alerts(out: &mut Vec<Delivery>, targets: &Vec<Connection>, alert: Alert)
    ensures
        final(out)@.map_values(|d: Delivery| d@) == old(out)@.map_values(|d: Delivery| d@)
            + targets@.map_values(|c: Connection| (c.id, Message::Alert(alert))),
{
    let mut i: usize = 0;
    while i < targets.len()
        invariant
            i <= targets@.len(),
            out@.map_values(|d: Delivery| d@) == old(out)@.map_values(|d: Delivery| d@)
                + targets@.take(i as int).map_values(|c: Connection| (c.id, Message::Alert(alert))),
        decreases targets.len() - i,
    {
        let ghost before = out@;
        out.push(Delivery { to: targets[i].id, payload: Outbound::Alert(alert) });
        assert(out@.map_values(|d: Delivery| d@) =~= before.map_values(|d: Delivery| d@).push(
            (targets@[i as int].id, Message::Alert(alert)),
        ));
        assert(targets@.take(i + 1).map_values(|c: Connection| (c.id, Message::Alert(alert)))
            =~= targets@.take(i as int).map_values(|c: Connection| (c.id, Message::Alert(alert))).push(
            (targets@[i as int].id, Message::Alert(alert)),
        ));
        i = i + 1;
    }
    assert(targets@.take(targets@.len() as int) =~= targets@);
}

/// The address and topic of each connection of `conns`, in order.
fn list_clients(conns: &Vec<Connection>) -> (r: Vec<ClientEntry>)
    ensures
        r@.map_values(|e: ClientEntry| (e.address@, e.topic@)) == client_listing(
            conns@.map_values(|c: Connection| c@),
        ),
{
    let mut out: Vec<ClientEntry> = Vec::new();
    let mut i: usize = 0;
    while i < conns.len()
        invariant
            i <= conns@.len(),
            out@.map_values(|e: ClientEntry| (e.address@, e.topic@)) == client_listing(
                conns@.take(i as int).map_values(|c: Connection| c@),
            ),
        decreases conns.len() - i,
    {
        let ghost before = out@;
        out.push(
            ClientEntry { address: conns[i].address.clone(), topic: conns[i].topic.clone() },
        );
        assert(out@.map_values(|e: ClientEntry| (e.address@, e.topic@)) =~= before.map_values(
            |e: ClientEntry| (e.address@, e.topic@),
        ).push((conns@[i as int].address@, conns@[i as int].topic@)));
        assert(client_listing(conns@.take(i + 1).map_values(|c: Connection| c@)) =~= client_listing(
            conns@.take(i as int).map_values(|c: Connection| c@),
        ).push((conns@[i as int].address@, conns@[i as int].topic@)));
        i = i + 1;
    }
    assert(conns@.take(conns@.len() as int) =~= conns@);
    out
}

/// Routes an inbound `text`, classified as `action`, from `sender`: every
/// observer gets the text verbatim whatever the action; a detection alerts
/// every connection whose topic is the sender's or the wildcard, the sender
/// included; a list request is answered to the sender alone with every live
/// connection; a registration hands the device, with its identifier replaced
/// by `fresh_uid`, to the consumer.
pub fn route<C>(
    registry: &ConnectionRegistry<C>,
    sender: &Connection,
    text: &String,
    action: Action,
    fresh_uid: u128,
) -> (r: Routing)
    ensures
        r.deliveries@.map_values(|d: Delivery| d@) == planned_deliveries(
            registry@,
            sender@,
            text@,
            action,
        ),
        r.command == planned_command(sender.id, action, fresh_uid),
{
    let ghost peers = registry@;
    let ghost observer_pred = |t: Seq<char>| is_observer(t);
    let ghost spec_action = action;
    let observer_filter = TopicFilter::Topic(String::from_str(OBSERVER_TOPIC));
    let observers = registry.snapshot_matching(&observer_filter);
    assert((|p: Peer| observer_filter.admits(p.topic)) =~= (|p: Peer| observer_pred(p.topic)));
    assert(observers@.map_values(|c: Connection| (c.id, Message::Text(text@))) =~= fan_out(
        peers,
        observer_pred,
        Message::Text(text@),
    ));
    let mut deliveries: Vec<Delivery> = Vec::new();
    assert(deliveries@.map_values(|d: Delivery| d@) =~= Seq::empty());
    push_texts(&mut deliveries, &observers, text);
    let ghost after_observers = deliveries@.map_values(|d: Delivery| d@);
    let command = match action {
        Action::DeviceRegistration(d) => {
            assert(after_observers =~= planned_deliveries(peers, sender@, text@, spec_action));
            Some(
                Command::RegisterDevice {
                    device: Device {
                        id: d.id,
                        uuid: fresh_uid,
                        description: d.description,
                        area: d.area,
                    },
                    origin: sender.id,
                },
            )
        },
        Action::Detection(m) => {
            let ghost group_pred = |t: Seq<char>| in_group_of(sender.topic@, t);
            let group_filter = TopicFilter::TopicOrWildcard(sender.topic.clone());
            let group = registry.snapshot_matching(&group_filter);
            assert((|p: Peer| group_filter.admits(p.topic)) =~= (|p: Peer| group_pred(p.topic)));
            assert(group@.map_values(|c: Connection| (c.id, Message::Alert(Alert::spec_raised())))
                =~= fan_out(peers, group_pred, Message::Alert(Alert::spec_raised())));
            push_alerts(&mut deliveries, &group, Alert::default());
            Some(Command::RecordDetection { event: m })
        },
        Action::ClientListRequest => {
            let everyone = registry.snapshot_matching(&TopicFilter::Everyone);
            proof {
                lemma_filter_everyone(peers);
            }
            let listing = list_clients(&everyone);
            let ghost before = deliveries@;
            deliveries.push(Delivery { to: sender.id, payload: Outbound::ClientList(listing) });
            assert(deliveries@.map_values(|d: Delivery| d@) =~= before.map_values(
                |d: Delivery| d@,
            ).push((sender.id, Message::ClientList(client_listing(peers)))));
            None
        },
        Action::RawPassthrough(_) => {
            assert(after_observers =~= planned_deliveries(peers, sender@, text@, spec_action));
            None
        },
    };
    Routing { deliveries, command }
}

proof fn lemma_fan_out_contains(
    peers: Seq<Peer>,
    pred: spec_fn(Seq<char>) -> bool,
    msg: Message,
    id: u64,
    m: Message,
)
    ensures
        fan_out(peers, pred, msg).contains((id, m)) <==> (m == msg && exists|i: int|
            0 <= i < peers.len() && pred(peers[i].topic) && #[trigger] peers[i].id == id),
{
    broadcast use vstd::seq_lib::group_filter_ensures;

    let fp = |p: Peer| pred(p.topic);
    let sel = peers.filter(fp);
    let out = fan_out(peers, pred, msg);
    if out.contains((id, m)) {
        let k = choose|k: int| 0 <= k < out.len() && out[k] == (id, m);
        assert(sel.contains(sel[k]));
        peers.lemma_filter_contains_rev(fp, sel[k]);
        peers.lemma_filter_pred(fp, k);
        let i = choose|i: int| 0 <= i < peers.len() && peers[i] == sel[k];
        assert(pred(peers[i].topic) && peers[i].id == id);
    }
    if m == msg && exists|i: int|
        0 <= i < peers.len() && pred(peers[i].topic) && #[trigger] peers[i].id == id {
        let i = choose|i: int| 0 <= i < peers.len() && pred(peers[i].topic) && #[trigger] peers[i].id == id;
        peers.lemma_filter_contains(fp, i);
        let k = choose|k: int| 0 <= k < sel.len() && sel[k] == peers[i];
        assert(out[k] == (id, m));
    }
}

proof fn lemma_concat_contains<A>(a: Seq<A>, b: Seq<A>, x: A)
    ensures
        (a + b).contains(x) <==> a.contains(x) || b.contains(x),
{
    if (a + b).contains(x) {
        let k = choose|k: int| 0 <= k < (a + b).len() && (a + b)[k] == x;
        if k >= a.len() {
            assert(b[k - a.len()] == x);
        }
    }
    if a.contains(x) {
        let k = choose|k: int| 0 <= k < a.len() && a[k] == x;
        assert((a + b)[k] == x);
    }
    if b.contains(x) {
        let k = choose|k: int| 0 <= k < b.len() && b[k] == x;
        assert((a + b)[k + a.len()] == x);
    }
}

/// Every inbound text reaches every observer connection verbatim, whatever
/// it is classified as.
pub proof fn lemma_observers_receive_text(
    peers: Seq<Peer>,
    sender: Peer,
    text: Seq<char>,
    action: Action,
)
    ensures
        forall|i: int|
            0 <= i < peers.len() && is_observer(peers[i].topic) ==> #[trigger] planned_deliveries(
                peers,
                sender,
                text,
                action,
            ).contains((peers[i].id, Message::Text(text))),
{
    let obs = fan_out(peers, |t: Seq<char>| is_observer(t), Message::Text(text));
    let all = planned_deliveries(peers, sender, text, action);
    assert forall|i: int| 0 <= i < peers.len() && is_observer(peers[i].topic) implies #[trigger] all.contains(
        (peers[i].id, Message::Text(text)),
    ) by {
        lemma_fan_out_contains(
            peers,
            |t: Seq<char>| is_observer(t),
            Message::Text(text),
            peers[i].id,
            Message::Text(text),
        );
        lemma_concat_contains(obs, all.subrange(obs.len() as int, all.len() as int), (peers[i].id, Message::Text(text)));
        assert(obs + all.subrange(obs.len() as int, all.len() as int) =~= all);
    }
}

/// A detection from `sender` alerts exactly the registered connections whose
/// topic is the sender's or the wildcard topic, the sender itself among them
/// when registered, and no other connection.
pub proof fn lemma_detection_alerts_group(
    peers: Seq<Peer>,
    sender: Peer,
    text: Seq<char>,
    event: DetectionMessage,
)
    requires
        ids_unique(peers),
    ensures
        forall|i: int|
            0 <= i < peers.len() ==> (#[trigger] planned_deliveries(
                peers,
                sender,
                text,
                Action::Detection(event),
            ).contains((peers[i].id, Message::Alert(Alert::spec_raised()))) <==> in_group_of(
                sender.topic,
                peers[i].topic,
            )),
        forall|id: u64, a: Alert|
            #[trigger] planned_deliveries(peers, sender, text, Action::Detection(event)).contains(
                (id, Message::Alert(a)),
            ) ==> exists|i: int|
                0 <= i < peers.len() && peers[i].id == id && in_group_of(
                    sender.topic,
                    peers[i].topic,
                ),
{
    let opred = |t: Seq<char>| is_observer(t);
    let gpred = |t: Seq<char>| in_group_of(sender.topic, t);
    let obs = fan_out(peers, opred, Message::Text(text));
    let alerts = fan_out(peers, gpred, Message::Alert(Alert::spec_raised()));
    let all = planned_deliveries(peers, sender, text, Action::Detection(event));
    assert(all == obs + alerts);
    assert forall|id: u64, a: Alert| #[trigger] all.contains((id, Message::Alert(a))) implies exists|i: int|
        0 <= i < peers.len() && peers[i].id == id && in_group_of(sender.topic, peers[i].topic) by {
        lemma_concat_contains(obs, alerts, (id, Message::Alert(a)));
        lemma_fan_out_contains(peers, opred, Message::Text(text), id, Message::Alert(a));
        lemma_fan_out_contains(peers, gpred, Message::Alert(Alert::spec_raised()), id, Message::Alert(a));
        let i = choose|i: int| 0 <= i < peers.len() && gpred(peers[i].topic) && #[trigger] peers[i].id == id;
        assert(peers[i].id == id && in_group_of(sender.topic, peers[i].topic));
    }
    assert forall|i: int| 0 <= i < peers.len() implies (#[trigger] all.contains(
        (peers[i].id, Message::Alert(Alert::spec_raised())),
    ) <==> in_group_of(sender.topic, peers[i].topic)) by {
        let x = (peers[i].id, Message::Alert(Alert::spec_raised()));
        lemma_concat_contains(obs, alerts, x);
        lemma_fan_out_contains(peers, opred, Message::Text(text), peers[i].id, x.1);
        lemma_fan_out_contains(peers, gpred, Message::Alert(Alert::spec_raised()), peers[i].id, x.1);
        if alerts.contains(x) {
            let j = choose|j: int| 0 <= j < peers.len() && gpred(peers[j].topic) && #[trigger] peers[j].id == peers[i].id;
            assert(i == j);
        }
        if in_group_of(sender.topic, peers[i].topic) {
            assert(gpred(peers[i].topic));
        }
    }
}

/// A list request is answered once, to its sender alone, with the address and
/// topic of every registered connection.
pub proof fn lemma_client_list_to_sender(peers: Seq<Peer>, sender: Peer, text: Seq<char>)
    ensures
        planned_deliveries(peers, sender, text, Action::ClientListRequest).contains(
            (sender.id, Message::ClientList(client_listing(peers))),
        ),
        forall|k: int|
            0 <= k < planned_deliveries(peers, sender, text, Action::ClientListRequest).len()
                && (#[trigger] planned_deliveries(peers, sender, text, Action::ClientListRequest)[k]).1 is ClientList
                ==> planned_deliveries(peers, sender, text, Action::ClientListRequest)[k] == (
                sender.id,
                Message::ClientList(client_listing(peers)),
            ),
        client_listing(peers).len() == peers.len(),
        forall|i: int|
            0 <= i < peers.len() ==> #[trigger] client_listing(peers)[i] == (
                peers[i].address,
                peers[i].topic,
            ),
{
    let opred = |t: Seq<char>| is_observer(t);
    let obs = fan_out(peers, opred, Message::Text(text));
    let all = planned_deliveries(peers, sender, text, Action::ClientListRequest);
    let reply = (sender.id, Message::ClientList(client_listing(peers)));
    assert(all == obs + seq![reply]);
    assert(all[obs.len() as int] == reply);
    assert forall|k: int| 0 <= k < all.len() && (#[trigger] all[k]).1 is ClientList implies all[k]
        == reply by {
        if k < obs.len() {
            assert(obs.contains(all[k]));
            lemma_fan_out_contains(peers, opred, Message::Text(text), all[k].0, all[k].1);
        }
    }
}

/// Whether `u` has the version and variant bits of a random (version 4) UUID.
pub open spec fn is_random_uuid(u: u128) -> bool {
    u & 0xF000_C000_0000_0000_0000u128 == 0x4000_8000_0000_0000_0000u128
}

/// Relies on uuid::Uuid::new_v4 (read back with `as_u128`): a random UUID,
/// with the version nibble set to 4 and the variant bits to 10.
#[verifier::external_body]
fn mint_uuid() -> (r: u128)
    ensures
        is_random_uuid(r),
{
    uuid::Uuid::new_v4().as_u128()
}

/// Classifies and routes an inbound `text` from `sender` (see `classify` and
/// `route`); a registration gets a freshly minted random identifier.
pub fn handle_text<C>(
    registry: &ConnectionRegistry<C>,
    sender: &Connection,
    text: &String,
    as_device: Option<Device>,
    as_detection: Option<DetectionMessage>,
) -> (r: Routing)
    ensures
        r.deliveries@.map_values(|d: Delivery| d@) == planned_deliveries(
            registry@,
            sender@,
            text@,
            classified(*text, as_device, as_detection),
        ),
        exists|u: u128|
            is_random_uuid(u) && r.command == planned_command(
                sender.id,
                classified(*text, as_device, as_detection),
                u,
            ),
{
    let action = classify(text, as_device, as_detection);
    let fresh_uid = match action {
        Action::DeviceRegistration(_) => mint_uuid(),
        _ => 0x4000_8000_0000_0000_0000u128,
    };
    assert(is_random_uuid(0x4000_8000_0000_0000_0000u128)) by (bit_vector);
    route(registry, sender, text, action, fresh_uid)
}

} // verus!
