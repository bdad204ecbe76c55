use vstd::prelude::*;
use crate::actor::Command;
use crate::registry::{has_id, Connection, ConnectionRegistry};

verus! {

/// The topic of a connection whose handshake asked for `target`: the target
/// verbatim. A handshake with an empty target gives no topic, and such a
/// connection is never registered.
pub fn handshake_topic(target: &String) -> (r: Option<String>)
    ensures
        r is None <==> target@.len() == 0,
        r is Some ==> r->Some_0@ == target@,
{
    if target.as_str().is_empty() {
        None
    } else {
        Some(target.clone())
    }
}

/// The command announcing that `conn` opened. It is enqueued before the
/// connection is registered, so that it can never follow the closing one.
pub fn opened_command(conn: &Connection) -> (r: Command)
    ensures
        r == (Command::ConnectionOpened { topic: conn.topic, address: conn.address }),
{
    Command::ConnectionOpened { topic: conn.topic.clone(), address: conn.address.clone() }
}

/// Ends the life of `conn`: deregisters it and returns the command announcing
/// that it closed.
pub fn close_connection<C>(registry: &mut ConnectionRegistry<C>, conn: &Connection) -> (r: Command)
    requires
        old(registry).wf(),
    ensures
        final(registry).wf(),
        !has_id(final(registry)@, conn.id),
        !has_id(old(registry)@, conn.id) ==> final(registry)@ == old(registry)@,
        has_id(old(registry)@, conn.id) ==> exists|i: int|
            0 <= i < old(registry)@.len() && old(registry)@[i].id == conn.id && final(registry)@
                == old(registry)@.remove(i),
        r == (Command::ConnectionClosed { topic: conn.topic, address: conn.address }),
{
    registry.remove(conn.id);
    Command::ConnectionClosed { topic: conn.topic.clone(), address: conn.address.clone() }
}

} // verus!
