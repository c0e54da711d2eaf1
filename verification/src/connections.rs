//! Bookkeeping of one proxied game connection: which directions have
//! registered, and the requests that still await their response. A response
//! frame carries only its request's id, so the method it answers is looked
//! up in the table of pending requests.

use crate::text::{chars_eq, chars_of};
use std::collections::HashMap;
use vstd::prelude::*;

verus! {

broadcast use vstd::std_specs::hash::group_hash_axioms;

/// The bit a direction sets in a connection's direction mask: 1 for
/// client-to-server, 2 for server-to-client.
pub open spec fn spec_direction_bit(from_client: bool) -> u8 {
    if from_client {
        1
    } else {
        2
    }
}

/// A direction registering with a connection: the mask gains its bit, and
/// once both directions are in (mask 3) the connection no longer needs to
/// be held for the peer that has not registered yet.
pub fn register_direction(directions: u8, from_client: bool) -> (r: (u8, bool))
    ensures
        r.0 == directions | spec_direction_bit(from_client),
        r.1 == (r.0 == 3),
{
    let bit: u8 = if from_client {
        1
    } else {
        2
    };
    let joined = directions | bit;
    (joined, joined == 3)
}

/// What a connection shared by its two directions knows: the method names
/// of the requests sent on it that have not been answered yet, by request
/// id, and whether it was closed.
pub struct ConnectionState {
    pending_requests: HashMap<u16, String>,
    closed: bool,
}

impl View for ConnectionState {
    type V = Map<u16, Seq<char>>;

    /// The pending requests.
    closed spec fn view(&self) -> Map<u16, Seq<char>> {
        self.pending_requests@.map_values(|s: String| s@)
    }
}

impl ConnectionState {
    pub closed spec fn spec_closed(&self) -> bool {
        self.closed
    }

    /// An open connection with no pending request.
    pub fn new() -> (p: ConnectionState)
        ensures
            p@ == Map::<u16, Seq<char>>::empty(),
            !p.spec_closed(),
    {
        let p = ConnectionState { pending_requests: HashMap::new(), closed: false };
        assert(p@ =~= Map::<u16, Seq<char>>::empty());
        p
    }

    /// Marks the connection closed, for the direction that registers last
    /// to see.
    pub fn close(&mut self)
        ensures
            final(self).spec_closed(),
            final(self)@ == old(self)@,
    {
        self.closed = true;
    }

    /// Whether the connection was closed.
    pub fn is_closed(&self) -> (r: bool)
        ensures
            r == self.spec_closed(),
    {
        self.closed
    }

    /// Remembers the method of request `id`, replacing any earlier request
    /// with the same id.
    pub fn track_request(&mut self, id: u16, method_name: String)
        ensures
            final(self)@ == old(self)@.insert(id, method_name@),
            final(self).spec_closed() == old(self).spec_closed(),
    {
        let ghost name = method_name@;
        self.pending_requests.insert(id, method_name);
        assert(self@ =~= old(self)@.insert(id, name));
    }

    /// The method of request `id`, which is then no longer pending.
    pub fn take_request(&mut self, id: u16) -> (r: Option<String>)
        ensures
            r is Some <==> old(self)@.contains_key(id),
            r is Some ==> r->0@ == old(self)@[id],
            final(self)@ == old(self)@.remove(id),
            final(self).spec_closed() == old(self).spec_closed(),
    {
        let r = self.pending_requests.remove(&id);
        assert(self@ =~= old(self)@.remove(id));
        r
    }
}

/// A response finds the method its request named, once: the request is
/// then no longer pending, and every other pending request is kept.
pub proof fn law_response_finds_its_request(pending: Map<u16, Seq<char>>, id: u16, method: Seq<char>)
    ensures
        pending.insert(id, method).contains_key(id),
        pending.insert(id, method)[id] == method,
        !pending.insert(id, method).remove(id).contains_key(id),
        forall|other: u16|
            other != id && pending.contains_key(other) ==> #[trigger] pending.insert(
                id,
                method,
            ).remove(id).contains_key(other) && pending.insert(id, method).remove(id)[other]
                == pending[other],
{
}

/// A connection to the observer endpoint `/ob` (spectating): its messages
/// are passed on untouched.
pub fn is_observer_path(path: &str) -> (r: bool)
    ensures
        r == (path@ == "/ob"@),
{
    chars_eq(&chars_of(path), "/ob")
}

/// The proxy answers a plain HTTP request for `/ping` itself (with `pong`),
/// so that its readiness can be checked; every other request is forwarded.
pub fn answers_ping(path: &str) -> (r: bool)
    ensures
        r == (path@ == "/ping"@),
{
    chars_eq(&chars_of(path), "/ping")
}

/// Whether a websocket message goes through the modder: a binary message on
/// a game connection while the Mod runs. Everything else is passed on as it
/// came.
pub fn goes_through_modder(path: &str, binary: bool, mod_running: bool) -> (r: bool)
    ensures
        r == (path@ != "/ob"@ && binary && mod_running),
{
    !is_observer_path(path) && binary && mod_running
}

} // verus!
