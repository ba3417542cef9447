//! One live connection of a subscriber: its way from connecting to closed, and
//! what it does with the messages that reach it from either side.

use crate::clip::{accepted, is_clip_candidate};
use crate::history::appended;
use crate::registry::{registered, unregistered};
use crate::state::AppState;
use vstd::prelude::*;

verus! {

/// What opens the acknowledgement of an inbound message that shared a clip;
/// the message itself follows.
pub const ACK_PREFIX: &'static str = "New clip added: ";

/// Where a session stands in its life.
#[derive(Debug, Clone, Copy, PartialEq, Eq)]
pub enum SessionState {
    /// The connection is being set up; the session is not registered yet.
    Connecting,
    /// The connection is open and the session is registered.
    Active,
    /// The connection is gone and the session is not registered any more.
    Closed,
}

/// The session of one connection.
pub struct WsSession {
    id: u64,
    state: SessionState,
}

impl WsSession {
    /// The identity under which the session registers.
    pub closed spec fn spec_id(&self) -> u64 {
        self.id
    }

    /// Where the session stands.
    pub closed spec fn spec_state(&self) -> SessionState {
        self.state
    }

    /// A session that is connecting, to be registered under `id`.
    pub fn new(id: u64) -> (session: WsSession)
        ensures
            session.id() == id,
            session.state() is Connecting,
    {
        WsSession { id, state: SessionState::Connecting }
    }

    /// The identity under which the session registers.
    #[verifier::when_used_as_spec(spec_id)]
    pub fn id(&self) -> (id: u64)
        ensures
            id == self.id(),
    {
        self.id
    }

    /// Where the session stands.
    #[verifier::when_used_as_spec(spec_state)]
    pub fn state(&self) -> (state: SessionState)
        ensures
            state == self.state(),
    {
        self.state
    }

    /// The connection is open: a connecting session registers `handle` under
    /// its identity and becomes active. A session in another state stays as
    /// it is and registers nothing.
    pub fn started<H>(&mut self, shared: &mut AppState<H>, handle: H)
        requires
            old(shared).wf(),
        ensures
            final(shared).wf(),
            final(self).id() == old(self).id(),
            final(shared).url_storage == old(shared).url_storage,
            old(self).state() is Connecting ==> {
                &&& final(self).state() is Active
                &&& final(shared).ws_clients@ == registered(
                    old(shared).ws_clients@,
                    old(self).id(),
                    handle,
                )
            },
            !(old(self).state() is Connecting) ==> {
                &&& final(self).state() == old(self).state()
                &&& final(shared).ws_clients == old(shared).ws_clients
            },
    {
        match self.state {
            SessionState::Connecting => {
                shared.ws_clients.register(self.id, handle);
                self.state = SessionState::Active;
            },
            _ => {},
        }
    }

    /// The connection is gone: the session is closed from now on. An active
    /// session unregisters on the way; one that never became active, or is
    /// closed already, leaves the registry as it is.
    pub fn stopped<H>(&mut self, shared: &mut AppState<H>)
        requires
            old(shared).wf(),
        ensures
            final(shared).wf(),
            final(self).id() == old(self).id(),
            final(self).state() is Closed,
            final(shared).url_storage == old(shared).url_storage,
            old(self).state() is Active ==> final(shared).ws_clients@ == unregistered(
                old(shared).ws_clients@,
                old(self).id(),
            ),
            !(old(self).state() is Active) ==> final(shared).ws_clients == old(shared).ws_clients,
    {
        match self.state {
            SessionState::Active => {
                shared.ws_clients.unregister(self.id);
            },
            _ => {},
        }
        self.state = SessionState::Closed;
    }

    /// A broadcast reached the session: an active session hands `message` on
    /// to be written to its connection, any other drops it.
    pub fn handle_broadcast(&self, message: String) -> (frame: Option<String>)
        ensures
            self.state() is Active ==> frame == Some(message),
            !(self.state() is Active) ==> frame is None,
    {
        match self.state {
            SessionState::Active => Some(message),
            _ => None,
        }
    }

    /// A text came in over the connection. Where the session is active and
    /// the text passes the filter and the transformer, the canonical address
    /// joins the history, and the result is the acknowledgement for this
    /// connection alone. Any other text is passed over in silence.
    pub fn handle_text<H>(&self, shared: &mut AppState<H>, text: &str) -> (ack: Option<String>)
        requires
            old(shared).wf(),
        ensures
            final(shared).wf(),
            final(shared).ws_clients == old(shared).ws_clients,
            match ack {
                Some(frame) => {
                    &&& self.state() is Active
                    &&& accepted(text@) is Some
                    &&& final(shared).url_storage@ == appended(
                        old(shared).url_storage@,
                        accepted(text@)->0,
                    )
                    &&& frame@ == ACK_PREFIX@ + text@
                },
                None => {
                    &&& !(self.state() is Active && accepted(text@) is Some)
                    &&& final(shared).url_storage == old(shared).url_storage
                },
            },
    {
        match self.state {
            SessionState::Active => {
                if is_clip_candidate(text) {
                    match shared.record_url(text) {
                        Ok(_) => Some(String::from_str(ACK_PREFIX).concat(text)),
                        Err(_) => None,
                    }
                } else {
                    None
                }
            },
            _ => None,
        }
    }
}

} // verus!
