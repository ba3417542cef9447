//! The state that all monitors and sessions share: the history of canonical
//! addresses and the registry of subscribers, and the path of one shared clip
//! through both.

use crate::clip::{canonical_of, canonical_url, slug_of, MalformedReferenceError};
use crate::history::{appended, HistoryStore};
use crate::registry::{delivers_once_to_each, Delivery, SubscriberRegistry};
use vstd::prelude::*;

verus! {

/// The shared state. Whoever holds it holds it alone for the length of one
/// operation; what serialises the holders lies outside.
pub struct AppState<H> {
    /// The recent canonical addresses.
    pub url_storage: HistoryStore,
    /// The subscribers that are connected at the moment.
    pub ws_clients: SubscriberRegistry<H>,
}

impl<H> AppState<H> {
    /// Both parts are well formed.
    pub open spec fn wf(&self) -> bool {
        self.url_storage.wf() && self.ws_clients.wf()
    }

    /// An empty history and no subscribers.
    pub fn new() -> (state: AppState<H>)
        ensures
            state.wf(),
            state.url_storage@ == Seq::<Seq<char>>::empty(),
            state.ws_clients@ == Map::<u64, H>::empty(),
    {
        AppState { url_storage: HistoryStore::new(), ws_clients: SubscriberRegistry::new() }
    }

    /// The fan-out of `message` to the subscribers of this moment.
    pub fn notify_clients<'a>(&'a self, message: &str) -> (deliveries: Vec<Delivery<'a, H>>)
        requires
            self.wf(),
        ensures
            delivers_once_to_each(deliveries@, self.ws_clients@, message@),
    {
        self.ws_clients.broadcast(message)
    }

    /// Takes the address that `url` shares into the history, in its canonical
    /// form, and hands that form back. A text without a slug changes nothing.
    pub fn record_url(&mut self, url: &str) -> (recorded: Result<String, MalformedReferenceError>)
        requires
            old(self).wf(),
        ensures
            final(self).wf(),
            final(self).ws_clients == old(self).ws_clients,
            match recorded {
                Ok(canonical) => {
                    &&& slug_of(url@) is Ok
                    &&& canonical@ == canonical_of(slug_of(url@)->Ok_0)
                    &&& final(self).url_storage@ == appended(old(self).url_storage@, canonical@)
                },
                Err(e) => {
                    &&& slug_of(url@) == Err::<Seq<char>, MalformedReferenceError>(e)
                    &&& final(self).url_storage == old(self).url_storage
                },
            },
    {
        match canonical_url(url) {
            Ok(canonical) => {
                self.url_storage.append(canonical.clone());
                Ok(canonical)
            },
            Err(e) => Err(e),
        }
    }

    /// Takes the address that `url` shares into the history, in its canonical
    /// form, and then fans that form out to the subscribers of this moment.
    /// A text without a slug changes nothing and reaches nobody.
    pub fn add_url<'a>(&'a mut self, url: &str) -> (sent: Result<
        Vec<Delivery<'a, H>>,
        MalformedReferenceError,
    >)
        requires
            old(self).wf(),
        ensures
            final(self).wf(),
            final(self).ws_clients == old(self).ws_clients,
            match sent {
                Ok(deliveries) => {
                    &&& slug_of(url@) is Ok
                    &&& final(self).url_storage@ == appended(
                        old(self).url_storage@,
                        canonical_of(slug_of(url@)->Ok_0),
                    )
                    &&& delivers_once_to_each(
                        deliveries@,
                        old(self).ws_clients@,
                        canonical_of(slug_of(url@)->Ok_0),
                    )
                },
                Err(e) => {
                    &&& slug_of(url@) == Err::<Seq<char>, MalformedReferenceError>(e)
                    &&& final(self).url_storage == old(self).url_storage
                },
            },
    {
        match self.record_url(url) {
            Ok(canonical) => Ok(self.ws_clients.broadcast(canonical.as_str())),
            Err(e) => Err(e),
        }
    }
}

} // verus!
