//! The monitor of one channel: it takes the comments of the channel one by
//! one, in the order in which they come, and lets those that share a clip
//! reach the history and the subscribers.

use crate::clip::{accepted, is_clip_candidate};
use crate::history::{appended, appended_all};
use crate::registry::{delivers_once_to_each, Delivery};
use crate::state::AppState;
use vstd::prelude::*;

verus! {

/// Where a monitor stands in its life.
#[derive(Debug, Clone, Copy, PartialEq, Eq)]
pub enum MonitorState {
    /// The source of comments has not answered yet.
    Connecting,
    /// Comments are being taken.
    Running,
    /// The source could not be reached, ended, or failed. Nothing brings a
    /// stopped monitor back: there is no reconnection.
    Stopped,
}

/// The monitor of one channel.
pub struct MonitorTask {
    channel: String,
    state: MonitorState,
}

/// The history after a monitor has taken the comment `body`: a comment that
/// passes the filter and the transformer appends its canonical address, any
/// other leaves the history as it was.
pub open spec fn after_comment(entries: Seq<Seq<char>>, body: Seq<char>) -> Seq<Seq<char>> {
    match accepted(body) {
        Some(url) => appended(entries, url),
        None => entries,
    }
}

/// The history after a monitor has taken the comments `bodies`, the first of
/// them first.
pub open spec fn after_comments(entries: Seq<Seq<char>>, bodies: Seq<Seq<char>>) -> Seq<
    Seq<char>,
>
    decreases bodies.len(),
{
    if bodies.len() == 0 {
        entries
    } else {
        after_comment(after_comments(entries, bodies.drop_last()), bodies.last())
    }
}

/// The canonical addresses of those comments of `bodies` that pass the filter
/// and the transformer, in the order of the comments.
pub open spec fn accepted_urls(bodies: Seq<Seq<char>>) -> Seq<Seq<char>>
    decreases bodies.len(),
{
    if bodies.len() == 0 {
        Seq::empty()
    } else {
        match accepted(bodies.last()) {
            Some(url) => accepted_urls(bodies.drop_last()).push(url),
            None => accepted_urls(bodies.drop_last()),
        }
    }
}

/// What one monitor appends to the history follows the order in which its
/// comments came: the history after the comments is the history after the
/// appends of their canonical addresses, in the same order.
pub proof fn lemma_monitor_keeps_order(entries: Seq<Seq<char>>, bodies: Seq<Seq<char>>)
    ensures
        after_comments(entries, bodies) == appended_all(entries, accepted_urls(bodies)),
    decreases bodies.len(),
{
    if bodies.len() > 0 {
        lemma_monitor_keeps_order(entries, bodies.drop_last());
        match accepted(bodies.last()) {
            Some(url) => {
                let urls = accepted_urls(bodies.drop_last());
                assert(urls.push(url).drop_last() == urls);
            },
            None => {},
        }
    }
}

impl MonitorTask {
    /// The name of the channel.
    pub closed spec fn spec_channel(&self) -> Seq<char> {
        self.channel@
    }

    /// Where the monitor stands.
    pub closed spec fn spec_state(&self) -> MonitorState {
        self.state
    }

    /// A monitor for the channel `channel`, which waits for its source.
    pub fn new(channel: String) -> (task: MonitorTask)
        ensures
            task.spec_channel() == channel@,
            task.state() is Connecting,
    {
        MonitorTask { channel, state: MonitorState::Connecting }
    }

    /// The name of the channel.
    pub fn channel(&self) -> (name: &str)
        ensures
            name@ == self.spec_channel(),
    {
        self.channel.as_str()
    }

    /// Where the monitor stands.
    #[verifier::when_used_as_spec(spec_state)]
    pub fn state(&self) -> (state: MonitorState)
        ensures
            state == self.state(),
    {
        self.state
    }

    /// The attempt to reach the source has ended: a connecting monitor runs
    /// from now on if the source was reached, and is stopped if not. A monitor
    /// in another state stays as it is.
    pub fn connection_finished(&mut self, reached: bool)
        ensures
            final(self).spec_channel() == old(self).spec_channel(),
            old(self).state() is Connecting ==> final(self).state() == if reached {
                MonitorState::Running
            } else {
                MonitorState::Stopped
            },
            !(old(self).state() is Connecting) ==> final(self).state() == old(self).state(),
    {
        match self.state {
            MonitorState::Connecting => {
                if reached {
                    self.state = MonitorState::Running;
                } else {
                    self.state = MonitorState::Stopped;
                }
            },
            _ => {},
        }
    }

    /// The source has ended or failed: the monitor is stopped.
    pub fn stream_ended(&mut self)
        ensures
            final(self).spec_channel() == old(self).spec_channel(),
            final(self).state() is Stopped,
    {
        self.state = MonitorState::Stopped;
    }

    /// The source has handed over the comment `body`. Where the monitor runs
    /// and the comment passes the filter and the transformer, the canonical
    /// address joins the history and is then fanned out to the subscribers of
    /// this moment. Any other comment is passed over: nothing changes, nobody
    /// is reached, and the monitor goes on.
    pub fn on_comment<'a, H>(&self, shared: &'a mut AppState<H>, body: &str) -> (deliveries: Vec<
        Delivery<'a, H>,
    >)
        requires
            old(shared).wf(),
        ensures
            final(shared).wf(),
            final(shared).ws_clients == old(shared).ws_clients,
            self.state() is Running ==> final(shared).url_storage@ == after_comment(
                old(shared).url_storage@,
                body@,
            ),
            self.state() is Running && accepted(body@) is Some ==> delivers_once_to_each(
                deliveries@,
                old(shared).ws_clients@,
                accepted(body@)->0,
            ),
            !(self.state() is Running && accepted(body@) is Some) ==> {
                &&& deliveries@.len() == 0
                &&& final(shared).url_storage == old(shared).url_storage
            },
    {
        match self.state {
            MonitorState::Running => {
                if is_clip_candidate(body) {
                    match shared.add_url(body) {
                        Ok(deliveries) => deliveries,
                        Err(_) => Vec::new(),
                    }
                } else {
                    Vec::new()
                }
            },
            _ => Vec::new(),
        }
    }
}

} // verus!
