//! The bounded history of canonical clip addresses: the most recent ones, in
//! the order in which they came, the oldest leaving first.

use std::collections::VecDeque;
use vstd::prelude::*;

verus! {

/// The number of addresses the history keeps.
pub const HISTORY_CAPACITY: usize = 100;

/// What a history holding `entries` holds once `url` has been appended: the
/// new address stands last, and the oldest one has left if the history was full.
pub open spec fn appended(entries: Seq<Seq<char>>, url: Seq<char>) -> Seq<Seq<char>> {
    if entries.len() >= HISTORY_CAPACITY {
        entries.subrange(1, entries.len() as int).push(url)
    } else {
        entries.push(url)
    }
}

/// The text of each string of `strings`, in order.
pub open spec fn texts(strings: Seq<String>) -> Seq<Seq<char>> {
    strings.map_values(|s: String| s@)
}

/// The recent canonical addresses, oldest first, never more than
/// `HISTORY_CAPACITY` of them.
pub struct HistoryStore {
    entries: VecDeque<String>,
}

impl View for HistoryStore {
    type V = Seq<Seq<char>>;

    closed spec fn view(&self) -> Seq<Seq<char>> {
        texts(self.entries@)
    }
}

impl HistoryStore {
    /// The history holds no more than its capacity. Every history that this
    /// module hands out is such, and every operation keeps it so.
    pub open spec fn wf(&self) -> bool {
        self@.len() <= HISTORY_CAPACITY
    }

    /// An empty history.
    pub fn new() -> (store: HistoryStore)
        ensures
            store.wf(),
            store@ == Seq::<Seq<char>>::empty(),
    {
        HistoryStore { entries: VecDeque::new() }
    }

    /// The number of addresses held.
    pub fn len(&self) -> (n: usize)
        ensures
            n == self@.len(),
    {
        self.entries.len()
    }

    /// Appends `url` as the newest address; a full history first lets its
    /// oldest address go.
    pub fn append(&mut self, url: String)
        requires
            old(self).wf(),
        ensures
            final(self).wf(),
            final(self)@ == appended(old(self)@, url@),
    {
        if self.entries.len() >= HISTORY_CAPACITY {
            self.entries.pop_front();
        }
        self.entries.push_back(url);
    }

    /// The addresses held at this moment, oldest first.
    pub fn snapshot(&self) -> (urls: Vec<String>)
        ensures
            texts(urls@) == self@,
    {
        let mut urls: Vec<String> = Vec::new();
        let mut i: usize = 0;
        while i < self.entries.len()
            invariant
                i <= self.entries@.len(),
                urls@ == self.entries@.subrange(0, i as int),
            decreases self.entries@.len() - i,
        {
            urls.push(self.entries[i].clone());
            i += 1;
        }
        urls
    }
}

/// What a history holding `entries` holds once the addresses of `urls` have
/// been appended one after the other, the first of them first.
pub open spec fn appended_all(entries: Seq<Seq<char>>, urls: Seq<Seq<char>>) -> Seq<Seq<char>>
    decreases urls.len(),
{
    if urls.len() == 0 {
        entries
    } else {
        appended(appended_all(entries, urls.drop_last()), urls.last())
    }
}

/// The last `HISTORY_CAPACITY` addresses of `all`, or all of them where they
/// are fewer.
pub open spec fn latest(all: Seq<Seq<char>>) -> Seq<Seq<char>> {
    if all.len() <= HISTORY_CAPACITY {
        all
    } else {
        all.subrange(all.len() - HISTORY_CAPACITY, all.len() as int)
    }
}

/// `merged` holds the addresses of `first` and of `second`, each in its own
/// order, mixed in any way.
pub open spec fn is_interleaving(
    first: Seq<Seq<char>>,
    second: Seq<Seq<char>>,
    merged: Seq<Seq<char>>,
) -> bool
    decreases merged.len(),
{
    if merged.len() == 0 {
        first.len() == 0 && second.len() == 0
    } else {
        ||| (first.len() > 0 && first.last() == merged.last() && is_interleaving(
            first.drop_last(),
            second,
            merged.drop_last(),
        ))
        ||| (second.len() > 0 && second.last() == merged.last() && is_interleaving(
            first,
            second.drop_last(),
            merged.drop_last(),
        ))
    }
}

/// One append to a history within its capacity leaves the latest addresses of
/// what it held followed by the new one, and so stays within the capacity.
pub proof fn lemma_appended_is_latest(entries: Seq<Seq<char>>, url: Seq<char>)
    requires
        entries.len() <= HISTORY_CAPACITY,
    ensures
        appended(entries, url) == latest(entries.push(url)),
        appended(entries, url).len() <= HISTORY_CAPACITY,
{
}

/// However many addresses are appended to a history within its capacity, it
/// never holds more than `HISTORY_CAPACITY`, and it holds the latest addresses
/// of what it held followed by what was appended, in the order of arrival.
pub proof fn lemma_appended_all_is_latest(entries: Seq<Seq<char>>, urls: Seq<Seq<char>>)
    requires
        entries.len() <= HISTORY_CAPACITY,
    ensures
        appended_all(entries, urls).len() <= HISTORY_CAPACITY,
        appended_all(entries, urls) == latest(entries + urls),
    decreases urls.len(),
{
    if urls.len() > 0 {
        let before = urls.drop_last();
        lemma_appended_all_is_latest(entries, before);
        lemma_appended_is_latest(appended_all(entries, before), urls.last());
    }
}

/// After more than `HISTORY_CAPACITY` addresses have been appended, the
/// history holds exactly the last `HISTORY_CAPACITY` of them, in their order,
/// whatever it held before.
pub proof fn lemma_history_keeps_last_appended(entries: Seq<Seq<char>>, urls: Seq<Seq<char>>)
    requires
        entries.len() <= HISTORY_CAPACITY,
        urls.len() > HISTORY_CAPACITY,
    ensures
        appended_all(entries, urls) == urls.subrange(
            urls.len() - HISTORY_CAPACITY,
            urls.len() as int,
        ),
{
    lemma_appended_all_is_latest(entries, urls);
}

/// An interleaving holds as many addresses as its two sources together.
pub proof fn lemma_interleaving_len(
    first: Seq<Seq<char>>,
    second: Seq<Seq<char>>,
    merged: Seq<Seq<char>>,
)
    requires
        is_interleaving(first, second, merged),
    ensures
        merged.len() == first.len() + second.len(),
    decreases merged.len(),
{
    if merged.len() > 0 {
        if first.len() > 0 && first.last() == merged.last() && is_interleaving(
            first.drop_last(),
            second,
            merged.drop_last(),
        ) {
            lemma_interleaving_len(first.drop_last(), second, merged.drop_last());
        } else {
            lemma_interleaving_len(first, second.drop_last(), merged.drop_last());
        }
    }
}

/// Two sources that append to one history, their appends mixed in any order,
/// leave it within its capacity and holding the latest addresses in the order
/// in which the appends took place.
pub proof fn lemma_interleaved_appends_keep_order(
    entries: Seq<Seq<char>>,
    first: Seq<Seq<char>>,
    second: Seq<Seq<char>>,
    merged: Seq<Seq<char>>,
)
    requires
        entries.len() <= HISTORY_CAPACITY,
        is_interleaving(first, second, merged),
    ensures
        merged.len() == first.len() + second.len(),
        appended_all(entries, merged).len() <= HISTORY_CAPACITY,
        appended_all(entries, merged) == latest(entries + merged),
{
    lemma_interleaving_len(first, second, merged);
    lemma_appended_all_is_latest(entries, merged);
}

} // verus!
