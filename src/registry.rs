//! The channel registry: one bounded channel per ingestion endpoint.
//!
//! Each registration opens a fresh channel and gives it a channel number that
//! no earlier registration of this registry has used. The registry keeps the
//! sending half; a later registration under the same endpoint replaces it, so
//! producers that look the endpoint up afterwards reach only the newest channel.
use vstd::prelude::*;

use crate::outside::{open_channel, share_sender};

verus! {

/// Messages a channel buffers before producers are held back.
pub const CHANNEL_CAPACITY: usize = 1024;

/// The sending half of a registered channel, with the channel's number.
pub struct ChannelSender {
    pub(crate) channel: u64,
    pub(crate) tx: tokio::sync::mpsc::Sender<bytes::Bytes>,
}

impl ChannelSender {
    /// The number of the channel this half belongs to.
    pub closed spec fn id(&self) -> u64 {
        self.channel
    }

    /// The number of the channel this half belongs to.
    pub fn channel(&self) -> (r: u64)
        ensures
            r == self.id(),
    {
        self.channel
    }

    /// The tokio sender to push payloads with.
    pub fn sender(&self) -> &tokio::sync::mpsc::Sender<bytes::Bytes> {
        &self.tx
    }
}

/// The receiving half of a registered channel, with the channel's number.
pub struct ChannelReceiver {
    pub(crate) channel: u64,
    pub(crate) rx: tokio::sync::mpsc::Receiver<bytes::Bytes>,
}

impl ChannelReceiver {
    /// The number of the channel this half belongs to.
    pub closed spec fn id(&self) -> u64 {
        self.channel
    }

    /// The number of the channel this half belongs to.
    pub fn channel(&self) -> (r: u64)
        ensures
            r == self.id(),
    {
        self.channel
    }

    /// The tokio receiver to drain payloads from.
    pub fn into_receiver(self) -> tokio::sync::mpsc::Receiver<bytes::Bytes> {
        self.rx
    }
}

struct RegistryEntry {
    endpoint: String,
    sender: ChannelSender,
}

/// The position of the entry for `endpoint`, if there is one.
fn find_entry(entries: &Vec<RegistryEntry>, endpoint: &String) -> (r: Option<usize>)
    ensures
        r is None <==> forall|j: int|
            0 <= j < entries@.len() ==> #[trigger] entries@[j].endpoint@ != endpoint@,
        r matches Some(i) ==> i < entries@.len() && entries@[i as int].endpoint@ == endpoint@,
{
    let mut i: usize = 0;
    while i < entries.len()
        invariant
            i <= entries@.len(),
            forall|j: int| 0 <= j < i ==> #[trigger] entries@[j].endpoint@ != endpoint@,
        decreases entries@.len() - i,
    {
        if entries[i].endpoint == *endpoint {
            return Some(i);
        }
        i = i + 1;
    }
    None
}

/// The entries hold one entry per routed endpoint, each with the channel it
/// routes to, and every routed channel is numbered below `next`.
spec fn entries_route(entries: Seq<RegistryEntry>, next: u64, routes: Map<Seq<char>, u64>) -> bool {
    &&& forall|i: int|
        #![trigger entries[i]]
        0 <= i < entries.len() ==> routes.contains_key(entries[i].endpoint@)
            && routes[entries[i].endpoint@] == entries[i].sender.id()
    &&& forall|i: int, j: int|
        0 <= i < entries.len() && 0 <= j < entries.len() && i != j
            ==> #[trigger] entries[i].endpoint@ != #[trigger] entries[j].endpoint@
    &&& forall|k: Seq<char>|
        #[trigger] routes.contains_key(k) ==> exists|i: int|
            0 <= i < entries.len() && #[trigger] entries[i].endpoint@ == k
    &&& forall|k: Seq<char>| #[trigger] routes.contains_key(k) ==> routes[k] < next
}

/// Maps endpoint names to the sending half of their current channel.
pub struct ChannelRegistry {
    entries: Vec<RegistryEntry>,
    next_channel: u64,
    routes: Ghost<Map<Seq<char>, u64>>,
}

impl ChannelRegistry {
    /// Which channel number each registered endpoint currently routes to.
    pub closed spec fn routes(&self) -> Map<Seq<char>, u64> {
        self.routes@
    }

    /// The number the next registration will give its channel.
    pub closed spec fn next_channel(&self) -> u64 {
        self.next_channel
    }

    /// Every routed channel was numbered before the next one: a registration
    /// always opens a channel no endpoint routes to yet.
    pub open spec fn channels_fresh(&self) -> bool {
        forall|k: Seq<char>|
            #[trigger] self.routes().contains_key(k) ==> self.routes()[k] < self.next_channel()
    }

    #[verifier::type_invariant]
    closed spec fn wf(self) -> bool {
        entries_route(self.entries@, self.next_channel, self.routes@)
    }

    /// An empty registry.
    pub fn new() -> (r: ChannelRegistry)
        ensures
            r.routes() == Map::<Seq<char>, u64>::empty(),
            r.channels_fresh(),
            r.next_channel() == 0,
    {
        ChannelRegistry { entries: Vec::new(), next_channel: 0, routes: Ghost(Map::empty()) }
    }

    /// Whether one more registration can be numbered.
    pub fn can_register(&self) -> (r: bool)
        ensures
            r == (self.next_channel() < u64::MAX),
            self.channels_fresh(),
    {
        proof {
            use_type_invariant(self);
        }
        self.next_channel < u64::MAX
    }

    /// Opens a fresh bounded channel for `endpoint`, stores its sending half and
    /// returns the receiving half. A sender stored earlier for the same endpoint
    /// is replaced.
    pub fn new_channel(&mut self, endpoint: &str) -> (r: ChannelReceiver)
        requires
            old(self).next_channel() < u64::MAX,
        ensures
            r.id() == old(self).next_channel(),
            final(self).routes() == old(self).routes().insert(endpoint@, r.id()),
            final(self).next_channel() == old(self).next_channel() + 1,
            final(self).channels_fresh(),
    {
        let mut current = ChannelRegistry::new();
        std::mem::swap(&mut current, self);
        proof {
            use_type_invariant(&current);
        }
        let ChannelRegistry { entries: mut entries, next_channel: channel, routes } = current;
        let key = endpoint.to_owned();
        let (sender, receiver) = open_channel(CHANNEL_CAPACITY, channel);
        let entry = RegistryEntry { endpoint: key, sender };
        let ghost old_entries = entries@;
        let ghost mut slot: int = 0;
        match find_entry(&entries, &entry.endpoint) {
            Some(i) => {
                entries.set(i, entry);
                proof {
                    slot = i as int;
                }
            },
            None => {
                entries.push(entry);
                proof {
                    slot = old_entries.len() as int;
                }
            },
        }
        let ghost new_routes = routes@.insert(endpoint@, channel);
        proof {
            assert(entries@[slot].endpoint@ == endpoint@);
            assert forall|k: Seq<char>| #[trigger] new_routes.contains_key(k) implies exists|
                i: int,
            | 0 <= i < entries@.len() && #[trigger] entries@[i].endpoint@ == k by {
                if k != endpoint@ {
                    let i = choose|i: int|
                        0 <= i < old_entries.len() && #[trigger] old_entries[i].endpoint@ == k;
                    assert(entries@[i].endpoint@ == k);
                }
            }
        }
        let next: u64 = channel + 1;
        assert(entries_route(entries@, next, new_routes));
        *self = ChannelRegistry { entries, next_channel: next, routes: Ghost(new_routes) };
        receiver
    }

    /// The sending half of the channel `endpoint` currently routes to, or
    /// `None` when no channel is registered under that name.
    pub fn get_sender(&self, endpoint: &str) -> (r: Option<ChannelSender>)
        ensures
            r is None <==> !self.routes().contains_key(endpoint@),
            r matches Some(s) ==> s.id() == self.routes()[endpoint@],
            self.channels_fresh(),
    {
        proof {
            use_type_invariant(self);
        }
        let key = endpoint.to_owned();
        match find_entry(&self.entries, &key) {
            Some(i) => Some(share_sender(&self.entries[i].sender)),
            None => None,
        }
    }
}

impl Default for ChannelRegistry {
    fn default() -> (r: ChannelRegistry)
        ensures
            r.routes() == Map::<Seq<char>, u64>::empty(),
            r.channels_fresh(),
            r.next_channel() == 0,
    {
        ChannelRegistry::new()
    }
}

/// Registering one endpoint twice in a row gives two different channels, the
/// endpoint then routes to the second, and no endpoint routes to the first any
/// longer: a sender taken before the second registration is stale. Every
/// registry is fresh in the sense `channels_fresh` states; `can_register` and
/// `get_sender` say so of the registry they are called on.
pub proof fn lemma_reregistration_orphans_first(reg: ChannelRegistry, endpoint: Seq<char>)
    requires
        reg.channels_fresh(),
        reg.next_channel() + 1 < u64::MAX,
    ensures
        ({
            let first = reg.next_channel();
            let second = (reg.next_channel() + 1) as u64;
            let after = reg.routes().insert(endpoint, first).insert(endpoint, second);
            &&& first != second
            &&& after[endpoint] == second
            &&& forall|k: Seq<char>| #[trigger] after.contains_key(k) ==> after[k] != first
        }),
{
    let first = reg.next_channel();
    let second = (reg.next_channel() + 1) as u64;
    let after = reg.routes().insert(endpoint, first).insert(endpoint, second);
    assert forall|k: Seq<char>| #[trigger] after.contains_key(k) implies after[k] != first by {
        if k != endpoint {
            assert(reg.routes().contains_key(k));
        }
    }
}

} // verus!
