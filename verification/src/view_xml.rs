//! The engine's status document, as far as it is read: the channels with
//! their listener and relay counts.
use crate::text::str_eq;
use vstd::prelude::*;

verus! {

/// The counts of those who reach a channel from elsewhere.
#[derive(Clone, Copy, Debug)]
pub struct Hits {
    pub listeners: u32,
    pub relays: u32,
}

/// The counts of those whom the engine itself serves.
#[derive(Clone, Copy, Debug)]
pub struct Relay {
    pub listeners: u32,
    pub relays: u32,
}

/// One channel of the status document.
#[derive(Clone, Debug)]
pub struct Channel {
    pub id: String,
    pub hits: Hits,
    pub relay: Relay,
}

impl Channel {
    /// All listeners of the channel.
    pub open spec fn listeners(self) -> int {
        self.hits.listeners + self.relay.listeners
    }

    /// All relays of the channel.
    pub open spec fn relays(self) -> int {
        self.hits.relays + self.relay.relays
    }

    /// Both totals fit in 32 bits.
    pub open spec fn countable(self) -> bool {
        self.listeners() <= u32::MAX && self.relays() <= u32::MAX
    }
}

/// The channels of the status document.
#[derive(Clone, Debug)]
pub struct ChannelsFound {
    pub channels: Vec<Channel>,
}

/// The status document.
#[derive(Clone, Debug)]
pub struct ViewXml {
    pub channels_found: ChannelsFound,
}

/// Whether channel `i` of `channels` is the first one with the id `id`.
pub open spec fn first_channel_at(channels: Seq<Channel>, id: Seq<char>, i: int) -> bool {
    &&& 0 <= i < channels.len()
    &&& channels[i].id@ == id
    &&& forall|k: int| 0 <= k < i ==> (#[trigger] channels[k]).id@ != id
}

impl ViewXml {
    /// The channels of the document.
    pub open spec fn channels(self) -> Seq<Channel> {
        self.channels_found.channels@
    }

    /// Whether the document knows a channel with the id `id`.
    pub open spec fn knows(self, id: Seq<char>) -> bool {
        exists|i: int| 0 <= i < self.channels().len() && (#[trigger] self.channels()[i]).id@ == id
    }

    /// The totals of every channel fit in 32 bits.
    pub open spec fn wf(self) -> bool {
        forall|i: int| 0 <= i < self.channels().len() ==> (#[trigger] self.channels()[i]).countable()
    }

    /// Whether the totals of every channel fit in 32 bits.
    pub fn is_wf(&self) -> (yes: bool)
        ensures
            yes == self.wf(),
    {
        let channels = &self.channels_found.channels;
        let mut i: usize = 0;
        while i < channels.len()
            invariant
                i <= channels@.len(),
                channels@ == self.channels(),
                forall|k: int| 0 <= k < i ==> (#[trigger] self.channels()[k]).countable(),
            decreases channels@.len() - i,
        {
            let channel = &channels[i];
            if channel.hits.listeners > u32::MAX - channel.relay.listeners || channel.hits.relays
                > u32::MAX - channel.relay.relays {
                assert(!self.channels()[i as int].countable());
                return false;
            }
            i += 1;
        }
        true
    }

    /// The listeners and the relays of the first channel with the id
    /// `channel_id`, each the total of those who reach the channel from
    /// elsewhere and those whom the engine serves.
    pub fn find_listeners_relays(&self, channel_id: &str) -> (counts: Option<(u32, u32)>)
        requires
            self.wf(),
        ensures
            counts.is_some() == self.knows(channel_id@),
            counts matches Some(pair) ==> exists|i: int|
                first_channel_at(self.channels(), channel_id@, i) && pair.0
                    == self.channels()[i].listeners() && pair.1 == self.channels()[i].relays(),
    {
        let channels = &self.channels_found.channels;
        let mut i: usize = 0;
        while i < channels.len()
            invariant
                i <= channels@.len(),
                channels@ == self.channels(),
                self.wf(),
                forall|k: int| 0 <= k < i ==> (#[trigger] self.channels()[k]).id@ != channel_id@,
            decreases channels@.len() - i,
        {
            let channel = &channels[i];
            if str_eq(channel.id.as_str(), channel_id) {
                assert(self.channels()[i as int].countable());
                assert(first_channel_at(self.channels(), channel_id@, i as int));
                return Some(
                    (
                        channel.hits.listeners + channel.relay.listeners,
                        channel.hits.relays + channel.relay.relays,
                    ),
                );
            }
            i += 1;
        }
        None
    }
}

} // verus!
