//! The session registry: at most one game slot per channel.

use vstd::prelude::*;
use std::collections::HashMap;
use crate::session::ChannelGame;

verus! {

/// Map from channel id to that channel's one session slot.
pub struct SessionRegistry {
    pub slots: HashMap<u64, ChannelGame>,
}

impl View for SessionRegistry {
    type V = Map<u64, ChannelGame>;

    open spec fn view(&self) -> Map<u64, ChannelGame> {
        self.slots@
    }
}

impl SessionRegistry {
    pub fn new() -> (r: SessionRegistry)
        ensures
            r@ == Map::<u64, ChannelGame>::empty(),
    {
        SessionRegistry { slots: HashMap::new() }
    }

    pub fn contains(&self, channel: u64) -> (r: bool)
        ensures
            r == self@.contains_key(channel),
    {
        self.slots.contains_key(&channel)
    }

    /// Read the channel's slot.
    pub fn get(&self, channel: u64) -> (r: Option<&ChannelGame>)
        ensures
            match r {
                Some(g) => self@.contains_key(channel) && *g == self@[channel],
                None => !self@.contains_key(channel),
            },
    {
        self.slots.get(&channel)
    }

    /// Withdraw the channel's slot for exclusive mutation; `put` hands
    /// it back.
    pub fn take(&mut self, channel: u64) -> (r: Option<ChannelGame>)
        ensures
            final(self)@ == old(self)@.remove(channel),
            match r {
                Some(g) => old(self)@.contains_key(channel) && g == old(self)@[channel],
                None => !old(self)@.contains_key(channel),
            },
    {
        self.slots.remove(&channel)
    }

    /// Install the channel's slot.
    pub fn put(&mut self, channel: u64, game: ChannelGame)
        ensures
            final(self)@ == old(self)@.insert(channel, game),
    {
        self.slots.insert(channel, game);
    }
}

} // verus!
