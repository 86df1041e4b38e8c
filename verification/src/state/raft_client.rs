//! The pool of channels to the peers, one for each address.
//!
//! A channel is whatever the transport hands out: the pool keeps it and
//! gives out clones. Opening a channel is the transport's work. The pool
//! says whether there is one to reuse, and keeps the one that was opened.
//! Where the pool is shared, its holders take turns.

use vstd::prelude::*;
use crate::string_map::StringMap;

verus! {

/// What the pool has for an address.
#[derive(Debug, PartialEq)]
pub enum Pooled<C> {
    /// A channel to the address is there; here is a clone of it.
    Reuse(C),
    /// None is there: one has to be opened.
    Connect,
}

/// The pool.
#[derive(Debug, PartialEq)]
pub struct RaftClient<C> {
    channels: StringMap<C>,
}

impl<C> View for RaftClient<C> {
    type V = Map<Seq<char>, C>;

    /// The channel that is kept for each address that has one.
    closed spec fn view(&self) -> Map<Seq<char>, C> {
        self.channels.as_map()
    }
}

impl<C: Clone> RaftClient<C> {
    /// A pool without channels.
    pub fn new() -> (r: Self)
        ensures
            r@ == Map::<Seq<char>, C>::empty(),
    {
        RaftClient { channels: StringMap::new() }
    }

    /// What the pool has for `addr`: a clone of the channel kept for it, or
    /// the word that there is none.
    pub fn get(&self, addr: &str) -> (r: Pooled<C>)
        ensures
            match r {
                Pooled::Reuse(channel) => self@.contains_key(addr@) && cloned(
                    self@[addr@],
                    channel,
                ),
                Pooled::Connect => !self@.contains_key(addr@),
            },
    {
        match self.channels.get(addr) {
            Some(channel) => Pooled::Reuse(channel.clone()),
            None => Pooled::Connect,
        }
    }

    /// Keeps `channel` for `addr`, in place of any that was kept for it.
    pub fn put(&mut self, addr: String, channel: C)
        ensures
            final(self)@ == old(self)@.insert(addr@, channel),
    {
        let _ = self.channels.insert(addr, channel);
    }
}

} // verus!
