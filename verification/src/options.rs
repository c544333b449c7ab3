//! Connection settings for the WebSocket transport. A transport ignores the
//! settings that it cannot honour.

use std::time::Duration;
use vstd::prelude::*;

verus! {

/// Settings of one connection, built up call by call.
#[derive(Clone, Debug)]
pub struct WsOptions {
    /// Sub-protocols to offer, in the order they were added.
    pub protocols: Vec<String>,
    pub max_frame_size: Option<usize>,
    pub max_message_size: Option<usize>,
    pub ping_interval: Option<Duration>,
}

impl Default for WsOptions {
    /// No sub-protocol and no limit.
    fn default() -> (o: Self)
        ensures
            o.protocols@ == Seq::<String>::empty(),
            o.max_frame_size is None,
            o.max_message_size is None,
            o.ping_interval is None,
    {
        WsOptions {
            protocols: Vec::new(),
            max_frame_size: None,
            max_message_size: None,
            ping_interval: None,
        }
    }
}

impl WsOptions {
    /// No sub-protocol and no limit.
    pub fn new() -> (o: Self)
        ensures
            o.protocols@ == Seq::<String>::empty(),
            o.max_frame_size is None,
            o.max_message_size is None,
            o.ping_interval is None,
    {
        WsOptions {
            protocols: Vec::new(),
            max_frame_size: None,
            max_message_size: None,
            ping_interval: None,
        }
    }

    /// Adds a sub-protocol after those already there: the string that `p`
    /// converts into.
    pub fn protocol<P: Into<String>>(self, p: P) -> (o: Self)
        ensures
            o.protocols@.len() == self.protocols@.len() + 1,
            o.protocols@.drop_last() == self.protocols@,
            call_ensures(<P as Into<String>>::into, (p,), o.protocols@.last()),
            o.max_frame_size == self.max_frame_size,
            o.max_message_size == self.max_message_size,
            o.ping_interval == self.ping_interval,
    {
        let name: String = p.into();
        let mut o = self;
        o.protocols.push(name);
        assert(o.protocols@.drop_last() =~= self.protocols@);
        o
    }

    /// Sets the largest frame to accept, in bytes.
    pub fn max_frame_size(self, n: usize) -> (o: Self)
        ensures
            o.protocols == self.protocols,
            o.max_frame_size == Some(n),
            o.max_message_size == self.max_message_size,
            o.ping_interval == self.ping_interval,
    {
        let mut o = self;
        o.max_frame_size = Some(n);
        o
    }

    /// Sets the largest message to accept, in bytes.
    pub fn max_message_size(self, n: usize) -> (o: Self)
        ensures
            o.protocols == self.protocols,
            o.max_frame_size == self.max_frame_size,
            o.max_message_size == Some(n),
            o.ping_interval == self.ping_interval,
    {
        let mut o = self;
        o.max_message_size = Some(n);
        o
    }

    /// Sets the time between two pings.
    pub fn ping_interval(self, d: Duration) -> (o: Self)
        ensures
            o.protocols == self.protocols,
            o.max_frame_size == self.max_frame_size,
            o.max_message_size == self.max_message_size,
            o.ping_interval == Some(d),
    {
        let mut o = self;
        o.ping_interval = Some(d);
        o
    }
}

} // verus!
