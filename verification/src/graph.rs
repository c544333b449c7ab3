//! Builder that wires one talk gate, the sinks and an optional player into the
//! parts of a running pipeline.

use crate::channels::{tokio_channel, tokio_try_recv, Handoff};
use crate::fanout::{AnySink, FanoutSink, Wiring};
use crate::player::Player;
use crate::recorder::Recorder;
use crate::sinks::MpscSink;
use crate::trace::SinkEvent;
use crate::traits::PacketSource;
use bytes::Bytes;
use std::sync::atomic::AtomicBool;
use std::sync::Arc;
use vstd::prelude::*;

verus! {

/// Packets that the channel between recorder and player can hold.
pub const PLAYBACK_QUEUE: usize = 512;

/// Output channels of the player that `play` wires.
pub const PLAYBACK_CHANNELS: usize = 2;

impl PacketSource for tokio::sync::mpsc::Receiver<Bytes> {
    fn try_recv(&mut self) -> Option<Bytes> {
        tokio_try_recv(self)
    }
}

/// Why a graph cannot run.
#[derive(Clone, Copy, Debug, PartialEq, Eq, Structural)]
pub enum ConfigurationError {
    /// No sink was registered.
    NoSink,
    /// No talk gate was supplied.
    NoGate,
}

impl ConfigurationError {
    /// The error in words.
    pub fn message(&self) -> (text: &'static str)
        ensures
            *self == ConfigurationError::NoSink ==> text@ == "AudioGraph: no sinks attached"@,
            *self == ConfigurationError::NoGate ==> text@
                == "AudioGraph: no gate supplied, call record first"@,
    {
        match self {
            ConfigurationError::NoSink => "AudioGraph: no sinks attached",
            ConfigurationError::NoGate => "AudioGraph: no gate supplied, call record first",
        }
    }
}

/// The parts of a pipeline that is ready to be driven: the talk gate to read
/// once per capture callback, the recorder for the capture callback, and the
/// player, if one was asked for, for the playback callback.
pub struct Pipeline {
    pub gate: Arc<AtomicBool>,
    pub recorder: Recorder<Wiring<AnySink>>,
    pub player: Option<Player<tokio::sync::mpsc::Receiver<Bytes>>>,
}

impl Pipeline {
    /// Reads the talk gate. No order is kept with anything else in memory; a
    /// change becomes visible sooner or later.
    pub fn pressed(&self) -> bool {
        self.gate.load(std::sync::atomic::Ordering::Relaxed)
    }
}

/// What has been wired so far.
pub struct AudioGraph {
    ptt: Option<Arc<AtomicBool>>,
    sinks: Vec<AnySink>,
    player: Option<Player<tokio::sync::mpsc::Receiver<Bytes>>>,
}

impl AudioGraph {
    /// The talk gate, if one was supplied.
    pub closed spec fn gate(&self) -> Option<Arc<AtomicBool>> {
        self.ptt
    }

    /// The registered sinks, in the order of their registration.
    pub closed spec fn sinks(&self) -> Seq<AnySink> {
        self.sinks@
    }

    /// The player, if one was asked for.
    pub closed spec fn player(&self) -> Option<Player<tokio::sync::mpsc::Receiver<Bytes>>> {
        self.player
    }

    /// A graph with nothing wired.
    pub fn new() -> (g: Self)
        ensures
            g.gate() is None,
            g.sinks() == Seq::<AnySink>::empty(),
            g.player() is None,
    {
        AudioGraph { ptt: None, sinks: Vec::new(), player: None }
    }

    /// Capture while `flag` is `true`. A second flag replaces the first.
    pub fn record(self, flag: Arc<AtomicBool>) -> (g: Self)
        ensures
            g.gate() == Some(flag),
            g.sinks() == self.sinks(),
            g.player() == self.player(),
    {
        let mut g = self;
        g.ptt = Some(flag);
        g
    }

    /// Registers a sink.
    pub fn sink(self, s: AnySink) -> (g: Self)
        ensures
            g.gate() == self.gate(),
            g.sinks() == self.sinks().push(s),
            g.player() == self.player(),
    {
        let mut g = self;
        g.sinks.push(s);
        g
    }

    /// Registers a live relay in front of `tx`.
    pub fn sink_channel(self, tx: tokio::sync::mpsc::Sender<Bytes>) -> (g: Self)
        ensures
            g.gate() == self.gate(),
            g.sinks().len() == self.sinks().len() + 1,
            g.sinks().drop_last() == self.sinks(),
            g.sinks().last() is Live,
            g.sinks().last()->Live_0.queue() == tx,
            g.sinks().last()->Live_0.history() == Seq::<Handoff<Seq<u8>>>::empty(),
            g.player() == self.player(),
    {
        let mut g = self;
        g.sinks.push(AnySink::Live(MpscSink::new(tx)));
        assert(g.sinks@.drop_last() =~= self.sinks@);
        g
    }

    /// Adds playback: a new channel of 512 packets, a live relay in front
    /// of it, and a stereo player behind it. A second player replaces the
    /// first.
    pub fn play(self) -> (g: Self)
        ensures
            g.gate() == self.gate(),
            g.sinks().len() == self.sinks().len() + 1,
            g.sinks().drop_last() == self.sinks(),
            g.sinks().last() is Live,
            g.sinks().last()->Live_0.history() == Seq::<Handoff<Seq<u8>>>::empty(),
            g.player() is Some,
            g.player()->Some_0.wf(),
            g.player()->Some_0.channels() == PLAYBACK_CHANNELS,
            g.player()->Some_0.buffered() == Seq::<i16>::empty(),
    {
        let (tx, rx) = tokio_channel(PLAYBACK_QUEUE);
        let mut g = self;
        g.sinks.push(AnySink::Live(MpscSink::new(tx)));
        g.player = Some(Player::new(rx, PLAYBACK_CHANNELS));
        assert(g.sinks@.drop_last() =~= self.sinks@);
        g
    }

    /// Composes the pipeline. Fails when no sink was registered, and
    /// otherwise when no talk gate was supplied. The recorder is idle and feeds
    /// the one sink directly, or a fan-out over all of them when there are
    /// several.
    pub fn run(self) -> (r: Result<Pipeline, ConfigurationError>)
        ensures
            self.sinks().len() == 0 ==> r == Err::<Pipeline, _>(ConfigurationError::NoSink),
            self.sinks().len() > 0 && self.gate() is None ==> r == Err::<Pipeline, _>(
                ConfigurationError::NoGate,
            ),
            self.sinks().len() > 0 && self.gate() is Some ==> r is Ok && {
                let p = r->Ok_0;
                &&& p.gate == self.gate()->Some_0
                &&& p.player == self.player()
                &&& p.recorder.wf()
                &&& !p.recorder.recording()
                &&& p.recorder.carry() == Seq::<i16>::empty()
                &&& p.recorder.burst().packets == Seq::<Seq<u8>>::empty()
                &&& p.recorder.emitted() == Seq::<SinkEvent>::empty()
                &&& self.sinks().len() == 1 ==> p.recorder.sink() == Wiring::Single(
                    self.sinks()[0],
                )
                &&& self.sinks().len() > 1 ==> p.recorder.sink() is Fanout
                    && p.recorder.sink()->Fanout_0.0@ == self.sinks()
            },
    {
        let mut sinks = self.sinks;
        let wiring = match sinks.len() {
            0 => {
                return Err(ConfigurationError::NoSink);
            },
            1 => {
                let only = sinks.pop();
                Wiring::Single(only.unwrap())
            },
            _ => Wiring::Fanout(FanoutSink::new(sinks)),
        };
        match self.ptt {
            None => Err(ConfigurationError::NoGate),
            Some(gate) => Ok(
                Pipeline { gate, recorder: Recorder::new(wiring), player: self.player },
            ),
        }
    }
}

} // verus!
