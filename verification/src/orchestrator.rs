//! The orchestrator: a state machine that sequences bus bring-up, display
//! bring-up with a first render, IMU bring-up, the network wait with a
//! second render, and the steady sampling loop.
//!
//! Every hardware effect is an [`Action`] handed to the surrounding harness;
//! the harness performs it and reports the outcome back as an [`Event`].
//! Bring-up failures halt the machine for good; a failed sample only logs an
//! error and the loop keeps its cadence.

use vstd::prelude::*;
use crate::bytes::copy_bytes;
use crate::display::DisplayState;
use crate::freq::{highest_freq_in_band, is_highest_in_band, some_candidate_in_band};
use crate::imu::SensorSample;
use crate::net::{NetAddress, format_ip_line, ip_line};

verus! {

/// Milliseconds between two sample reads.
pub const SAMPLE_INTERVAL_MS: u64 = 100;

/// Where the bring-up sequence stands.
#[derive(Clone, Copy, PartialEq, Eq, Structural, Debug)]
pub enum Phase {
    /// Waiting for the display controller's bring-up to finish.
    DisplayInit,
    /// Waiting for the first frame (version and `Connecting...`) to reach the panel.
    FirstFlush,
    /// Waiting for the IMU's bring-up handshake to finish.
    ImuInit,
    /// Waiting for the network stack to report a usable configuration.
    NetWait,
    /// Waiting for the address frame to reach the panel.
    NetFlush,
    /// Waiting for one sample read to finish.
    Sampling,
    /// Waiting for the fixed interval to elapse.
    Sleeping,
    /// Stopped for good after a fatal bring-up error.
    Halted,
}

/// What the hardware reported back.
#[derive(Clone, Copy, PartialEq, Debug)]
pub enum Event {
    DisplayInitOk,
    DisplayInitFailed,
    FlushOk,
    FlushFailed,
    ImuInitOk,
    ImuInitFailed,
    /// The network wait resolved; the one snapshot of the address, if any.
    NetConfigured(Option<NetAddress>),
    SampleOk(SensorSample),
    SampleFailed,
    TimerElapsed,
}

/// What the harness must do next.
#[derive(Clone, Copy, PartialEq, Debug)]
pub enum Action {
    /// Run the display controller's bring-up sequence.
    InitDisplay,
    /// Send the buffered frame to the panel.
    FlushFrame,
    /// Run the IMU's bring-up handshake.
    InitImu,
    /// Wait for link configuration, then snapshot the address once.
    AwaitNetwork,
    /// Read one 9-axis sample.
    ReadSample,
    /// Suspend for the given number of milliseconds.
    SleepMs(u64),
    /// Stop: a fatal bring-up error.
    Halt,
}

/// One line of the structured log.
#[derive(Clone, Copy, PartialEq, Debug)]
pub enum LogEntry {
    ImuInitialized,
    IpAssigned(NetAddress),
    Sample(SensorSample),
    ReadError,
}

/// The abstract state of the firmware: the phase, the configured bus clock,
/// the version text, the display buffer and the panel content, the log, and
/// how often the address frame has been rendered.
#[verifier::ext_equal]
pub struct Model {
    pub phase: Phase,
    pub freq_khz: Option<u32>,
    pub ver: Seq<u8>,
    pub row0: Seq<u8>,
    pub row1: Seq<u8>,
    pub shown0: Seq<u8>,
    pub shown1: Seq<u8>,
    pub log: Seq<LogEntry>,
    pub net_renders: nat,
}

/// The text `Connecting...` in ASCII.
pub open spec fn connecting_line() -> Seq<u8> {
    seq![67u8, 111u8, 110u8, 110u8, 101u8, 99u8, 116u8, 105u8, 110u8, 103u8, 46u8, 46u8, 46u8]
}

/// The text `Connecting...`.
pub fn connecting_text() -> (r: Vec<u8>)
    ensures
        r@ == connecting_line(),
{
    let mut r: Vec<u8> = Vec::new();
    r.push(67);
    r.push(111);
    r.push(110);
    r.push(110);
    r.push(101);
    r.push(99);
    r.push(116);
    r.push(105);
    r.push(110);
    r.push(103);
    r.push(46);
    r.push(46);
    r.push(46);
    proof {
        assert(r@ =~= connecting_line());
    }
    r
}

/// The action a phase is waiting on: what the machine answers when an event
/// arrives that the phase is not waiting for.
pub open spec fn pending_action(phase: Phase) -> Action {
    match phase {
        Phase::DisplayInit => Action::InitDisplay,
        Phase::FirstFlush => Action::FlushFrame,
        Phase::ImuInit => Action::InitImu,
        Phase::NetWait => Action::AwaitNetwork,
        Phase::NetFlush => Action::FlushFrame,
        Phase::Sampling => Action::ReadSample,
        Phase::Sleeping => Action::SleepMs(SAMPLE_INTERVAL_MS),
        Phase::Halted => Action::Halt,
    }
}

/// The whole transition relation: from a state and an event to the next
/// state and the next action. An event a phase is not waiting for leaves the
/// state unchanged and repeats the pending action.
pub open spec fn spec_step(m: Model, e: Event) -> (Model, Action) {
    match (m.phase, e) {
        (Phase::DisplayInit, Event::DisplayInitOk) => (
            Model { phase: Phase::FirstFlush, row0: m.ver, row1: connecting_line(), ..m },
            Action::FlushFrame,
        ),
        (Phase::DisplayInit, Event::DisplayInitFailed) => (
            Model { phase: Phase::Halted, ..m },
            Action::Halt,
        ),
        (Phase::FirstFlush, Event::FlushOk) => (
            Model { phase: Phase::ImuInit, shown0: m.row0, shown1: m.row1, ..m },
            Action::InitImu,
        ),
        (Phase::FirstFlush, Event::FlushFailed) => (Model { phase: Phase::Halted, ..m }, Action::Halt),
        (Phase::ImuInit, Event::ImuInitOk) => (
            Model { phase: Phase::NetWait, log: m.log.push(LogEntry::ImuInitialized), ..m },
            Action::AwaitNetwork,
        ),
        (Phase::ImuInit, Event::ImuInitFailed) => (Model { phase: Phase::Halted, ..m }, Action::Halt),
        (Phase::NetWait, Event::NetConfigured(cfg)) => match cfg {
            Some(a) => (
                Model {
                    phase: Phase::NetFlush,
                    row0: m.ver,
                    row1: ip_line(a),
                    log: m.log.push(LogEntry::IpAssigned(a)),
                    net_renders: m.net_renders + 1,
                    ..m
                },
                Action::FlushFrame,
            ),
            None => (Model { phase: Phase::Sampling, ..m }, Action::ReadSample),
        },
        (Phase::NetFlush, Event::FlushOk) => (
            Model { phase: Phase::Sampling, shown0: m.row0, shown1: m.row1, ..m },
            Action::ReadSample,
        ),
        (Phase::NetFlush, Event::FlushFailed) => (Model { phase: Phase::Halted, ..m }, Action::Halt),
        (Phase::Sampling, Event::SampleOk(s)) => (
            Model { phase: Phase::Sleeping, log: m.log.push(LogEntry::Sample(s)), ..m },
            Action::SleepMs(SAMPLE_INTERVAL_MS),
        ),
        (Phase::Sampling, Event::SampleFailed) => (
            Model { phase: Phase::Sleeping, log: m.log.push(LogEntry::ReadError), ..m },
            Action::SleepMs(SAMPLE_INTERVAL_MS),
        ),
        (Phase::Sleeping, Event::TimerElapsed) => (
            Model { phase: Phase::Sampling, ..m },
            Action::ReadSample,
        ),
        _ => (m, pending_action(m.phase)),
    }
}

/// A log entry the sampling loop writes.
pub open spec fn is_sampling_entry(e: LogEntry) -> bool {
    e is Sample || e is ReadError
}

/// No entry of the log came from the sampling loop.
pub open spec fn no_sampling_entries(log: Seq<LogEntry>) -> bool {
    forall|i: int| 0 <= i < log.len() ==> !is_sampling_entry(#[trigger] log[i])
}

/// The bottom row holds a status line: `Connecting...` before the address
/// render, the address text after it.
pub open spec fn status_row(m: Model) -> bool {
    ||| m.net_renders == 0 && m.row1 == connecting_line()
    ||| m.net_renders == 1 && (exists|a: NetAddress| m.row1 == ip_line(a))
}

/// What holds of every reachable state: the display buffer and the panel
/// hold exactly the frames the phase calls for, the address frame has been
/// rendered at most once and not before the network resolved, and a halted
/// machine halted before any sampling log line.
pub open spec fn inv(m: Model) -> bool {
    &&& m.net_renders <= 1
    &&& (m.phase is DisplayInit || m.phase is FirstFlush || m.phase is ImuInit || m.phase
        is NetWait ==> m.net_renders == 0)
    &&& (m.phase is DisplayInit ==> m.row0 == Seq::<u8>::empty() && m.row1 == Seq::<u8>::empty()
        && m.shown0 == Seq::<u8>::empty() && m.shown1 == Seq::<u8>::empty() && m.log
        == Seq::<LogEntry>::empty())
    &&& (m.phase is FirstFlush ==> m.row0 == m.ver && m.row1 == connecting_line() && m.shown0
        == Seq::<u8>::empty() && m.shown1 == Seq::<u8>::empty() && m.log
        == Seq::<LogEntry>::empty())
    &&& (m.phase is ImuInit ==> m.row0 == m.ver && m.row1 == connecting_line() && m.shown0
        == m.ver && m.shown1 == connecting_line() && m.log == Seq::<LogEntry>::empty())
    &&& (m.phase is NetWait ==> m.row0 == m.ver && m.row1 == connecting_line() && m.shown0
        == m.ver && m.shown1 == connecting_line() && m.log == seq![LogEntry::ImuInitialized])
    &&& (m.phase is NetFlush ==> m.row0 == m.ver && m.shown0 == m.ver && m.shown1
        == connecting_line() && m.net_renders == 1 && (exists|a: NetAddress|
        m.row1 == ip_line(a) && m.log == seq![LogEntry::ImuInitialized, LogEntry::IpAssigned(a)]))
    &&& (m.phase is Sampling || m.phase is Sleeping ==> m.row0 == m.ver && m.shown0 == m.ver
        && m.shown1 == m.row1 && status_row(m))
    &&& (m.phase is Halted ==> no_sampling_entries(m.log))
}

/// Every step keeps the invariant.
pub proof fn lemma_step_preserves_inv(m: Model, e: Event)
    requires
        inv(m),
    ensures
        inv(spec_step(m, e).0),
{
    let m2 = spec_step(m, e).0;
    match (m.phase, e) {
        (Phase::NetWait, Event::NetConfigured(cfg)) => {
            match cfg {
                Some(a) => {
                    assert(m2.row1 == ip_line(a) && m2.log == seq![
                        LogEntry::ImuInitialized,
                        LogEntry::IpAssigned(a),
                    ]);
                }
                None => {}
            }
        }
        _ => {}
    }
}

/// The firmware: the executable state machine whose abstract state is a
/// [`Model`]. Built by [`Firmware::boot`]; driven by [`Firmware::handle_event`].
pub struct Firmware {
    phase: Phase,
    freq_khz: Option<u32>,
    ver: Vec<u8>,
    display: DisplayState,
    log: Vec<LogEntry>,
    net_renders: u32,
}

impl View for Firmware {
    type V = Model;

    closed spec fn view(&self) -> Model {
        Model {
            phase: self.phase,
            freq_khz: self.freq_khz,
            ver: self.ver@,
            row0: self.display.row0(),
            row1: self.display.row1(),
            shown0: self.display.shown0(),
            shown1: self.display.shown1(),
            log: self.log@,
            net_renders: self.net_renders as nat,
        }
    }
}

impl Firmware {
    /// Step 1 of the sequence: configures the bus clock at the highest
    /// candidate frequency within the accepted band and asks for the display
    /// bring-up. With no candidate in the band, bus bring-up is a fatal
    /// error and the machine halts at once.
    pub fn boot(version: &Vec<u8>, freq_candidates: &Vec<u32>) -> (r: (Firmware, Action))
        ensures
            inv(r.0@),
            r.0@.ver == version@,
            r.0@.log == Seq::<LogEntry>::empty(),
            r.0@.net_renders == 0,
            r.0@.row0 == Seq::<u8>::empty(),
            r.0@.row1 == Seq::<u8>::empty(),
            r.0@.shown0 == Seq::<u8>::empty(),
            r.0@.shown1 == Seq::<u8>::empty(),
            some_candidate_in_band(freq_candidates@) ==> {
                &&& r.0@.phase is DisplayInit
                &&& r.0@.freq_khz is Some
                &&& is_highest_in_band(freq_candidates@, r.0@.freq_khz->Some_0)
                &&& r.1 is InitDisplay
            },
            !some_candidate_in_band(freq_candidates@) ==> {
                &&& r.0@.phase is Halted
                &&& r.0@.freq_khz is None
                &&& r.1 is Halt
            },
    {
        let freq = highest_freq_in_band(freq_candidates);
        let halted = freq.is_none();
        let fw = Firmware {
            phase: if halted {
                Phase::Halted
            } else {
                Phase::DisplayInit
            },
            freq_khz: freq,
            ver: copy_bytes(version),
            display: DisplayState::new(),
            log: Vec::new(),
            net_renders: 0,
        };
        let action = if halted {
            Action::Halt
        } else {
            Action::InitDisplay
        };
        (fw, action)
    }

    /// Takes the outcome the harness reports and answers with the next
    /// action, exactly as the transition relation [`spec_step`] says.
    pub fn handle_event(&mut self, e: Event) -> (a: Action)
        requires
            inv(old(self)@),
        ensures
            final(self)@ == spec_step(old(self)@, e).0,
            a == spec_step(old(self)@, e).1,
            inv(final(self)@),
    {
        proof {
            lemma_step_preserves_inv(old(self)@, e);
        }
        match (self.phase, e) {
            (Phase::DisplayInit, Event::DisplayInitOk) => {
                self.phase = Phase::FirstFlush;
                let line1 = connecting_text();
                let line0 = copy_bytes(&self.ver);
                self.display.render_two_lines(&line0, &line1);
                proof {
                    assert(self@ =~= spec_step(old(self)@, e).0);
                }
                Action::FlushFrame
            }
            (Phase::DisplayInit, Event::DisplayInitFailed) => {
                self.phase = Phase::Halted;
                proof {
                    assert(self@ =~= spec_step(old(self)@, e).0);
                }
                Action::Halt
            }
            (Phase::FirstFlush, Event::FlushOk) => {
                self.phase = Phase::ImuInit;
                self.display.flush();
                proof {
                    assert(self@ =~= spec_step(old(self)@, e).0);
                }
                Action::InitImu
            }
            (Phase::FirstFlush, Event::FlushFailed) => {
                self.phase = Phase::Halted;
                proof {
                    assert(self@ =~= spec_step(old(self)@, e).0);
                }
                Action::Halt
            }
            (Phase::ImuInit, Event::ImuInitOk) => {
                self.phase = Phase::NetWait;
                self.log.push(LogEntry::ImuInitialized);
                proof {
                    assert(self@ =~= spec_step(old(self)@, e).0);
                }
                Action::AwaitNetwork
            }
            (Phase::ImuInit, Event::ImuInitFailed) => {
                self.phase = Phase::Halted;
                proof {
                    assert(self@ =~= spec_step(old(self)@, e).0);
                }
                Action::Halt
            }
            (Phase::NetWait, Event::NetConfigured(cfg)) => {
                match cfg {
                    Some(a) => {
                        self.phase = Phase::NetFlush;
                        let line1 = format_ip_line(&a);
                        let line0 = copy_bytes(&self.ver);
                        self.display.render_two_lines(&line0, &line1);
                        self.log.push(LogEntry::IpAssigned(a));
                        self.net_renders = self.net_renders + 1;
                        proof {
                            assert(self@ =~= spec_step(old(self)@, e).0);
                        }
                        Action::FlushFrame
                    }
                    None => {
                        self.phase = Phase::Sampling;
                        proof {
                            assert(self@ =~= spec_step(old(self)@, e).0);
                        }
                        Action::ReadSample
                    }
                }
            }
            (Phase::NetFlush, Event::FlushOk) => {
                self.phase = Phase::Sampling;
                self.display.flush();
                proof {
                    assert(self@ =~= spec_step(old(self)@, e).0);
                }
                Action::ReadSample
            }
            (Phase::NetFlush, Event::FlushFailed) => {
                self.phase = Phase::Halted;
                proof {
                    assert(self@ =~= spec_step(old(self)@, e).0);
                }
                Action::Halt
            }
            (Phase::Sampling, Event::SampleOk(s)) => {
                self.phase = Phase::Sleeping;
                self.log.push(LogEntry::Sample(s));
                proof {
                    assert(self@ =~= spec_step(old(self)@, e).0);
                }
                Action::SleepMs(SAMPLE_INTERVAL_MS)
            }
            (Phase::Sampling, Event::SampleFailed) => {
                self.phase = Phase::Sleeping;
                self.log.push(LogEntry::ReadError);
                proof {
                    assert(self@ =~= spec_step(old(self)@, e).0);
                }
                Action::SleepMs(SAMPLE_INTERVAL_MS)
            }
            (Phase::Sleeping, Event::TimerElapsed) => {
                self.phase = Phase::Sampling;
                proof {
                    assert(self@ =~= spec_step(old(self)@, e).0);
                }
                Action::ReadSample
            }
            _ => {
                proof {
                    assert(self@ =~= spec_step(old(self)@, e).0);
                }
                self.pending()
            }
        }
    }

    /// The action the current phase is waiting on.
    pub fn pending(&self) -> (a: Action)
        ensures
            a == pending_action(self@.phase),
    {
        match self.phase {
            Phase::DisplayInit => Action::InitDisplay,
            Phase::FirstFlush => Action::FlushFrame,
            Phase::ImuInit => Action::InitImu,
            Phase::NetWait => Action::AwaitNetwork,
            Phase::NetFlush => Action::FlushFrame,
            Phase::Sampling => Action::ReadSample,
            Phase::Sleeping => Action::SleepMs(SAMPLE_INTERVAL_MS),
            Phase::Halted => Action::Halt,
        }
    }

    pub fn phase(&self) -> (r: Phase)
        ensures
            r == self@.phase,
    {
        self.phase
    }

    pub fn freq_khz(&self) -> (r: Option<u32>)
        ensures
            r == self@.freq_khz,
    {
        self.freq_khz
    }

    pub fn log_entries(&self) -> (r: &Vec<LogEntry>)
        ensures
            r@ == self@.log,
    {
        &self.log
    }

    pub fn display(&self) -> (r: &DisplayState)
        ensures
            r.row0() == self@.row0,
            r.row1() == self@.row1,
            r.shown0() == self@.shown0,
            r.shown1() == self@.shown1,
    {
        &self.display
    }

    pub fn render_count(&self) -> (r: u32)
        ensures
            r as nat == self@.net_renders,
    {
        self.net_renders
    }
}

} // verus!
