//! The decisions of the acquisition worker, as a state machine. The worker
//! that owns the port hands each command and each read outcome to it, and
//! does what it answers: open a port, reset its poll timer, report a status,
//! release the port.
use vstd::prelude::*;
use crate::scale::{ScaleWeight, WeightFields};
use crate::session::{block_reading, reading_of_block};

verus! {

/// A command from the foreground to the worker.
#[derive(Debug, Clone, PartialEq)]
pub enum ScaleLoggerCommand {
    OpenPort(String),
    /// Start polling, once per this many milliseconds.
    StartLog(u128),
    StopLog,
}

/// An event from the worker to the foreground.
#[derive(Debug, Clone, PartialEq)]
pub enum ScaleStatus {
    OpenSucceeded(String),
    OpenFailed(String),
    Weight(ScaleWeight),
    Disconnected,
}

pub ghost enum StatusView {
    OpenSucceeded(Seq<char>),
    OpenFailed(Seq<char>),
    Weight(WeightFields),
    Disconnected,
}

impl View for ScaleStatus {
    type V = StatusView;

    open spec fn view(&self) -> StatusView {
        match self {
            ScaleStatus::OpenSucceeded(n) => StatusView::OpenSucceeded(n@),
            ScaleStatus::OpenFailed(n) => StatusView::OpenFailed(n@),
            ScaleStatus::Weight(w) => StatusView::Weight(w@),
            ScaleStatus::Disconnected => StatusView::Disconnected,
        }
    }
}

/// What one read of the port gave.
#[derive(Debug)]
pub enum PollOutcome {
    Frame(Vec<u8>),
    TimedOut,
    IoError,
}

pub ghost enum PollView {
    Frame(Seq<u8>),
    TimedOut,
    IoError,
}

impl View for PollOutcome {
    type V = PollView;

    open spec fn view(&self) -> PollView {
        match self {
            PollOutcome::Frame(b) => PollView::Frame(b@),
            PollOutcome::TimedOut => PollView::TimedOut,
            PollOutcome::IoError => PollView::IoError,
        }
    }
}

/// What the worker must do after a command.
#[derive(Debug, PartialEq)]
pub enum Request {
    Nothing,
    /// Try to open this port, then report the outcome with `port_opened`.
    OpenPort(String),
    /// Restart the poll timer.
    ResetTimer,
}

#[derive(Debug, Clone, Copy, PartialEq, Eq, Structural)]
pub enum LoopState {
    /// No port is open.
    Idle,
    /// A port is open and is not polled.
    ConnectedStopped,
    /// A port is open and is polled on a timer.
    ConnectedStarted,
}

/// Poll interval in force before any `StartLog`.
pub const DEFAULT_INTERVAL_MS: u128 = 500;

/// The worker's state: whether a port is open and polled, and how often.
#[derive(Debug, Clone, Copy, PartialEq, Eq, Structural)]
pub struct Acquisition {
    pub state: LoopState,
    pub interval_ms: u128,
}

/// The state after a command. Starting needs an open port; without one only
/// the interval is kept for later.
pub open spec fn after_command(a: Acquisition, c: ScaleLoggerCommand) -> Acquisition {
    match c {
        ScaleLoggerCommand::OpenPort(_) => a,
        ScaleLoggerCommand::StartLog(f) => Acquisition {
            state: if a.state == LoopState::Idle {
                LoopState::Idle
            } else {
                LoopState::ConnectedStarted
            },
            interval_ms: f,
        },
        ScaleLoggerCommand::StopLog => if a.state == LoopState::ConnectedStarted {
            Acquisition { state: LoopState::ConnectedStopped, ..a }
        } else {
            a
        },
    }
}

/// The state after an attempt to open a port. A new port replaces an open
/// one; a failed attempt leaves an open one in place.
pub open spec fn after_open(a: Acquisition, opened: bool) -> Acquisition {
    if opened && a.state == LoopState::Idle {
        Acquisition { state: LoopState::ConnectedStopped, ..a }
    } else {
        a
    }
}

/// The event that reports an attempt to open the port `name`.
pub open spec fn open_status(name: Seq<char>, opened: bool) -> StatusView {
    if opened {
        StatusView::OpenSucceeded(name)
    } else {
        StatusView::OpenFailed(name)
    }
}

/// Whether a poll is due, `elapsed_ms` after the last one.
pub open spec fn is_poll_due(a: Acquisition, elapsed_ms: u128) -> bool {
    a.state == LoopState::ConnectedStarted && elapsed_ms > a.interval_ms
}

/// Longest wait for a command while no poll is pending.
pub const IDLE_WAIT_MS: u64 = 100;

/// How long the worker may wait for a command, `elapsed_ms` after the last
/// poll: until the next poll falls due, and at most `IDLE_WAIT_MS`.
pub open spec fn wait_for(a: Acquisition, elapsed_ms: u128) -> int {
    if a.state != LoopState::ConnectedStarted {
        IDLE_WAIT_MS as int
    } else if elapsed_ms > a.interval_ms {
        0
    } else if a.interval_ms - elapsed_ms + 1 < IDLE_WAIT_MS {
        a.interval_ms - elapsed_ms + 1
    } else {
        IDLE_WAIT_MS as int
    }
}

/// The state after a read, and the event it gives. Only a polled port
/// gives events; a timeout or a line that is no frame gives none, and an
/// I/O error closes the port.
pub open spec fn after_poll(a: Acquisition, o: PollView) -> (Acquisition, Option<StatusView>) {
    if a.state != LoopState::ConnectedStarted {
        (a, None)
    } else {
        match o {
            PollView::Frame(b) => (
                a,
                match block_reading(b) {
                    Some(w) => Some(StatusView::Weight(w)),
                    None => None,
                },
            ),
            PollView::TimedOut => (a, None),
            PollView::IoError => (Acquisition { state: LoopState::Idle, ..a }, Some(StatusView::Disconnected)),
        }
    }
}

/// The state after a run of reads, and the events they gave, in order.
pub open spec fn run_polls(a: Acquisition, os: Seq<PollView>) -> (Acquisition, Seq<StatusView>)
    decreases os.len(),
{
    if os.len() == 0 {
        (a, Seq::empty())
    } else {
        let (b, events) = run_polls(a, os.drop_last());
        let (c, e) = after_poll(b, os.last());
        (
            c,
            match e {
                Some(x) => events.push(x),
                None => events,
            },
        )
    }
}

impl Acquisition {
    /// No port open, and the default interval.
    pub fn new() -> (r: Acquisition)
        ensures
            r.state == LoopState::Idle,
            r.interval_ms == DEFAULT_INTERVAL_MS,
    {
        Acquisition { state: LoopState::Idle, interval_ms: DEFAULT_INTERVAL_MS }
    }

    /// Takes one command.
    pub fn command(&mut self, cmd: ScaleLoggerCommand) -> (r: Request)
        ensures
            *final(self) == after_command(*old(self), cmd),
            match cmd {
                ScaleLoggerCommand::OpenPort(name) => r is OpenPort && r->OpenPort_0@ == name@,
                ScaleLoggerCommand::StartLog(_) => if old(self).state == LoopState::Idle {
                    r is Nothing
                } else {
                    r is ResetTimer
                },
                ScaleLoggerCommand::StopLog => r is Nothing,
            },
    {
        match cmd {
            ScaleLoggerCommand::OpenPort(name) => Request::OpenPort(name),
            ScaleLoggerCommand::StartLog(f) => {
                self.interval_ms = f;
                if self.state == LoopState::Idle {
                    Request::Nothing
                } else {
                    self.state = LoopState::ConnectedStarted;
                    Request::ResetTimer
                }
            },
            ScaleLoggerCommand::StopLog => {
                if self.state == LoopState::ConnectedStarted {
                    self.state = LoopState::ConnectedStopped;
                }
                Request::Nothing
            },
        }
    }

    /// Takes the outcome of an attempt to open the port `name`.
    pub fn port_opened(&mut self, name: String, opened: bool) -> (r: ScaleStatus)
        ensures
            *final(self) == after_open(*old(self), opened),
            r@ == open_status(name@, opened),
    {
        if opened {
            if self.state == LoopState::Idle {
                self.state = LoopState::ConnectedStopped;
            }
            ScaleStatus::OpenSucceeded(name)
        } else {
            ScaleStatus::OpenFailed(name)
        }
    }

    /// Whether the port is due for a read, `elapsed_ms` after the last one.
    pub fn poll_due(&self, elapsed_ms: u128) -> (r: bool)
        ensures
            r == is_poll_due(*self, elapsed_ms),
    {
        self.state == LoopState::ConnectedStarted && elapsed_ms > self.interval_ms
    }

    /// Milliseconds to wait for a command, `elapsed_ms` after the last poll.
    pub fn wait_ms(&self, elapsed_ms: u128) -> (r: u64)
        ensures
            r == wait_for(*self, elapsed_ms),
    {
        if self.state != LoopState::ConnectedStarted {
            IDLE_WAIT_MS
        } else if elapsed_ms > self.interval_ms {
            0
        } else {
            let remaining = self.interval_ms - elapsed_ms;
            if remaining < IDLE_WAIT_MS as u128 - 1 {
                (remaining + 1) as u64
            } else {
                IDLE_WAIT_MS
            }
        }
    }

    /// Takes the outcome of one read of the port.
    pub fn polled(&mut self, outcome: PollOutcome) -> (r: Option<ScaleStatus>)
        ensures
            *final(self) == after_poll(*old(self), outcome@).0,
            match after_poll(*old(self), outcome@).1 {
                None => r is None,
                Some(e) => r is Some && r->0@ == e,
            },
    {
        if self.state != LoopState::ConnectedStarted {
            return None;
        }
        match outcome {
            PollOutcome::Frame(block) => match reading_of_block(block.as_slice()) {
                Some(w) => Some(ScaleStatus::Weight(w)),
                None => None,
            },
            PollOutcome::TimedOut => None,
            PollOutcome::IoError => {
                self.state = LoopState::Idle;
                Some(ScaleStatus::Disconnected)
            },
        }
    }
}

/// Stopping while the port is open and not polled changes nothing; `command`
/// answers a stop with no request, and commands give no events.
pub proof fn lemma_stop_when_stopped_is_noop(a: Acquisition)
    requires
        a.state == LoopState::ConnectedStopped,
    ensures
        after_command(a, ScaleLoggerCommand::StopLog) == a,
{
}

/// One more read extends a run by exactly what `polled` reports for it, so
/// a sequence of `polled` calls gives the state and the events of `run_polls`.
pub proof fn lemma_run_polls_step(a: Acquisition, os: Seq<PollView>, o: PollView)
    ensures
        run_polls(a, os.push(o)).0 == after_poll(run_polls(a, os).0, o).0,
        run_polls(a, os.push(o)).1 == match after_poll(run_polls(a, os).0, o).1 {
            Some(x) => run_polls(a, os).1.push(x),
            None => run_polls(a, os).1,
        },
{
    assert(os.push(o).drop_last() =~= os);
}

/// On a polled port, a run of reads that each hold a valid frame gives
/// exactly one reading per read, in the order of the reads, and the port
/// stays polled.
pub proof fn lemma_frames_give_readings_in_order(a: Acquisition, os: Seq<PollView>)
    requires
        a.state == LoopState::ConnectedStarted,
        forall|i: int|
            0 <= i < os.len() ==> (#[trigger] os[i]) is Frame && block_reading(os[i]->Frame_0) is Some,
    ensures
        run_polls(a, os).0 == a,
        run_polls(a, os).1.len() == os.len(),
        forall|i: int|
            0 <= i < os.len() ==> #[trigger] run_polls(a, os).1[i] == StatusView::Weight(
                block_reading(os[i]->Frame_0)->0,
            ),
    decreases os.len(),
{
    if os.len() > 0 {
        let init = os.drop_last();
        assert forall|i: int| 0 <= i < init.len() implies (#[trigger] init[i]) is Frame
            && block_reading(init[i]->Frame_0) is Some by {
            assert(init[i] == os[i]);
        }
        lemma_frames_give_readings_in_order(a, init);
        let events = run_polls(a, init).1;
        assert forall|i: int| 0 <= i < os.len() implies #[trigger] run_polls(a, os).1[i]
            == StatusView::Weight(block_reading(os[i]->Frame_0)->0) by {
            if i < init.len() {
                assert(init[i] == os[i]);
                assert(run_polls(a, init).1[i] == StatusView::Weight(
                    block_reading(init[i]->Frame_0)->0,
                ));
            }
        }
    }
}

/// An I/O error on a polled port gives exactly one `Disconnected` and closes
/// the port; opening a port afterwards leaves it open and not polled, and
/// gives exactly one `OpenSucceeded`.
pub proof fn lemma_disconnect_then_reopen(a: Acquisition, name: Seq<char>)
    requires
        a.state == LoopState::ConnectedStarted,
    ensures
        run_polls(a, seq![PollView::IoError]).0.state == LoopState::Idle,
        run_polls(a, seq![PollView::IoError]).1 == seq![StatusView::Disconnected],
        after_open(run_polls(a, seq![PollView::IoError]).0, true).state
            == LoopState::ConnectedStopped,
        open_status(name, true) == StatusView::OpenSucceeded(name),
{
    let os = seq![PollView::IoError];
    assert(os.drop_last() =~= Seq::<PollView>::empty());
    assert(run_polls(a, Seq::<PollView>::empty()).1 =~= Seq::<StatusView>::empty());
    assert(os.last() == PollView::IoError);
    assert(run_polls(a, os).1 =~= seq![StatusView::Disconnected]);
}

} // verus!
