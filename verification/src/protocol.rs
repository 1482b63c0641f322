//! The conversation with the sensor as a state machine.
//!
//! The driver never touches the bus itself. It issues one [`Action`] at a
//! time, which its caller carries out, and is told of the outcome: an
//! [`Event`], or the error of the bus. [`Session::step`] says what the driver
//! asks for next in each phase and on each event, [`Session::failed`] where
//! an error leaves it.

use vstd::prelude::*;
use crate::address::Address;
use crate::command::Command;
use crate::reading::{humidity_field, temperature_field, Humidity, Temperature};
use crate::status::busy_in;
use crate::timing::{cycles_in, POLL_MILLIS, SETTLE_MILLIS};

verus! {

/// A command message to the sensor together with the wait for its completion.
#[derive(Clone, Copy, Debug, PartialEq, Eq)]
pub enum Stage {
    /// Soft reset.
    Reset,
    /// Initialization with calibration enabled.
    Calibrate,
    /// Measurement of humidity and temperature.
    Measure,
}

impl Stage {
    /// The bytes of the stage's command message.
    pub open spec fn message(self) -> Seq<u8> {
        match self {
            Stage::Reset => seq![Command::SoftReset.wire()],
            Stage::Calibrate => seq![
                Command::Initialization.wire(),
                Command::CalibrationEnable.wire(),
                Command::Nop.wire(),
            ],
            Stage::Measure => seq![
                Command::TriggerMeasurement.wire(),
                Command::HumidityAndTemperature.wire(),
                Command::Nop.wire(),
            ],
        }
    }

    /// The phase that follows once the sensor is no longer busy with the
    /// stage's command.
    pub open spec fn completed(self) -> Phase {
        match self {
            Stage::Reset => Phase::Command(Stage::Calibrate),
            Stage::Calibrate => Phase::Idle,
            Stage::Measure => Phase::Fetch,
        }
    }

    /// Builds the stage's command message.
    pub fn bytes(self) -> (bytes: Vec<u8>)
        ensures
            bytes@ == self.message(),
    {
        match self {
            Stage::Reset => vec![Command::SoftReset.opcode()],
            Stage::Calibrate => vec![
                Command::Initialization.opcode(),
                Command::CalibrationEnable.opcode(),
                Command::Nop.opcode(),
            ],
            Stage::Measure => vec![
                Command::TriggerMeasurement.opcode(),
                Command::HumidityAndTemperature.opcode(),
                Command::Nop.opcode(),
            ],
        }
    }

    /// The phase that follows once the sensor is no longer busy with the
    /// stage's command.
    pub fn on_completion(self) -> (phase: Phase)
        ensures
            phase == self.completed(),
    {
        match self {
            Stage::Reset => Phase::Command(Stage::Calibrate),
            Stage::Calibrate => Phase::Idle,
            Stage::Measure => Phase::Fetch,
        }
    }
}

/// Where the driver stands in its conversation with the sensor. Each phase
/// but `Idle` has one outstanding request; see [`Session::pending`].
#[derive(Clone, Copy, Debug, PartialEq, Eq)]
pub enum Phase {
    /// Waiting for the sensor to power up.
    PowerUp,
    /// Writing the stage's command message.
    Command(Stage),
    /// Waiting for the sensor to come back from the soft reset.
    Settle,
    /// Reading the status byte to see whether the stage's command is done.
    Poll(Stage),
    /// Pausing after the sensor reported busy, before the next poll.
    Backoff(Stage),
    /// Reading the response frame of a finished measurement.
    Fetch,
    /// Initialized, with nothing in progress.
    Idle,
}

impl Phase {
    /// Whether the reset and calibration handshake has been completed.
    pub open spec fn initialized(self) -> bool {
        match self {
            Phase::Idle | Phase::Fetch => true,
            Phase::Command(stage) | Phase::Poll(stage) | Phase::Backoff(stage) => stage
                == Stage::Measure,
            Phase::PowerUp | Phase::Settle => false,
        }
    }

    /// The phase the driver falls back to when the bus fails: a handshake
    /// has to start over, a measurement is given up.
    pub open spec fn fallback(self) -> Phase {
        if self.initialized() {
            Phase::Idle
        } else {
            Phase::PowerUp
        }
    }

    /// Whether the reset and calibration handshake has been completed.
    pub fn is_initialized(self) -> (initialized: bool)
        ensures
            initialized == self.initialized(),
    {
        match self {
            Phase::Idle | Phase::Fetch => true,
            Phase::Command(stage) | Phase::Poll(stage) | Phase::Backoff(stage) => match stage {
                Stage::Measure => true,
                _ => false,
            },
            Phase::PowerUp | Phase::Settle => false,
        }
    }

    /// The phase the driver falls back to when the bus fails.
    pub fn on_failure(self) -> (phase: Phase)
        ensures
            phase == self.fallback(),
    {
        if self.is_initialized() {
            Phase::Idle
        } else {
            Phase::PowerUp
        }
    }
}

/// What the caller reports back to the driver.
#[derive(Clone, Copy, Debug, PartialEq, Eq)]
pub enum Event {
    /// The requested wait has elapsed, or the requested write has been
    /// acknowledged.
    Done,
    /// The status byte that was read.
    Status(u8),
    /// The response frame that was read.
    Frame([u8; 6]),
}

/// What the driver asks its caller to do, or tells it.
#[derive(Debug, PartialEq, Eq)]
pub enum Action {
    /// Block for this many cycles of the system clock, then report `Done`.
    Delay { cycles: u32 },
    /// Write the bytes to the device at the address, then report `Done`.
    Write { address: u8, bytes: Vec<u8> },
    /// Read one byte from the device at the address and report it as `Status`.
    ReadStatus { address: u8 },
    /// Read six bytes from the device at the address and report them as
    /// `Frame`.
    ReadFrame { address: u8 },
    /// Nothing is in progress: the sensor is initialized and idle.
    Ready,
    /// The measurement is complete, and this is its result.
    Report { humidity: Humidity, temperature: Temperature },
}

/// An [`Action`] as a mathematical value.
pub enum ActionView {
    Delay { cycles: int },
    Write { address: u8, bytes: Seq<u8> },
    ReadStatus { address: u8 },
    ReadFrame { address: u8 },
    Ready,
    Report { humidity: int, temperature: int },
}

impl View for Action {
    type V = ActionView;

    open spec fn view(&self) -> ActionView {
        match *self {
            Action::Delay { cycles } => ActionView::Delay { cycles: cycles as int },
            Action::Write { address, bytes } => ActionView::Write { address, bytes: bytes@ },
            Action::ReadStatus { address } => ActionView::ReadStatus { address },
            Action::ReadFrame { address } => ActionView::ReadFrame { address },
            Action::Ready => ActionView::Ready,
            Action::Report { humidity, temperature } => ActionView::Report {
                humidity: humidity@ as int,
                temperature: temperature@ as int,
            },
        }
    }
}

/// The driver's state: the sensor it talks to, the clock it measures its
/// waits by, and the phase of the conversation.
pub struct Session {
    pub address: Address,
    pub sys_clock: u32,
    pub phase: Phase,
}

impl Session {
    /// The state a driver starts in: nothing has been sent, and the sensor is
    /// given time to power up.
    pub open spec fn start(address: Address, sys_clock: u32) -> Session {
        Session { address, sys_clock, phase: Phase::PowerUp }
    }

    /// The same session in another phase.
    pub open spec fn at(self, phase: Phase) -> Session {
        Session { phase, ..self }
    }

    /// The request that is outstanding in the current phase.
    pub open spec fn pending(self) -> ActionView {
        match self.phase {
            Phase::PowerUp | Phase::Settle => ActionView::Delay {
                cycles: cycles_in(self.sys_clock, SETTLE_MILLIS),
            },
            Phase::Command(stage) => ActionView::Write {
                address: self.address.wire(),
                bytes: stage.message(),
            },
            Phase::Poll(_) => ActionView::ReadStatus { address: self.address.wire() },
            Phase::Backoff(_) => ActionView::Delay {
                cycles: cycles_in(self.sys_clock, POLL_MILLIS),
            },
            Phase::Fetch => ActionView::ReadFrame { address: self.address.wire() },
            Phase::Idle => ActionView::Ready,
        }
    }

    /// Whether the event is an outcome of the outstanding request.
    pub open spec fn answered_by(self, event: Event) -> bool {
        match self.phase {
            Phase::PowerUp | Phase::Settle | Phase::Command(_) | Phase::Backoff(_) => event
                == Event::Done,
            Phase::Poll(_) => event is Status,
            Phase::Fetch => event is Frame,
            Phase::Idle => false,
        }
    }

    /// The phase that an answering event leads to.
    pub open spec fn next_phase(self, event: Event) -> Phase
        recommends
            self.answered_by(event),
    {
        match self.phase {
            Phase::PowerUp => Phase::Command(Stage::Reset),
            Phase::Command(Stage::Reset) => Phase::Settle,
            Phase::Command(stage) => Phase::Poll(stage),
            Phase::Settle => Phase::Poll(Stage::Reset),
            Phase::Poll(stage) => if busy_in(event->Status_0) {
                Phase::Backoff(stage)
            } else {
                stage.completed()
            },
            Phase::Backoff(stage) => Phase::Poll(stage),
            Phase::Fetch | Phase::Idle => Phase::Idle,
        }
    }

    /// One step of the protocol: the state after the event, and what the
    /// driver asks for or reports.
    ///
    /// An event that does not answer the outstanding request changes nothing,
    /// and the request is repeated. An answering event moves the driver to
    /// the next phase and yields that phase's request; the frame that ends a
    /// measurement yields the decoded reading instead.
    pub open spec fn step(self, event: Event) -> (Session, ActionView) {
        if !self.answered_by(event) {
            (self, self.pending())
        } else {
            let next = self.at(self.next_phase(event));
            match event {
                Event::Frame(frame) => (
                    next,
                    ActionView::Report {
                        humidity: humidity_field(frame@),
                        temperature: temperature_field(frame@),
                    },
                ),
                _ => (next, next.pending()),
            }
        }
    }

    /// The state after the bus has failed: whatever was in progress is
    /// abandoned.
    pub open spec fn failed(self) -> Session {
        self.at(self.phase.fallback())
    }

    /// The state after a reading has been requested. Once the handshake is
    /// complete a request starts a measurement, abandoning one that may be
    /// in progress; before that it changes nothing.
    pub open spec fn triggered(self) -> Session {
        if self.phase.initialized() {
            self.at(Phase::Command(Stage::Measure))
        } else {
            self
        }
    }
}

/// The driver keeps talking to the same sensor by the same clock: no event
/// and no request for a reading changes the address or the clock rate.
pub proof fn lemma_identity_kept(session: Session, event: Event)
    ensures
        session.step(event).0 == session.at(session.step(event).0.phase),
        session.triggered() == session.at(session.triggered().phase),
        session.failed() == session.at(session.failed().phase),
{
}

/// A handshake, once complete, stays complete; and it is completed in one
/// way only, by a status without the busy bit that answers the poll after
/// the initialization message.
pub proof fn lemma_initialized_kept(session: Session, event: Event)
    ensures
        session.phase.initialized() ==> session.step(event).0.phase.initialized(),
        session.triggered().phase.initialized() == session.phase.initialized(),
        session.failed().phase.initialized() == session.phase.initialized(),
        !session.phase.initialized() && session.step(event).0.phase.initialized() ==> ({
            &&& session.phase == Phase::Poll(Stage::Calibrate)
            &&& event matches Event::Status(status)
            &&& !busy_in(status)
        }),
{
}

/// No reading without a finished measurement: the driver reports a reading
/// only for the frame it asked for, it asks for a frame only after the
/// handshake, and only when the sensor has answered the poll after the
/// trigger message with a status without the busy bit.
pub proof fn lemma_report_after_clear_status(session: Session, event: Event)
    ensures
        session.step(event).1 is Report <==> session.phase == Phase::Fetch && event is Frame,
        session.pending() is ReadFrame <==> session.phase == Phase::Fetch,
        session.phase == Phase::Fetch ==> session.phase.initialized(),
        session.triggered().phase != Phase::Fetch,
        session.failed().phase != Phase::Fetch,
        session.phase != Phase::Fetch && session.step(event).0.phase == Phase::Fetch ==> ({
            &&& session.phase == Phase::Poll(Stage::Measure)
            &&& event matches Event::Status(status)
            &&& !busy_in(status)
        }),
{
}

/// A bus failure is final: no bus transfer stays outstanding that could be
/// retried. A handshake that failed is back at its start; after a
/// measurement that failed the driver is idle, as it was before the
/// measurement. Failing again changes nothing more.
pub proof fn lemma_failure_is_final(session: Session)
    ensures
        session.failed().pending() is Delay || session.failed().pending() is Ready,
        !session.phase.initialized() ==> session.failed() == Session::start(
            session.address,
            session.sys_clock,
        ),
        session.phase.initialized() ==> session.failed() == session.at(Phase::Idle),
        session.failed().failed() == session.failed(),
{
}

/// The three command messages, byte for byte.
pub proof fn lemma_messages()
    ensures
        Stage::Reset.message() == seq![0xBAu8],
        Stage::Calibrate.message() == seq![0xE1u8, 0x08u8, 0x00u8],
        Stage::Measure.message() == seq![0xACu8, 0x33u8, 0x00u8],
{
}

} // verus!
