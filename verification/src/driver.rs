//! The driver: the protocol state machine in executable form.

use vstd::prelude::*;
use crate::address::Address;
use crate::protocol::{Action, Event, Phase, Session, Stage};
use crate::reading::decode;
use crate::status::StatusFlags;
use crate::timing::{poll_cycles, settle_cycles};

verus! {

/// Driver for one AHT10 sensor.
///
/// The driver decides; its caller acts. Starting from [`Aht10::pending`],
/// the caller carries out each [`Action`] on the bus or the clock and hands
/// the outcome to [`Aht10::advance`], until the driver answers `Ready` (the
/// sensor is initialized), `Report` (a measurement is complete), or with the
/// error of the bus.
#[derive(Debug)]
pub struct Aht10 {
    addr: Address,
    sys_clock: u32,
    phase: Phase,
}

impl View for Aht10 {
    type V = Session;

    closed spec fn view(&self) -> Session {
        Session { address: self.addr, sys_clock: self.sys_clock, phase: self.phase }
    }
}

impl Aht10 {
    /// Creates the driver for the sensor at `addr`, on a system clock of
    /// `sys_clock` hertz. Nothing has been sent to the sensor yet: the
    /// driver's first request is the power-up wait.
    pub fn new(addr: Address, sys_clock: u32) -> (dev: Aht10)
        ensures
            dev@ == Session::start(addr, sys_clock),
    {
        Aht10 { addr, sys_clock, phase: Phase::PowerUp }
    }

    /// The address of the sensor.
    pub fn address(&self) -> (addr: Address)
        ensures
            addr == self@.address,
    {
        self.addr
    }

    /// The rate of the system clock, in hertz.
    pub fn sys_clock(&self) -> (sys_clock: u32)
        ensures
            sys_clock == self@.sys_clock,
    {
        self.sys_clock
    }

    /// The phase the conversation is in.
    pub fn phase(&self) -> (phase: Phase)
        ensures
            phase == self@.phase,
    {
        self.phase
    }

    /// Whether the sensor is initialized and nothing is in progress.
    pub fn is_ready(&self) -> (ready: bool)
        ensures
            ready == (self@.phase == Phase::Idle),
    {
        match self.phase {
            Phase::Idle => true,
            _ => false,
        }
    }

    /// The request that is outstanding.
    pub fn pending(&self) -> (action: Action)
        ensures
            action@ == self@.pending(),
    {
        match self.phase {
            Phase::PowerUp | Phase::Settle => Action::Delay {
                cycles: settle_cycles(self.sys_clock),
            },
            Phase::Command(stage) => Action::Write {
                address: self.addr.bits(),
                bytes: stage.bytes(),
            },
            Phase::Poll(_) => Action::ReadStatus { address: self.addr.bits() },
            Phase::Backoff(_) => Action::Delay { cycles: poll_cycles(self.sys_clock) },
            Phase::Fetch => Action::ReadFrame { address: self.addr.bits() },
            Phase::Idle => Action::Ready,
        }
    }

    /// Takes the outcome of the outstanding request and returns what to do
    /// next.
    ///
    /// An event is answered as [`Session::step`] says. An error of the bus
    /// ends what was in progress, with no retry: the driver falls back as
    /// [`Session::failed`] says and hands the error on as it is.
    pub fn advance<E>(&mut self, outcome: Result<Event, E>) -> (result: Result<Action, E>)
        ensures
            (match outcome {
                Ok(event) => {
                    &&& final(self)@ == old(self)@.step(event).0
                    &&& result matches Ok(action)
                    &&& action@ == old(self)@.step(event).1
                },
                Err(error) => {
                    &&& final(self)@ == old(self)@.failed()
                    &&& result == Err::<Action, E>(error)
                },
            }),
    {
        let event = match outcome {
            Ok(event) => event,
            Err(error) => {
                self.phase = self.phase.on_failure();
                return Err(error);
            },
        };
        let next: Phase = match (self.phase, event) {
            (Phase::PowerUp, Event::Done) => Phase::Command(Stage::Reset),
            (Phase::Command(stage), Event::Done) => match stage {
                Stage::Reset => Phase::Settle,
                _ => Phase::Poll(stage),
            },
            (Phase::Settle, Event::Done) => Phase::Poll(Stage::Reset),
            (Phase::Poll(stage), Event::Status(status)) => {
                if StatusFlags::from_bits_truncate(status).is_busy() {
                    Phase::Backoff(stage)
                } else {
                    stage.on_completion()
                }
            },
            (Phase::Backoff(stage), Event::Done) => Phase::Poll(stage),
            (Phase::Fetch, Event::Frame(frame)) => {
                let (humidity, temperature) = decode(&frame);
                self.phase = Phase::Idle;
                return Ok(Action::Report { humidity, temperature });
            },
            _ => {
                return Ok(self.pending());
            },
        };
        self.phase = next;
        Ok(self.pending())
    }

    /// Requests a reading. Once the handshake is complete this starts a
    /// measurement, abandoning one that may be in progress, and returns its
    /// first request; before that it changes nothing and repeats the
    /// outstanding request of the handshake.
    pub fn read(&mut self) -> (action: Action)
        ensures
            final(self)@ == old(self)@.triggered(),
            action@ == final(self)@.pending(),
    {
        if self.phase.is_initialized() {
            self.phase = Phase::Command(Stage::Measure);
        }
        self.pending()
    }
}

} // verus!
