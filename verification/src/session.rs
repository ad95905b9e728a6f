//! One playback session: the driver's engine-event loop, the control
//! channel's decode loop and the coordinator's arbitration are raced, and
//! the first to finish -- end of stream, an honored interrupt, or an error
//! -- ends the whole session. The events of the three activities are
//! serialized here into single steps over one session state; the caller owns
//! the transports and the engine, cancels the losers of the race, and stops
//! the engine whichever way the session ends.

use vstd::prelude::*;
use crate::animation::Animation;
use crate::coordinator::Coordinator;
use crate::driver::{Driver, DriverStep, EngineEvent};
use crate::error::PlaybackError;
use crate::message::{spec_decode, Message, ProtocolError};

verus! {

/// One serialized occurrence a session reacts to.
#[derive(Debug)]
pub enum SessionEvent {
    /// The media engine reported on its event stream.
    Engine(EngineEvent),
    /// A control-channel connection delivered one wire byte.
    Control(u8),
}

/// The session's reaction to one event.
#[derive(Debug)]
pub enum SessionStep {
    /// The session goes on; if `queue` holds a locator the engine must take
    /// it as its next source for a gapless transition.
    Running { queue: Option<String> },
    /// A connection sent a byte that is no recognized opcode: that
    /// connection is rejected, the session and its channel keep running.
    Rejected(ProtocolError),
    /// A pending interrupt request was honored: stop the engine and end the
    /// session without waiting for the current clip's natural end.
    Interrupted,
    /// Playback reached the end of the last clip.
    Finished,
    /// The engine failed; stop it and surface the error.
    Failed(PlaybackError),
}

/// The state shared by one orchestration run, from engine start to engine
/// stop.
pub struct Session<'a> {
    /// The playback driver's state.
    pub driver: Driver<'a>,
    /// The interrupt coordinator's state.
    pub coordinator: Coordinator,
}

impl<'a> Session<'a> {
    pub open spec fn wf(self) -> bool {
        self.driver.wf()
    }

    /// Begin a session. An animation with zero clips is refused at once
    /// with `NoAnimationError`, before any playback activity; otherwise the
    /// returned locator must be set as the engine's source and playback
    /// started. The flag starts down and no request is pending.
    pub fn start(animation: &'a Animation) -> (r: Result<(Session<'a>, String), PlaybackError>)
        ensures
            animation@.len() == 0 <==> (r matches Err(PlaybackError::NoAnimationError)),
            r is Err ==> (r matches Err(PlaybackError::NoAnimationError)),
            (r matches Ok((s, url)) ==> {
                &&& s.wf()
                &&& s.driver.seq.animation == animation
                &&& s.driver.current@ == animation@[0]
                &&& s.coordinator == (Coordinator { interruptable: false, pending: false })
                &&& url@ == "file://"@ + animation@[0].file
            }),
    {
        let (driver, url) = match Driver::start(animation) {
            Ok(p) => p,
            Err(e) => {
                return Err(e);
            },
        };
        Ok((Session { driver, coordinator: Coordinator::new() }, url))
    }

    /// Apply one event. A control byte is decoded (an unrecognized opcode
    /// rejects only that connection) and an interrupt request is honored
    /// exactly when the current flag allows it, else it stays pending. A
    /// stream start publishes the started clip's interruptability, honors a
    /// pending request exactly when that clip is interruptable, and
    /// otherwise queues the next play. End of stream and engine errors end
    /// the session on the driver's side.
    pub fn step(&mut self, event: SessionEvent) -> (outcome: SessionStep)
        requires
            old(self).wf(),
        ensures
            final(self).wf(),
            final(self).driver.seq.animation == old(self).driver.seq.animation,
            match event {
                SessionEvent::Control(byte) => {
                    &&& final(self).driver == old(self).driver
                    &&& (match spec_decode(byte) {
                        Err(e) => *final(self) == *old(self) && outcome == SessionStep::Rejected(
                            e,
                        ),
                        Ok(m) => {
                            &&& m == Message::Interrupt
                            &&& final(self).coordinator.pending
                            &&& final(self).coordinator.interruptable == old(
                                self,
                            ).coordinator.interruptable
                            &&& outcome == (if old(self).coordinator.interruptable {
                                SessionStep::Interrupted
                            } else {
                                SessionStep::Running { queue: None }
                            })
                        },
                    })
                },
                SessionEvent::Engine(engine_event) => match engine_event {
                    EngineEvent::EndOfStream => *final(self) == *old(self) && outcome matches
                        SessionStep::Finished,
                    EngineEvent::Error(detail) => *final(self) == *old(self) && (outcome matches
                        SessionStep::Failed(PlaybackError::EngineError(d)) && d == detail),
                    EngineEvent::StreamStarted => {
                        let started = old(self).driver.current@;
                        &&& final(self).coordinator.pending == old(self).coordinator.pending
                        &&& final(self).coordinator.interruptable == started.interruptable()
                        &&& final(self).driver.seq == old(self).driver.seq.step()
                        &&& (match old(self).driver.seq.peek() {
                            Some(p) => final(self).driver.current@ == p,
                            None => final(self).driver.current == old(self).driver.current,
                        })
                        &&& (if old(self).coordinator.pending && started.interruptable() {
                            outcome matches SessionStep::Interrupted
                        } else {
                            (outcome matches SessionStep::Running { queue } && (match old(
                                self,
                            ).driver.seq.peek() {
                                Some(p) => queue matches Some(u) && u@ == "file://"@ + p.file,
                                None => queue is None,
                            }))
                        })
                    },
                },
            },
    {
        match event {
            SessionEvent::Control(byte) => match Message::decode(byte) {
                Err(e) => SessionStep::Rejected(e),
                Ok(Message::Interrupt) => {
                    if self.coordinator.on_interrupt() {
                        SessionStep::Interrupted
                    } else {
                        SessionStep::Running { queue: None }
                    }
                },
            },
            SessionEvent::Engine(engine_event) => match self.driver.on_event(engine_event) {
                DriverStep::Finished => SessionStep::Finished,
                DriverStep::Failed(err) => SessionStep::Failed(err),
                DriverStep::Started { status, queue } => {
                    if self.coordinator.on_status(status) {
                        SessionStep::Interrupted
                    } else {
                        SessionStep::Running { queue }
                    }
                },
            },
        }
    }
}

} // verus!
