//! The playback driver: feeds the media engine one clip at a time from the
//! sequencer and turns engine events into status notifications and a
//! terminal result. The engine itself is an external collaborator; this is
//! the decision logic it is driven by.

use vstd::prelude::*;
use crate::animation::{Animation, Part};
use crate::coordinator::PipelineStatus;
use crate::error::PlaybackError;
use crate::sequencer::{fresh_iter, AnimationIter};

verus! {

/// One notification from the media engine's event stream.
#[derive(Debug)]
pub enum EngineEvent {
    /// The most recently queued clip has begun rendering.
    StreamStarted,
    /// Output ended after the last queued clip.
    EndOfStream,
    /// The engine reported a failure; carries its detail text.
    Error(String),
}

/// What one driver step asks of the session.
#[derive(Debug)]
pub enum DriverStep {
    /// Keep going: publish `status` for the clip that just started, and if
    /// `queue` holds a locator, set it as the engine's next source at once,
    /// without stopping current output, for a gapless transition.
    Started { status: PipelineStatus, queue: Option<String> },
    /// The last clip finished; the driver loop ends successfully.
    Finished,
    /// The engine failed; the driver loop ends with this error.
    Failed(PlaybackError),
}

/// The driver's state between engine events.
pub struct Driver<'a> {
    /// Traversal of the plays not yet queued.
    pub seq: AnimationIter<'a>,
    /// The clip most recently queued on the engine; the one whose start the
    /// next `StreamStarted` event reports.
    pub current: Part,
}

impl<'a> Driver<'a> {
    pub open spec fn wf(self) -> bool {
        self.seq.wf()
    }

    /// Begin playback: pull the first play (an empty sequence is refused
    /// before any playback activity) and hand back its locator, which the
    /// caller must set as the engine's source before starting the engine.
    pub fn start(animation: &'a Animation) -> (r: Result<(Driver<'a>, String), PlaybackError>)
        ensures
            animation@.len() == 0 <==> (r matches Err(PlaybackError::NoAnimationError)),
            r is Err ==> (r matches Err(PlaybackError::NoAnimationError)),
            (r matches Ok((d, url)) ==> {
                &&& d.wf()
                &&& d.seq.animation == animation
                &&& d.seq == fresh_iter(animation).step()
                &&& d.current@ == animation@[0]
                &&& url@ == "file://"@ + animation@[0].file
            }),
    {
        let mut seq = animation.into_iter();
        let first = match seq.next() {
            Some(p) => p,
            None => {
                return Err(PlaybackError::NoAnimationError);
            },
        };
        let url = first.url();
        Ok((Driver { seq, current: first }, url))
    }

    /// React to one engine event. On `StreamStarted` the previously queued
    /// clip has begun: its interruptability is published and the next play,
    /// if any, is pulled and queued. `EndOfStream` and `Error` end the
    /// driver loop; the caller stops the engine whichever way it ends.
    pub fn on_event(&mut self, event: EngineEvent) -> (step: DriverStep)
        requires
            old(self).wf(),
        ensures
            final(self).wf(),
            final(self).seq.animation == old(self).seq.animation,
            match event {
                EngineEvent::EndOfStream => *final(self) == *old(self) && step matches
                    DriverStep::Finished,
                EngineEvent::Error(detail) => *final(self) == *old(self) && (step matches
                    DriverStep::Failed(PlaybackError::EngineError(d)) && d == detail),
                EngineEvent::StreamStarted => {
                    &&& final(self).seq == old(self).seq.step()
                    &&& (step matches DriverStep::Started { status, queue } ==> {
                        &&& status == (if old(self).current@.interruptable() {
                            PipelineStatus::Interruptable
                        } else {
                            PipelineStatus::Continuous
                        })
                        &&& (match old(self).seq.peek() {
                            Some(p) => final(self).current@ == p && (queue matches Some(u)
                                && u@ == "file://"@ + p.file),
                            None => final(self).current == old(self).current && queue is None,
                        })
                    })
                    &&& (step matches DriverStep::Started { .. })
                },
            },
    {
        match event {
            EngineEvent::EndOfStream => DriverStep::Finished,
            EngineEvent::Error(detail) => DriverStep::Failed(PlaybackError::EngineError(detail)),
            EngineEvent::StreamStarted => {
                let status = if self.current.is_interruptable() {
                    PipelineStatus::Interruptable
                } else {
                    PipelineStatus::Continuous
                };
                let queue = match self.seq.next() {
                    Some(part) => {
                        let url = part.url();
                        self.current = part;
                        Some(url)
                    },
                    None => None,
                };
                DriverStep::Started { status, queue }
            },
        }
    }
}

} // verus!
