//! Frame synchronizer: the outdated flag, the image that is checked out, and
//! the completion signal that chains one frame after the other.
//!
//! Nothing here talks to the driver. Each transition takes what the driver
//! answered as a plain value and says what the state becomes.

use vstd::prelude::*;
use crate::swapchain::SwapchainCreationError;

verus! {

/// A point in the stream of work submitted to the queue. Work chained after a
/// signal does not begin before everything the signal stands for is complete.
#[derive(Copy, Clone, Debug, PartialEq, Eq, Structural)]
pub enum CompletionSignal {
    /// Trivially complete: nothing is waited for.
    Ready,
    /// Complete once the presentation of the frame with this serial number is.
    FrameEnd { frame: u64 },
}

/// Whether the chain still matches the surface.
#[derive(Copy, Clone, Debug, PartialEq, Eq, Structural)]
pub enum SyncState {
    /// The chain is valid.
    Fresh,
    /// A rebuild is pending.
    Outdated,
}

/// Where the current frame stands between acquire and present.
#[derive(Copy, Clone, Debug, PartialEq, Eq, Structural)]
pub enum FramePhase {
    /// No image is checked out.
    Idle,
    /// An image is checked out and no worker has been started on it.
    Acquired,
    /// An image is checked out and a worker is recording and submitting.
    Rendering,
}

/// The driver's answer to a request for the next presentable image.
#[derive(Copy, Clone, Debug, PartialEq, Eq, Structural)]
pub enum AcquireOutcome {
    /// An image is free. A suboptimal image can still be used for this frame.
    Image { index: u32, suboptimal: bool },
    /// The surface no longer matches the chain; no image is handed out.
    OutOfDate,
}

/// The driver's answer to a present request.
#[derive(Copy, Clone, Debug, PartialEq, Eq, Structural)]
pub enum PresentOutcome {
    /// The request was queued.
    Presented,
    /// The surface no longer matches the chain.
    OutOfDate,
    /// Any other failure of the submission.
    Failed,
}

/// One checked-out image. It stands for the frame from a successful acquire to
/// the matching present.
#[derive(Copy, Clone, Debug, PartialEq, Eq, Structural)]
pub struct AcquiredFrame {
    /// Index of the image within the chain.
    pub image_index: u32,
    /// Serial number of the frame.
    pub serial: u64,
    /// The previous frame's completion signal. The frame's work is joined
    /// with it, so that its presentation is chained after it.
    pub after: CompletionSignal,
}

impl AcquiredFrame {
    /// The signal that is complete once this frame has been presented.
    pub open spec fn completion(self) -> CompletionSignal {
        CompletionSignal::FrameEnd { frame: self.serial }
    }

    pub fn completion_signal(&self) -> (s: CompletionSignal)
        ensures
            s == self.completion(),
    {
        CompletionSignal::FrameEnd { frame: self.serial }
    }
}

/// Why no frame was acquired.
#[derive(Copy, Clone, Debug, PartialEq, Eq, Structural)]
pub enum AcquireError {
    /// The previously acquired image has not been presented yet.
    FrameInFlight,
    /// The window has no area; the pending rebuild is put off.
    Minimized,
    /// The surface is out of date; the chain will be rebuilt on the next try.
    OutOfDate,
    /// The pending rebuild of the chain failed.
    Rebuild(SwapchainCreationError),
    /// The driver named an image that the chain does not have.
    InvalidImage,
}

impl AcquireError {
    /// The errors after which the caller asks for another redraw and tries
    /// again. Every other error is final.
    pub open spec fn recoverable(self) -> bool {
        self == AcquireError::Minimized || self == AcquireError::OutOfDate
    }

    pub fn is_recoverable(&self) -> (b: bool)
        ensures
            b == self.recoverable(),
    {
        match self {
            AcquireError::Minimized => true,
            AcquireError::OutOfDate => true,
            _ => false,
        }
    }
}

/// Why a frame was not begun or ended.
#[derive(Copy, Clone, Debug, PartialEq, Eq, Structural)]
pub enum FrameError {
    /// The frame is not the one that is checked out.
    NotCheckedOut,
    /// A worker is already rendering the frame.
    WorkerBusy,
}

/// State of the frame synchronizer.
#[derive(Copy, Clone, Debug, PartialEq, Eq, Structural)]
pub struct FrameState {
    /// Set by resize, mode change and out-of-date or suboptimal answers;
    /// cleared only by a successful rebuild of the chain.
    pub outdated: bool,
    /// Index of the checked-out image; meaningful unless the phase is idle.
    pub current_image_index: u32,
    pub phase: FramePhase,
    /// Completion signal of the work submitted so far: the baseline that the
    /// next frame is chained after.
    pub in_flight_signal: CompletionSignal,
    /// Serial number of the frame acquired last.
    pub serial: u64,
}

impl FrameState {
    pub open spec fn initial() -> FrameState {
        FrameState {
            outdated: false,
            current_image_index: 0,
            phase: FramePhase::Idle,
            in_flight_signal: CompletionSignal::Ready,
            serial: 0,
        }
    }

    /// An image is acquired and not presented yet.
    pub open spec fn checked_out(self) -> bool {
        self.phase != FramePhase::Idle
    }

    /// `frame` is the frame that is checked out.
    pub open spec fn holds(self, frame: AcquiredFrame) -> bool {
        &&& self.checked_out()
        &&& frame.serial == self.serial
        &&& frame.image_index == self.current_image_index
    }

    pub open spec fn sync(self) -> SyncState {
        if self.outdated {
            SyncState::Outdated
        } else {
            SyncState::Fresh
        }
    }

    pub open spec fn marked_outdated(self) -> FrameState {
        FrameState { outdated: true, ..self }
    }

    pub open spec fn rebuilt(self) -> FrameState {
        FrameState { outdated: false, ..self }
    }

    pub open spec fn next_serial(self) -> u64 {
        if self.serial == u64::MAX {
            0
        } else {
            (self.serial + 1) as u64
        }
    }

    /// State and result once the driver has answered a request for the next
    /// image of a chain of `image_count` images.
    pub open spec fn image_acquired(self, outcome: AcquireOutcome, image_count: u32) -> (
        FrameState,
        Result<AcquiredFrame, AcquireError>,
    ) {
        if self.checked_out() {
            (self, Err(AcquireError::FrameInFlight))
        } else {
            match outcome {
                AcquireOutcome::OutOfDate => (self.marked_outdated(), Err(AcquireError::OutOfDate)),
                AcquireOutcome::Image { index, suboptimal } => if index >= image_count {
                    (self, Err(AcquireError::InvalidImage))
                } else {
                    (
                        FrameState {
                            outdated: self.outdated || suboptimal,
                            current_image_index: index,
                            phase: FramePhase::Acquired,
                            in_flight_signal: self.in_flight_signal,
                            serial: self.next_serial(),
                        },
                        Ok(
                            AcquiredFrame {
                                image_index: index,
                                serial: self.next_serial(),
                                after: self.in_flight_signal,
                            },
                        ),
                    )
                },
            }
        }
    }

    /// State and result when a worker asks to start on `frame`. On success the
    /// result is the signal the worker waits for before it submits.
    pub open spec fn begun(self, frame: AcquiredFrame) -> (
        FrameState,
        Result<CompletionSignal, FrameError>,
    ) {
        if !self.holds(frame) {
            (self, Err(FrameError::NotCheckedOut))
        } else if self.phase == FramePhase::Rendering {
            (self, Err(FrameError::WorkerBusy))
        } else {
            (FrameState { phase: FramePhase::Rendering, ..self }, Ok(self.in_flight_signal))
        }
    }

    /// State and result once the driver has answered the present request for
    /// `frame`.
    pub open spec fn presented(self, frame: AcquiredFrame, outcome: PresentOutcome) -> (
        FrameState,
        Result<(), FrameError>,
    ) {
        if !self.holds(frame) {
            (self, Err(FrameError::NotCheckedOut))
        } else {
            (
                FrameState {
                    outdated: self.outdated || outcome == PresentOutcome::OutOfDate,
                    phase: FramePhase::Idle,
                    in_flight_signal: if outcome == PresentOutcome::Presented {
                        frame.completion()
                    } else {
                        CompletionSignal::Ready
                    },
                    ..self
                },
                Ok(()),
            )
        }
    }

    /// The state of a synchronizer whose chain has just been created.
    pub fn new() -> (s: FrameState)
        ensures
            s == FrameState::initial(),
    {
        FrameState {
            outdated: false,
            current_image_index: 0,
            phase: FramePhase::Idle,
            in_flight_signal: CompletionSignal::Ready,
            serial: 0,
        }
    }

    pub fn is_checked_out(&self) -> (b: bool)
        ensures
            b == self.checked_out(),
    {
        match self.phase {
            FramePhase::Idle => false,
            _ => true,
        }
    }

    pub fn sync_state(&self) -> (s: SyncState)
        ensures
            s == self.sync(),
    {
        if self.outdated {
            SyncState::Outdated
        } else {
            SyncState::Fresh
        }
    }

    /// Records that the chain no longer matches the surface. May be called at
    /// any time and any number of times.
    pub fn mark_outdated(&mut self)
        ensures
            *final(self) == old(self).marked_outdated(),
    {
        self.outdated = true;
    }

    /// Records that the chain has been rebuilt.
    pub fn chain_rebuilt(&mut self)
        ensures
            *final(self) == old(self).rebuilt(),
    {
        self.outdated = false;
    }

    /// Takes the driver's answer to a request for the next image of a chain
    /// of `image_count` images.
    pub fn on_image(&mut self, outcome: AcquireOutcome, image_count: u32) -> (r: Result<
        AcquiredFrame,
        AcquireError,
    >)
        ensures
            (*final(self), r) == old(self).image_acquired(outcome, image_count),
    {
        if self.is_checked_out() {
            return Err(AcquireError::FrameInFlight);
        }
        match outcome {
            AcquireOutcome::OutOfDate => {
                self.outdated = true;
                Err(AcquireError::OutOfDate)
            },
            AcquireOutcome::Image { index, suboptimal } => {
                if index >= image_count {
                    return Err(AcquireError::InvalidImage);
                }
                let serial: u64 = self.serial.wrapping_add(1);
                let after = self.in_flight_signal;
                if suboptimal {
                    self.outdated = true;
                }
                self.current_image_index = index;
                self.phase = FramePhase::Acquired;
                self.serial = serial;
                Ok(AcquiredFrame { image_index: index, serial, after })
            },
        }
    }

    /// Starts the worker on `frame`, unless one is already at work or the
    /// frame is not the one checked out.
    pub fn begin(&mut self, frame: &AcquiredFrame) -> (r: Result<CompletionSignal, FrameError>)
        ensures
            (*final(self), r) == old(self).begun(*frame),
    {
        if !self.is_current(frame) {
            return Err(FrameError::NotCheckedOut);
        }
        match self.phase {
            FramePhase::Rendering => Err(FrameError::WorkerBusy),
            _ => {
                self.phase = FramePhase::Rendering;
                Ok(self.in_flight_signal)
            },
        }
    }

    /// Takes the driver's answer to the present request for `frame`. The
    /// image is checked in again whatever the answer; only a queued request
    /// leaves a signal for the next frame to be chained after.
    pub fn on_present(&mut self, frame: AcquiredFrame, outcome: PresentOutcome) -> (r: Result<
        (),
        FrameError,
    >)
        ensures
            (*final(self), r) == old(self).presented(frame, outcome),
    {
        if !self.is_current(&frame) {
            return Err(FrameError::NotCheckedOut);
        }
        match outcome {
            PresentOutcome::Presented => {
                self.in_flight_signal = frame.completion_signal();
            },
            PresentOutcome::OutOfDate => {
                self.outdated = true;
                self.in_flight_signal = CompletionSignal::Ready;
            },
            PresentOutcome::Failed => {
                self.in_flight_signal = CompletionSignal::Ready;
            },
        }
        self.phase = FramePhase::Idle;
        Ok(())
    }

    /// Whether `frame` is the frame that is checked out.
    pub fn is_current(&self, frame: &AcquiredFrame) -> (b: bool)
        ensures
            b == self.holds(*frame),
    {
        self.is_checked_out() && frame.serial == self.serial && frame.image_index
            == self.current_image_index
    }
}

} // verus!
