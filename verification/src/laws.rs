//! What holds of the presentation context over whole runs: theorems about
//! the model in [`crate::context`], which the executable functions are proved
//! to follow.

use vstd::prelude::*;
use crate::context::{AcquireStep, ContextModel};
use crate::frame::{
    AcquireError, AcquireOutcome, AcquiredFrame, CompletionSignal, FrameError, FrameState,
    PresentOutcome,
};
use crate::swapchain::{ChainBuild, Extent, PresentMode};

verus! {

/// One call on a presentation context, with the driver's answers that it was
/// given.
pub enum Call {
    MarkOutdated,
    Resize,
    SetPresentationMode(PresentMode),
    Acquire { window_extent: Extent, built: ChainBuild, image: AcquireOutcome },
    BeginFrame(AcquiredFrame),
    EndFrame { frame: AcquiredFrame, outcome: PresentOutcome },
}

/// The context after one call.
pub open spec fn after_call(s: ContextModel, call: Call) -> ContextModel {
    match call {
        Call::MarkOutdated => s.marked_outdated(),
        Call::Resize => s.resized(),
        Call::SetPresentationMode(mode) => s.with_mode(mode),
        Call::Acquire { window_extent, built, image } => s.acquired(window_extent, built, image).0,
        Call::BeginFrame(frame) => s.frame_begun(frame).0,
        Call::EndFrame { frame, outcome } => s.frame_ended(frame, outcome).0,
    }
}

/// The context after a sequence of calls.
pub open spec fn after_calls(s: ContextModel, calls: Seq<Call>) -> ContextModel
    decreases calls.len(),
{
    if calls.len() == 0 {
        s
    } else {
        after_call(after_calls(s, calls.drop_last()), calls.last())
    }
}

/// The call is an acquire that returns an image.
pub open spec fn hands_out(s: ContextModel, call: Call) -> bool {
    match call {
        Call::Acquire { window_extent, built, image } => s.acquired(
            window_extent,
            built,
            image,
        ).1 is Ok,
        _ => false,
    }
}

/// The call ends the frame that is checked out.
pub open spec fn checks_in(s: ContextModel, call: Call) -> bool {
    match call {
        Call::EndFrame { frame, outcome } => s.frame_ended(frame, outcome).1 is Ok,
        _ => false,
    }
}

/// The call asks the driver to rebuild the chain.
pub open spec fn rebuilds(s: ContextModel, call: Call) -> bool {
    match call {
        Call::Acquire { window_extent, built, image } => s.plan(window_extent) matches Ok(
            AcquireStep::Rebuild(_),
        ),
        _ => false,
    }
}

/// The driver built a chain of enough images for a context to be rebuilt.
pub open spec fn builds_for(s: ContextModel, built: ChainBuild) -> bool {
    built matches ChainBuild::Built { image_count } && image_count
        >= s.chain.description.min_image_count
}

/// Marking the chain outdated twice is marking it once, and a chain that is
/// marked is outdated whatever it was before.
pub proof fn lemma_mark_outdated_idempotent(s: FrameState)
    ensures
        s.marked_outdated().outdated,
        s.marked_outdated().marked_outdated() == s.marked_outdated(),
{
}

/// Every call leaves a well-formed context well formed.
pub proof fn lemma_call_keeps_wf(s: ContextModel, call: Call)
    requires
        s.wf(),
    ensures
        after_call(s, call).wf(),
{
}

/// Every sequence of calls leaves a well-formed context well formed.
pub proof fn lemma_calls_keep_wf(s: ContextModel, calls: Seq<Call>)
    requires
        s.wf(),
    ensures
        after_calls(s, calls).wf(),
    decreases calls.len(),
{
    if calls.len() > 0 {
        lemma_calls_keep_wf(s, calls.drop_last());
        lemma_call_keeps_wf(after_calls(s, calls.drop_last()), calls.last());
    }
}

/// An acquire hands out an image only while none is checked out, and the
/// image is checked out from then on until a call ends its frame.
pub proof fn lemma_checked_out_until_ended(s: ContextModel, call: Call)
    ensures
        hands_out(s, call) ==> !s.frame.checked_out() && after_call(s, call).frame.checked_out(),
        s.frame.checked_out() && !checks_in(s, call) ==> after_call(s, call).frame.checked_out(),
{
}

proof fn lemma_stays_checked_out(s: ContextModel, calls: Seq<Call>, i: int, m: int)
    requires
        0 <= i < m <= calls.len(),
        hands_out(after_calls(s, calls.take(i)), calls[i]),
        forall|k: int| i < k < m ==> !checks_in(after_calls(s, calls.take(k)), #[trigger] calls[k]),
    ensures
        after_calls(s, calls.take(m)).frame.checked_out(),
    decreases m - i,
{
    let before = after_calls(s, calls.take(m - 1));
    assert(calls.take(m).drop_last() =~= calls.take(m - 1));
    assert(calls.take(m).last() == calls[m - 1]);
    assert(after_calls(s, calls.take(m)) == after_call(before, calls[m - 1]));
    if m - 1 > i {
        lemma_stays_checked_out(s, calls, i, m - 1);
    }
    lemma_checked_out_until_ended(before, calls[m - 1]);
}

/// At most one image is checked out. Whatever calls are made and whatever the
/// driver answers: between two acquires that each hand out an image, a call
/// ends the frame of the first.
pub proof fn lemma_at_most_one_checked_out(s: ContextModel, calls: Seq<Call>, i: int, j: int)
    requires
        0 <= i < j < calls.len(),
        hands_out(after_calls(s, calls.take(i)), calls[i]),
        hands_out(after_calls(s, calls.take(j)), calls[j]),
    ensures
        exists|k: int| i < k < j && checks_in(after_calls(s, calls.take(k)), #[trigger] calls[k]),
{
    if forall|k: int| i < k < j ==> !checks_in(after_calls(s, calls.take(k)), #[trigger] calls[k]) {
        lemma_stays_checked_out(s, calls, i, j);
        lemma_checked_out_until_ended(after_calls(s, calls.take(j)), calls[j]);
    }
}

/// After a resize, the next acquire brings the chain to the extent that the
/// window has by then; while that extent has a zero dimension it leaves the
/// chain as it is and ends with a recoverable error. This is stated of an
/// acquire with no image checked out and, where the window has area, a
/// driver that builds the chain.
pub proof fn lemma_resize_then_acquire(
    s: ContextModel,
    window_extent: Extent,
    built: ChainBuild,
    image: AcquireOutcome,
)
    requires
        s.wf(),
        !s.frame.checked_out(),
        window_extent.has_zero_dimension() || builds_for(s, built),
    ensures
        ({
            let (t, r) = s.resized().acquired(window_extent, built, image);
            if window_extent.has_zero_dimension() {
                &&& t.chain == s.chain
                &&& r == Err::<AcquiredFrame, AcquireError>(AcquireError::Minimized)
                &&& AcquireError::Minimized.recoverable()
            } else {
                &&& t.chain.description.image_extent == window_extent
                &&& t.chain.description.present_mode == s.desired_mode
            }
        }),
{
}

/// Asking twice for the same presentation mode is asking once: the second
/// call changes nothing. Neither call touches the chain.
pub proof fn lemma_set_presentation_mode_idempotent(s: ContextModel, mode: PresentMode)
    ensures
        s.with_mode(mode).with_mode(mode) == s.with_mode(mode),
        s.with_mode(mode).chain == s.chain,
        s.with_mode(mode).desired_mode == mode,
{
}

/// A change of presentation mode, asked for twice, costs exactly one rebuild
/// of the chain: the next acquire that gets as far as the driver rebuilds to
/// the new mode, and the acquire of the frame after it finds the chain fresh.
pub proof fn lemma_mode_change_rebuilds_once(
    s: ContextModel,
    mode: PresentMode,
    window_extent: Extent,
    built: ChainBuild,
    index: u32,
    outcome: PresentOutcome,
    next_extent: Extent,
)
    requires
        s.wf(),
        !s.frame.outdated,
        !s.frame.checked_out(),
        mode != s.desired_mode,
        !window_extent.has_zero_dimension(),
        built matches ChainBuild::Built { image_count } && image_count
            >= s.chain.description.min_image_count && index < image_count,
        outcome != PresentOutcome::OutOfDate,
    ensures
        ({
            let asked = s.with_mode(mode).with_mode(mode);
            let image = AcquireOutcome::Image { index, suboptimal: false };
            let (acquired, frame) = asked.acquired(window_extent, built, image);
            let ended = acquired.frame_ended(frame.unwrap(), outcome).0;
            &&& !rebuilds(s, Call::SetPresentationMode(mode))
            &&& !rebuilds(s.with_mode(mode), Call::SetPresentationMode(mode))
            &&& rebuilds(asked, Call::Acquire { window_extent, built, image })
            &&& frame is Ok
            &&& acquired.chain.description.present_mode == mode
            &&& !rebuilds(ended, Call::Acquire { window_extent: next_extent, built, image })
        }),
{
}

/// An out-of-date surface is recovered from by the next acquire. The acquire
/// that is told "out of date" hands out no image, ends with a recoverable
/// error and checks nothing out; the acquire after it rebuilds the chain for
/// the window as it is then and, where the driver builds the chain and has an
/// image of it, hands that image out.
pub proof fn lemma_out_of_date_recovers(
    s: ContextModel,
    first_extent: Extent,
    first_built: ChainBuild,
    window_extent: Extent,
    built: ChainBuild,
    index: u32,
    suboptimal: bool,
)
    requires
        s.wf(),
        !s.frame.checked_out(),
        s.frame.outdated ==> !first_extent.has_zero_dimension() && builds_for(s, first_built),
        !window_extent.has_zero_dimension(),
        built matches ChainBuild::Built { image_count } && image_count
            >= s.chain.description.min_image_count && index < image_count,
    ensures
        ({
            let (t, r) = s.acquired(first_extent, first_built, AcquireOutcome::OutOfDate);
            let image = AcquireOutcome::Image { index, suboptimal };
            let (u, frame) = t.acquired(window_extent, built, image);
            &&& r == Err::<AcquiredFrame, AcquireError>(AcquireError::OutOfDate)
            &&& AcquireError::OutOfDate.recoverable()
            &&& t.frame.outdated
            &&& !t.frame.checked_out()
            &&& rebuilds(t, Call::Acquire { window_extent, built, image })
            &&& frame matches Ok(acquired)
            &&& acquired.image_index == index
            &&& u.chain.description.image_extent == window_extent
            &&& u.wf()
        }),
{
}

/// Frames are chained. The frame acquired after a frame that was presented
/// waits for that frame's completion signal: the signal is what the acquire
/// hands out to be joined with the new frame's work, and what the worker is
/// told to wait for before it submits. After a frame whose presentation
/// failed there is nothing to wait for.
pub proof fn lemma_frames_are_chained(
    s: ContextModel,
    previous: AcquiredFrame,
    outcome: PresentOutcome,
    window_extent: Extent,
    built: ChainBuild,
    image: AcquireOutcome,
)
    requires
        s.frame.holds(previous),
    ensures
        ({
            let (t, ended) = s.frame_ended(previous, outcome);
            let (u, acquired) = t.acquired(window_extent, built, image);
            let baseline = if outcome == PresentOutcome::Presented {
                previous.completion()
            } else {
                CompletionSignal::Ready
            };
            &&& ended is Ok
            &&& t.frame.in_flight_signal == baseline
            &&& acquired matches Ok(next) ==> {
                &&& next.after == baseline
                &&& next.serial == s.frame.next_serial()
                &&& next.completion() != previous.completion()
                &&& u.frame_begun(next).1 == Ok::<CompletionSignal, FrameError>(baseline)
            }
        }),
{
}

} // verus!
