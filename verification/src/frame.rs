//! Frame scheduler: the per-frame acquire/submit/present cycle, the single
//! tracked completion token, and lazy swapchain rebuilds.

use vstd::prelude::*;

use crate::probe::QueueFamilyAssignment;
use crate::surface::Extent2D;
use crate::surface::SurfaceReport;
use crate::swapchain::CommandBufferInfo;
use crate::swapchain::SwapchainState;
use crate::swapchain::TRIANGLE_VERTEX_COUNT;
use crate::swapchain::create_swapchain_state;
use crate::swapchain::matches_surface;

verus! {

/// The tracked "previous frame completion" token. A real token carries the
/// serial number of the submission it signals; a no-op token stands for work
/// that is already complete and is installed on every failure path so the
/// next cycle never waits on a broken chain.
#[derive(Clone, Copy, PartialEq, Eq, Structural, Debug)]
pub struct CompletionToken {
    pub serial: u64,
    pub already_complete: bool,
}

/// What the platform reported for an image acquire.
#[derive(Clone, Copy, PartialEq, Eq, Structural, Debug)]
pub enum AcquireOutcome {
    /// An image index is available; `suboptimal` marks a chain that is still
    /// usable but no longer ideal (treated as success, no rebuild).
    Acquired { image_index: usize, suboptimal: bool },
    /// The surface no longer matches the chain; rebuild and retry next tick.
    OutOfDate,
    /// Any other acquire failure: fatal.
    DeviceError,
}

/// What the platform reported for a submit-and-present.
#[derive(Clone, Copy, PartialEq, Eq, Structural, Debug)]
pub enum SubmitOutcome {
    /// The submission was accepted and returned a completion token.
    Completed,
    /// Surface staleness was recognized: rebuild next tick.
    OutOfDate,
    /// Any other submission failure: logged, recovered best-effort.
    TransientFailure,
}

/// What the scheduler asks of the caller after an acquire report.
#[derive(Clone, Copy, PartialEq, Eq, Structural, Debug)]
pub enum AcquireAction {
    /// Record and submit the command buffer for this image, then present it.
    Render { image_index: usize },
    /// No submission this frame; retry on the next scheduler tick.
    SkipFrame,
    /// Fatal: abort the frame loop with the error surfaced.
    Abort,
}

/// What the event loop should do after an event has been handled.
#[derive(Clone, Copy, PartialEq, Eq, Structural, Debug)]
pub enum LoopAction {
    /// Stop the frame loop.
    Exit,
    /// Run one frame cycle now.
    Draw,
    /// Nothing to do.
    Idle,
}

/// An event the windowing collaborator delivers to the frame loop. The
/// shell translates its key codes; only whether the key was escape matters
/// here.
#[derive(Clone, Copy, PartialEq, Eq, Structural, Debug)]
pub enum LoopEvent {
    CloseRequested,
    Resized { extent: Extent2D },
    KeyPressed { is_escape: bool },
    MainEventsCleared,
    RedrawRequested,
    Other,
}

/// The frame scheduler: the swapchain bundle it exclusively owns, the fixed
/// queue-family assignment, the window size it last saw, exactly one
/// outstanding completion token, the rebuild flag, and two counters that
/// record its history.
pub struct FrameScheduler {
    pub swapchain: SwapchainState,
    pub assignment: QueueFamilyAssignment,
    pub window_extent: Extent2D,
    pub previous_frame_end: CompletionToken,
    pub needs_rebuild: bool,
    /// How many completion tokens successful submissions have produced.
    pub tokens_produced: u64,
    /// How many times the swapchain bundle has been rebuilt.
    pub rebuilds_performed: u64,
}

impl FrameScheduler {
    /// The scheduler's invariant: the bundle is consistent, the assignment is
    /// resolved, and the one tracked token never runs ahead of the count of
    /// produced tokens; a token still in flight is the latest one produced.
    pub open spec fn wf(self) -> bool {
        &&& self.swapchain.well_formed()
        &&& self.assignment.spec_complete()
        &&& self.previous_frame_end.serial <= self.tokens_produced
        &&& (!self.previous_frame_end.already_complete ==> self.previous_frame_end.serial
            == self.tokens_produced)
    }

    /// Number of submissions whose completion is still unconfirmed from the
    /// CPU's point of view; the scheduler's shape bounds it by one.
    pub open spec fn in_flight(self) -> nat {
        if self.previous_frame_end.already_complete {
            0
        } else {
            1
        }
    }

    /// Start scheduling over a freshly created bundle: no token is in
    /// flight (the initial token is a no-op), nothing is pending.
    pub fn new(
        swapchain: SwapchainState,
        assignment: QueueFamilyAssignment,
        window_extent: Extent2D,
    ) -> (s: Self)
        requires
            swapchain.well_formed(),
            assignment.spec_complete(),
        ensures
            s.wf(),
            s.swapchain == swapchain,
            s.assignment == assignment,
            s.window_extent == window_extent,
            s.previous_frame_end == (CompletionToken { serial: 0, already_complete: true }),
            !s.needs_rebuild,
            s.tokens_produced == 0,
            s.rebuilds_performed == 0,
    {
        FrameScheduler {
            swapchain,
            assignment,
            window_extent,
            previous_frame_end: CompletionToken { serial: 0, already_complete: true },
            needs_rebuild: false,
            tokens_produced: 0,
            rebuilds_performed: 0,
        }
    }

    /// The external resize signal: remember the new size and mark the chain
    /// for rebuild; nothing else happens until the next frame cycle.
    pub fn notify_resize(&mut self, new_extent: Extent2D)
        ensures
            final(self).needs_rebuild,
            final(self).window_extent == new_extent,
            final(self).swapchain == old(self).swapchain,
            final(self).assignment == old(self).assignment,
            final(self).previous_frame_end == old(self).previous_frame_end,
            final(self).tokens_produced == old(self).tokens_produced,
            final(self).rebuilds_performed == old(self).rebuilds_performed,
    {
        self.needs_rebuild = true;
        self.window_extent = new_extent;
    }

    /// Top of the frame cycle, after the caller's non-blocking cleanup of
    /// already-finished GPU work: honor a pending rebuild exactly once, with
    /// the current chain as the recycling hint, replacing the bundle
    /// atomically and clearing the flag. Returns whether a rebuild ran.
    pub fn begin_frame(&mut self, report: &SurfaceReport) -> (rebuilt: bool)
        requires
            old(self).wf(),
            report.formats@.len() > 0,
            report.caps.min_image_count < u32::MAX,
            old(self).rebuilds_performed < u64::MAX,
        ensures
            final(self).wf(),
            rebuilt == old(self).needs_rebuild,
            !final(self).needs_rebuild,
            !old(self).needs_rebuild ==> *final(self) == *old(self),
            old(self).needs_rebuild ==> {
                &&& matches_surface(
                    final(self).swapchain,
                    *report,
                    old(self).assignment,
                    old(self).window_extent,
                )
                &&& final(self).rebuilds_performed == old(self).rebuilds_performed + 1
            },
            final(self).assignment == old(self).assignment,
            final(self).window_extent == old(self).window_extent,
            final(self).previous_frame_end == old(self).previous_frame_end,
            final(self).tokens_produced == old(self).tokens_produced,
            !old(self).needs_rebuild ==> final(self).rebuilds_performed
                == old(self).rebuilds_performed,
    {
        if self.needs_rebuild {
            let rebuilt_chain = create_swapchain_state(
                report,
                &self.assignment,
                self.window_extent,
                Some(&self.swapchain),
            );
            self.swapchain = rebuilt_chain;
            self.needs_rebuild = false;
            self.rebuilds_performed = self.rebuilds_performed + 1;
            true
        } else {
            false
        }
    }

    /// The state after an acquire report: staleness only marks the chain for
    /// rebuild; everything else leaves the scheduler as it was.
    pub open spec fn spec_after_acquire(self, outcome: AcquireOutcome) -> FrameScheduler {
        match outcome {
            AcquireOutcome::OutOfDate => FrameScheduler { needs_rebuild: true, ..self },
            _ => self,
        }
    }

    /// The action an acquire report calls for: render on success (suboptimal
    /// included), skip the frame on staleness, abort on any other failure.
    pub open spec fn spec_acquire_action(self, outcome: AcquireOutcome) -> AcquireAction {
        match outcome {
            AcquireOutcome::Acquired { image_index, suboptimal } => AcquireAction::Render {
                image_index,
            },
            AcquireOutcome::OutOfDate => AcquireAction::SkipFrame,
            AcquireOutcome::DeviceError => AcquireAction::Abort,
        }
    }

    /// Handle the acquire report. A suboptimal chain is treated as success
    /// and does not trigger a rebuild; `OutOfDate` aborts this frame's draw
    /// and marks the chain; any other failure is fatal.
    pub fn handle_acquire(&mut self, outcome: AcquireOutcome) -> (a: AcquireAction)
        requires
            old(self).wf(),
            outcome matches AcquireOutcome::Acquired { image_index, .. } ==> image_index
                < old(self).swapchain.framebuffers@.len(),
        ensures
            final(self).wf(),
            *final(self) == old(self).spec_after_acquire(outcome),
            a == old(self).spec_acquire_action(outcome),
            a matches AcquireAction::Render { image_index } ==> image_index
                < final(self).swapchain.command_buffers@.len(),
    {
        match outcome {
            AcquireOutcome::Acquired { image_index, suboptimal: _ } => {
                AcquireAction::Render { image_index }
            },
            AcquireOutcome::OutOfDate => {
                self.needs_rebuild = true;
                AcquireAction::SkipFrame
            },
            AcquireOutcome::DeviceError => AcquireAction::Abort,
        }
    }

    /// The precompiled command buffer for an acquired image index.
    pub fn command_buffer_for(&self, image_index: usize) -> (cb: &CommandBufferInfo)
        requires
            self.wf(),
            image_index < self.swapchain.command_buffers@.len(),
        ensures
            *cb == self.swapchain.command_buffers@[image_index as int],
            cb.framebuffer_index == image_index,
            cb.vertex_count == TRIANGLE_VERTEX_COUNT,
    {
        &self.swapchain.command_buffers[image_index]
    }

    /// The state after a submission report. Success stores the returned
    /// token, now the latest produced; staleness marks the chain and, like
    /// any other failure, installs a no-op token so no branch leaves the
    /// tracked token behind.
    pub open spec fn spec_after_submission(self, outcome: SubmitOutcome) -> FrameScheduler
        recommends
            self.tokens_produced < u64::MAX,
    {
        match outcome {
            SubmitOutcome::Completed => FrameScheduler {
                tokens_produced: (self.tokens_produced + 1) as u64,
                previous_frame_end: CompletionToken {
                    serial: (self.tokens_produced + 1) as u64,
                    already_complete: false,
                },
                ..self
            },
            SubmitOutcome::OutOfDate => FrameScheduler {
                needs_rebuild: true,
                previous_frame_end: CompletionToken {
                    serial: self.tokens_produced,
                    already_complete: true,
                },
                ..self
            },
            SubmitOutcome::TransientFailure => FrameScheduler {
                previous_frame_end: CompletionToken {
                    serial: self.tokens_produced,
                    already_complete: true,
                },
                ..self
            },
        }
    }

    /// Consume the old token and register the submission report: the one
    /// tracked token is replaced on every branch, so at most one frame's
    /// work is ever unconfirmed.
    pub fn complete_submission(&mut self, outcome: SubmitOutcome)
        requires
            old(self).wf(),
            old(self).tokens_produced < u64::MAX,
        ensures
            final(self).wf(),
            *final(self) == old(self).spec_after_submission(outcome),
            final(self).in_flight() <= 1,
            outcome is Completed ==> final(self).tokens_produced == old(self).tokens_produced + 1,
            outcome !is Completed ==> final(self).tokens_produced == old(self).tokens_produced,
    {
        match outcome {
            SubmitOutcome::Completed => {
                self.tokens_produced = self.tokens_produced + 1;
                self.previous_frame_end = CompletionToken {
                    serial: self.tokens_produced,
                    already_complete: false,
                };
            },
            SubmitOutcome::OutOfDate => {
                self.needs_rebuild = true;
                self.previous_frame_end = CompletionToken {
                    serial: self.tokens_produced,
                    already_complete: true,
                };
            },
            SubmitOutcome::TransientFailure => {
                self.previous_frame_end = CompletionToken {
                    serial: self.tokens_produced,
                    already_complete: true,
                };
            },
        }
    }

    /// The scheduler tracks exactly one completion token, so at most one
    /// frame's GPU work is unconfirmed at any inspection point.
    pub proof fn lemma_at_most_one_frame_in_flight(self)
        ensures
            self.in_flight() <= 1,
    {
    }

    /// A staleness report on acquire marks the chain for rebuild and skips
    /// this frame's draw; `begin_frame`'s contract then forces exactly one
    /// recreation, clearing the flag, before the next acquire is attempted.
    pub proof fn lemma_out_of_date_marks_rebuild(self)
        ensures
            self.spec_after_acquire(AcquireOutcome::OutOfDate).needs_rebuild,
            self.spec_acquire_action(AcquireOutcome::OutOfDate) is SkipFrame,
    {
    }

    /// Map a window event to what the loop does: stop on a close request or
    /// the escape key, remember a resize for the next cycle, draw when
    /// events are drained.
    pub fn handle_event(&mut self, event: &LoopEvent) -> (a: LoopAction)
        ensures
            match *event {
                LoopEvent::CloseRequested => a is Exit && *final(self) == *old(self),
                LoopEvent::KeyPressed { is_escape } => {
                    &&& a == (if is_escape {
                        LoopAction::Exit
                    } else {
                        LoopAction::Idle
                    })
                    &&& *final(self) == *old(self)
                },
                LoopEvent::Resized { extent } => {
                    &&& a is Idle
                    &&& final(self).needs_rebuild
                    &&& final(self).window_extent == extent
                    &&& final(self).swapchain == old(self).swapchain
                    &&& final(self).assignment == old(self).assignment
                    &&& final(self).previous_frame_end == old(self).previous_frame_end
                    &&& final(self).tokens_produced == old(self).tokens_produced
                    &&& final(self).rebuilds_performed == old(self).rebuilds_performed
                },
                LoopEvent::MainEventsCleared => a is Draw && *final(self) == *old(self),
                LoopEvent::RedrawRequested => a is Draw && *final(self) == *old(self),
                LoopEvent::Other => a is Idle && *final(self) == *old(self),
            },
    {
        match event {
            LoopEvent::CloseRequested => LoopAction::Exit,
            LoopEvent::KeyPressed { is_escape } => {
                if *is_escape {
                    LoopAction::Exit
                } else {
                    LoopAction::Idle
                }
            },
            LoopEvent::Resized { extent } => {
                self.notify_resize(*extent);
                LoopAction::Idle
            },
            LoopEvent::MainEventsCleared => LoopAction::Draw,
            LoopEvent::RedrawRequested => LoopAction::Draw,
            LoopEvent::Other => LoopAction::Idle,
        }
    }
}

/// The scheduler's state after a sequence of successful frame cycles with no
/// staleness signaled. In such a cycle the rebuild flag is down, so
/// `begin_frame` leaves the state unchanged (its contract), a successful
/// acquire leaves it unchanged, and the completed submission produces the
/// next token.
pub open spec fn spec_run_frames(s: FrameScheduler, acquires: Seq<AcquireOutcome>) -> FrameScheduler
    decreases acquires.len(),
{
    if acquires.len() == 0 {
        s
    } else {
        let prev = spec_run_frames(s, acquires.drop_last());
        prev.spec_after_acquire(acquires.last()).spec_after_submission(SubmitOutcome::Completed)
    }
}

/// After any sequence of `n` successful frame cycles with no staleness
/// signaled, exactly `n` completion tokens have been produced, the rebuild
/// flag is still down, and at most one token — the latest — is in flight.
pub proof fn lemma_successful_frames_produce_n_tokens(
    s: FrameScheduler,
    acquires: Seq<AcquireOutcome>,
)
    requires
        s.wf(),
        !s.needs_rebuild,
        s.tokens_produced + acquires.len() <= u64::MAX,
        forall|k: int| 0 <= k < acquires.len() ==> acquires[k] is Acquired,
    ensures
        spec_run_frames(s, acquires).wf(),
        !spec_run_frames(s, acquires).needs_rebuild,
        spec_run_frames(s, acquires).tokens_produced == s.tokens_produced + acquires.len(),
        spec_run_frames(s, acquires).in_flight() <= 1,
        acquires.len() > 0 ==> {
            &&& spec_run_frames(s, acquires).in_flight() == 1
            &&& spec_run_frames(s, acquires).previous_frame_end.serial == s.tokens_produced
                + acquires.len()
        },
        spec_run_frames(s, acquires).swapchain == s.swapchain,
        spec_run_frames(s, acquires).rebuilds_performed == s.rebuilds_performed,
    decreases acquires.len(),
{
    if acquires.len() > 0 {
        lemma_successful_frames_produce_n_tokens(s, acquires.drop_last());
    }
}

} // verus!
