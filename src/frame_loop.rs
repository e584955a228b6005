//! The frame loop as a state machine: setup once, then frames of "drain the
//! pending events, update and draw under the render guard, release the
//! guard, wait", until a close request or a failure shuts it down.
//!
//! The render guard is the bracket of "make the context current" and "swap
//! the buffers and release the context". Every acquisition is released
//! exactly once, also when the draw between them fails.
use vstd::prelude::*;

verus! {

/// The stage of the loop.
#[derive(Debug, Clone, Copy, PartialEq, Eq)]
pub enum LoopState {
    Init,
    Running,
    ShuttingDown,
}

/// What the program around the loop is to do next.
#[derive(Debug, Clone, Copy, PartialEq, Eq)]
pub enum LoopAction {
    /// Set up the window and the rendering context; answer `SetupFinished`.
    Setup,
    /// Take every pending protocol event; answer `EventsDrained`.
    DrainEvents,
    /// Update the scene, acquire the render guard and draw; answer `FrameDrawn`.
    AcquireAndDraw,
    /// Swap the buffers and release the render guard; answer `Released`.
    Release,
    /// Wait until the next frame is due; answer `WaitOver`.
    Wait,
    /// Release the context, the buffers and the connection, in the reverse
    /// order of their acquisition, and exit; `failed` tells whether a failure
    /// caused it.
    Teardown { failed: bool },
}

/// What the program around the loop reports.
#[derive(Debug, Clone, Copy, PartialEq, Eq)]
pub enum LoopEvent {
    SetupFinished { ok: bool },
    EventsDrained { close_requested: bool },
    FrameDrawn { ok: bool },
    Released,
    WaitOver,
}

/// Whether `event` is the answer to `action`.
pub open spec fn answers(action: LoopAction, event: LoopEvent) -> bool {
    match action {
        LoopAction::Setup => event is SetupFinished,
        LoopAction::DrainEvents => event is EventsDrained,
        LoopAction::AcquireAndDraw => event is FrameDrawn,
        LoopAction::Release => event is Released,
        LoopAction::Wait => event is WaitOver,
        LoopAction::Teardown { .. } => false,
    }
}

/// The frame loop.
pub struct FrameLoop {
    state: LoopState,
    pending: LoopAction,
    guard_held: bool,
    failed: bool,
    acquisitions: Ghost<nat>,
    releases: Ghost<nat>,
}

impl FrameLoop {
    /// The stage of the loop.
    pub closed spec fn state_of(&self) -> LoopState {
        self.state
    }

    /// The action that the loop waits to hear the outcome of.
    pub closed spec fn pending_action(&self) -> LoopAction {
        self.pending
    }

    /// Whether the render guard is held: it is acquired with the
    /// `AcquireAndDraw` action and released with the `Release` that follows.
    pub closed spec fn holds_guard(&self) -> bool {
        self.guard_held
    }

    /// Whether a step of the loop failed.
    pub closed spec fn has_failed(&self) -> bool {
        self.failed
    }

    /// How many times the render guard was acquired.
    pub closed spec fn acquisitions(&self) -> nat {
        self.acquisitions@
    }

    /// How many times the render guard was released.
    pub closed spec fn releases(&self) -> nat {
        self.releases@
    }

    /// The loop's invariant: the guard is held exactly while a draw is
    /// pending, and every acquisition but the one of that draw is released.
    pub closed spec fn wf(&self) -> bool {
        &&& self.acquisitions@ == self.releases@ + if self.guard_held {
            1nat
        } else {
            0nat
        }
        &&& self.guard_held <==> self.pending is AcquireAndDraw
        &&& self.pending is Teardown <==> self.state is ShuttingDown
        &&& self.pending is Setup <==> self.state is Init
    }

    /// A loop that is about to set up.
    pub fn new() -> (r: (FrameLoop, LoopAction))
        ensures
            r.0.wf(),
            r.0.state_of() == LoopState::Init,
            r.1 == LoopAction::Setup,
            r.0.pending_action() == r.1,
            r.0.acquisitions() == 0,
            r.0.releases() == 0,
    {
        (
            FrameLoop {
                state: LoopState::Init,
                pending: LoopAction::Setup,
                guard_held: false,
                failed: false,
                acquisitions: Ghost(0),
                releases: Ghost(0),
            },
            LoopAction::Setup,
        )
    }

    /// The stage of the loop.
    pub fn state(&self) -> (r: LoopState)
        ensures
            r == self.state_of(),
    {
        self.state
    }

    /// Takes the outcome of the pending action and gives the next one. An
    /// event that does not answer the pending action changes nothing, and
    /// the pending action is given again.
    pub fn step(&mut self, event: LoopEvent) -> (r: LoopAction)
        requires
            old(self).wf(),
        ensures
            final(self).wf(),
            final(self).pending_action() == r,
            !answers(old(self).pending_action(), event) ==> *final(self) == *old(self) && r
                == old(self).pending_action(),
            answers(old(self).pending_action(), event) ==> match event {
                LoopEvent::SetupFinished { ok } => if ok {
                    r == LoopAction::DrainEvents && final(self).state_of() == LoopState::Running
                } else {
                    r == LoopAction::Teardown { failed: true }
                },
                LoopEvent::EventsDrained { close_requested } => if close_requested {
                    r == LoopAction::Teardown { failed: false }
                } else {
                    &&& r == LoopAction::AcquireAndDraw
                    &&& final(self).acquisitions() == old(self).acquisitions() + 1
                    &&& final(self).releases() == old(self).releases()
                },
                LoopEvent::FrameDrawn { ok } => {
                    &&& r == LoopAction::Release
                    &&& (!ok ==> final(self).has_failed())
                    &&& final(self).releases() == old(self).releases() + 1
                    &&& final(self).acquisitions() == old(self).acquisitions()
                },
                LoopEvent::Released => r == LoopAction::Wait || r == LoopAction::Teardown {
                    failed: true,
                },
                LoopEvent::WaitOver => r == LoopAction::DrainEvents,
            },
            answers(old(self).pending_action(), event) ==> (event matches LoopEvent::Released ==> (
            r == LoopAction::Teardown { failed: true } <==> old(self).has_failed())),
            answers(old(self).pending_action(), event) ==> final(self).has_failed() == (old(
                self,
            ).has_failed() || event == LoopEvent::FrameDrawn { ok: false } || event
                == LoopEvent::SetupFinished { ok: false }),
            !(event is EventsDrained) ==> final(self).acquisitions() == old(self).acquisitions(),
            !(event is FrameDrawn) ==> final(self).releases() == old(self).releases(),
            r is Teardown ==> !final(self).holds_guard(),
    {
        let next = match (self.pending, event) {
            (LoopAction::Setup, LoopEvent::SetupFinished { ok }) => {
                if ok {
                    self.state = LoopState::Running;
                    LoopAction::DrainEvents
                } else {
                    self.state = LoopState::ShuttingDown;
                    self.failed = true;
                    LoopAction::Teardown { failed: true }
                }
            },
            (LoopAction::DrainEvents, LoopEvent::EventsDrained { close_requested }) => {
                if close_requested {
                    self.state = LoopState::ShuttingDown;
                    LoopAction::Teardown { failed: false }
                } else {
                    self.guard_held = true;
                    self.acquisitions = Ghost(self.acquisitions@ + 1);
                    LoopAction::AcquireAndDraw
                }
            },
            (LoopAction::AcquireAndDraw, LoopEvent::FrameDrawn { ok }) => {
                if !ok {
                    self.failed = true;
                }
                self.guard_held = false;
                self.releases = Ghost(self.releases@ + 1);
                LoopAction::Release
            },
            (LoopAction::Release, LoopEvent::Released) => {
                if self.failed {
                    self.state = LoopState::ShuttingDown;
                    LoopAction::Teardown { failed: true }
                } else {
                    LoopAction::Wait
                }
            },
            (LoopAction::Wait, LoopEvent::WaitOver) => LoopAction::DrainEvents,
            _ => self.pending,
        };
        self.pending = next;
        next
    }
}

} // verus!
