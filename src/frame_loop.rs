//! The decisions of the main loop, apart from the window system and the GPU:
//! each event from the platform becomes the action the caller must perform.

use vstd::prelude::*;
use crate::world::World;

verus! {

/// What the platform reports.
#[derive(Clone, Copy, Debug, PartialEq, Eq, Structural)]
pub enum LoopEvent {
    /// The window now has this physical size.
    Resized { width: u32, height: u32 },
    /// The user asked to close the window.
    CloseRequested,
    /// The Escape key went down.
    EscapePressed,
    /// All pending events are handled; `elapsed_ns` passed since the last one.
    EventsCleared { elapsed_ns: u64 },
    /// Anything else.
    Other,
}

/// What the caller must do in answer.
#[derive(Clone, Copy, Debug, PartialEq, Eq, Structural)]
pub enum LoopAction {
    /// Rebuild the presentation chain at this size before the next frame.
    Rebuild { width: u32, height: u32 },
    /// Leave the loop.
    Exit,
    /// Render a frame; when `upload` holds, upload the instances first.
    Render { upload: bool },
    /// Nothing.
    Idle,
}

/// The state the loop carries from one event to the next.
pub struct FrameLoop {
    pub world: World,
}

impl FrameLoop {
    /// A loop over `world`.
    pub fn new(world: World) -> (r: FrameLoop)
        ensures
            r.world@ == world@,
    {
        FrameLoop { world }
    }

    /// Takes one event and answers with the action it calls for: a resize
    /// asks for the presentation chain to be rebuilt at the new size, closing or Escape exits, and the end of a batch of
    /// events advances the simulation by the elapsed time and renders,
    /// uploading only when at least one step was taken.
    pub fn handle(&mut self, event: LoopEvent) -> (action: LoopAction)
        requires
            old(self).world@.wf(),
        ensures
            final(self).world@.wf(),
            match event {
                LoopEvent::Resized { width, height } => {
                    &&& action == (LoopAction::Rebuild { width, height })
                    &&& final(self).world@ == old(self).world@
                },
                LoopEvent::CloseRequested | LoopEvent::EscapePressed => {
                    &&& action == LoopAction::Exit
                    &&& *final(self) == *old(self)
                },
                LoopEvent::EventsCleared { elapsed_ns } => {
                    &&& action == (LoopAction::Render {
                        upload: old(self).world@.steps_for(elapsed_ns as nat) > 0,
                    })
                    &&& final(self).world@ == old(self).world@.ticked(elapsed_ns as nat)
                },
                LoopEvent::Other => {
                    &&& action == LoopAction::Idle
                    &&& *final(self) == *old(self)
                },
            },
    {
        match event {
            LoopEvent::Resized { width, height } => LoopAction::Rebuild { width, height },
            LoopEvent::CloseRequested => LoopAction::Exit,
            LoopEvent::EscapePressed => LoopAction::Exit,
            LoopEvent::EventsCleared { elapsed_ns } => {
                let upload = self.world.tick(elapsed_ns);
                LoopAction::Render { upload }
            },
            LoopEvent::Other => LoopAction::Idle,
        }
    }
}

} // verus!
