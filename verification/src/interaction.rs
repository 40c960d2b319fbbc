//! What one frame of input does to the session.
//!
//! Once per frame the caller polls its platform and hands over what it
//! found: the size of the viewport, whether the pointer moved and which
//! parameter it now selects, and the state of the control keys. The session
//! answers with its next state and with what the caller has to carry out:
//! whether the pixel buffer must be allocated anew, and which changes apply
//! to the view window, in order.

use vstd::prelude::*;
use crate::grid::Viewport;

verus! {

/// State of the control keys during one frame.
#[derive(Clone, Copy, Debug, PartialEq, Eq, Structural)]
pub struct Controls {
    /// The zoom-in key is held.
    pub zoom_in: bool,
    /// The zoom-out key is held.
    pub zoom_out: bool,
    /// The pan-right key is held.
    pub pan_right: bool,
    /// The pan-left key is held.
    pub pan_left: bool,
    /// The pan-down key is held.
    pub pan_down: bool,
    /// The pan-up key is held.
    pub pan_up: bool,
    /// The freeze key went down during this frame.
    pub toggle_freeze: bool,
}

/// One change of the view window.
#[derive(Clone, Copy, Debug, PartialEq, Eq, Structural)]
pub enum ViewCommand {
    /// Divide the boundary by the zoom factor.
    ZoomIn,
    /// Multiply the boundary by the zoom factor.
    ZoomOut,
    /// Add one scroll step to the horizontal offset.
    PanRight,
    /// Take one scroll step off the horizontal offset.
    PanLeft,
    /// Add one scroll step to the vertical offset.
    PanDown,
    /// Take one scroll step off the vertical offset.
    PanUp,
}

/// `commands`, followed by `command` if its key is held.
pub open spec fn with_held(commands: Seq<ViewCommand>, held: bool, command: ViewCommand) -> Seq<
    ViewCommand,
> {
    if held {
        commands.push(command)
    } else {
        commands
    }
}

/// The changes of the view window that the held keys ask for, in the order
/// in which they apply: zoom before pan, so that a scroll step is taken at
/// the zoom level of this frame.
pub open spec fn commands_for(controls: Controls) -> Seq<ViewCommand> {
    let zoomed = with_held(
        with_held(Seq::empty(), controls.zoom_in, ViewCommand::ZoomIn),
        controls.zoom_out,
        ViewCommand::ZoomOut,
    );
    let across = with_held(
        with_held(zoomed, controls.pan_right, ViewCommand::PanRight),
        controls.pan_left,
        ViewCommand::PanLeft,
    );
    with_held(
        with_held(across, controls.pan_down, ViewCommand::PanDown),
        controls.pan_up,
        ViewCommand::PanUp,
    )
}

/// Lists the changes of the view window that the held keys ask for.
pub fn view_commands(controls: &Controls) -> (commands: Vec<ViewCommand>)
    ensures
        commands@ == commands_for(*controls),
{
    let mut commands: Vec<ViewCommand> = Vec::new();
    if controls.zoom_in {
        commands.push(ViewCommand::ZoomIn);
    }
    if controls.zoom_out {
        commands.push(ViewCommand::ZoomOut);
    }
    if controls.pan_right {
        commands.push(ViewCommand::PanRight);
    }
    if controls.pan_left {
        commands.push(ViewCommand::PanLeft);
    }
    if controls.pan_down {
        commands.push(ViewCommand::PanDown);
    }
    if controls.pan_up {
        commands.push(ViewCommand::PanUp);
    }
    commands
}

/// What the platform reports at the start of a frame. `C` is the type of the
/// fractal's parameter; the session stores and hands on such values and
/// never looks into them.
pub struct FrameInput<C> {
    /// Current size of the viewport.
    pub viewport: Viewport,
    /// The pointer is somewhere else than where the session last took it up.
    pub pointer_moved: bool,
    /// The parameter that the pointer's position selects.
    pub pointer_c: C,
    /// State of the control keys.
    pub controls: Controls,
}

/// What the caller has to carry out in a frame.
pub struct FramePlan {
    /// The viewport changed size: allocate the pixel buffer anew.
    pub reallocate: bool,
    /// The session took up the pointer's position.
    pub parameter_updated: bool,
    /// The changes to apply to the view window, in order.
    pub commands: Vec<ViewCommand>,
}

/// The interaction state that persists from frame to frame.
pub struct Session<C> {
    /// Size of the pixel buffer.
    pub viewport: Viewport,
    /// The fractal's parameter.
    pub c: C,
    /// The parameter is pinned: the pointer does not move it.
    pub frozen: bool,
}

impl<C> Session<C> {
    /// The session takes up the pointer's position in this frame.
    pub open spec fn follows_pointer(self, input: FrameInput<C>) -> bool {
        input.pointer_moved && !self.frozen
    }

    /// The session after a frame with this input. The pointer is looked at
    /// before the freeze key, so a frame that freezes still takes up the
    /// pointer, and a frame that unfreezes does not yet.
    pub open spec fn after(self, input: FrameInput<C>) -> Session<C> {
        Session {
            viewport: input.viewport,
            c: if self.follows_pointer(input) {
                input.pointer_c
            } else {
                self.c
            },
            frozen: self.frozen != input.controls.toggle_freeze,
        }
    }

    /// The session after a run of frames, oldest first.
    pub open spec fn after_all(self, inputs: Seq<FrameInput<C>>) -> Session<C>
        decreases inputs.len(),
    {
        if inputs.len() == 0 {
            self
        } else {
            self.after_all(inputs.drop_last()).after(inputs.last())
        }
    }

    /// A session that is not frozen, for a pixel buffer of the given size.
    pub fn new(viewport: Viewport, c: C) -> (session: Self)
        ensures
            session == (Session { viewport, c, frozen: false }),
    {
        Session { viewport, c, frozen: false }
    }

    /// Takes in the input of one frame.
    pub fn begin_frame(&mut self, input: FrameInput<C>) -> (plan: FramePlan)
        ensures
            *final(self) == old(self).after(input),
            plan.reallocate == (old(self).viewport != input.viewport),
            plan.parameter_updated == old(self).follows_pointer(input),
            plan.commands@ == commands_for(input.controls),
    {
        let reallocate = self.viewport != input.viewport;
        self.viewport = input.viewport;
        let parameter_updated = input.pointer_moved && !self.frozen;
        if parameter_updated {
            self.c = input.pointer_c;
        }
        if input.controls.toggle_freeze {
            self.frozen = !self.frozen;
        }
        FramePlan { reallocate, parameter_updated, commands: view_commands(&input.controls) }
    }
}

/// After every frame the pixel buffer has the size of the viewport that the
/// frame reported, whatever size it had before.
pub proof fn lemma_buffer_matches_viewport<C>(session: Session<C>, inputs: Seq<FrameInput<C>>)
    requires
        inputs.len() > 0,
    ensures
        session.after_all(inputs).viewport == inputs.last().viewport,
{
}

/// While the session is frozen and the freeze key is not pressed, the
/// parameter stays what it was, wherever the pointer moves.
pub proof fn lemma_frozen_parameter_is_kept<C>(session: Session<C>, inputs: Seq<FrameInput<C>>)
    requires
        session.frozen,
        forall|i: int| 0 <= i < inputs.len() ==> !inputs[i].controls.toggle_freeze,
    ensures
        session.after_all(inputs).frozen,
        session.after_all(inputs).c == session.c,
    decreases inputs.len(),
{
    if inputs.len() > 0 {
        lemma_frozen_parameter_is_kept(session, inputs.drop_last());
    }
}

} // verus!
