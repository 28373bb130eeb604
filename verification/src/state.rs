//! Decisions of the frame loop: which render strategy is active, when the
//! two strategies swap, and what the loop does with each window event.
//!
//! The loop itself lives in the unverified shell; it feeds every event
//! through [`handle_event`] and performs the returned action (render a
//! frame, rebuild the active variant, exit, request a redraw). The state
//! machine here is total and pure, so every decision is pinned by
//! [`spec_step`].

use vstd::prelude::*;

verus! {

/// The two interchangeable render strategies. Exactly one is alive at any
/// time; swapping constructs the new one fresh and drops the old one whole.
#[derive(Clone, Copy, Debug, PartialEq, Eq, Structural)]
pub enum Variant {
    /// Minimal mesh of bare positions: one pipeline, no color, no instancing.
    PositionOnly,
    /// Colored hexagon mesh drawn with one indexed, instanced call.
    ColoredInstanced,
}

/// The keys the loop reacts to; everything else is `Other`.
#[derive(Clone, Copy, Debug, PartialEq, Eq, Structural)]
pub enum Key {
    Escape,
    F12,
    Enter,
    NumpadEnter,
    Other,
}

/// One keyboard event: which key, whether it went down, and whether the
/// platform marked it as auto-repeat rather than a fresh press.
#[derive(Clone, Copy, Debug, PartialEq, Eq, Structural)]
pub struct KeyInput {
    pub key: Key,
    pub pressed: bool,
    pub repeat: bool,
}

/// One event of the window's stream, reduced to what the loop decides on.
#[derive(Clone, Copy, Debug, PartialEq, Eq, Structural)]
pub enum FrameEvent {
    /// The platform asks for the next frame.
    RedrawRequested,
    /// A keyboard transition.
    Keyboard(KeyInput),
    /// The window was asked to close.
    CloseRequested,
    /// All pending events were processed; the loop is idle.
    EventsCleared,
    /// Any event the loop ignores.
    Other,
}

/// What the shell must do after one event is handled.
#[derive(Clone, Copy, Debug, PartialEq, Eq, Structural)]
pub enum LoopAction {
    /// Acquire the next frame, clear it to opaque black, draw the active
    /// variant, submit the commands, present.
    RenderFrame,
    /// Drop the previous variant whole and construct the newly active one
    /// against the same render context.
    RebuildVariant,
    /// Terminate the process with exit code 0.
    Exit,
    /// Leave the event loop (the window was closed).
    StopLoop,
    /// Ask the platform for another redraw.
    RequestRedraw,
    /// Nothing to do.
    Nothing,
}

/// Outcome of one step of the loop: the variant that is active afterwards
/// and the action the shell performs.
#[derive(Clone, Copy, Debug, PartialEq, Eq, Structural)]
pub struct Step {
    pub state: Variant,
    pub action: LoopAction,
}

/// Escape and F12 quit.
pub open spec fn is_quit_key(k: Key) -> bool {
    k == Key::Escape || k == Key::F12
}

/// Enter and the numeric-pad Enter swap the active variant.
pub open spec fn is_activate_key(k: Key) -> bool {
    k == Key::Enter || k == Key::NumpadEnter
}

/// A press edge: the key went down and the event is not auto-repeat.
pub open spec fn is_press_edge(i: KeyInput) -> bool {
    i.pressed && !i.repeat
}

/// The variant that is not `v`.
pub open spec fn spec_toggled(v: Variant) -> Variant {
    match v {
        Variant::PositionOnly => Variant::ColoredInstanced,
        Variant::ColoredInstanced => Variant::PositionOnly,
    }
}

/// The loop's whole decision table. A redraw request renders with the
/// active variant; a quit-key press edge exits; an activate-key press edge
/// swaps the variant and rebuilds; a close request stops the loop; the
/// idle signal requests the next redraw; everything else does nothing and
/// never moves the state.
pub open spec fn spec_step(state: Variant, event: FrameEvent) -> Step {
    match event {
        FrameEvent::RedrawRequested => Step { state, action: LoopAction::RenderFrame },
        FrameEvent::Keyboard(i) => {
            if is_quit_key(i.key) && is_press_edge(i) {
                Step { state, action: LoopAction::Exit }
            } else if is_activate_key(i.key) && is_press_edge(i) {
                Step { state: spec_toggled(state), action: LoopAction::RebuildVariant }
            } else {
                Step { state, action: LoopAction::Nothing }
            }
        },
        FrameEvent::CloseRequested => Step { state, action: LoopAction::StopLoop },
        FrameEvent::EventsCleared => Step { state, action: LoopAction::RequestRedraw },
        FrameEvent::Other => Step { state, action: LoopAction::Nothing },
    }
}

/// The variant the loop starts in.
pub fn initial_variant() -> (v: Variant)
    ensures
        v == Variant::PositionOnly,
{
    Variant::PositionOnly
}

/// Swaps to the other variant.
pub fn toggled(v: Variant) -> (r: Variant)
    ensures
        r == spec_toggled(v),
{
    match v {
        Variant::PositionOnly => Variant::ColoredInstanced,
        Variant::ColoredInstanced => Variant::PositionOnly,
    }
}

/// Handles one window event: returns the variant that is active afterwards
/// and the action the shell must perform, exactly as [`spec_step`] says.
pub fn handle_event(state: Variant, event: FrameEvent) -> (r: Step)
    ensures
        r == spec_step(state, event),
{
    match event {
        FrameEvent::RedrawRequested => Step { state, action: LoopAction::RenderFrame },
        FrameEvent::Keyboard(i) => {
            let quit = matches!(i.key, Key::Escape | Key::F12);
            let activate = matches!(i.key, Key::Enter | Key::NumpadEnter);
            let edge = i.pressed && !i.repeat;
            if quit && edge {
                Step { state, action: LoopAction::Exit }
            } else if activate && edge {
                Step { state: toggled(state), action: LoopAction::RebuildVariant }
            } else {
                Step { state, action: LoopAction::Nothing }
            }
        },
        FrameEvent::CloseRequested => Step { state, action: LoopAction::StopLoop },
        FrameEvent::EventsCleared => Step { state, action: LoopAction::RequestRedraw },
        FrameEvent::Other => Step { state, action: LoopAction::Nothing },
    }
}

/// One activate press edge always moves to the other variant, and a second
/// one returns to the original variant: the swap is an involution, so each
/// toggle changes the state and two toggles cancel.
pub proof fn lemma_swap_toggles_and_returns(state: Variant, i: KeyInput)
    requires
        is_activate_key(i.key),
        is_press_edge(i),
    ensures
        spec_step(state, FrameEvent::Keyboard(i)).state == spec_toggled(state),
        spec_step(state, FrameEvent::Keyboard(i)).state != state,
        spec_step(spec_step(state, FrameEvent::Keyboard(i)).state, FrameEvent::Keyboard(i)).state
            == state,
{
}

/// A keyboard event that is not a press edge — an auto-repeat or a release
/// — never changes the active variant, whichever key it carries.
pub proof fn lemma_no_edge_never_toggles(state: Variant, i: KeyInput)
    requires
        !is_press_edge(i),
    ensures
        spec_step(state, FrameEvent::Keyboard(i)).state == state,
        spec_step(state, FrameEvent::Keyboard(i)).action != LoopAction::RebuildVariant,
{
}

/// A press edge of Escape or F12 always exits, whichever variant is
/// currently active.
pub proof fn lemma_quit_key_always_exits(state: Variant, i: KeyInput)
    requires
        is_quit_key(i.key),
        is_press_edge(i),
    ensures
        spec_step(state, FrameEvent::Keyboard(i)).action == LoopAction::Exit,
{
}

} // verus!
