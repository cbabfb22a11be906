//! The event loop's decisions.
//!
//! The window system calls back into the program: the program was resumed or
//! suspended, a window event arrived, the event queue ran empty. [`App`] answers
//! each callback with the effects to carry out, in order. It keeps no window and
//! no rendering context itself, only the knowledge of whether they exist.

use vstd::prelude::*;

verus! {

/// The width in pixels of the drawing surface behind a window that is not shown.
pub const HIDDEN_SURFACE_WIDTH: u32 = 800;

/// The height in pixels of the drawing surface behind a window that is not shown.
pub const HIDDEN_SURFACE_HEIGHT: u32 = 600;

/// A window event, as far as the loop tells events apart.
#[derive(Clone, Copy, Debug, PartialEq, Eq, Structural)]
pub enum WindowSignal {
    /// The window now has this size in pixels.
    Resized { width: u32, height: u32 },
    /// The window wants its content drawn: time for one frame.
    RedrawRequested,
    /// The user asked to close the window.
    CloseRequested,
    /// Every other event.
    Other,
}

/// One thing for the caller to do.
#[derive(Clone, Copy, Debug, PartialEq, Eq, Structural)]
pub enum Effect {
    /// Create the window, the rendering context and the application state.
    CreateState,
    /// Let go of the window, the rendering context and the application state.
    DropState,
    /// Resize the drawing surface to this size in pixels.
    ResizeDisplay { width: u32, height: u32 },
    /// Advance the application by one frame: the camera's integration step.
    Update,
    /// Fetch the projection and the view matrix and submit the frame.
    DrawFrame,
    /// Hand the event to the application's input handling.
    HandleEvent,
    /// Ask the window system for another redraw.
    RequestRedraw,
    /// End the event loop.
    Exit,
}

/// The state of the event loop.
#[derive(Clone, Copy, Debug, PartialEq, Eq, Structural)]
pub struct App {
    /// Whether the window, the rendering context and the application state exist.
    pub has_state: bool,
    /// Whether the window is shown.
    pub visible: bool,
    /// Whether the loop ends by itself after the first frame.
    pub close_promptly: bool,
}

/// `first` followed by `more` if `cond`, else `first` alone.
pub open spec fn with_if(first: Seq<Effect>, cond: bool, more: Effect) -> Seq<Effect> {
    if cond {
        first.push(more)
    } else {
        first
    }
}

impl App {
    /// What is to be done when the program is resumed: create the state, and
    /// end at once if the window is hidden and the loop is to close promptly.
    pub open spec fn on_resumed(self) -> Seq<Effect> {
        with_if(seq![Effect::CreateState], !self.visible && self.close_promptly, Effect::Exit)
    }

    /// What is to be done when the program is suspended.
    pub open spec fn on_suspended(self) -> Seq<Effect> {
        if self.has_state {
            seq![Effect::DropState]
        } else {
            Seq::empty()
        }
    }

    /// What is to be done in answer to a window event. A request to close ends
    /// the loop whatever the state. Everything else needs the state and is
    /// ignored without it: a resize resizes the surface; a redraw request runs
    /// one frame, the update first and the drawing second, and then ends the loop
    /// if it is to close promptly; any other event goes to the input handling.
    pub open spec fn on_window_event(self, signal: WindowSignal) -> Seq<Effect> {
        match signal {
            WindowSignal::CloseRequested => seq![Effect::Exit],
            _ => if !self.has_state {
                Seq::empty()
            } else {
                match signal {
                    WindowSignal::Resized { width, height } => seq![
                        Effect::ResizeDisplay { width, height },
                    ],
                    WindowSignal::RedrawRequested => with_if(
                        seq![Effect::Update, Effect::DrawFrame],
                        self.close_promptly,
                        Effect::Exit,
                    ),
                    _ => seq![Effect::HandleEvent],
                }
            },
        }
    }

    /// What is to be done when the event queue has run empty.
    pub open spec fn on_about_to_wait(self) -> Seq<Effect> {
        if self.has_state {
            seq![Effect::RequestRedraw]
        } else {
            Seq::empty()
        }
    }

    /// A loop that has not been resumed yet.
    pub fn new(visible: bool, close_promptly: bool) -> (app: App)
        ensures
            app == (App { has_state: false, visible, close_promptly }),
    {
        App { has_state: false, visible, close_promptly }
    }

    /// The program was resumed.
    pub fn resumed(&mut self) -> (effects: Vec<Effect>)
        ensures
            effects@ == old(self).on_resumed(),
            *final(self) == (App { has_state: true, ..*old(self) }),
    {
        self.has_state = true;
        let mut effects: Vec<Effect> = Vec::new();
        effects.push(Effect::CreateState);
        if !self.visible && self.close_promptly {
            effects.push(Effect::Exit);
        }
        effects
    }

    /// The program was suspended.
    pub fn suspended(&mut self) -> (effects: Vec<Effect>)
        ensures
            effects@ == old(self).on_suspended(),
            *final(self) == (App { has_state: false, ..*old(self) }),
    {
        let mut effects: Vec<Effect> = Vec::new();
        if self.has_state {
            effects.push(Effect::DropState);
        }
        self.has_state = false;
        effects
    }

    /// A window event arrived.
    pub fn window_event(&self, signal: WindowSignal) -> (effects: Vec<Effect>)
        ensures
            effects@ == self.on_window_event(signal),
    {
        let mut effects: Vec<Effect> = Vec::new();
        match signal {
            WindowSignal::CloseRequested => {
                effects.push(Effect::Exit);
            },
            WindowSignal::Resized { width, height } => {
                if self.has_state {
                    effects.push(Effect::ResizeDisplay { width, height });
                }
            },
            WindowSignal::RedrawRequested => {
                if self.has_state {
                    effects.push(Effect::Update);
                    effects.push(Effect::DrawFrame);
                    if self.close_promptly {
                        effects.push(Effect::Exit);
                    }
                }
            },
            WindowSignal::Other => {
                if self.has_state {
                    effects.push(Effect::HandleEvent);
                }
            },
        }
        effects
    }

    /// The event queue has run empty.
    pub fn about_to_wait(&self) -> (effects: Vec<Effect>)
        ensures
            effects@ == self.on_about_to_wait(),
    {
        let mut effects: Vec<Effect> = Vec::new();
        if self.has_state {
            effects.push(Effect::RequestRedraw);
        }
        effects
    }
}

/// The size of the drawing surface to create: that of the window's content if
/// the window is shown, else a fixed 800 by 600. `None` if either side would be
/// zero, for which no surface can be made.
pub fn surface_size(visible: bool, inner_width: u32, inner_height: u32) -> (size: Option<
    (u32, u32),
>)
    ensures
        size == (if visible {
            if inner_width > 0 && inner_height > 0 {
                Some((inner_width, inner_height))
            } else {
                None
            }
        } else {
            Some((HIDDEN_SURFACE_WIDTH, HIDDEN_SURFACE_HEIGHT))
        }),
{
    let (width, height) = if visible {
        (inner_width, inner_height)
    } else {
        (HIDDEN_SURFACE_WIDTH, HIDDEN_SURFACE_HEIGHT)
    };
    if width == 0 || height == 0 {
        None
    } else {
        Some((width, height))
    }
}

/// A frame is the update followed at once by the drawing, and nothing else
/// draws or updates: whenever an answer to a window event holds a drawing or an
/// update, the event was a redraw request, the state exists, and the answer
/// starts with the update and then the drawing, each occurring once.
pub proof fn lemma_frame_is_update_then_draw(app: App, signal: WindowSignal)
    requires
        app.on_window_event(signal).contains(Effect::DrawFrame) || app.on_window_event(
            signal,
        ).contains(Effect::Update),
    ensures
        signal == WindowSignal::RedrawRequested,
        app.has_state,
        app.on_window_event(signal).len() >= 2,
        app.on_window_event(signal)[0] == Effect::Update,
        app.on_window_event(signal)[1] == Effect::DrawFrame,
        forall|i: int|
            2 <= i < app.on_window_event(signal).len() ==> app.on_window_event(signal)[i]
                == Effect::Exit,
{
}

/// The loop ends on a close request, on a frame of a loop that closes
/// promptly, and on no other window event.
pub proof fn lemma_exit_on_close(app: App, signal: WindowSignal)
    ensures
        app.on_window_event(signal).contains(Effect::Exit) <==> (signal
            == WindowSignal::CloseRequested || (signal == WindowSignal::RedrawRequested
            && app.has_state && app.close_promptly)),
{
    let effects = app.on_window_event(signal);
    if signal == WindowSignal::CloseRequested {
        assert(effects[0] == Effect::Exit);
    } else if signal == WindowSignal::RedrawRequested && app.has_state && app.close_promptly {
        assert(effects[2] == Effect::Exit);
    }
}

/// Without the state no window event touches the window, the surface or the
/// application: the only thing that can still be asked for is the end of the loop.
pub proof fn lemma_nothing_without_state(app: App, signal: WindowSignal)
    requires
        !app.has_state,
    ensures
        app.on_window_event(signal) == (if signal == WindowSignal::CloseRequested {
            seq![Effect::Exit]
        } else {
            Seq::empty()
        }),
        app.on_about_to_wait() == Seq::<Effect>::empty(),
        app.on_suspended() == Seq::<Effect>::empty(),
{
}

} // verus!
