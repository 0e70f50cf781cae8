//! The life of the application: it starts without a window, is brought up
//! once when the windowing system activates it, and from then on answers
//! window events.

use vstd::prelude::*;
use crate::utils::GameInfo;

verus! {

/// Width of the window when it is created, in pixels.
pub const WINDOW_WIDTH: u32 = 800;

/// Height of the window when it is created, in pixels.
pub const WINDOW_HEIGHT: u32 = 600;

/// The number of frames that may be in flight.
pub const FRAMES_IN_FLIGHT: u32 = 2;

/// What the windowing system reports.
#[derive(Clone, Copy, Debug, PartialEq, Eq, Structural)]
pub enum WindowSignal {
    /// The application was activated and may create its window.
    Resumed,
    /// The user asked for the window to be closed.
    CloseRequested,
    /// The window has a new size.
    Resized,
    /// The window wants to be drawn.
    RedrawRequested,
    /// Anything else.
    Other,
}

/// What to do about a report of the windowing system.
#[derive(Clone, Copy, Debug, PartialEq, Eq, Structural)]
pub enum AppAction {
    /// Create the window and the renderer and call `App::init` with them.
    Initialise,
    /// Leave the event loop.
    Exit,
    /// Mark the swapchain as stale; it is rebuilt after the next present.
    InvalidateSwapchain,
    /// Render a frame, then ask for the next redraw.
    RenderAndRedraw,
    /// Nothing.
    Ignore,
}

/// The application: not yet brought up, or running with its context `C`.
#[derive(Debug)]
pub enum App<C> {
    Initialised(C),
    Uninitialised { game_info: GameInfo },
}

/// What to do about `signal`, for an application that is or is not brought
/// up.
pub open spec fn answer(initialised: bool, signal: WindowSignal) -> AppAction {
    match signal {
        WindowSignal::Resumed => if initialised {
            AppAction::Ignore
        } else {
            AppAction::Initialise
        },
        WindowSignal::CloseRequested => AppAction::Exit,
        WindowSignal::Resized => if initialised {
            AppAction::InvalidateSwapchain
        } else {
            AppAction::Ignore
        },
        WindowSignal::RedrawRequested => if initialised {
            AppAction::RenderAndRedraw
        } else {
            AppAction::Ignore
        },
        WindowSignal::Other => AppAction::Ignore,
    }
}

impl<C> App<C> {
    /// An application that is not brought up yet.
    pub fn new(game_info: GameInfo) -> (app: Self)
        ensures
            app == (App::<C>::Uninitialised { game_info }),
    {
        App::Uninitialised { game_info }
    }

    /// Whether the application is brought up.
    pub fn is_initialised(&self) -> (initialised: bool)
        ensures
            initialised == (self is Initialised),
    {
        match self {
            App::Initialised(_) => true,
            App::Uninitialised { .. } => false,
        }
    }

    /// Brings the application up with the context that `build` makes of the
    /// application's description. There is no way back.
    pub fn init<F: FnOnce(GameInfo) -> C>(self, build: F) -> (app: Self)
        requires
            self is Uninitialised,
            call_requires(build, (self->game_info,)),
        ensures
            app is Initialised,
            call_ensures(build, (self->game_info,), app->0),
    {
        match self {
            App::Initialised(context) => App::Initialised(context),
            App::Uninitialised { game_info } => App::Initialised(build(game_info)),
        }
    }

    /// What to do about a report of the windowing system. Closing is
    /// always honoured; resizing and redrawing only concern an application
    /// that is brought up; activation only one that is not.
    pub fn window_event(&self, signal: WindowSignal) -> (action: AppAction)
        ensures
            action == answer(self is Initialised, signal),
    {
        let initialised = self.is_initialised();
        match signal {
            WindowSignal::Resumed => if initialised {
                AppAction::Ignore
            } else {
                AppAction::Initialise
            },
            WindowSignal::CloseRequested => AppAction::Exit,
            WindowSignal::Resized => if initialised {
                AppAction::InvalidateSwapchain
            } else {
                AppAction::Ignore
            },
            WindowSignal::RedrawRequested => if initialised {
                AppAction::RenderAndRedraw
            } else {
                AppAction::Ignore
            },
            WindowSignal::Other => AppAction::Ignore,
        }
    }
}

} // verus!
