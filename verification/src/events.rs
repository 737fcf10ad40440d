//! What the view does on each event of the window, and what it asks of the
//! loop that delivers the events.
//!
//! The loop owns the window and the surface. It hands each event to
//! [`View::handle_event`] and carries out the action that comes back; after
//! drawing a frame it asks [`after_render`] how to go on.

use crate::controller::{ElementState, KeyCode};
use vstd::prelude::*;

verus! {

/// An event of the window or of a device.
#[derive(Clone, Copy, Debug, PartialEq, Eq, Structural)]
pub enum Event {
    /// The pointer moved by so much.
    MouseMotion { dx: u32, dy: u32 },
    /// The window is to be closed.
    CloseRequested,
    /// A key went down or came up. `escape` says that the key means Escape.
    KeyboardInput { key: KeyCode, state: ElementState, escape: bool },
    /// The surface has a new size in pixels.
    Resized { width: u32, height: u32 },
    /// The wheel moved by so many pixels.
    MouseWheel { pixels: u32 },
    /// A frame is due.
    RedrawRequested,
    /// Anything else.
    Other,
}

/// What the loop is to do after an event.
#[derive(Clone, Copy, Debug, PartialEq, Eq, Structural)]
pub enum Action {
    /// Go on.
    Nothing,
    /// Leave the loop.
    Exit,
    /// Configure the surface and its depth buffer for this size.
    Configure { width: u32, height: u32 },
    /// Move the camera by the time that has passed and draw a frame.
    Draw,
    /// Ask for the next frame.
    RequestRedraw,
    /// Take the size that the surface has as a new size: hand it in as
    /// [`Event::Resized`].
    Reset,
}

/// How drawing a frame ended.
#[derive(Clone, Copy, Debug, PartialEq, Eq, Structural)]
pub enum SurfaceStatus {
    /// The frame was presented.
    Presented,
    /// The surface was lost.
    Lost,
    /// There is no memory left.
    OutOfMemory,
    /// The frame took too long.
    Timeout,
    /// The surface has changed.
    Outdated,
}

/// The key event leaves the loop: Escape went down.
pub open spec fn leaves(state: ElementState, escape: bool) -> bool {
    escape && state == ElementState::Pressed
}

/// The size is one that a surface can have.
pub open spec fn drawable(width: u32, height: u32) -> bool {
    width > 0 && height > 0
}

/// The action that an event asks for.
pub open spec fn action_for(event: Event) -> Action {
    match event {
        Event::CloseRequested => Action::Exit,
        Event::KeyboardInput { key, state, escape } => if leaves(state, escape) {
            Action::Exit
        } else {
            Action::Nothing
        },
        Event::Resized { width, height } => if drawable(width, height) {
            Action::Configure { width, height }
        } else {
            Action::Nothing
        },
        Event::RedrawRequested => Action::Draw,
        Event::MouseMotion { .. } | Event::MouseWheel { .. } | Event::Other => Action::Nothing,
    }
}

/// How to go on after a frame: after one that was presented ask for the
/// next, after a lost surface set it up again, without memory leave, and
/// otherwise wait for the next event.
pub open spec fn followup(status: SurfaceStatus) -> Action {
    match status {
        SurfaceStatus::Presented => Action::RequestRedraw,
        SurfaceStatus::Lost => Action::Reset,
        SurfaceStatus::OutOfMemory => Action::Exit,
        SurfaceStatus::Timeout | SurfaceStatus::Outdated => Action::Nothing,
    }
}

impl crate::view::View {
    /// The view after an event.
    pub open spec fn after_event(self, event: Event) -> crate::view::View {
        match event {
            Event::MouseMotion { dx, dy } => crate::view::View {
                controller: self.controller.after_mouse(dx, dy),
                ..self
            },
            Event::KeyboardInput { key, state, escape } => if leaves(state, escape) {
                self
            } else {
                crate::view::View { controller: self.controller.after_key(key, state), ..self }
            },
            Event::Resized { width, height } => if drawable(width, height) {
                crate::view::View { projection: self.projection.resized(width, height), ..self }
            } else {
                self
            },
            Event::MouseWheel { pixels } => crate::view::View {
                controller: self.controller.after_scroll(pixels),
                ..self
            },
            Event::CloseRequested | Event::RedrawRequested | Event::Other => self,
        }
    }

    /// Takes an event: input goes to the controller, a new size that can be
    /// drawn to goes to the projection. Says what the loop is to do.
    pub fn handle_event(&mut self, event: Event) -> (action: Action)
        ensures
            *final(self) == old(self).after_event(event),
            action == action_for(event),
    {
        match event {
            Event::MouseMotion { dx, dy } => {
                self.controller.process_mouse(dx, dy);
                Action::Nothing
            },
            Event::CloseRequested => Action::Exit,
            Event::KeyboardInput { key, state, escape } => {
                let pressed = match state {
                    ElementState::Pressed => true,
                    ElementState::Released => false,
                };
                if escape && pressed {
                    Action::Exit
                } else {
                    self.controller.process_keyboard(key, state);
                    Action::Nothing
                }
            },
            Event::Resized { width, height } => {
                if width > 0 && height > 0 {
                    self.projection.resize(width, height);
                    Action::Configure { width, height }
                } else {
                    Action::Nothing
                }
            },
            Event::MouseWheel { pixels } => {
                self.controller.process_scroll(pixels);
                Action::Nothing
            },
            Event::RedrawRequested => Action::Draw,
            Event::Other => Action::Nothing,
        }
    }
}

/// Says how the loop goes on after a frame.
pub fn after_render(status: SurfaceStatus) -> (action: Action)
    ensures
        action == followup(status),
{
    match status {
        SurfaceStatus::Presented => Action::RequestRedraw,
        SurfaceStatus::Lost => Action::Reset,
        SurfaceStatus::OutOfMemory => Action::Exit,
        SurfaceStatus::Timeout => Action::Nothing,
        SurfaceStatus::Outdated => Action::Nothing,
    }
}

/// No event moves the camera, and only input events reach the controller:
/// a frame that is due, a new size or a request to close leave what is
/// pending as it is.
pub proof fn lemma_events_keep_the_camera(view: crate::view::View, event: Event)
    ensures
        view.after_event(event).camera == view.camera,
        !(event is MouseMotion || event is KeyboardInput || event is MouseWheel)
            ==> view.after_event(event).controller == view.controller,
        !(event is Resized) ==> view.after_event(event).projection == view.projection,
{
}

/// A new size that is taken reaches the projection whole; one that cannot
/// be drawn to changes nothing and asks for nothing.
pub proof fn lemma_resized_event(view: crate::view::View, width: u32, height: u32)
    ensures
        ({
            let event = Event::Resized { width, height };
            let after = view.after_event(event);
            &&& drawable(width, height) ==> after.projection.width() == width
                && after.projection.height() == height && action_for(event) == (Action::Configure {
                width,
                height,
            })
            &&& !drawable(width, height) ==> after == view && action_for(event) == Action::Nothing
            &&& after.projection.fovy() == view.projection.fovy()
            &&& after.projection.znear() == view.projection.znear()
            &&& after.projection.zfar() == view.projection.zfar()
        }),
{
    view.projection.lemma_resized(width, height);
}

} // verus!
