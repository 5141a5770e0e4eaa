use vstd::prelude::*;

verus! {

/// The keys the controller tells apart.
#[derive(Clone, Copy, Debug, PartialEq, Eq, Structural)]
pub enum Key {
    Space,
    LShift,
    W,
    S,
    A,
    D,
    G,
    Other,
}

/// What the controller reads of an input event.
#[derive(Clone, Copy, Debug, PartialEq, Eq, Structural)]
pub enum InputEvent {
    /// A key with a known code went down or up.
    Keyboard { key: Key, pressed: bool },
    /// The modifier keys changed; `alt` is the new state of Alt.
    ModifiersChanged { alt: bool },
    /// The pointer moved.
    MouseMotion,
    /// Anything else.
    Other,
}

/// Which keys are held, and whether the pointer steers the camera.
#[derive(Clone, Copy, Debug, PartialEq, Eq, Structural)]
pub struct CameraController {
    pub is_up_pressed: bool,
    pub is_down_pressed: bool,
    pub is_forward_pressed: bool,
    pub is_backward_pressed: bool,
    pub is_left_pressed: bool,
    pub is_right_pressend: bool,
    pub is_mouse_activated: bool,
    pub mouse_can_be_activated: bool,
    pub alt: bool,
}

impl CameraController {
    /// The controller before any input.
    pub open spec fn spec_new() -> CameraController {
        CameraController {
            is_up_pressed: false,
            is_down_pressed: false,
            is_forward_pressed: false,
            is_backward_pressed: false,
            is_left_pressed: false,
            is_right_pressend: false,
            is_mouse_activated: false,
            mouse_can_be_activated: true,
            alt: false,
        }
    }

    /// A controller with no key held and the pointer free.
    pub fn new() -> (c: CameraController)
        ensures
            c == Self::spec_new(),
    {
        CameraController {
            is_up_pressed: false,
            is_down_pressed: false,
            is_forward_pressed: false,
            is_backward_pressed: false,
            is_left_pressed: false,
            is_right_pressend: false,
            is_mouse_activated: false,
            mouse_can_be_activated: true,
            alt: false,
        }
    }

    /// The controller after `event`.
    pub open spec fn spec_next(self, event: InputEvent) -> CameraController {
        match event {
            InputEvent::Keyboard { key, pressed } => match key {
                Key::Space => CameraController { is_up_pressed: pressed, ..self },
                Key::LShift => CameraController { is_down_pressed: pressed, ..self },
                Key::W => CameraController { is_forward_pressed: pressed, ..self },
                Key::S => CameraController { is_backward_pressed: pressed, ..self },
                Key::A => CameraController { is_left_pressed: pressed, ..self },
                Key::D => CameraController { is_right_pressend: pressed, ..self },
                Key::G => if self.mouse_can_be_activated && pressed {
                    CameraController {
                        is_mouse_activated: !self.is_mouse_activated,
                        mouse_can_be_activated: false,
                        ..self
                    }
                } else if !pressed {
                    CameraController { mouse_can_be_activated: true, ..self }
                } else {
                    self
                },
                Key::Other => self,
            },
            InputEvent::ModifiersChanged { alt } => CameraController { alt, ..self },
            InputEvent::MouseMotion => self,
            InputEvent::Other => self,
        }
    }

    /// Whether the controller takes `event` for itself.
    pub open spec fn spec_handles(self, event: InputEvent) -> bool {
        match event {
            InputEvent::Keyboard { key, pressed } => match key {
                Key::G => (self.mouse_can_be_activated && pressed) || !pressed,
                Key::Other => false,
                _ => true,
            },
            InputEvent::ModifiersChanged { alt } => self.alt != alt,
            InputEvent::MouseMotion => self.is_mouse_activated,
            InputEvent::Other => false,
        }
    }

    /// Takes one event in. A held key sets its flag and a released one
    /// clears it. `G` toggles pointer steering once per press: a second
    /// toggle needs a release first. Pointer motion is taken only while
    /// steering is on; the caller then adds the motion to its own sums.
    pub fn process_events(&mut self, event: &InputEvent) -> (handled: bool)
        ensures
            *final(self) == old(self).spec_next(*event),
            handled == old(self).spec_handles(*event),
    {
        match *event {
            InputEvent::Keyboard { key, pressed } => match key {
                Key::Space => {
                    self.is_up_pressed = pressed;
                    true
                },
                Key::LShift => {
                    self.is_down_pressed = pressed;
                    true
                },
                Key::W => {
                    self.is_forward_pressed = pressed;
                    true
                },
                Key::S => {
                    self.is_backward_pressed = pressed;
                    true
                },
                Key::A => {
                    self.is_left_pressed = pressed;
                    true
                },
                Key::D => {
                    self.is_right_pressend = pressed;
                    true
                },
                Key::G => {
                    if self.mouse_can_be_activated && pressed {
                        self.is_mouse_activated = !self.is_mouse_activated;
                        self.mouse_can_be_activated = false;
                        true
                    } else if !pressed {
                        self.mouse_can_be_activated = true;
                        true
                    } else {
                        false
                    }
                },
                Key::Other => false,
            },
            InputEvent::ModifiersChanged { alt } => {
                if self.alt != alt {
                    self.alt = alt;
                    true
                } else {
                    false
                }
            },
            InputEvent::MouseMotion => self.is_mouse_activated,
            InputEvent::Other => false,
        }
    }

    /// By how much the movement speed is multiplied: five with Alt held.
    pub fn speed_factor(&self) -> (f: u32)
        ensures
            f == if self.alt { 5u32 } else { 1u32 },
    {
        if self.alt {
            5
        } else {
            1
        }
    }
}

/// While a key stays down, pointer steering toggles at most once: a press
/// of `G` that follows another press with no release between changes
/// nothing and is not taken.
pub proof fn lemma_toggle_needs_release(c: CameraController)
    ensures
        ({
            let press = InputEvent::Keyboard { key: Key::G, pressed: true };
            let once = c.spec_next(press);
            &&& once.spec_next(press) == once
            &&& !once.spec_handles(press)
        }),
{
}

/// A release of `G` arms the toggle again, and the next press flips
/// pointer steering.
pub proof fn lemma_release_arms_toggle(c: CameraController)
    ensures
        ({
            let press = InputEvent::Keyboard { key: Key::G, pressed: true };
            let release = InputEvent::Keyboard { key: Key::G, pressed: false };
            let armed = c.spec_next(release);
            &&& armed.mouse_can_be_activated
            &&& armed.spec_next(press).is_mouse_activated == !c.is_mouse_activated
        }),
{
}

} // verus!
