use vstd::prelude::*;

use crate::button::ChangeViewButton;

verus! {

/// Which body the camera follows; `Global` for none.
#[derive(Clone, Copy, Debug, PartialEq, Eq, Structural)]
pub struct CameraFocus {
    pub focus: ChangeViewButton,
}

/// The focus after the button of body `b` is pressed.
pub open spec fn pressed(f: CameraFocus, b: ChangeViewButton) -> CameraFocus {
    CameraFocus { focus: b }
}

/// The focus after the user takes the camera back.
pub open spec fn released(f: CameraFocus) -> CameraFocus {
    CameraFocus { focus: ChangeViewButton::Global }
}

impl CameraFocus {
    /// The focus at startup: the free camera.
    pub fn new() -> (r: CameraFocus)
        ensures
            r.focus == ChangeViewButton::Global,
    {
        CameraFocus { focus: ChangeViewButton::Global }
    }

    /// The user chose body `b`.
    pub fn press(&mut self, b: ChangeViewButton)
        ensures
            *final(self) == pressed(*old(self), b),
    {
        self.focus = b;
    }

    /// The user took the camera back: it follows nothing.
    pub fn release(&mut self)
        ensures
            *final(self) == released(*old(self)),
    {
        self.focus = ChangeViewButton::Global;
    }
}

/// Whether `target` is where the camera looks when its focus is `f` and the
/// trackable bodies are `bodies`: nowhere for the free camera or for a focus
/// that names no body, else the first body of that name.
pub open spec fn is_camera_target(
    f: ChangeViewButton,
    bodies: Seq<ChangeViewButton>,
    target: Option<usize>,
) -> bool {
    if f == ChangeViewButton::Global {
        target is None
    } else {
        match target {
            Some(i) => {
                &&& i < bodies.len()
                &&& bodies[i as int] == f
                &&& forall|j: int| 0 <= j < i ==> bodies[j] != f
            },
            None => forall|j: int| 0 <= j < bodies.len() ==> bodies[j] != f,
        }
    }
}

/// Picks the body that the camera looks at this frame, by its index in
/// `bodies`; `None` leaves the camera as it is.
pub fn control_camera(camera_focus: &CameraFocus, bodies: &Vec<ChangeViewButton>) -> (r: Option<
    usize,
>)
    ensures
        is_camera_target(camera_focus.focus, bodies@, r),
{
    if camera_focus.focus == ChangeViewButton::Global {
        return None;
    }
    let mut i: usize = 0;
    while i < bodies.len()
        invariant
            i <= bodies@.len(),
            camera_focus.focus != ChangeViewButton::Global,
            forall|j: int| 0 <= j < i ==> bodies@[j] != camera_focus.focus,
        decreases bodies@.len() - i,
    {
        if bodies[i] == camera_focus.focus {
            return Some(i);
        }
        i += 1;
    }
    None
}

/// Given the focus and the bodies, the camera target is unique.
pub proof fn lemma_camera_target_unique(
    f: ChangeViewButton,
    bodies: Seq<ChangeViewButton>,
    r1: Option<usize>,
    r2: Option<usize>,
)
    requires
        is_camera_target(f, bodies, r1),
        is_camera_target(f, bodies, r2),
    ensures
        r1 == r2,
{
    if f != ChangeViewButton::Global {
        match (r1, r2) {
            (Some(i), Some(j)) => {
                assert(bodies[i as int] == f && bodies[j as int] == f);
            },
            (Some(i), None) => {
                assert(bodies[i as int] == f);
            },
            (None, Some(j)) => {
                assert(bodies[j as int] == f);
            },
            (None, None) => {},
        }
    }
}

/// Pressing the same body's button twice leaves the focus where the first
/// press put it, and the camera looks at the same body after either press.
pub proof fn lemma_press_twice_idempotent(
    f: CameraFocus,
    b: ChangeViewButton,
    bodies: Seq<ChangeViewButton>,
    target_once: Option<usize>,
    target_twice: Option<usize>,
)
    requires
        is_camera_target(pressed(f, b).focus, bodies, target_once),
        is_camera_target(pressed(pressed(f, b), b).focus, bodies, target_twice),
    ensures
        pressed(pressed(f, b), b) == pressed(f, b),
        target_twice == target_once,
{
    lemma_camera_target_unique(b, bodies, target_once, target_twice);
}

} // verus!
