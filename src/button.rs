use vstd::prelude::*;

use crate::camera::CameraFocus;
use crate::constant::{
    AIRPLANE_NAME, EARTH_NAME, GLOBAL_NAME, JUPITER_NAME, MARS_NAME, MERCURY_NAME, MOON_NAME,
    NEPTUNE_NAME, SATURN_NAME, URANUS_NAME, VENUS_NAME,
};

verus! {

/// A target of the camera: one of the bodies it can follow, or `Global`,
/// the free camera that follows nothing.
#[derive(Clone, Copy, Debug, PartialEq, Eq, Structural)]
pub enum ChangeViewButton {
    Mercury,
    Venus,
    Earth,
    Moon,
    Mars,
    Jupiter,
    Saturn,
    Uranus,
    Neptune,
    Airplane,
    Global,
}

/// The label that names a camera target.
pub open spec fn view_name(b: ChangeViewButton) -> Seq<char> {
    match b {
        ChangeViewButton::Mercury => MERCURY_NAME@,
        ChangeViewButton::Venus => VENUS_NAME@,
        ChangeViewButton::Earth => EARTH_NAME@,
        ChangeViewButton::Moon => MOON_NAME@,
        ChangeViewButton::Mars => MARS_NAME@,
        ChangeViewButton::Jupiter => JUPITER_NAME@,
        ChangeViewButton::Saturn => SATURN_NAME@,
        ChangeViewButton::Uranus => URANUS_NAME@,
        ChangeViewButton::Neptune => NEPTUNE_NAME@,
        ChangeViewButton::Airplane => AIRPLANE_NAME@,
        ChangeViewButton::Global => GLOBAL_NAME@,
    }
}

impl ChangeViewButton {
    /// The label shown on the button and used to name the body.
    pub fn name(&self) -> (r: &'static str)
        ensures
            r@ == view_name(*self),
    {
        match *self {
            ChangeViewButton::Mercury => MERCURY_NAME,
            ChangeViewButton::Venus => VENUS_NAME,
            ChangeViewButton::Earth => EARTH_NAME,
            ChangeViewButton::Moon => MOON_NAME,
            ChangeViewButton::Mars => MARS_NAME,
            ChangeViewButton::Jupiter => JUPITER_NAME,
            ChangeViewButton::Saturn => SATURN_NAME,
            ChangeViewButton::Uranus => URANUS_NAME,
            ChangeViewButton::Neptune => NEPTUNE_NAME,
            ChangeViewButton::Airplane => AIRPLANE_NAME,
            ChangeViewButton::Global => GLOBAL_NAME,
        }
    }
}

/// What the user interface reports of a button in a frame where it changed.
#[derive(Clone, Copy, Debug, PartialEq, Eq, Structural)]
pub enum Interaction {
    Pressed,
    Hovered,
    Idle,
}

/// The unit of a mouse-wheel event.
#[derive(Clone, Copy, Debug, PartialEq, Eq, Structural)]
pub enum ScrollUnit {
    Line,
    Pixel,
}

/// The colours a button is drawn with.
#[derive(Clone, Copy, Debug, PartialEq, Eq, Structural)]
pub enum Shade {
    Black,
    DarkGray,
    Gray,
    White,
    Red,
}

/// How a button is to be redrawn: its background, where it changes, and its border.
#[derive(Clone, Copy, Debug, PartialEq, Eq, Structural)]
pub struct ButtonLook {
    pub background: Option<Shade>,
    pub border: Shade,
}

/// The look of a button after an interaction: a pressed button keeps its
/// background and gets a red border, a hovered one turns dark gray with a
/// white border, and one left alone is black with a gray border.
pub open spec fn look_of(i: Interaction) -> ButtonLook {
    match i {
        Interaction::Pressed => ButtonLook { background: None, border: Shade::Red },
        Interaction::Hovered => ButtonLook { background: Some(Shade::DarkGray), border: Shade::White },
        Interaction::Idle => ButtonLook { background: Some(Shade::Black), border: Shade::Gray },
    }
}

/// The last button pressed in a frame's interaction changes, if any.
pub open spec fn last_pressed(s: Seq<(ChangeViewButton, Interaction)>) -> Option<ChangeViewButton>
    decreases s.len(),
{
    if s.len() == 0 {
        None
    } else if s.last().1 == Interaction::Pressed {
        Some(s.last().0)
    } else {
        last_pressed(s.drop_last())
    }
}

/// The camera focus after a frame's interaction changes: the body of the
/// last button pressed, or the focus unchanged where none was pressed.
pub open spec fn focus_after_buttons(
    f: ChangeViewButton,
    s: Seq<(ChangeViewButton, Interaction)>,
) -> ChangeViewButton {
    match last_pressed(s) {
        Some(b) => b,
        None => f,
    }
}

fn look(i: Interaction) -> (r: ButtonLook)
    ensures
        r == look_of(i),
{
    match i {
        Interaction::Pressed => ButtonLook { background: None, border: Shade::Red },
        Interaction::Hovered => ButtonLook { background: Some(Shade::DarkGray), border: Shade::White },
        Interaction::Idle => ButtonLook { background: Some(Shade::Black), border: Shade::Gray },
    }
}

/// Handles the buttons whose interaction changed this frame, in order: a
/// pressed button moves the camera focus to its body. Returns the look of
/// each button, in the same order.
pub fn button_handler(
    camera_focus: &mut CameraFocus,
    changes: &Vec<(ChangeViewButton, Interaction)>,
) -> (looks: Vec<ButtonLook>)
    ensures
        final(camera_focus).focus == focus_after_buttons(old(camera_focus).focus, changes@),
        looks@.len() == changes@.len(),
        forall|i: int| 0 <= i < changes@.len() ==> looks@[i] == look_of(#[trigger] changes@[i].1),
{
    let ghost start = camera_focus.focus;
    let mut looks: Vec<ButtonLook> = Vec::new();
    let mut i: usize = 0;
    while i < changes.len()
        invariant
            i <= changes@.len(),
            camera_focus.focus == focus_after_buttons(start, changes@.take(i as int)),
            looks@.len() == i,
            forall|j: int| 0 <= j < i ==> looks@[j] == look_of(#[trigger] changes@[j].1),
        decreases changes@.len() - i,
    {
        let (button, interaction) = changes[i];
        if interaction == Interaction::Pressed {
            camera_focus.press(button);
        }
        looks.push(look(interaction));
        assert(changes@.take(i + 1).drop_last() =~= changes@.take(i as int));
        i += 1;
    }
    assert(changes@.take(changes@.len() as int) =~= changes@);
    looks
}

/// Handles the right mouse button: while it is held the camera is freed.
pub fn mouse_button_input(camera_focus: &mut CameraFocus, right_pressed: bool)
    ensures
        final(camera_focus).focus == if right_pressed {
            ChangeViewButton::Global
        } else {
            old(camera_focus).focus
        },
{
    if right_pressed {
        camera_focus.release();
    }
}

/// Handles a frame's mouse-wheel events: one in pixel units frees the
/// camera; those in line units leave the focus as it is.
pub fn scroll_events(camera_focus: &mut CameraFocus, units: &Vec<ScrollUnit>)
    ensures
        final(camera_focus).focus == if units@.contains(ScrollUnit::Pixel) {
            ChangeViewButton::Global
        } else {
            old(camera_focus).focus
        },
{
    let ghost start = camera_focus.focus;
    let mut i: usize = 0;
    while i < units.len()
        invariant
            i <= units@.len(),
            camera_focus.focus == if units@.take(i as int).contains(ScrollUnit::Pixel) {
                ChangeViewButton::Global
            } else {
                start
            },
        decreases units@.len() - i,
    {
        if units[i] == ScrollUnit::Pixel {
            camera_focus.release();
        }
        proof {
            let next = units@.take(i + 1);
            assert(next =~= units@.take(i as int).push(units@[i as int]));
            if units@.take(i as int).contains(ScrollUnit::Pixel) {
                let k = choose|k: int| 0 <= k < i && units@.take(i as int)[k] == ScrollUnit::Pixel;
                assert(next[k] == ScrollUnit::Pixel);
            }
            if units@[i as int] == ScrollUnit::Pixel {
                assert(next[i as int] == ScrollUnit::Pixel);
            }
            if next.contains(ScrollUnit::Pixel) && units@[i as int] != ScrollUnit::Pixel {
                let k = choose|k: int| 0 <= k < i + 1 && next[k] == ScrollUnit::Pixel;
                assert(units@.take(i as int)[k] == ScrollUnit::Pixel);
            }
        }
        i += 1;
    }
    assert(units@.take(units@.len() as int) =~= units@);
}

} // verus!
