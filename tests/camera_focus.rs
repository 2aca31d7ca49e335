use orrery::button::{
    button_handler, mouse_button_input, scroll_events, ButtonLook, ChangeViewButton, Interaction,
    ScrollUnit, Shade,
};
use orrery::camera::{control_camera, CameraFocus};

fn bodies() -> Vec<ChangeViewButton> {
    vec![
        ChangeViewButton::Mercury,
        ChangeViewButton::Venus,
        ChangeViewButton::Earth,
        ChangeViewButton::Moon,
        ChangeViewButton::Mars,
        ChangeViewButton::Airplane,
    ]
}

#[test]
fn focus_starts_global() {
    assert_eq!(CameraFocus::new().focus, ChangeViewButton::Global);
}

#[test]
fn button_names() {
    assert_eq!(ChangeViewButton::Mercury.name(), "Mercury");
    assert_eq!(ChangeViewButton::Venus.name(), "Venus");
    assert_eq!(ChangeViewButton::Earth.name(), "Earth");
    assert_eq!(ChangeViewButton::Moon.name(), "Moon");
    assert_eq!(ChangeViewButton::Mars.name(), "Mars");
    assert_eq!(ChangeViewButton::Jupiter.name(), "Jupiter");
    assert_eq!(ChangeViewButton::Saturn.name(), "Saturn");
    assert_eq!(ChangeViewButton::Uranus.name(), "Uranus");
    assert_eq!(ChangeViewButton::Neptune.name(), "Neptune");
    assert_eq!(ChangeViewButton::Airplane.name(), "Airplane");
    assert_eq!(ChangeViewButton::Global.name(), "Global");
}

#[test]
fn pressed_button_moves_focus() {
    let mut focus = CameraFocus::new();
    let looks = button_handler(
        &mut focus,
        &vec![(ChangeViewButton::Mars, Interaction::Pressed)],
    );
    assert_eq!(focus.focus, ChangeViewButton::Mars);
    assert_eq!(looks, vec![ButtonLook { background: None, border: Shade::Red }]);
}

#[test]
fn hover_and_idle_leave_focus() {
    let mut focus = CameraFocus::new();
    focus.press(ChangeViewButton::Venus);
    let looks = button_handler(
        &mut focus,
        &vec![
            (ChangeViewButton::Earth, Interaction::Hovered),
            (ChangeViewButton::Mars, Interaction::Idle),
        ],
    );
    assert_eq!(focus.focus, ChangeViewButton::Venus);
    assert_eq!(
        looks,
        vec![
            ButtonLook { background: Some(Shade::DarkGray), border: Shade::White },
            ButtonLook { background: Some(Shade::Black), border: Shade::Gray },
        ]
    );
}

#[test]
fn last_pressed_button_wins() {
    let mut focus = CameraFocus::new();
    let looks = button_handler(
        &mut focus,
        &vec![
            (ChangeViewButton::Earth, Interaction::Pressed),
            (ChangeViewButton::Moon, Interaction::Pressed),
            (ChangeViewButton::Mars, Interaction::Hovered),
        ],
    );
    assert_eq!(focus.focus, ChangeViewButton::Moon);
    assert_eq!(looks.len(), 3);
}

#[test]
fn empty_frame_keeps_focus() {
    let mut focus = CameraFocus::new();
    focus.press(ChangeViewButton::Jupiter);
    let looks = button_handler(&mut focus, &vec![]);
    assert!(looks.is_empty());
    assert_eq!(focus.focus, ChangeViewButton::Jupiter);
}

#[test]
fn right_mouse_frees_camera() {
    let mut focus = CameraFocus::new();
    focus.press(ChangeViewButton::Earth);
    mouse_button_input(&mut focus, false);
    assert_eq!(focus.focus, ChangeViewButton::Earth);
    mouse_button_input(&mut focus, true);
    assert_eq!(focus.focus, ChangeViewButton::Global);
}

#[test]
fn pixel_scroll_frees_camera() {
    let mut focus = CameraFocus::new();
    focus.press(ChangeViewButton::Saturn);
    scroll_events(&mut focus, &vec![ScrollUnit::Line, ScrollUnit::Line]);
    assert_eq!(focus.focus, ChangeViewButton::Saturn);
    scroll_events(&mut focus, &vec![ScrollUnit::Line, ScrollUnit::Pixel]);
    assert_eq!(focus.focus, ChangeViewButton::Global);
}

#[test]
fn global_focus_moves_no_camera() {
    let focus = CameraFocus::new();
    assert_eq!(control_camera(&focus, &bodies()), None);
    let mut with_global_body = bodies();
    with_global_body.push(ChangeViewButton::Global);
    assert_eq!(control_camera(&focus, &with_global_body), None);
}

#[test]
fn camera_follows_focused_body() {
    let mut focus = CameraFocus::new();
    focus.press(ChangeViewButton::Earth);
    assert_eq!(control_camera(&focus, &bodies()), Some(2));
    focus.press(ChangeViewButton::Airplane);
    assert_eq!(control_camera(&focus, &bodies()), Some(5));
}

#[test]
fn camera_ignores_missing_body() {
    let mut focus = CameraFocus::new();
    focus.press(ChangeViewButton::Neptune);
    assert_eq!(control_camera(&focus, &bodies()), None);
    assert_eq!(control_camera(&focus, &vec![]), None);
}

#[test]
fn camera_takes_first_of_equal_names() {
    let mut focus = CameraFocus::new();
    focus.press(ChangeViewButton::Moon);
    let list = vec![ChangeViewButton::Earth, ChangeViewButton::Moon, ChangeViewButton::Moon];
    assert_eq!(control_camera(&focus, &list), Some(1));
}

#[test]
fn pressing_twice_is_idempotent() {
    let mut focus = CameraFocus::new();
    button_handler(&mut focus, &vec![(ChangeViewButton::Mars, Interaction::Pressed)]);
    let once = focus;
    let target_once = control_camera(&focus, &bodies());
    button_handler(&mut focus, &vec![(ChangeViewButton::Mars, Interaction::Pressed)]);
    assert_eq!(focus, once);
    assert_eq!(control_camera(&focus, &bodies()), target_once);
    assert_eq!(target_once, Some(4));
}
