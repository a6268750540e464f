use borderless::desktop_windows::{
    edge_window_fits, edge_window_rect, is_desktop_window, resolve_drop_target, start_drop_search,
    DropHit, DropQuestion, DropSearch, DropTarget,
};
use borderless::geometry::{Edge, Point, Rect};
use borderless::hooks::{
    keyboard_hook_event, mouse_hook_events, HookEvent, HookManager, MouseHookData,
    SuppressionMode, HC_ACTION, WM_KEYDOWN, WM_KEYUP, WM_LBUTTONDOWN, WM_LBUTTONUP,
    WM_MBUTTONDOWN, WM_MBUTTONUP, WM_MOUSEHWHEEL, WM_MOUSEMOVE, WM_MOUSEWHEEL, WM_RBUTTONDOWN,
    WM_RBUTTONUP, WM_SYSKEYDOWN, WM_SYSKEYUP, WM_XBUTTONDOWN, WM_XBUTTONUP, XBUTTON1, XBUTTON2,
};
use borderless::injection::{
    build_inputs, check_sent, key_input, local_left_button_release_input,
    local_pointer_move_inputs, manual_move_check, mouse_button_input, mouse_wheel_input,
    normalize, normalize_axis, send_input_mismatch_message, InputInjector, InputRecord,
    BORDERLESS_INPUT_MARKER, KEYEVENTF_EXTENDEDKEY, KEYEVENTF_KEYUP, MOUSEEVENTF_ABSOLUTE,
    MOUSEEVENTF_HWHEEL, MOUSEEVENTF_LEFTUP, MOUSEEVENTF_MOVE, MOUSEEVENTF_VIRTUALDESK,
    MOUSEEVENTF_WHEEL, MOUSEEVENTF_XDOWN, MOUSEEVENTF_XUP,
};
use borderless::input_event::{
    InputEvent, KeyEvent, MouseButton, MouseButtonEvent, MouseMoveAbsEvent, MouseMoveDeltaEvent,
    MouseWheelEvent, PressedState,
};

fn mouse_data_at(x: i32, y: i32, mouse_data: u32) -> MouseHookData {
    MouseHookData { x, y, mouse_data }
}

fn only_input(events: Vec<HookEvent>) -> InputEvent {
    assert_eq!(events.len(), 1);
    match events.into_iter().next().unwrap() {
        HookEvent::Input(event) => event,
        event => panic!("expected input event, got {event:?}"),
    }
}

fn assert_mouse_button(message: u32, mouse_data: u32, button: MouseButton, pressed: bool) {
    let event = only_input(mouse_hook_events(message, &mouse_data_at(0, 0, mouse_data)));

    assert!(
        matches!(
            event,
            InputEvent::MouseButton(button_event)
                if button_event.button == button && button_event.pressed == pressed
        ),
        "mouse message {message:#x} should map to {button:?}/{pressed}, got {event:?}"
    );
}

fn assert_key(message: u32, vk_code: u32, pressed: bool) {
    let event = keyboard_hook_event(message, vk_code)
        .expect("keyboard message should map to an event");

    assert!(
        matches!(
            event,
            HookEvent::Input(InputEvent::Key(key)) if key.vk_code == vk_code as u16
                && key.pressed == pressed
        ),
        "keyboard message {message:#x} should map to key state {pressed}, got {event:?}"
    );
}

#[test]
fn mouse_move_produces_pointer_position_and_absolute_input() {
    let events = mouse_hook_events(WM_MOUSEMOVE, &mouse_data_at(321, -45, 0));

    assert_eq!(events.len(), 2);
    assert!(
        matches!(events[0], HookEvent::PointerPosition { x: 321, y: -45 }),
        "first event should report pointer position, got {:?}",
        events[0]
    );
    assert!(
        matches!(
            events[1],
            HookEvent::Input(InputEvent::MouseMoveAbs(event))
                if event.x == 321 && event.y == -45
        ),
        "second event should report absolute mouse movement, got {:?}",
        events[1]
    );
}

#[test]
fn mouse_buttons_map_down_and_up_messages() {
    assert_mouse_button(WM_LBUTTONDOWN, 0, MouseButton::Left, true);
    assert_mouse_button(WM_LBUTTONUP, 0, MouseButton::Left, false);
    assert_mouse_button(WM_RBUTTONDOWN, 0, MouseButton::Right, true);
    assert_mouse_button(WM_RBUTTONUP, 0, MouseButton::Right, false);
    assert_mouse_button(WM_MBUTTONDOWN, 0, MouseButton::Middle, true);
    assert_mouse_button(WM_MBUTTONUP, 0, MouseButton::Middle, false);
    assert_mouse_button(WM_XBUTTONDOWN, u32::from(XBUTTON1) << 16, MouseButton::X1, true);
    assert_mouse_button(WM_XBUTTONUP, u32::from(XBUTTON2) << 16, MouseButton::X2, false);
    assert!(mouse_hook_events(WM_XBUTTONDOWN, &mouse_data_at(0, 0, 3 << 16)).is_empty());
}

#[test]
fn mouse_wheel_messages_use_signed_high_word_delta() {
    let vertical = only_input(mouse_hook_events(
        WM_MOUSEWHEEL,
        &mouse_data_at(0, 0, (-120i16 as u16 as u32) << 16),
    ));
    let horizontal =
        only_input(mouse_hook_events(WM_MOUSEHWHEEL, &mouse_data_at(0, 0, (240u32) << 16)));

    assert!(
        matches!(
            vertical,
            InputEvent::MouseWheel(event) if event.delta == -120 && !event.horizontal
        ),
        "vertical wheel should preserve signed delta, got {:?}",
        vertical
    );
    assert!(
        matches!(
            horizontal,
            InputEvent::MouseWheel(event) if event.delta == 240 && event.horizontal
        ),
        "horizontal wheel should preserve signed delta, got {:?}",
        horizontal
    );
}

#[test]
fn keyboard_messages_map_to_key_input() {
    assert_key(WM_KEYDOWN, 0x41, true);
    assert_key(WM_SYSKEYDOWN, 0x12, true);
    assert_key(WM_KEYUP, 0x41, false);
    assert_key(WM_SYSKEYUP, 0x12, false);
}

#[test]
fn suppression_mode_setter_toggles_shared_atomic_bool() {
    let mut manager = HookManager::new();

    manager.set_suppression_mode(SuppressionMode::Suppress);
    assert!(manager.hook_should_suppress());

    manager.set_suppression_mode(SuppressionMode::PassThrough);
    assert!(!manager.hook_should_suppress());
}

#[test]
fn dropping_hook_manager_restores_pass_through_mode() {
    let mut manager = HookManager::new();

    manager.set_suppression_mode(SuppressionMode::Suppress);
    manager.restore();

    assert!(!manager.hook_should_suppress());
}

#[test]
fn hooks_swallow_only_what_they_may_look_at() {
    let mut manager = HookManager::new();
    manager.set_suppression_mode(SuppressionMode::Suppress);
    let seen = manager.mouse_hook_proc(HC_ACTION, WM_MOUSEMOVE, Some(mouse_data_at(1, 2, 0)));
    assert!(seen.swallow);
    assert_eq!(seen.events.len(), 2);
    let unseen = manager.mouse_hook_proc(-1, WM_MOUSEMOVE, Some(mouse_data_at(1, 2, 0)));
    assert!(!unseen.swallow);
    assert!(unseen.events.is_empty());
    let key = manager.keyboard_hook_proc(HC_ACTION, WM_KEYDOWN, Some(0x41));
    assert!(key.swallow);
    assert_eq!(key.events.len(), 1);
    manager.restore();
    assert!(!manager.keyboard_hook_proc(HC_ACTION, WM_KEYUP, Some(0x41)).swallow);
}

#[test]
fn normalize_maps_desktop_endpoints_to_windows_absolute_range() {
    let desktop = Rect::new(10, 20, 101, 201);

    assert_eq!(normalize(Point::new(10, 20), desktop), (0, 0));
    assert_eq!(normalize(Point::new(110, 220), desktop), (65_535, 65_535));
}

#[test]
fn normalize_clamps_points_outside_desktop() {
    let desktop = Rect::new(10, 20, 101, 201);

    assert_eq!(normalize(Point::new(-500, 10_000), desktop), (0, 65_535));
}

#[test]
fn build_inputs_tracks_pressed_state_and_mouse_delta_is_noop() {
    let desktop = Rect::new(0, 0, 1920, 1080);
    let mut pressed = PressedState::default();

    let key_down = build_inputs(
        &InputEvent::Key(KeyEvent { vk_code: 0x41, pressed: true }),
        &mut pressed,
        desktop,
    );
    let button_down = build_inputs(
        &InputEvent::MouseButton(MouseButtonEvent { button: MouseButton::Left, pressed: true }),
        &mut pressed,
        desktop,
    );
    let delta = build_inputs(
        &InputEvent::MouseMoveDelta(MouseMoveDeltaEvent { dx: 10, dy: -5 }),
        &mut pressed,
        desktop,
    );

    assert_eq!(key_down.len(), 1);
    assert_eq!(button_down.len(), 1);
    assert!(delta.is_empty());
    assert!(pressed.keys.contains(&0x41));
    assert!(pressed.mouse_buttons.contains(&MouseButton::Left));
}

fn mouse_of(record: InputRecord) -> (i32, i32, u32, u32, usize) {
    match record {
        InputRecord::Mouse { dx, dy, mouse_data, flags, marker } => {
            (dx, dy, mouse_data, flags, marker)
        }
        other => panic!("expected a mouse record, got {other:?}"),
    }
}

fn key_flags(record: InputRecord) -> u32 {
    match record {
        InputRecord::Key { flags, .. } => flags,
        other => panic!("expected a key record, got {other:?}"),
    }
}

#[test]
fn absolute_mouse_move_targets_virtual_desktop() {
    let desktop = Rect::new(-1920, 0, 3840, 1080);
    let mut pressed = PressedState::default();

    let inputs = build_inputs(
        &InputEvent::MouseMoveAbs(MouseMoveAbsEvent { x: -10, y: 10 }),
        &mut pressed,
        desktop,
    );

    assert_eq!(inputs.len(), 1);
    let (_, _, _, flags, _) = mouse_of(inputs[0]);
    assert_ne!(flags & MOUSEEVENTF_VIRTUALDESK, 0);
}

#[test]
fn local_pointer_move_inputs_use_absolute_virtual_desktop_coordinates() {
    let desktop = Rect::new(-1920, 0, 3840, 1080);
    let inputs = local_pointer_move_inputs(desktop, Point::new(-10, 10));

    assert_eq!(inputs.len(), 1);
    let (dx, dy, _, flags, marker) = mouse_of(inputs[0]);
    assert_eq!(flags, MOUSEEVENTF_MOVE | MOUSEEVENTF_ABSOLUTE | MOUSEEVENTF_VIRTUALDESK);
    assert_eq!(dx, normalize_axis(-10, desktop.left, desktop.width));
    assert_eq!(dy, normalize_axis(10, desktop.top, desktop.height));
    assert_eq!(marker, BORDERLESS_INPUT_MARKER);
}

#[test]
fn local_left_button_release_is_tagged() {
    let (_, _, _, flags, marker) = mouse_of(local_left_button_release_input());

    assert_eq!(flags, MOUSEEVENTF_LEFTUP);
    assert_eq!(marker, BORDERLESS_INPUT_MARKER);
}

#[test]
fn keyboard_input_marks_extended_keys() {
    let arrow_down = key_flags(key_input(&KeyEvent { vk_code: 0x25, pressed: true }));
    let arrow_up = key_flags(key_input(&KeyEvent { vk_code: 0x25, pressed: false }));
    let regular = key_flags(key_input(&KeyEvent { vk_code: 0x41, pressed: true }));

    assert_ne!(
        arrow_down & KEYEVENTF_EXTENDEDKEY,
        0,
        "left arrow key-down must be marked as extended"
    );
    assert_ne!(
        arrow_up & KEYEVENTF_EXTENDEDKEY,
        0,
        "left arrow key-up must be marked as extended"
    );
    assert_ne!(arrow_up & KEYEVENTF_KEYUP, 0);
    assert_eq!(regular & KEYEVENTF_EXTENDEDKEY, 0);
}

#[test]
fn mouse_buttons_include_x_button_data() {
    let x1 = mouse_of(mouse_button_input(&MouseButtonEvent {
        button: MouseButton::X1,
        pressed: true,
    }));
    let x2 = mouse_of(mouse_button_input(&MouseButtonEvent {
        button: MouseButton::X2,
        pressed: false,
    }));

    assert_eq!(x1.3, MOUSEEVENTF_XDOWN);
    assert_eq!(x1.2, u32::from(XBUTTON1));
    assert_eq!(x2.3, MOUSEEVENTF_XUP);
    assert_eq!(x2.2, u32::from(XBUTTON2));
}

#[test]
fn mouse_wheel_inputs_preserve_axis_and_delta() {
    let vertical = mouse_of(mouse_wheel_input(&MouseWheelEvent { delta: -120, horizontal: false }));
    let horizontal = mouse_of(mouse_wheel_input(&MouseWheelEvent { delta: 240, horizontal: true }));

    assert_eq!(vertical.3, MOUSEEVENTF_WHEEL);
    assert_eq!(vertical.2, (-120i32) as u32);
    assert_eq!(horizontal.3, MOUSEEVENTF_HWHEEL);
    assert_eq!(horizontal.2, 240);
}

#[test]
fn send_input_mismatch_error_includes_win32_context() {
    let message = send_input_mismatch_message(0, 1, "access denied");

    assert!(message.contains("SendInput sent 0 of 1 input events"));
    assert!(message.contains("last Windows error"));
    assert_eq!(check_sent(0, 1, "access denied"), Err(message));
    assert_eq!(check_sent(1, 1, "access denied"), Ok(()));
}

#[test]
fn build_inputs_releases_all_pressed_state() {
    let desktop = Rect::new(0, 0, 1920, 1080);
    let mut pressed = PressedState::default();
    pressed.keys.insert(0x41);
    pressed.keys.insert(0x42);
    pressed.mouse_buttons.insert(MouseButton::Left);
    pressed.mouse_buttons.insert(MouseButton::X2);

    let releases = build_inputs(&InputEvent::ReleaseAll, &mut pressed, desktop);

    assert_eq!(releases.len(), 4);
    assert!(pressed.is_empty());
}

#[test]
fn held_input_is_forgotten_only_once_it_was_released() {
    let mut injector = InputInjector::new(Rect::new(0, 0, 1920, 1080));
    let down = InputEvent::Key(KeyEvent { vk_code: 0x41, pressed: true });
    assert_eq!(injector.inject(&down).len(), 1);
    assert!(injector.release_all().is_empty());
    injector.injected(&down);
    assert_eq!(
        injector.release_all(),
        vec![key_input(&KeyEvent { vk_code: 0x41, pressed: false })]
    );
    injector.injected(&InputEvent::ReleaseAll);
    assert!(injector.release_all().is_empty());
    let moved = mouse_of(manual_move_check(Rect::new(0, 0, 1921, 1081))[0]);
    assert_eq!((moved.0, moved.1), (32767, 32767));
}

#[test]
fn edge_window_rect_places_two_pixel_strip_on_configured_edge() {
    let desktop = Rect::new(-100, 50, 1920, 1080);

    assert_eq!(edge_window_rect(Edge::Right, desktop, 2), Rect::new(1818, 50, 2, 1080));
    assert_eq!(edge_window_rect(Edge::Top, desktop, 3), Rect::new(-100, 50, 1920, 3));
}

#[test]
fn edge_windows_stay_on_the_desktop() {
    let desktop = Rect::new(-100, 50, 1920, 1080);
    assert_eq!(edge_window_rect(Edge::Bottom, desktop, 0), Rect::new(-100, 1129, 1920, 1));
    assert_eq!(edge_window_rect(Edge::Left, desktop, 5000), Rect::new(-100, 50, 1920, 1080));
    assert!(edge_window_fits(Edge::Right, desktop, 2));
    assert!(!edge_window_fits(Edge::Right, Rect::new(i32::MAX, 0, 100, 100), 2));
}

#[test]
fn drops_are_resolved_from_the_window_under_the_pointer() {
    assert!(is_desktop_window(&Some("Progman".to_string())));
    assert!(!is_desktop_window(&Some("CabinetWClass".to_string())));
    assert_eq!(
        start_drop_search(&Some(Some("WorkerW".to_string()))),
        DropSearch::Ask(DropQuestion::DesktopDirectory)
    );
    assert_eq!(
        start_drop_search(&Some(Some("CabinetWClass".to_string()))),
        DropSearch::Ask(DropQuestion::ExplorerAtPoint)
    );
    assert_eq!(start_drop_search(&None), DropSearch::Ask(DropQuestion::ForegroundExplorer));
    let point = Point::new(-3, 4);
    assert_eq!(
        resolve_drop_target(
            point,
            DropQuestion::ExplorerAtPoint,
            Ok(Some("C:\\docs".to_string()))
        ),
        DropSearch::Found(DropTarget {
            destination_dir: "C:\\docs".to_string(),
            resolution_kind: DropHit::ExplorerHit,
        })
    );
    assert_eq!(
        resolve_drop_target(point, DropQuestion::ExplorerAtPoint, Ok(None)),
        DropSearch::Ask(DropQuestion::ForegroundExplorer)
    );
    assert_eq!(
        resolve_drop_target(point, DropQuestion::ForegroundExplorer, Ok(None)),
        DropSearch::Failed(
            "no drop destination at (-3, 4): release over the desktop or an Explorer window"
                .to_string()
        )
    );
    assert_eq!(
        resolve_drop_target(point, DropQuestion::DesktopDirectory, Err("denied".to_string())),
        DropSearch::Failed("denied".to_string())
    );
}
