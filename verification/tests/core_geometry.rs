use borderless::config::{AppConfig, RemotePosition, Role, TransportMode};
use borderless::control::{ControlMode, ControlOutput, ControlState};
use borderless::geometry::{
    detect_edge, detect_edge_for_position, edge_for_position, map_entry_point,
    offset_is_representable, opposite_edge, strip_is_representable, try_map_entry_point, Edge,
    Point, Rect,
};
use borderless::input_event::{
    InputEvent, KeyEvent, MouseButton, MouseButtonEvent, PressedState,
};

#[test]
fn maps_right_edge_y_ratio_to_remote_y() {
    let local = Rect::new(0, 0, 1920, 1080);
    let remote = Rect::new(0, 0, 2560, 1440);
    let point = map_entry_point(RemotePosition::Right, Point::new(1919, 540), local, remote);
    assert_eq!(point.x, 0);
    assert_eq!(point.y, 720);
}

#[test]
fn detects_top_edge_inside_trigger_width() {
    let desktop = Rect::new(0, 0, 1920, 1080);
    assert_eq!(detect_edge(Point::new(500, 1), desktop, 2), Some(Edge::Top));
}

#[test]
fn clamps_remote_coordinate_inside_desktop() {
    let desktop = Rect::new(100, 100, 800, 600);
    assert_eq!(desktop.clamp(Point::new(50, 999)), Point::new(100, 699));
}

#[test]
fn invalid_rect_try_clamp_returns_none() {
    let desktop = Rect::new(100, 100, 0, 600);
    assert_eq!(desktop.try_clamp(Point::new(50, 999)), None);
}

#[test]
fn invalid_rect_mapping_returns_none() {
    let local = Rect::new(0, 0, 1920, 0);
    let remote = Rect::new(0, 0, 2560, 1440);
    assert_eq!(
        try_map_entry_point(RemotePosition::Right, Point::new(1919, 540), local, remote),
        None
    );
}

#[test]
fn detects_configured_top_edge_at_top_left_corner() {
    let desktop = Rect::new(0, 0, 1920, 1080);
    assert_eq!(
        detect_edge_for_position(Point::new(0, 0), desktop, 2, RemotePosition::Top),
        Some(Edge::Top)
    );
}

#[test]
fn edges_are_found_only_within_the_trigger_width() {
    let desktop = Rect::new(-100, 50, 1920, 1080);
    assert_eq!(detect_edge(Point::new(-100, 500), desktop, 2), Some(Edge::Left));
    assert_eq!(detect_edge(Point::new(1819, 500), desktop, 2), Some(Edge::Right));
    assert_eq!(detect_edge(Point::new(500, 1129), desktop, 2), Some(Edge::Bottom));
    assert_eq!(detect_edge(Point::new(500, 500), desktop, 2), None);
    assert_eq!(
        detect_edge_for_position(Point::new(-100, 500), desktop, 2, RemotePosition::Right),
        None
    );
}

#[test]
fn opposite_edges_are_their_own_opposites() {
    for edge in [Edge::Left, Edge::Right, Edge::Top, Edge::Bottom] {
        assert_eq!(opposite_edge(opposite_edge(edge)), edge);
        assert_ne!(opposite_edge(edge), edge);
    }
    assert_eq!(edge_for_position(RemotePosition::Bottom), Edge::Bottom);
}

#[test]
fn numbers_that_do_not_fit_are_told() {
    let wide = Rect::new(i32::MIN, 0, 10, 10);
    assert!(!strip_is_representable(
        Rect::new(100, 0, 10, 10),
        i32::MAX,
        RemotePosition::Left
    ));
    assert!(strip_is_representable(
        Rect::new(0, 0, 1920, 1080),
        2,
        RemotePosition::Left
    ));
    assert!(!offset_is_representable(
        RemotePosition::Top,
        Point::new(i32::MAX, 0),
        wide
    ));
    assert!(offset_is_representable(
        RemotePosition::Top,
        Point::new(5, 0),
        Rect::new(0, 0, 10, 10)
    ));
}

fn controller() -> ControlState {
    ControlState::new(
        Rect::new(0, 0, 1920, 1080),
        Rect::new(0, 0, 1280, 720),
        RemotePosition::Right,
        2,
    )
}

#[test]
fn entering_remote_mode_maps_to_remote_edge() {
    let mut state = controller();
    let output = state.observe_local_pointer(Point::new(1919, 540));
    assert_eq!(output, ControlOutput::EnterRemote(Point::new(0, 360)));
    assert_eq!(state.mode(), ControlMode::Remote);
}

#[test]
fn remote_delta_crossing_return_edge_returns_local_control() {
    let mut state = controller();
    state.observe_local_pointer(Point::new(1919, 540));
    let output = state.apply_remote_delta(-10, 0);
    assert_eq!(output, ControlOutput::ReturnLocal(Point::new(1918, 540)));
    assert_eq!(state.mode(), ControlMode::Local);
}

#[test]
fn top_position_enters_remote_at_top_left_corner() {
    let mut state = ControlState::new(
        Rect::new(0, 0, 1920, 1080),
        Rect::new(0, 0, 1280, 720),
        RemotePosition::Top,
        2,
    );

    let output = state.observe_local_pointer(Point::new(0, 0));
    assert_eq!(output, ControlOutput::EnterRemote(Point::new(0, 719)));
    assert_eq!(state.mode(), ControlMode::Remote);
}

#[test]
fn remote_movement_stays_on_the_remote_desktop() {
    let mut state = controller();
    assert!(state.can_observe(Point::new(1919, 540)));
    state.observe_local_pointer(Point::new(1919, 540));
    assert!(state.can_move(5000, 5000));
    assert_eq!(
        state.apply_remote_delta(5000, 5000),
        ControlOutput::MoveRemote(Point::new(1279, 719))
    );
    assert_eq!(state.mode(), ControlMode::Remote);
    state.force_local();
    assert_eq!(state.mode(), ControlMode::Local);
    assert_eq!(state.apply_remote_delta(1, 1), ControlOutput::Idle);
}

#[test]
fn pressed_state_tracks_keyboard_and_mouse_buttons() {
    let mut pressed = PressedState::default();
    pressed.apply(&InputEvent::Key(KeyEvent { vk_code: 0x41, pressed: true }));
    pressed.apply(&InputEvent::MouseButton(MouseButtonEvent {
        button: MouseButton::Left,
        pressed: true,
    }));

    assert!(pressed.keys.contains(&0x41));
    assert!(pressed.mouse_buttons.contains(&MouseButton::Left));

    pressed.apply(&InputEvent::Key(KeyEvent { vk_code: 0x41, pressed: false }));
    pressed.apply(&InputEvent::MouseButton(MouseButtonEvent {
        button: MouseButton::Left,
        pressed: false,
    }));

    assert!(!pressed.keys.contains(&0x41));
    assert!(!pressed.mouse_buttons.contains(&MouseButton::Left));
}

#[test]
fn release_all_empties_the_pressed_state() {
    let mut pressed = PressedState::default();
    pressed.apply(&InputEvent::Key(KeyEvent { vk_code: 1, pressed: true }));
    pressed.apply(&InputEvent::MouseButton(MouseButtonEvent {
        button: MouseButton::X2,
        pressed: true,
    }));
    assert!(!pressed.is_empty());
    let copy = pressed.clone();
    pressed.apply(&InputEvent::ReleaseAll);
    assert!(pressed.is_empty());
    assert_eq!(copy.mouse_buttons.buttons(), vec![MouseButton::X2]);
}

#[test]
fn default_config_is_valid_controller_config() {
    let config = AppConfig::default();
    assert_eq!(config.role, Role::Controller);
    assert!(config.validate(true).is_ok());
}

#[test]
fn invalid_edge_width_is_rejected() {
    let mut config = AppConfig::default();
    config.edge_trigger_px = 0;
    let err = config.validate(true).unwrap_err().to_text();
    assert!(err.contains("edge_trigger_px"));
}

fn problem(change: fn(&mut AppConfig)) -> String {
    let mut config = AppConfig::default();
    change(&mut config);
    config.validate(true).unwrap_err().to_text()
}

#[test]
fn every_rule_of_the_config_is_checked() {
    assert_eq!(problem(|c| c.edge_trigger_px = 33), "edge_trigger_px must be between 1 and 32");
    assert_eq!(
        problem(|c| c.controller.agent_port = 0),
        "controller.agent_port must be greater than 0"
    );
    assert_eq!(
        problem(|c| c.controller.pointer_port = 0),
        "controller.pointer_port must be greater than 0"
    );
    assert_eq!(problem(|c| c.agent.listen_port = 0), "agent.listen_port must be greater than 0");
    assert_eq!(problem(|c| c.agent.pointer_port = 0), "agent.pointer_port must be greater than 0");
    assert_eq!(
        problem(|c| c.sharing.bulk_transfer_port = 0),
        "sharing.bulk_transfer_port must be greater than 0"
    );
    assert_eq!(
        problem(|c| c.sharing.max_clipboard_bytes = 0),
        "sharing.max_clipboard_bytes must be greater than 0"
    );
    assert_eq!(
        problem(|c| c.sharing.max_file_transfer_bytes = 0),
        "sharing.max_file_transfer_bytes must be greater than 0"
    );
    assert_eq!(
        problem(|c| c.sharing.incoming_cache_dir = " \t\u{3000}".to_string()),
        "sharing.incoming_cache_dir must not be empty"
    );
    assert_eq!(
        problem(|c| c.controller.agent_host = String::new()),
        "controller.agent_host must not be empty"
    );
    assert_eq!(
        AppConfig::default().validate(false).unwrap_err().to_text(),
        "agent.listen_host must be an IP address"
    );
}

#[test]
fn default_config_values() {
    let config = AppConfig::default();
    assert_eq!(config.controller.remote_position, RemotePosition::Right);
    assert_eq!(config.controller.transport_mode, TransportMode::Tcp);
    assert_eq!(config.controller.pointer_port, 24801);
    assert_eq!(config.sharing.max_clipboard_bytes, 33_554_432);
    assert_eq!(config.sharing.max_file_transfer_bytes, 21_474_836_480);
    assert_eq!(config.clone(), config);
}
