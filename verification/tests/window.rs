use borderless::config::{AppConfig, RemotePosition, Role, TransportMode};
use borderless::session::RuntimeEvent;
use borderless::status::{AppStatus, RunState};
use borderless::ui_model::{
    can_reconnect, can_start, can_stop, drag_to_cancel, handle_runtime_event, option_ms,
    option_number,
    should_show_permission_guidance, show_status, state_color, transfer_to_cancel, StateColor,
    UiSnapshot,
};
use borderless::ui_settings::{
    apply_config_to_window, draft_from_window, parse_u64_setting, position_from_index,
    position_index, save_next_config, ConfigDraft, SettingsChange,
};

#[test]
fn action_buttons_follow_runtime_state() {
    let states = [
        RunState::Stopped,
        RunState::Waiting,
        RunState::Connecting,
        RunState::Connected,
        RunState::LocalControl,
        RunState::RemoteControl,
        RunState::Reconnecting,
        RunState::Error,
    ];

    for state in states {
        assert_eq!(
            can_start(state),
            matches!(state, RunState::Stopped | RunState::Error),
            "unexpected Start enabled state for {state:?}"
        );
        assert_eq!(
            can_stop(state),
            state != RunState::Stopped,
            "unexpected Stop enabled state for {state:?}"
        );
        assert_eq!(
            can_reconnect(state),
            state != RunState::Stopped,
            "unexpected Reconnect enabled state for {state:?}"
        );
    }
}

#[test]
fn state_colors_cover_every_runtime_state() {
    let cases = [
        (RunState::Stopped, StateColor::Gray),
        (RunState::Waiting, StateColor::Yellow),
        (RunState::Connecting, StateColor::Yellow),
        (RunState::Connected, StateColor::Green),
        (RunState::LocalControl, StateColor::Green),
        (RunState::RemoteControl, StateColor::LightBlue),
        (RunState::Reconnecting, StateColor::Yellow),
        (RunState::Error, StateColor::Red),
    ];

    for (state, color) in cases {
        assert_eq!(state_color(state), color);
    }
}

#[test]
fn permission_guidance_only_shows_for_input_or_hook_errors() {
    let mut status = AppStatus {
        last_error: Some("input injection failed: access denied".to_string()),
        ..AppStatus::default()
    };
    assert!(should_show_permission_guidance(&status));

    status.last_error = Some("access denied while opening config.toml".to_string());
    assert!(!should_show_permission_guidance(&status));

    status.last_error = Some("connection refused".to_string());
    assert!(!should_show_permission_guidance(&status));

    status.last_error = None;
    status.push_log("failed to install hook".to_string());
    assert!(!should_show_permission_guidance(&status));

    status.last_error = Some("SendInput sent 0 of 1 input events".to_string());
    assert!(should_show_permission_guidance(&status));
}

#[test]
fn parses_advanced_numeric_settings() {
    assert_eq!(parse_u64_setting("33554432", "最大剪贴板大小").unwrap(), 33_554_432);
    assert_eq!(parse_u64_setting("21474836480", "最大文件大小").unwrap(), 21_474_836_480);
}

#[test]
fn rejects_empty_or_non_numeric_advanced_settings() {
    assert!(parse_u64_setting("", "最大文件大小").is_err());
    assert!(parse_u64_setting("20GB", "最大文件大小").is_err());
}

#[test]
fn numbers_are_read_as_the_standard_library_reads_them() {
    for text in ["0", "+7", " 12\t", "18446744073709551615", "18446744073709551616", "-1", "+", "٣"] {
        assert_eq!(
            parse_u64_setting(text, "x").ok(),
            text.trim().parse::<u64>().ok(),
            "{text}"
        );
    }
    assert_eq!(parse_u64_setting(" \u{3000}", "大小"), Err("大小不能为空".to_string()));
    assert_eq!(parse_u64_setting("x", "大小"), Err("大小必须是正整数".to_string()));
}

#[test]
fn connected_remote_status_projects_to_chinese_labels() {
    let status = AppStatus {
        run_state: RunState::RemoteControl,
        recent_rtt_ms: Some(3),
        transfer_active: true,
        transfer_bytes_done: 248,
        transfer_bytes_total: 400,
        transfer_current_file: Some("design.pdf".to_string()),
        ..AppStatus::default()
    };

    let view = UiSnapshot::from_status(&status);
    assert_eq!(view.connection_label, "已连接");
    assert_eq!(view.control_label, "远程电脑");
    assert_eq!(view.latency_label, "3 ms");
    let (done, total) = view.transfer_progress;
    assert_eq!(done as f32 / total as f32, 0.62);
    assert_eq!(view.transfer_file, "design.pdf");
}

#[test]
fn an_idle_window_shows_dashes() {
    let view = UiSnapshot::from_status(&AppStatus::default());
    assert_eq!(view.connection_label, "已停止");
    assert_eq!(view.control_label, "本机");
    assert_eq!(view.latency_label, "-");
    assert_eq!(view.transfer_detail, "0 / 0 bytes");
    assert_eq!(view.transfer_progress, (0, 0));
    assert!(!view.connected && !view.running);
    assert_eq!(option_number(None), "-");
    assert_eq!(option_number(Some(12)), "12");
    assert_eq!(option_ms(Some(12)), "12 ms");
}

#[test]
fn the_log_of_the_window_outlives_a_status() {
    let mut shown = AppStatus::default();
    handle_runtime_event(&mut shown, RuntimeEvent::Log("ready".to_string()));
    let mut next = AppStatus::default();
    next.run_state = RunState::Connected;
    handle_runtime_event(&mut shown, RuntimeEvent::Status(next));
    assert_eq!(shown.run_state, RunState::Connected);
    assert_eq!(shown.events.front().unwrap(), "ready");
}

#[test]
fn config_draft_updates_only_visible_connection_fields() {
    let mut config = AppConfig::default();
    let draft = ConfigDraft {
        role: Role::Agent,
        target_host: "192.168.1.20".to_string(),
        target_port: 24880,
        listen_host: "0.0.0.0".to_string(),
        listen_port: 24900,
        remote_position: RemotePosition::Left,
        clipboard_text: false,
        clipboard_html: true,
        clipboard_images: true,
        file_copy_paste: true,
        file_drag_drop: true,
    };

    draft.apply_to(&mut config);
    assert_eq!(config.role, Role::Agent);
    assert_eq!(config.agent.listen_host, "0.0.0.0");
    assert_eq!(config.agent.listen_port, 24900);
    assert_eq!(config.controller.agent_host, "192.168.1.20");
    assert_eq!(config.controller.agent_port, 24880);
    assert_eq!(config.controller.remote_position, RemotePosition::Left);
    assert!(!config.sharing.clipboard_text);
    assert_eq!(config.controller.pointer_port, AppConfig::default().controller.pointer_port);
}

#[test]
fn an_unchanged_window_saves_the_same_config() {
    let mut config = AppConfig::default();
    config.role = Role::Agent;
    config.controller.remote_position = RemotePosition::Bottom;
    config.sharing.max_clipboard_bytes = u64::MAX;
    let settings = apply_config_to_window(&config);
    for change in [SettingsChange::Draft, SettingsChange::Advanced, SettingsChange::All] {
        assert_eq!(save_next_config(&config, &settings, change, true), Ok(config.clone()));
    }
    for index in 0..4 {
        assert_eq!(position_index(position_from_index(index)), index);
    }
}

#[test]
fn settings_that_cannot_be_used_are_not_saved() {
    let config = AppConfig::default();
    let mut settings = apply_config_to_window(&config);
    settings.target_port = 70_000;
    assert_eq!(draft_from_window(&settings), Err("目标 TCP 端口超出范围".to_string()));
    settings.target_port = 1;
    settings.listen_port = -1;
    assert_eq!(
        save_next_config(&config, &settings, SettingsChange::All, true),
        Err("监听 TCP 端口超出范围".to_string())
    );
    settings.listen_port = 1;
    settings.bulk_port = 65_536;
    assert_eq!(
        save_next_config(&config, &settings, SettingsChange::Advanced, true),
        Err("批量传输 TCP 端口超出范围".to_string())
    );
    settings.bulk_port = 1;
    settings.max_file_bytes = "20GB".to_string();
    assert_eq!(
        save_next_config(&config, &settings, SettingsChange::Advanced, true),
        Err("最大文件大小必须是正整数".to_string())
    );
    settings.max_file_bytes = "20".to_string();
    settings.edge_trigger_px = 0;
    assert_eq!(
        save_next_config(&config, &settings, SettingsChange::All, true),
        Err("edge_trigger_px must be between 1 and 32".to_string())
    );
    settings.edge_trigger_px = 3;
    let saved = save_next_config(&config, &settings, SettingsChange::All, true).unwrap();
    assert_eq!(saved.sharing.max_file_transfer_bytes, 20);
    assert_eq!(saved.edge_trigger_px, 3);
}

#[test]
fn the_status_table_shows_what_is_known() {
    let mut status = AppStatus::default();
    let empty = show_status(&status);
    assert_eq!(empty.len(), 15);
    assert_eq!((empty[0].label.as_str(), empty[0].value.as_str()), ("State", "Stopped"));
    assert_eq!(empty[10].value, "-");

    status.run_state = RunState::RemoteControl;
    status.transport_mode = Some(TransportMode::Kcp);
    status.recent_rtt_ms = Some(12);
    status.clipboard_ignored_reason = Some("too \"large\"".to_string());
    status.transfer_active = true;
    status.transfer_bytes_done = 5;
    status.transfer_bytes_total = 20;
    let rows = show_status(&status);
    let value = |label: &str| {
        rows.iter()
            .find(|row| row.label == label)
            .map(|row| row.value.as_str())
            .unwrap()
    };
    assert_eq!(value("State"), "RemoteControl");
    assert_eq!(value("Transport"), "Kcp");
    assert_eq!(value("RTT"), option_ms(Some(12)));
    assert_eq!(value("Clipboard ignored"), "\"too \\\"large\\\"\"");
    assert_eq!(value("Transfer"), "5/20 bytes");
    assert_eq!(value("Drag/drop enabled"), "no");
}

#[test]
fn only_a_running_transfer_can_be_cancelled() {
    let mut status = AppStatus::default();
    status.transfer_id = Some(9);
    assert_eq!(transfer_to_cancel(&status), None);
    status.transfer_active = true;
    assert_eq!(transfer_to_cancel(&status), Some(9));
}

#[test]
fn the_drag_that_is_under_way_can_be_cancelled() {
    let mut status = AppStatus::default();
    assert_eq!(drag_to_cancel(&status), None);
    status.active_drag_session = Some(4);
    assert_eq!(drag_to_cancel(&status), Some(4));
}
