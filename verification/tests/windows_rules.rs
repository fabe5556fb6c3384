use sena::platform::{
    action_for_command, checked_menu_flags, delete_status, idle_elapsed_ms, is_key_down_message,
    is_pet_context_message, registry_string_bytes, registry_units, session_lock_event,
    startup_command, startup_command_from_registry, startup_enabled, tray_notification,
    utf16_units, wide_null, win32_status, write_utf16, NotifyThrottle, TrayAction,
    TrayNotification, CMD_EXIT, CMD_HIDE, CMD_SCALE_100, CMD_SCALE_120, CMD_SCALE_80,
    CMD_SETTINGS, CMD_SHOW, CMD_TOGGLE_TOPMOST, WM_KEYDOWN, WM_SYSKEYDOWN,
};

#[test]
fn only_key_down_messages_trigger_activity() {
    assert!(is_key_down_message(WM_KEYDOWN));
    assert!(is_key_down_message(WM_SYSKEYDOWN));
    assert!(!is_key_down_message(0x0101));
    assert!(!is_key_down_message(0x0105));
}

#[test]
fn keyboard_pulses_are_throttled_to_fifty_milliseconds() {
    let mut throttle = NotifyThrottle::new();
    assert!(throttle.should_notify(1_000));
    assert!(!throttle.should_notify(1_049));
    assert!(throttle.should_notify(1_050));
    assert!(!throttle.should_notify(900));
    throttle.clear();
    assert!(throttle.should_notify(900));
}

#[test]
fn receives_lock_and_unlock_session_codes() {
    assert_eq!(session_lock_event(0x7), Some(true));
    assert_eq!(session_lock_event(0x8), Some(false));
    assert_eq!(session_lock_event(0x5), None);
}

#[test]
fn tray_commands_map_to_expected_actions() {
    assert_eq!(action_for_command(CMD_SETTINGS), Some(TrayAction::Settings));
    assert_eq!(action_for_command(CMD_SHOW), Some(TrayAction::Show));
    assert_eq!(action_for_command(CMD_HIDE), Some(TrayAction::Hide));
    assert_eq!(action_for_command(CMD_SCALE_80), Some(TrayAction::SetScale(80)));
    assert_eq!(action_for_command(CMD_SCALE_100), Some(TrayAction::SetScale(100)));
    assert_eq!(action_for_command(CMD_SCALE_120), Some(TrayAction::SetScale(120)));
    assert_eq!(action_for_command(CMD_TOGGLE_TOPMOST), Some(TrayAction::ToggleAlwaysOnTop));
    assert_eq!(action_for_command(CMD_EXIT), Some(TrayAction::Exit));
    assert_eq!(action_for_command(9999), None);
}

#[test]
fn tray_icon_and_pet_clicks() {
    assert_eq!(tray_notification(0x0202), Some(TrayNotification::ShowPet));
    assert_eq!(tray_notification(0x0203), Some(TrayNotification::ShowPet));
    assert_eq!(tray_notification(0x0205), Some(TrayNotification::OpenMenu));
    assert_eq!(tray_notification(0x007B), Some(TrayNotification::OpenMenu));
    assert_eq!(tray_notification(0x0201), None);
    assert!(is_pet_context_message(0x0205));
    assert!(is_pet_context_message(0x007B));
    assert!(!is_pet_context_message(0x0202));
    assert_eq!(checked_menu_flags(true), 0x8);
    assert_eq!(checked_menu_flags(false), 0x0);
}

#[test]
fn idle_ticks_wrap_around() {
    assert_eq!(idle_elapsed_ms(5_000, 1_000), 4_000);
    assert_eq!(idle_elapsed_ms(10, u32::MAX - 9), 20);
}

#[test]
fn startup_command_quotes_executable_path_shape() {
    let command = startup_command(r"C:\Program Files\Sena\sena.exe");
    assert_eq!(command, r#""C:\Program Files\Sena\sena.exe""#);
}

#[test]
fn utf16_encoding_matches_std() {
    for text in ["", "Sena（星奈）", "emoji 🐈 cat", r"Local\Sena.DesktopPet.Instance.v1"] {
        assert_eq!(utf16_units(text), text.encode_utf16().collect::<Vec<_>>());
        let mut wide: Vec<u16> = text.encode_utf16().collect();
        wide.push(0);
        assert_eq!(wide_null(text), wide);
    }
}

#[test]
fn registry_value_round_trips_the_command() {
    let command = startup_command("C:\\Users\\星奈\\sena 🐈.exe");
    let bytes = registry_string_bytes(&command);
    let expected: Vec<u8> = command
        .encode_utf16()
        .chain(std::iter::once(0))
        .flat_map(|unit| unit.to_le_bytes())
        .collect();
    assert_eq!(bytes, expected);
    assert_eq!(startup_command_from_registry(&bytes), Some(command.clone()));
    assert!(startup_enabled(Some(&bytes)));
    assert!(!startup_enabled(None));
}

#[test]
fn registry_decoding_stops_at_nul_and_rejects_lone_surrogates() {
    assert_eq!(registry_units(&[0x41, 0, 0x42, 0, 0, 0, 0x43, 0, 7]), vec![0x41, 0x42]);
    assert_eq!(startup_command_from_registry(&[0x41, 0, 0x42, 0]), Some("AB".to_string()));
    let lone = [0x00, 0xD8, 0x41, 0x00];
    assert_eq!(startup_command_from_registry(&lone), None);
    assert!(!startup_enabled(Some(&lone)));
}

#[test]
fn tooltip_buffer_stays_nul_terminated() {
    let mut buffer = vec![7u16; 4];
    write_utf16(&mut buffer, "Sena");
    assert_eq!(buffer, vec![0x53, 0x65, 0x6E, 0]);
    let mut roomy = vec![7u16; 6];
    write_utf16(&mut roomy, "星");
    assert_eq!(roomy, vec![0x661F, 0, 0, 0, 0, 0]);
    let mut empty: Vec<u16> = Vec::new();
    write_utf16(&mut empty, "x");
    assert!(empty.is_empty());
}

#[test]
fn win32_statuses_become_errors() {
    assert!(win32_status(0, "open key").is_ok());
    let error = win32_status(5, "open current-user Run key").unwrap_err();
    assert_eq!(error.message(), "open current-user Run key failed with Win32 error 5");
    assert!(delete_status(0).is_ok());
    assert!(delete_status(2).is_ok());
    assert_eq!(
        delete_status(1234).unwrap_err().message(),
        "delete Sena startup entry failed with Win32 error 1234"
    );
}
