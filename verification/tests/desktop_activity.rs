use sena::activity::{
    apply_foreground_change, apply_media_change, apply_session_change, apply_typing_pulse,
    burst_ms, classify_activity, end_typing_pulse, finish_burst, keyboard_activity_applies,
    refresh_user_activity, rest_seconds, restart_motion, sleeping_context_allows_motion,
    start_burst, MotionKind,
};
use sena::context::{DayPhase, DesktopContext, MediaState, UserActivity};

#[test]
fn sleeping_motion_requires_unlocked_idle_without_media() {
    let mut context = DesktopContext {
        user_activity: UserActivity::Idle,
        ..DesktopContext::default()
    };
    assert!(sleeping_context_allows_motion(&context));

    context.session_locked = true;
    assert!(!sleeping_context_allows_motion(&context));

    context.session_locked = false;
    context.media = MediaState::Playing;
    assert!(!sleeping_context_allows_motion(&context));

    context.media = MediaState::Stopped;
    context.user_activity = UserActivity::Drowsy;
    assert!(!sleeping_context_allows_motion(&context));
}

#[test]
fn idle_time_moves_activity_through_the_phase_thresholds() {
    assert_eq!(classify_activity(299_999, DayPhase::Day), UserActivity::Active);
    assert_eq!(classify_activity(300_000, DayPhase::Day), UserActivity::Drowsy);
    assert_eq!(classify_activity(600_000, DayPhase::Day), UserActivity::Idle);
    assert_eq!(classify_activity(180_000, DayPhase::LateNight), UserActivity::Drowsy);
    assert_eq!(classify_activity(420_000, DayPhase::LateNight), UserActivity::Idle);

    let mut context = DesktopContext::default();
    assert!(!refresh_user_activity(&mut context, None, DayPhase::Day));
    assert!(refresh_user_activity(&mut context, Some(540_000), DayPhase::Evening));
    assert_eq!(context.user_activity, UserActivity::Idle);
    assert!(!refresh_user_activity(&mut context, Some(541_000), DayPhase::Evening));
}

#[test]
fn rest_pauses_cycle_every_four_bursts() {
    assert_eq!(
        (0..5).map(|c| rest_seconds(MotionKind::Sleeping, c)).collect::<Vec<_>>(),
        vec![35, 52, 43, 61, 35]
    );
    assert_eq!(
        (0..4).map(|c| rest_seconds(MotionKind::Drowsy, c)).collect::<Vec<_>>(),
        vec![18, 27, 22, 31]
    );
    assert_eq!(
        (0..4).map(|c| rest_seconds(MotionKind::Music, c)).collect::<Vec<_>>(),
        vec![7, 11, 9, 13]
    );
    assert_eq!(burst_ms(MotionKind::Sleeping), 2400);
    assert_eq!(burst_ms(MotionKind::Drowsy), 1600);
    assert_eq!(burst_ms(MotionKind::Music), 900);
}

#[test]
fn drowsy_burst_needs_enough_idle_time() {
    let mut context = DesktopContext {
        user_activity: UserActivity::Drowsy,
        drowsy_motion_active: true,
        ..DesktopContext::default()
    };
    assert!(restart_motion(&mut context, MotionKind::Drowsy, true));
    assert!(!context.drowsy_motion_active);
    assert!(!restart_motion(&mut context, MotionKind::Drowsy, false));

    assert!(!start_burst(&mut context, MotionKind::Drowsy, Some(179_000), DayPhase::LateNight));
    assert!(!start_burst(&mut context, MotionKind::Drowsy, None, DayPhase::LateNight));
    assert!(start_burst(&mut context, MotionKind::Drowsy, Some(180_000), DayPhase::LateNight));
    assert!(context.drowsy_motion_active);
    assert!(finish_burst(&mut context, MotionKind::Drowsy));
    assert!(!context.drowsy_motion_active);
}

#[test]
fn locking_stops_typing_and_music_motion() {
    let mut context = DesktopContext {
        foreground_process: Some("code.exe".into()),
        media: MediaState::Playing,
        typing_active: true,
        music_motion_active: true,
        ..DesktopContext::default()
    };
    let change = apply_session_change(&mut context, true);
    assert!(change.changed && change.typing_cleared && change.music_cleared && change.media_playing);
    assert!(change.needs_restart());
    assert!(context.session_locked && !context.typing_active && !context.music_motion_active);
    assert!(!start_burst(&mut context, MotionKind::Music, None, DayPhase::Day));
    assert!(!keyboard_activity_applies(&context));

    let again = apply_session_change(&mut context, true);
    assert!(!again.needs_restart());
    let unlock = apply_session_change(&mut context, false);
    assert!(unlock.changed && !unlock.typing_cleared);
}

#[test]
fn keyboard_pulses_only_count_while_coding() {
    let mut context = DesktopContext {
        foreground_process: Some("notepad.exe".into()),
        user_activity: UserActivity::Drowsy,
        ..DesktopContext::default()
    };
    assert_eq!(apply_typing_pulse(&mut context), (false, false));
    assert!(!apply_foreground_change(&mut context, "Cursor.exe".into()));
    assert_eq!(apply_typing_pulse(&mut context), (true, true));
    assert_eq!(context.user_activity, UserActivity::Active);
    assert_eq!(apply_typing_pulse(&mut context), (true, false));
    assert!(apply_foreground_change(&mut context, "explorer.exe".into()));
    assert!(!context.typing_active);
    assert!(!end_typing_pulse(&mut context));
}

#[test]
fn media_changes_restart_music_motion() {
    let mut context = DesktopContext {
        music_motion_active: true,
        ..DesktopContext::default()
    };
    assert!(apply_media_change(&mut context, MediaState::Playing));
    assert!(!context.music_motion_active);
    assert!(!apply_media_change(&mut context, MediaState::Stopped));
    context.session_locked = true;
    assert!(!apply_media_change(&mut context, MediaState::Playing));
}
