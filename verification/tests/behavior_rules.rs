use sena::behavior::{Behavior, BehaviorEngine};
use sena::context::{DayPhase, DesktopContext, MediaState, UserActivity};

fn coding_context() -> DesktopContext {
    DesktopContext {
        foreground_process: Some("codex.exe".into()),
        media: MediaState::Playing,
        user_activity: UserActivity::Active,
        session_locked: false,
        typing_active: false,
        music_motion_active: false,
        drowsy_motion_active: false,
        sleeping_motion_active: false,
    }
}

#[test]
fn combines_coding_and_music_without_needing_a_separate_context_rule() {
    let context = coding_context();
    assert_eq!(BehaviorEngine.resolve(&context), Behavior::CodingWithMusic);
}

#[test]
fn locked_session_has_priority() {
    let context = DesktopContext {
        session_locked: true,
        ..coding_context()
    };
    assert_eq!(BehaviorEngine.resolve(&context), Behavior::Sleeping);
}

#[test]
fn inactive_user_gets_drowsy_before_sleeping() {
    let context = DesktopContext {
        user_activity: UserActivity::Drowsy,
        ..DesktopContext::default()
    };
    assert_eq!(BehaviorEngine.resolve(&context), Behavior::Drowsy);
}

#[test]
fn active_media_prevents_input_idle_from_forcing_sleep() {
    let context = DesktopContext {
        media: MediaState::Playing,
        user_activity: UserActivity::Idle,
        ..DesktopContext::default()
    };
    assert_eq!(BehaviorEngine.resolve(&context), Behavior::ListeningMusic);
}

#[test]
fn idle_user_without_media_sleeps_and_plain_desktop_is_idle() {
    let idle = DesktopContext {
        user_activity: UserActivity::Idle,
        ..DesktopContext::default()
    };
    assert_eq!(BehaviorEngine.resolve(&idle), Behavior::Sleeping);
    assert_eq!(BehaviorEngine.resolve(&DesktopContext::default()), Behavior::Idle);
    let coding = DesktopContext {
        foreground_process: Some("Code.exe".into()),
        ..DesktopContext::default()
    };
    assert_eq!(BehaviorEngine.resolve(&coding), Behavior::Coding);
}

#[test]
fn day_phase_boundaries_match_local_clock_periods() {
    assert_eq!(DayPhase::from_hour(0), DayPhase::LateNight);
    assert_eq!(DayPhase::from_hour(5), DayPhase::LateNight);
    assert_eq!(DayPhase::from_hour(6), DayPhase::Morning);
    assert_eq!(DayPhase::from_hour(10), DayPhase::Morning);
    assert_eq!(DayPhase::from_hour(11), DayPhase::Day);
    assert_eq!(DayPhase::from_hour(17), DayPhase::Day);
    assert_eq!(DayPhase::from_hour(18), DayPhase::Evening);
    assert_eq!(DayPhase::from_hour(22), DayPhase::Evening);
    assert_eq!(DayPhase::from_hour(23), DayPhase::LateNight);
}

#[test]
fn day_phase_wraps_around_the_clock() {
    assert_eq!(DayPhase::from_hour(30), DayPhase::Morning);
    assert_eq!(DayPhase::from_hour(24), DayPhase::from_hour(0));
    assert_eq!(DayPhase::from_hour(255), DayPhase::from_hour(255 % 24));
}

#[test]
fn late_night_idle_thresholds_are_gentler_than_daytime() {
    assert_eq!(DayPhase::Day.idle_threshold_seconds(), (300, 600));
    assert_eq!(DayPhase::Evening.idle_threshold_seconds(), (240, 540));
    assert_eq!(DayPhase::LateNight.idle_threshold_seconds(), (180, 420));
    assert_eq!(DayPhase::Morning.idle_threshold_seconds(), (300, 600));
}

#[test]
fn recognizes_coding_process_case_insensitively() {
    let context = DesktopContext {
        foreground_process: Some("CoDeX.ExE".into()),
        ..DesktopContext::default()
    };
    assert!(context.is_coding());
}

#[test]
fn other_processes_are_not_coding() {
    for process in ["notepad.exe", "codex.ex", "codex.exe ", "", "RUSTROVER64.EXE2"] {
        let context = DesktopContext {
            foreground_process: Some(process.into()),
            ..DesktopContext::default()
        };
        assert!(!context.is_coding(), "{process}");
    }
    assert!(!DesktopContext::default().is_coding());
    for process in ["CLION64.exe", "idea64.EXE", "cursor.exe", "RustRover64.exe"] {
        assert!(sena::context::is_known_coding_process(process), "{process}");
    }
}

#[test]
fn ascii_case_folding_leaves_other_characters_alone() {
    assert!(sena::context::eq_ignore_ascii_case("ÄBC", "Äbc"));
    assert!(!sena::context::eq_ignore_ascii_case("Ä", "ä"));
    assert!(!sena::context::eq_ignore_ascii_case("ab", "abc"));
}
