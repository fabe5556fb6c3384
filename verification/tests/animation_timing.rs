use sena::animation::{AnimationClip, AnimationSpec};
use sena::behavior::Behavior;
use sena::package::{AnimationDefinition, AnimationKey, PetManifest, PetPackage, RendererKind, SpriteSettings};

fn sprite_package(animations: Vec<(AnimationKey, AnimationDefinition)>) -> PetPackage {
    PetPackage::new(
        String::new(),
        PetManifest {
            schema_version: 1,
            id: "test.sprite".into(),
            name: "Sprite".into(),
            display_name: None,
            version: "0.0.0".into(),
            author: "Tester".into(),
            renderer: RendererKind::Sprite,
            sprite: SpriteSettings::default_settings(),
            model3d: None,
            spine: None,
            license: None,
            animations,
            interactions: Vec::new(),
        },
    )
}

fn frames(count: usize, durations: Vec<u64>) -> AnimationDefinition {
    AnimationDefinition {
        frames: (0..count).map(|i| format!("{i:03}.webp")).collect(),
        frame_count: None,
        interval_ms: None,
        frame_durations_ms: durations,
        looping: true,
    }
}

#[test]
fn idle_has_no_permanent_animation_timer() {
    let package = PetPackage::builtin_placeholder();
    let spec = AnimationSpec::for_behavior(Behavior::Idle, &package);
    assert!(!spec.running());
    assert_eq!(spec.frame_count, 1);
}

#[test]
fn active_animation_rates_stay_well_below_sixty_fps() {
    for behavior in [
        Behavior::Coding,
        Behavior::ListeningMusic,
        Behavior::CodingWithMusic,
        Behavior::Drowsy,
        Behavior::Sleeping,
    ] {
        let package = PetPackage::builtin_placeholder();
        let spec = AnimationSpec::for_behavior(behavior, &package);
        let interval = spec.interval.expect("animated behavior needs interval");
        assert!(interval >= 160);
    }
}

#[test]
fn sleeping_uses_a_very_low_frequency_animation() {
    let package = PetPackage::builtin_placeholder();
    let spec = AnimationSpec::for_behavior(Behavior::Sleeping, &package);
    assert_eq!(spec.interval, Some(1500));
}

#[test]
fn placeholder_package_drives_animation_timing() {
    let package = PetPackage::builtin_placeholder();
    let spec = AnimationSpec::for_behavior(Behavior::ListeningMusic, &package);

    assert_eq!(spec.frame_count, 4);
    assert_eq!(spec.interval, Some(240));
}

#[test]
fn placeholder_cadence_matches_the_built_in_table() {
    let package = PetPackage::builtin_placeholder();
    for behavior in [
        Behavior::Idle,
        Behavior::Coding,
        Behavior::ListeningMusic,
        Behavior::CodingWithMusic,
        Behavior::Drowsy,
        Behavior::Sleeping,
    ] {
        assert_eq!(
            AnimationSpec::for_behavior(behavior, &package),
            AnimationSpec::fallback_for_behavior(behavior)
        );
    }
    let listening = AnimationSpec::for_behavior(Behavior::ListeningMusic, &package);
    assert_eq!((listening.frame_count, listening.interval), (4, Some(240)));
}

#[test]
fn dedicated_listening_animation_can_sleep_between_motion_bursts() {
    let package = PetPackage::builtin_placeholder();
    let quiet = AnimationSpec::for_runtime(Behavior::ListeningMusic, &package, false, false, false);
    let moving = AnimationSpec::for_runtime(Behavior::ListeningMusic, &package, false, true, false);

    assert!(!quiet.running());
    assert_eq!(quiet.frame_count, 1);
    assert!(moving.running());
    assert_eq!(moving.frame_count, 4);
}

#[test]
fn drowsy_animation_can_sleep_between_motion_bursts() {
    let package = PetPackage::builtin_placeholder();
    let quiet = AnimationSpec::for_runtime(Behavior::Drowsy, &package, false, false, false);
    let motion = AnimationSpec::for_runtime(Behavior::Drowsy, &package, false, false, true);

    assert!(!quiet.running());
    assert_eq!(quiet.frame_count, 1);
    assert!(motion.running());
    assert_eq!(motion.frame_count, 2);
}

#[test]
fn coding_stays_static_until_keyboard_activity() {
    let package = sprite_package(vec![
        (AnimationKey::Idle, frames(4, vec![1800, 120, 2300, 120])),
        (AnimationKey::Coding, frames(4, vec![220, 180, 900, 180])),
    ]);
    let still = AnimationSpec::for_runtime(Behavior::Coding, &package, false, false, false);
    assert_eq!(still.clip, AnimationClip::Coding);
    assert_eq!(still.frame_count, 1);
    assert_eq!(still.interval, None);
    assert!(!still.running());

    let typing = AnimationSpec::for_runtime(Behavior::Coding, &package, true, false, false);
    assert_eq!(typing.frame_count, 4);
    assert_eq!(typing.interval, Some(220));
    assert!(typing.running());
}

#[test]
fn coding_with_music_reuses_coding_when_combined_assets_are_missing() {
    let package = sprite_package(vec![
        (AnimationKey::Idle, frames(1, Vec::new())),
        (AnimationKey::Coding, frames(4, vec![220, 180, 900, 180])),
    ]);
    let quiet = AnimationSpec::for_runtime(Behavior::CodingWithMusic, &package, false, true, false);
    let typing = AnimationSpec::for_runtime(Behavior::CodingWithMusic, &package, true, false, false);
    assert!(!quiet.running());
    assert_eq!(quiet.frame_count, 1);
    assert!(typing.running());
    assert_eq!(typing.frame_count, 4);
    assert_eq!(typing.clip, AnimationClip::CodingWithMusic);
}

#[test]
fn drowsy_falling_back_to_idle_stays_static() {
    let package = sprite_package(vec![(AnimationKey::Idle, frames(2, vec![300, 300]))]);
    let motion = AnimationSpec::for_runtime(Behavior::Drowsy, &package, false, false, true);
    assert!(!motion.running());
    assert_eq!(motion.frame_count, 1);
    assert!(!motion.looping);
}

#[test]
fn clips_round_trip_through_their_numbers() {
    for value in 0..6 {
        let clip = AnimationClip::from_i32(value).expect("known clip");
        assert_eq!(clip.as_i32(), value);
    }
    assert_eq!(AnimationClip::from_i32(6), None);
    assert_eq!(AnimationClip::from_i32(-1), None);
    assert_eq!(AnimationClip::Static.behavior(), Behavior::Idle);
    assert_eq!(AnimationClip::Listening.behavior(), Behavior::ListeningMusic);
}

#[test]
fn interval_ms_caps_and_defaults() {
    let mut spec = AnimationSpec::fallback_for_behavior(Behavior::Coding);
    assert_eq!(spec.interval_ms(), 160);
    spec.interval = Some(u64::MAX);
    assert_eq!(spec.interval_ms(), i32::MAX);
    spec.interval = None;
    assert_eq!(spec.interval_ms(), 1000);
    assert!(!spec.running());
}
