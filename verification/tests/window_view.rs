use sena::behavior::Behavior;
use sena::context::DesktopContext;
use sena::package::{
    AnimationDefinition, AnimationKey, InteractionAnimationKey, PetManifest, PetPackage,
    RendererKind, SpriteSettings,
};
use sena::render::{
    animation_tick, apply_context, cancel_interaction_animation, has_dedicated_animation,
    check_surface_size, has_interaction_animation, interaction_schedule, Generation,
};
use sena::shell::{plan_desktop_action, UserScale, WindowCommand};
use sena::platform::TrayAction;

fn def(frames: &[&str], durations: Vec<u64>, interval_ms: Option<u64>) -> AnimationDefinition {
    AnimationDefinition {
        frames: frames.iter().map(|f| f.to_string()).collect(),
        frame_count: None,
        interval_ms,
        frame_durations_ms: durations,
        looping: true,
    }
}

fn sprite_package() -> PetPackage {
    package_for(RendererKind::Sprite)
}

fn package_for(renderer: RendererKind) -> PetPackage {
    PetPackage::new(
        "pets/sena".into(),
        PetManifest {
            schema_version: 1,
            id: "sena.test".into(),
            name: "Sena".into(),
            display_name: None,
            version: "1".into(),
            author: "t".into(),
            renderer,
            sprite: SpriteSettings::default_settings(),
            model3d: None,
            spine: None,
            license: None,
            animations: vec![
                (AnimationKey::Idle, def(&["i0.webp", "i1.webp"], vec![1800, 120], None)),
                (AnimationKey::Coding, def(&[], Vec::new(), Some(180))),
            ],
            interactions: vec![(
                InteractionAnimationKey::Petting,
                def(&["p0.webp", "p1.webp", "p2.webp"], vec![100, 0, 50], None),
            )],
        },
    )
}

#[test]
fn dedicated_animations_need_frames_in_sprite_packages() {
    let package = sprite_package();
    assert!(has_dedicated_animation(&package, Behavior::Idle));
    assert!(!has_dedicated_animation(&package, Behavior::Coding));
    assert!(!has_dedicated_animation(&package, Behavior::Sleeping));
    assert!(has_interaction_animation(&package, InteractionAnimationKey::Petting));
    assert!(!has_interaction_animation(&package, InteractionAnimationKey::Daydream));
    let placeholder = PetPackage::builtin_placeholder();
    assert!(has_dedicated_animation(&placeholder, Behavior::Sleeping));
}

#[test]
fn interaction_schedule_adds_up_frame_durations() {
    let package = sprite_package();
    assert_eq!(
        interaction_schedule(&package, InteractionAnimationKey::Petting),
        Some(vec![0, 100, 260, 310])
    );
    assert_eq!(interaction_schedule(&package, InteractionAnimationKey::Stretch), None);
}

#[test]
fn only_sprite_packages_play_interaction_frames() {
    for renderer in [RendererKind::Placeholder, RendererKind::Spine, RendererKind::Model3d] {
        let package = package_for(renderer);
        assert_eq!(package.interaction_frame_path(InteractionAnimationKey::Petting, 0), None);
        assert_eq!(interaction_schedule(&package, InteractionAnimationKey::Petting), None);
    }
}

#[test]
fn surfaces_need_both_sides() {
    assert_eq!(check_surface_size(1, 1), Ok(()));
    assert!(check_surface_size(0, 5).is_err());
    assert_eq!(
        check_surface_size(7, 0),
        Err("DirectComposition surface size must be non-zero".to_string())
    );
}

#[test]
fn cancelling_invalidates_pending_timers() {
    let mut generation = Generation::new();
    let token = generation.advance();
    assert!(generation.is_current(token));
    cancel_interaction_animation(&mut generation);
    assert!(!generation.is_current(token));
    let mut wrapping = Generation { value: u64::MAX };
    assert_eq!(wrapping.advance(), 0);
}

#[test]
fn ticks_follow_the_clip_and_per_frame_timing() {
    let package = sprite_package();
    let tick = animation_tick(&package, 0, 1).expect("idle clip");
    assert_eq!((tick.behavior, tick.frame, tick.next_interval_ms), (Behavior::Idle, 1, Some(120)));
    let tick = animation_tick(&package, 1, -3).expect("coding clip");
    assert_eq!((tick.behavior, tick.frame, tick.next_interval_ms), (Behavior::Coding, 0, Some(1800)));
    assert!(animation_tick(&package, 9, 0).is_none());
}

#[test]
fn context_view_labels_and_restarts_frames() {
    let package = sprite_package();
    let context = DesktopContext {
        foreground_process: Some("code.exe".into()),
        typing_active: true,
        ..DesktopContext::default()
    };
    let view = apply_context(&package, &context, Behavior::Coding, false, 0, 1);
    assert_eq!(view.activity_label, "Coding");
    assert!(view.show_laptop && !view.show_headphones && !view.is_drowsy && !view.is_sleeping);
    assert_eq!(view.foreground_label, "code.exe");
    let animation = view.animation.expect("animation update");
    assert_eq!(animation.clip, 1);
    assert_eq!(animation.frame, 0);
    assert_eq!(animation.frame_count, 2);
    assert_eq!(animation.interval_ms, 1800);
    assert!(animation.running);

    let same_clip = apply_context(&package, &context, Behavior::Coding, false, 1, 1).animation.unwrap();
    assert_eq!((same_clip.frame, same_clip.interval_ms), (1, 120));
    let past_end = apply_context(&package, &context, Behavior::Coding, false, 1, 5).animation.unwrap();
    assert_eq!(past_end.frame, 0);

    let quiet = apply_context(&package, &DesktopContext::default(), Behavior::CodingWithMusic, true, 0, 0);
    assert_eq!(quiet.activity_label, "Coding + Music");
    assert_eq!(quiet.foreground_label, "Desktop");
    assert!(quiet.show_laptop && quiet.show_headphones);
    assert!(quiet.animation.is_none());
}

#[test]
fn desktop_requests_plan_visibility_and_settings() {
    let shown = plan_desktop_action(TrayAction::ToggleVisibility, true, true);
    assert!(!shown.pet_visible);
    assert_eq!(shown.window, WindowCommand::Hide);
    let back = plan_desktop_action(TrayAction::ToggleVisibility, shown.pet_visible, true);
    assert!(back.pet_visible);
    assert_eq!(back.window, WindowCommand::Show);

    let reset = plan_desktop_action(TrayAction::ResetPosition, false, true);
    assert!(reset.pet_visible && reset.reset_position && reset.save_preferences);
    let top = plan_desktop_action(TrayAction::ToggleAlwaysOnTop, true, true);
    assert!(!top.always_on_top && top.save_preferences);
    let scale = plan_desktop_action(TrayAction::SetScale(120), true, true);
    assert_eq!(scale.scale_percent, Some(120));
    assert!(plan_desktop_action(TrayAction::Exit, true, true).quit);
    assert!(plan_desktop_action(TrayAction::Settings, true, true).open_settings);
    assert!(plan_desktop_action(TrayAction::ToggleStartup, true, true).toggle_startup);
    let hide = plan_desktop_action(TrayAction::Hide, true, false);
    assert!(!hide.pet_visible && !hide.always_on_top);
}

#[test]
fn user_scale_changes_only_when_the_safe_value_changes() {
    let mut scale = UserScale::new();
    assert!(!scale.set(1.0f32.to_bits()));
    assert!(scale.set(2.0f32.to_bits()));
    assert_eq!(f32::from_bits(scale.bits), 1.4);
    assert!(!scale.set(3.0f32.to_bits()));
    assert!(scale.set(f32::NAN.to_bits()));
    assert_eq!(f32::from_bits(scale.bits), 1.0);
}
