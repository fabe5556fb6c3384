use sena::behavior::Behavior;
use sena::package::{
    insert_animation, insert_interaction, AnimationDefinition, AnimationKey, InteractionAnimationKey, PetManifest, PetPackage,
    RendererKind, SpineSettings, SpriteSettings, Model3dSettings,
};
use sena::paths::{
    is_safe_relative_path, is_supported_model3d_asset, is_supported_spine_atlas,
    is_supported_spine_skeleton, is_supported_sprite_asset, join_path,
};
use sena::validate::{
    referenced_assets, validate_manifest, CandidateOutcome, PackageError, PackageSearch,
};

fn definition(frames: &[&str], interval_ms: Option<u64>, durations: Vec<u64>) -> AnimationDefinition {
    AnimationDefinition {
        frames: frames.iter().map(|f| f.to_string()).collect(),
        frame_count: None,
        interval_ms,
        frame_durations_ms: durations,
        looping: true,
    }
}

fn manifest(renderer: RendererKind) -> PetManifest {
    PetManifest {
        schema_version: 1,
        id: "test.pet".into(),
        name: "Test".into(),
        display_name: None,
        version: "0.0.0".into(),
        author: "Tester".into(),
        renderer,
        sprite: SpriteSettings::default_settings(),
        model3d: None,
        spine: None,
        license: None,
        animations: Vec::new(),
        interactions: Vec::new(),
    }
}

fn existing(paths: &[&str]) -> Vec<String> {
    paths.iter().map(|p| p.to_string()).collect()
}

fn message(error: PackageError) -> String {
    error.message()
}

#[test]
fn rejects_asset_paths_that_escape_package_root() {
    assert!(!is_safe_relative_path("../outside.webp"));
    assert!(!is_safe_relative_path("/absolute.webp"));
    assert!(is_safe_relative_path("animations/idle/000.webp"));
}

#[test]
fn path_rules_follow_windows_syntax() {
    assert!(!is_safe_relative_path(""));
    assert!(!is_safe_relative_path("C:\\pets\\idle.webp"));
    assert!(!is_safe_relative_path("c:idle.webp"));
    assert!(!is_safe_relative_path("\\\\server\\share\\idle.webp"));
    assert!(!is_safe_relative_path("animations\\..\\..\\idle.webp"));
    assert!(!is_safe_relative_path("./idle.webp"));
    assert!(!is_safe_relative_path("animations/.."));
    assert!(is_safe_relative_path("animations/./idle.webp"));
    assert!(is_safe_relative_path("animations//idle.webp"));
    assert!(is_safe_relative_path("..idle.webp"));
    assert!(is_safe_relative_path("animations/...webp"));
}

#[test]
fn animation_uses_real_frames_before_declared_placeholder_count() {
    let definition = AnimationDefinition {
        frames: vec!["a.webp".into(), "b.webp".into(), "c.webp".into()],
        frame_count: Some(99),
        interval_ms: Some(200),
        frame_durations_ms: Vec::new(),
        looping: true,
    };
    assert_eq!(definition.effective_frame_count(), 3);
}

#[test]
fn frameless_animation_counts_declared_frames_or_one() {
    let mut d = definition(&[], None, Vec::new());
    assert_eq!(d.effective_frame_count(), 1);
    d.frame_count = Some(0);
    assert_eq!(d.effective_frame_count(), 1);
    d.frame_count = Some(7);
    assert_eq!(d.effective_frame_count(), 7);
}

#[test]
fn sprite_assets_are_limited_to_png_and_webp() {
    assert!(is_supported_sprite_asset("idle.PNG"));
    assert!(is_supported_sprite_asset("idle.webp"));
    assert!(!is_supported_sprite_asset("idle.jpg"));
    assert!(!is_supported_sprite_asset("model.moc3"));
}

#[test]
fn extensions_come_from_the_file_name() {
    assert!(!is_supported_sprite_asset(".png"));
    assert!(!is_supported_sprite_asset("png"));
    assert!(is_supported_sprite_asset("frames.png/idle.png"));
    assert!(!is_supported_sprite_asset("frames.png/idle"));
    assert!(is_supported_sprite_asset("a/b.tar.webp/"));
    assert!(is_supported_sprite_asset("a/b.png/."));
    assert!(!is_supported_sprite_asset("a/b.png/.."));
    assert!(is_supported_sprite_asset("C:idle.png"));
}

#[test]
fn sprite_settings_have_safe_defaults() {
    let settings = SpriteSettings::default_settings();
    assert_eq!(f32::from_bits(settings.scale_bits), 1.0);
    assert_eq!(settings.alpha_threshold, 8);
}

#[test]
fn spine_assets_are_limited_to_skeleton_and_atlas_formats() {
    assert!(is_supported_spine_skeleton("spine/sena.skel"));
    assert!(is_supported_spine_skeleton("spine/sena.JSON"));
    assert!(!is_supported_spine_skeleton("spine/sena.spine"));
    assert!(!is_supported_spine_skeleton("spine/sena.png"));

    assert!(is_supported_spine_atlas("spine/sena.atlas"));
    assert!(is_supported_spine_atlas("spine/sena.ATLAS"));
    assert!(!is_supported_spine_atlas("spine/sena.json"));
}

#[test]
fn model3d_assets_are_limited_to_vrm_and_glb() {
    assert!(is_supported_model3d_asset("models/sena.vrm"));
    assert!(is_supported_model3d_asset("models/sena.GLB"));
    assert!(!is_supported_model3d_asset("models/sena.blend"));
    assert!(!is_supported_model3d_asset("models/sena.fbx"));
}

#[test]
fn sprite_behavior_without_frames_falls_back_to_idle() {
    let mut m = manifest(RendererKind::Sprite);
    m.animations.push((AnimationKey::Idle, definition(&["animations/idle/000.webp"], None, Vec::new())));
    m.animations.push((AnimationKey::Coding, definition(&[], Some(180), Vec::new())));
    let package = PetPackage::new(String::new(), m);

    let (resolved, animation) = package
        .animation_with_idle_fallback(Behavior::Coding)
        .expect("coding should fall back to idle");

    assert_eq!(resolved, Behavior::Idle);
    assert_eq!(animation.frames, vec!["animations/idle/000.webp"]);
    assert_eq!(
        package.sprite_frame_path(Behavior::Coding, 0),
        Some("animations/idle/000.webp".to_string())
    );
}

#[test]
fn coding_with_music_tries_coding_then_listening_then_idle() {
    let mut m = manifest(RendererKind::Sprite);
    m.animations.push((AnimationKey::Idle, definition(&["idle.webp"], None, Vec::new())));
    m.animations.push((AnimationKey::ListeningMusic, definition(&["listen.webp"], Some(240), Vec::new())));
    m.animations.push((AnimationKey::CodingWithMusic, definition(&[], None, Vec::new())));
    let package = PetPackage::new("pets/sena".into(), m);
    let (resolved, _) = package.animation_with_idle_fallback(Behavior::CodingWithMusic).unwrap();
    assert_eq!(resolved, Behavior::ListeningMusic);
    assert_eq!(
        package.sprite_frame_path(Behavior::CodingWithMusic, 9),
        Some("pets/sena\\listen.webp".to_string())
    );
    assert_eq!(package.animation_frame_duration_ms(Behavior::CodingWithMusic, 0), Some(240));
    assert!(!package.has_renderable_interaction(InteractionAnimationKey::Petting));
}

#[test]
fn non_sprite_packages_have_no_frame_paths() {
    let package = PetPackage::builtin_placeholder();
    assert_eq!(package.sprite_frame_path(Behavior::Idle, 0), None);
    assert_eq!(package.manifest().id, "sena.builtin");
    assert_eq!(package.root(), "");
    assert_eq!(
        package.animation(Behavior::Sleeping).and_then(|d| d.interval_ms),
        Some(1500)
    );
    let (resolved, _) = package.animation_with_idle_fallback(Behavior::Drowsy).unwrap();
    assert_eq!(resolved, Behavior::Drowsy);
}

#[test]
fn interaction_frames_use_their_own_definition() {
    let mut m = manifest(RendererKind::Sprite);
    m.animations.push((AnimationKey::Idle, definition(&["idle.webp"], None, Vec::new())));
    m.interactions.push((
        InteractionAnimationKey::Petting,
        definition(&["pet/0.webp", "pet/1.webp"], Some(120), vec![300, 0]),
    ));
    m.interactions.push((InteractionAnimationKey::Stretch, definition(&[], None, Vec::new())));
    let package = PetPackage::new("root\\".into(), m);
    assert!(package.has_renderable_interaction(InteractionAnimationKey::Petting));
    assert!(!package.has_renderable_interaction(InteractionAnimationKey::Stretch));
    assert_eq!(
        package.interaction_frame_path(InteractionAnimationKey::Petting, 1),
        Some("root\\pet/1.webp".to_string())
    );
    assert_eq!(package.interaction_frame_path(InteractionAnimationKey::Stretch, 0), None);
    assert_eq!(package.interaction_frame_duration_ms(InteractionAnimationKey::Petting, 0), Some(300));
    assert_eq!(package.interaction_frame_duration_ms(InteractionAnimationKey::Petting, 1), None);
    assert_eq!(package.interaction_frame_duration_ms(InteractionAnimationKey::Petting, 2), Some(120));
}

#[test]
fn per_frame_duration_overrides_uniform_interval() {
    let definition = AnimationDefinition {
        frames: vec!["000.webp".into(), "001.webp".into()],
        frame_count: None,
        interval_ms: Some(650),
        frame_durations_ms: vec![1800, 120],
        looping: true,
    };
    assert_eq!(definition.frame_duration_ms(0), Some(1800));
    assert_eq!(definition.frame_duration_ms(1), Some(120));
}

#[test]
fn uniform_interval_remains_backward_compatible() {
    let definition = AnimationDefinition {
        frames: vec!["000.webp".into(), "001.webp".into()],
        frame_count: None,
        interval_ms: Some(240),
        frame_durations_ms: Vec::new(),
        looping: true,
    };
    assert_eq!(definition.frame_duration_ms(0), Some(240));
    assert_eq!(definition.frame_duration_ms(1), Some(240));
}

#[test]
fn zero_interval_means_no_timer() {
    assert_eq!(definition(&[], Some(0), Vec::new()).frame_duration_ms(0), None);
    assert_eq!(definition(&[], None, Vec::new()).frame_duration_ms(3), None);
}

#[test]
fn join_path_places_assets_under_the_root() {
    assert_eq!(join_path("", "a.webp"), "a.webp");
    assert_eq!(join_path("pets/sena", "a.webp"), "pets/sena\\a.webp");
    assert_eq!(join_path("pets/sena/", "a.webp"), "pets/sena/a.webp");
    assert_eq!(join_path("C:\\pets\\", "a.webp"), "C:\\pets\\a.webp");
    assert_eq!(join_path("C:", "a.webp"), "C:a.webp");
}

#[test]
fn valid_sprite_package_passes_and_lists_its_assets() {
    let mut m = manifest(RendererKind::Sprite);
    m.animations.push((AnimationKey::Idle, definition(&["idle/0.png", "idle/1.webp"], None, vec![1800, 120])));
    m.interactions.push((InteractionAnimationKey::Petting, definition(&["pet.webp"], None, Vec::new())));
    assert_eq!(referenced_assets(&m), vec!["idle/0.png", "idle/1.webp", "pet.webp"]);
    let all = existing(&["idle/0.png", "idle/1.webp", "pet.webp"]);
    assert!(validate_manifest("root", &m, &all).is_ok());
    let package = PetPackage::from_manifest("root".into(), m, &all).expect("valid package");
    assert!(package.is_sprite());
}

#[test]
fn validation_reports_each_kind_of_error() {
    let mut m = manifest(RendererKind::Sprite);
    m.schema_version = 2;
    assert_eq!(
        message(validate_manifest("r", &m, &Vec::new()).unwrap_err()),
        "pet package schema 2 is not supported; expected 1"
    );

    let mut m = manifest(RendererKind::Placeholder);
    m.name = " \t\u{3000}".into();
    assert_eq!(
        message(validate_manifest("r", &m, &Vec::new()).unwrap_err()),
        "invalid pet package: id and name must not be empty"
    );

    let mut m = manifest(RendererKind::Sprite);
    m.sprite.scale_bits = 4.5f32.to_bits();
    assert_eq!(
        message(validate_manifest("r", &m, &Vec::new()).unwrap_err()),
        "invalid pet package: sprite.scale must be between 0.1 and 4.0"
    );
    m.sprite.scale_bits = f32::NAN.to_bits();
    assert!(validate_manifest("r", &m, &Vec::new()).is_err());
    m.sprite.scale_bits = (-1.0f32).to_bits();
    assert!(validate_manifest("r", &m, &Vec::new()).is_err());
    m.sprite.scale_bits = 4.0f32.to_bits();
    assert_eq!(
        message(validate_manifest("r", &m, &Vec::new()).unwrap_err()),
        "invalid pet package: sprite packages must provide at least one frame asset"
    );

    let mut m = manifest(RendererKind::Sprite);
    m.animations.push((AnimationKey::Idle, definition(&["../idle.png"], None, Vec::new())));
    assert_eq!(
        message(validate_manifest("r", &m, &Vec::new()).unwrap_err()),
        "pet package contains unsafe asset path: ../idle.png"
    );

    let mut m = manifest(RendererKind::Sprite);
    m.animations.push((AnimationKey::Idle, definition(&["idle.gif"], None, Vec::new())));
    assert_eq!(
        message(validate_manifest("r", &m, &Vec::new()).unwrap_err()),
        "unsupported pet asset format: idle.gif; expected PNG/WebP for Sprite, SKEL/JSON + ATLAS for Spine, or VRM/GLB for Model3d"
    );

    let mut m = manifest(RendererKind::Sprite);
    m.animations.push((AnimationKey::Idle, definition(&["idle.png"], None, Vec::new())));
    assert_eq!(
        message(validate_manifest("pets/x", &m, &Vec::new()).unwrap_err()),
        "pet package asset does not exist: pets/x\\idle.png"
    );

    let mut m = manifest(RendererKind::Placeholder);
    m.animations.push((AnimationKey::Coding, definition(&[], None, vec![100, 200])));
    assert_eq!(
        message(validate_manifest("r", &m, &Vec::new()).unwrap_err()),
        "invalid pet package: Coding frame_durations_ms must have exactly 1 entries"
    );

    let mut m = manifest(RendererKind::Placeholder);
    m.interactions.push((InteractionAnimationKey::LookAtCat, definition(&["a.gif", "b.gif"], None, vec![100, 0])));
    assert_eq!(
        message(validate_manifest("r", &m, &Vec::new()).unwrap_err()),
        "invalid pet package: interaction LookAtCat frame durations must be greater than zero"
    );
}

#[test]
fn placeholder_frames_need_safe_paths_but_no_files() {
    let mut m = manifest(RendererKind::Placeholder);
    m.animations.push((AnimationKey::Idle, definition(&["anything.gif"], None, Vec::new())));
    assert!(validate_manifest("r", &m, &Vec::new()).is_ok());
    assert!(referenced_assets(&m).is_empty());
}

fn spine_manifest(skeleton: &str, atlas: &str, scale: f32, skin: &str) -> PetManifest {
    let mut m = manifest(RendererKind::Spine);
    m.spine = Some(SpineSettings {
        skeleton: skeleton.into(),
        atlas: atlas.into(),
        scale_bits: scale.to_bits(),
        default_skin: skin.into(),
    });
    m
}

#[test]
fn spine_package_loads_when_required_assets_exist() {
    let m = spine_manifest("spine/export/sena.skel", "spine/export/sena.atlas", 1.0, "base");
    let assets = referenced_assets(&m);
    assert_eq!(assets, vec!["spine/export/sena.skel", "spine/export/sena.atlas"]);
    let package = PetPackage::from_manifest("root".into(), m, &assets).expect("Spine package should load");
    assert!(package.is_spine());
    assert_eq!(package.spine_skeleton_path(), Some("root\\spine/export/sena.skel".to_string()));
    assert_eq!(package.spine_atlas_path(), Some("root\\spine/export/sena.atlas".to_string()));
    assert_eq!(
        package.spine_settings().map(|settings| settings.default_skin.as_str()),
        Some("base")
    );
}

#[test]
fn spine_settings_are_checked_in_order() {
    let mut m = manifest(RendererKind::Spine);
    assert_eq!(
        message(validate_manifest("r", &m, &Vec::new()).unwrap_err()),
        "invalid pet package: spine renderer requires spine settings"
    );
    m = spine_manifest("sena.png", "sena.atlas", 1.0, "base");
    assert_eq!(
        message(validate_manifest("r", &m, &Vec::new()).unwrap_err()),
        "unsupported pet asset format: sena.png; expected PNG/WebP for Sprite, SKEL/JSON + ATLAS for Spine, or VRM/GLB for Model3d"
    );
    m = spine_manifest("sena.json", "/sena.atlas", 1.0, "base");
    assert_eq!(
        message(validate_manifest("r", &m, &Vec::new()).unwrap_err()),
        "pet package contains unsafe asset path: /sena.atlas"
    );
    m = spine_manifest("sena.json", "sena.atlas", 0.01, "base");
    assert_eq!(
        message(validate_manifest("r", &m, &Vec::new()).unwrap_err()),
        "invalid pet package: spine.scale must be between 0.05 and 10.0"
    );
    m = spine_manifest("sena.json", "sena.atlas", 10.0, " ");
    assert_eq!(
        message(validate_manifest("r", &m, &Vec::new()).unwrap_err()),
        "invalid pet package: spine.default_skin must not be empty"
    );
    m = spine_manifest("sena.json", "sena.atlas", 0.05, "base");
    assert_eq!(
        message(validate_manifest("r", &m, &existing(&["sena.json"])).unwrap_err()),
        "pet package asset does not exist: r\\sena.atlas"
    );
}

#[test]
fn model3d_settings_are_checked_in_order() {
    let mut m = manifest(RendererKind::Model3d);
    assert_eq!(
        message(validate_manifest("r", &m, &Vec::new()).unwrap_err()),
        "invalid pet package: model3d renderer requires model3d settings"
    );
    m.model3d = Some(Model3dSettings {
        source: "models/sena.vrm".into(),
        scale_bits: 1.0f32.to_bits(),
        motions: vec![("walk".into(), "Walk".into())],
        expressions: Vec::new(),
        anchors: vec![("cat_carry".into(), "CatCarry".into())],
    });
    assert_eq!(
        message(validate_manifest("r", &m, &Vec::new()).unwrap_err()),
        "pet package asset does not exist: r\\models/sena.vrm"
    );
    let package = PetPackage::from_manifest("r".into(), m, &existing(&["models/sena.vrm"])).unwrap();
    assert_eq!(package.model3d_path(), Some("r\\models/sena.vrm".to_string()));
}

#[test]
fn other_errors_format_like_the_loader() {
    assert_eq!(
        message(PackageError::NotFound(vec!["a/pets/sena".into(), "b/pets/default".into()])),
        "no pet package found in a/pets/sena, b/pets/default"
    );
    assert_eq!(
        message(PackageError::ReadManifest { path: "p/pet.json".into(), message: "denied".into() }),
        "failed to read p/pet.json: denied"
    );
    assert_eq!(
        message(PackageError::ParseManifest { path: "p/pet.json".into(), message: "bad".into() }),
        "failed to parse p/pet.json: bad"
    );
}

#[test]
fn default_package_search_keeps_the_first_error() {
    let mut search = PackageSearch::new();
    assert!(!search.record(CandidateOutcome::NoManifest));
    assert!(!search.record(CandidateOutcome::Failed(PackageError::InvalidManifest("first".into()))));
    assert!(!search.record(CandidateOutcome::Failed(PackageError::InvalidManifest("second".into()))));
    assert!(search.record(CandidateOutcome::Loaded));
    assert_eq!(message(search.finish(Vec::new())), "invalid pet package: first");

    let empty = PackageSearch::new();
    assert_eq!(message(empty.finish(vec!["x".into()])), "no pet package found in x");
}

#[test]
fn tables_keep_one_entry_per_key_in_key_order() {
    let mut animations = Vec::new();
    insert_animation(&mut animations, AnimationKey::Sleeping, definition(&["s.webp"], None, Vec::new()));
    insert_animation(&mut animations, AnimationKey::Idle, definition(&["i.webp"], None, Vec::new()));
    insert_animation(&mut animations, AnimationKey::Drowsy, definition(&["d.webp"], None, Vec::new()));
    insert_animation(&mut animations, AnimationKey::Idle, definition(&["i2.webp"], None, Vec::new()));
    let keys: Vec<AnimationKey> = animations.iter().map(|(key, _)| *key).collect();
    assert_eq!(keys, vec![AnimationKey::Idle, AnimationKey::Drowsy, AnimationKey::Sleeping]);
    assert_eq!(animations[0].1.frames, vec!["i2.webp"]);

    let mut interactions = Vec::new();
    insert_interaction(&mut interactions, InteractionAnimationKey::Daydream, definition(&[], Some(100), Vec::new()));
    insert_interaction(&mut interactions, InteractionAnimationKey::Petting, definition(&[], Some(200), Vec::new()));
    insert_interaction(&mut interactions, InteractionAnimationKey::Daydream, definition(&[], Some(300), Vec::new()));
    let keys: Vec<InteractionAnimationKey> = interactions.iter().map(|(key, _)| *key).collect();
    assert_eq!(keys, vec![InteractionAnimationKey::Petting, InteractionAnimationKey::Daydream]);
    assert_eq!(interactions[1].1.interval_ms, Some(300));
}
