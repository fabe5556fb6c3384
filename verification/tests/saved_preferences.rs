use sena::preferences::{normalize_scale_bits, Preferences, PreferencesStore};

#[test]
fn missing_preferences_use_safe_defaults() {
    let store = PreferencesStore::from_loaded("missing.json".into(), None);
    assert_eq!(store.value(), &Preferences::default());
    assert_eq!(store.path(), "missing.json");
}

#[test]
fn defaults_show_the_pet_on_top_at_normal_size() {
    let defaults = Preferences::default();
    assert_eq!(defaults.position(), None);
    assert_eq!(f32::from_bits(defaults.scale_bits), 1.0);
    assert!(defaults.always_on_top);
    assert!(!defaults.onboarding_completed);
}

#[test]
fn invalid_scale_is_clamped() {
    let loaded = Preferences {
        window_x: Some(1),
        window_y: Some(2),
        scale_bits: 9.0f32.to_bits(),
        always_on_top: true,
        onboarding_completed: false,
    };
    let store = PreferencesStore::from_loaded("clamp.json".into(), Some(loaded));
    assert_eq!(f32::from_bits(store.value().scale_bits), 1.4);
    assert!(store.value().always_on_top);
    assert!(!store.value().onboarding_completed);
    assert_eq!(store.value().position(), Some((1, 2)));
}

#[test]
fn scale_normalization_matches_float_clamping() {
    for value in [0.0f32, -0.0, -3.0, 0.59, 0.6, 0.8, 1.0, 1.2, 1.4, 1.41, 9.0, 1e30] {
        let expected = value.clamp(0.6, 1.4);
        assert_eq!(f32::from_bits(normalize_scale_bits(value.to_bits())), expected, "{value}");
    }
    for value in [f32::NAN, f32::INFINITY, f32::NEG_INFINITY] {
        assert_eq!(f32::from_bits(normalize_scale_bits(value.to_bits())), 1.0);
    }
}

#[test]
fn preferences_round_trip_position_and_scale() {
    let mut store = PreferencesStore::from_loaded("roundtrip.json".into(), None);
    store.set_position(321, 654);
    store.set_scale(1.2f32.to_bits());
    store.set_always_on_top(false);
    store.set_onboarding_completed(true);

    let saved = *store.value();
    let loaded = PreferencesStore::from_loaded(store.path().to_string(), Some(saved));

    assert_eq!(loaded.path(), "roundtrip.json");
    assert_eq!(loaded.value().position(), Some((321, 654)));
    assert_eq!(f32::from_bits(loaded.value().scale_bits), 1.2);
    assert!(!loaded.value().always_on_top);
    assert!(loaded.value().onboarding_completed);
}

#[test]
fn half_saved_position_is_no_position() {
    let p = Preferences { window_x: Some(3), ..Preferences::default() };
    assert_eq!(p.position(), None);
}
