//! Renderer-independent animation clips and their timing.

use vstd::prelude::*;

use crate::behavior::Behavior;
use crate::package::{is_builtin_placeholder, placeholder_timing, animation_key_of, PetPackage};

verus! {

/// The clip a renderer plays for a behavior.
#[derive(Debug, Clone, Copy, PartialEq, Eq, Structural)]
pub enum AnimationClip {
    Static,
    Coding,
    Listening,
    CodingWithMusic,
    Drowsy,
    Sleeping,
}

/// What to play: a clip, its frame count, the frame interval in milliseconds
/// (none for a still frame) and whether it loops.
#[derive(Debug, Clone, Copy, PartialEq, Eq, Structural)]
pub struct AnimationSpec {
    pub clip: AnimationClip,
    pub frame_count: i32,
    pub interval: Option<u64>,
    pub looping: bool,
}

/// The number that identifies a clip in the UI.
pub open spec fn clip_number(clip: AnimationClip) -> i32 {
    match clip {
        AnimationClip::Static => 0,
        AnimationClip::Coding => 1,
        AnimationClip::Listening => 2,
        AnimationClip::CodingWithMusic => 3,
        AnimationClip::Drowsy => 4,
        AnimationClip::Sleeping => 5,
    }
}

pub open spec fn clip_behavior(clip: AnimationClip) -> Behavior {
    match clip {
        AnimationClip::Static => Behavior::Idle,
        AnimationClip::Coding => Behavior::Coding,
        AnimationClip::Listening => Behavior::ListeningMusic,
        AnimationClip::CodingWithMusic => Behavior::CodingWithMusic,
        AnimationClip::Drowsy => Behavior::Drowsy,
        AnimationClip::Sleeping => Behavior::Sleeping,
    }
}

impl AnimationClip {
    pub fn from_i32(value: i32) -> (clip: Option<AnimationClip>)
        ensures
            match clip {
                Some(c) => clip_number(c) == value,
                None => !(0 <= value <= 5),
            },
    {
        match value {
            0 => Some(AnimationClip::Static),
            1 => Some(AnimationClip::Coding),
            2 => Some(AnimationClip::Listening),
            3 => Some(AnimationClip::CodingWithMusic),
            4 => Some(AnimationClip::Drowsy),
            5 => Some(AnimationClip::Sleeping),
            _ => None,
        }
    }

    pub fn as_i32(self) -> (value: i32)
        ensures
            value == clip_number(self),
    {
        match self {
            AnimationClip::Static => 0,
            AnimationClip::Coding => 1,
            AnimationClip::Listening => 2,
            AnimationClip::CodingWithMusic => 3,
            AnimationClip::Drowsy => 4,
            AnimationClip::Sleeping => 5,
        }
    }

    pub fn behavior(self) -> (behavior: Behavior)
        ensures
            behavior == clip_behavior(self),
    {
        match self {
            AnimationClip::Static => Behavior::Idle,
            AnimationClip::Coding => Behavior::Coding,
            AnimationClip::Listening => Behavior::ListeningMusic,
            AnimationClip::CodingWithMusic => Behavior::CodingWithMusic,
            AnimationClip::Drowsy => Behavior::Drowsy,
            AnimationClip::Sleeping => Behavior::Sleeping,
        }
    }
}

/// The built-in cadence of each behavior when no package animation applies.
pub open spec fn spec_fallback_for_behavior(behavior: Behavior) -> AnimationSpec {
    match behavior {
        Behavior::Idle => AnimationSpec { clip: AnimationClip::Static, frame_count: 1, interval: None, looping: true },
        Behavior::Coding => AnimationSpec { clip: AnimationClip::Coding, frame_count: 2, interval: Some(160), looping: true },
        Behavior::ListeningMusic => AnimationSpec { clip: AnimationClip::Listening, frame_count: 4, interval: Some(240), looping: true },
        Behavior::CodingWithMusic => AnimationSpec { clip: AnimationClip::CodingWithMusic, frame_count: 4, interval: Some(160), looping: true },
        Behavior::Drowsy => AnimationSpec { clip: AnimationClip::Drowsy, frame_count: 2, interval: Some(900), looping: true },
        Behavior::Sleeping => AnimationSpec { clip: AnimationClip::Sleeping, frame_count: 2, interval: Some(1500), looping: true },
    }
}

pub open spec fn spec_for_behavior(behavior: Behavior, package: PetPackage) -> AnimationSpec {
    let fallback = spec_fallback_for_behavior(behavior);
    match package.spec_animation_with_idle_fallback(behavior) {
        None => fallback,
        Some((_, d)) => AnimationSpec {
            clip: fallback.clip,
            frame_count: if d.spec_effective_frame_count() > 0x7FFF_FFFF {
                0x7FFF_FFFFi32
            } else {
                d.spec_effective_frame_count() as i32
            },
            interval: d.spec_frame_duration_ms(0),
            looping: d.looping,
        },
    }
}

/// Whether the chosen animation moves right now, given the activity pulses
/// and the behavior the package's animation actually belongs to.
pub open spec fn spec_should_animate(
    behavior: Behavior,
    resolved: Behavior,
    typing_active: bool,
    music_motion_active: bool,
    drowsy_motion_active: bool,
) -> bool {
    match behavior {
        Behavior::Coding => typing_active,
        Behavior::ListeningMusic => resolved == Behavior::ListeningMusic && music_motion_active,
        Behavior::CodingWithMusic => match resolved {
            Behavior::Coding => typing_active,
            Behavior::ListeningMusic => music_motion_active,
            Behavior::CodingWithMusic => typing_active || music_motion_active,
            _ => true,
        },
        Behavior::Drowsy => resolved == Behavior::Drowsy && drowsy_motion_active,
        _ => true,
    }
}

pub open spec fn spec_resolved_behavior(behavior: Behavior, package: PetPackage) -> Behavior {
    match package.spec_animation_with_idle_fallback(behavior) {
        Some((resolved, _)) => resolved,
        None => behavior,
    }
}

pub open spec fn spec_for_runtime(
    behavior: Behavior,
    package: PetPackage,
    typing_active: bool,
    music_motion_active: bool,
    drowsy_motion_active: bool,
) -> AnimationSpec {
    let spec = spec_for_behavior(behavior, package);
    if spec_should_animate(
        behavior,
        spec_resolved_behavior(behavior, package),
        typing_active,
        music_motion_active,
        drowsy_motion_active,
    ) {
        spec
    } else {
        AnimationSpec { frame_count: 1, interval: None, looping: false, ..spec }
    }
}

impl AnimationSpec {
    pub open spec fn spec_running(self) -> bool {
        self.interval is Some && self.frame_count > 1
    }

    pub open spec fn spec_interval_ms(self) -> i32 {
        match self.interval {
            Some(ms) => if ms > 0x7FFF_FFFF {
                0x7FFF_FFFFi32
            } else {
                ms as i32
            },
            None => 1000,
        }
    }

    /// The spec of `behavior` while its activity pulses are as given.
    pub fn for_runtime(
        behavior: Behavior,
        package: &PetPackage,
        typing_active: bool,
        music_motion_active: bool,
        drowsy_motion_active: bool,
    ) -> (spec: AnimationSpec)
        ensures
            spec == spec_for_runtime(behavior, *package, typing_active, music_motion_active, drowsy_motion_active),
    {
        let mut spec = AnimationSpec::for_behavior(behavior, package);
        let resolved = match package.animation_with_idle_fallback(behavior) {
            Some((resolved, _)) => resolved,
            None => behavior,
        };
        let should_animate = match behavior {
            Behavior::Coding => typing_active,
            Behavior::ListeningMusic => resolved == Behavior::ListeningMusic && music_motion_active,
            Behavior::CodingWithMusic => match resolved {
                Behavior::Coding => typing_active,
                Behavior::ListeningMusic => music_motion_active,
                Behavior::CodingWithMusic => typing_active || music_motion_active,
                _ => true,
            },
            Behavior::Drowsy => resolved == Behavior::Drowsy && drowsy_motion_active,
            _ => true,
        };
        if !should_animate {
            spec.frame_count = 1;
            spec.interval = None;
            spec.looping = false;
        }
        spec
    }

    /// The spec of `behavior` from the package animation it falls back to,
    /// or the built-in cadence when the package has none.
    pub fn for_behavior(behavior: Behavior, package: &PetPackage) -> (spec: AnimationSpec)
        ensures
            spec == spec_for_behavior(behavior, *package),
    {
        let fallback = AnimationSpec::fallback_for_behavior(behavior);
        match package.animation_with_idle_fallback(behavior) {
            None => fallback,
            Some((_, definition)) => {
                let count = definition.effective_frame_count();
                let frame_count: i32 = if count > 0x7FFF_FFFF {
                    0x7FFF_FFFF
                } else {
                    count as i32
                };
                AnimationSpec {
                    clip: fallback.clip,
                    frame_count,
                    interval: definition.frame_duration_ms(0),
                    looping: definition.looping,
                }
            },
        }
    }

    pub fn fallback_for_behavior(behavior: Behavior) -> (spec: AnimationSpec)
        ensures
            spec == spec_fallback_for_behavior(behavior),
    {
        match behavior {
            Behavior::Idle => AnimationSpec { clip: AnimationClip::Static, frame_count: 1, interval: None, looping: true },
            Behavior::Coding => AnimationSpec { clip: AnimationClip::Coding, frame_count: 2, interval: Some(160), looping: true },
            Behavior::ListeningMusic => AnimationSpec { clip: AnimationClip::Listening, frame_count: 4, interval: Some(240), looping: true },
            Behavior::CodingWithMusic => AnimationSpec { clip: AnimationClip::CodingWithMusic, frame_count: 4, interval: Some(160), looping: true },
            Behavior::Drowsy => AnimationSpec { clip: AnimationClip::Drowsy, frame_count: 2, interval: Some(900), looping: true },
            Behavior::Sleeping => AnimationSpec { clip: AnimationClip::Sleeping, frame_count: 2, interval: Some(1500), looping: true },
        }
    }

    /// The frame interval for a UI timer, in milliseconds: capped at
    /// `i32::MAX`, and 1000 when the spec has none.
    pub fn interval_ms(self) -> (ms: i32)
        ensures
            ms == self.spec_interval_ms(),
    {
        match self.interval {
            Some(ms) => if ms > 0x7FFF_FFFF {
                0x7FFF_FFFF
            } else {
                ms as i32
            },
            None => 1000,
        }
    }

    /// Whether a frame timer is needed at all.
    pub fn running(self) -> (running: bool)
        ensures
            running == self.spec_running(),
    {
        self.interval.is_some() && self.frame_count > 1
    }
}

/// Idle deliberately has no timer when the package gives it no animation.
pub proof fn law_idle_fallback_is_static()
    ensures
        !spec_fallback_for_behavior(Behavior::Idle).spec_running(),
        spec_fallback_for_behavior(Behavior::Idle).frame_count == 1,
{
}

/// No built-in cadence is faster than 160 ms per frame, far below 60 frames
/// per second; Sleeping is the slowest at 1500 ms.
pub proof fn law_fallback_rates_stay_low(behavior: Behavior)
    ensures
        spec_fallback_for_behavior(behavior).interval matches Some(ms) ==> ms >= 160,
        behavior != Behavior::Idle ==> spec_fallback_for_behavior(behavior).interval is Some,
        behavior == Behavior::Sleeping ==> spec_fallback_for_behavior(behavior).interval == Some(1500u64),
{
}

/// An animation that should not move becomes a single still frame with no
/// timer; an animation never runs at runtime unless it runs for its behavior.
pub proof fn law_runtime_never_adds_motion(
    behavior: Behavior,
    package: PetPackage,
    typing_active: bool,
    music_motion_active: bool,
    drowsy_motion_active: bool,
)
    ensures
        spec_for_runtime(behavior, package, typing_active, music_motion_active, drowsy_motion_active).spec_running()
            ==> spec_for_behavior(behavior, package).spec_running(),
        spec_for_runtime(behavior, package, typing_active, music_motion_active, drowsy_motion_active).clip
            == spec_for_behavior(behavior, package).clip,
        !spec_should_animate(behavior, spec_resolved_behavior(behavior, package), typing_active, music_motion_active, drowsy_motion_active)
            ==> !spec_for_runtime(behavior, package, typing_active, music_motion_active, drowsy_motion_active).spec_running(),
{
}

/// Coding stays still until the keyboard is active, whatever the package.
pub proof fn law_coding_static_until_typing(
    package: PetPackage,
    music_motion_active: bool,
    drowsy_motion_active: bool,
)
    ensures
        !spec_for_runtime(Behavior::Coding, package, false, music_motion_active, drowsy_motion_active).spec_running(),
        spec_for_runtime(Behavior::Coding, package, false, music_motion_active, drowsy_motion_active).frame_count == 1,
{
}

/// The built-in placeholder package reproduces the built-in cadence of every behavior.
pub proof fn law_placeholder_matches_builtin_cadence(package: PetPackage, behavior: Behavior)
    requires
        is_builtin_placeholder(package),
    ensures
        spec_for_behavior(behavior, package) == spec_fallback_for_behavior(behavior),
{
    let m = package.spec_manifest();
    let key = animation_key_of(behavior);
    let i: int = match behavior {
        Behavior::Idle => 0,
        Behavior::Coding => 1,
        Behavior::ListeningMusic => 2,
        Behavior::CodingWithMusic => 3,
        Behavior::Drowsy => 4,
        Behavior::Sleeping => 5,
    };
    let entries = m.animations@;
    assert(entries[i].0 == key);
    crate::package::lemma_find_first_key(entries, i);
    let d = entries[i].1;
    assert(package.spec_animation(behavior) == Some(d));
    assert(package.spec_renderable(d));
    reveal_with_fuel(PetPackage::first_renderable, 2);
    assert(crate::package::fallback_candidates(behavior)[0] == behavior);
    assert(package.spec_animation_with_idle_fallback(behavior) == Some((behavior, d)));
    assert(d.frame_count == Some(placeholder_timing(key).0));
}

/// When the package has its own renderable CodingWithMusic animation, either
/// pulse animates it: a music burst alone, or typing alone, makes the
/// runtime spec the behavior's full spec.
pub proof fn law_coding_with_music_animates_on_either_pulse(
    package: PetPackage,
    typing_active: bool,
    music_motion_active: bool,
    drowsy_motion_active: bool,
)
    requires
        package.spec_animation(Behavior::CodingWithMusic) matches Some(d) && package.spec_renderable(d),
        typing_active || music_motion_active,
    ensures
        spec_for_runtime(
            Behavior::CodingWithMusic,
            package,
            typing_active,
            music_motion_active,
            drowsy_motion_active,
        ) == spec_for_behavior(Behavior::CodingWithMusic, package),
{
    let d = package.spec_animation(Behavior::CodingWithMusic)->0;
    reveal_with_fuel(PetPackage::first_renderable, 2);
    assert(crate::package::fallback_candidates(Behavior::CodingWithMusic)[0] == Behavior::CodingWithMusic);
    assert(package.spec_animation_with_idle_fallback(Behavior::CodingWithMusic) == Some((Behavior::CodingWithMusic, d)));
}

} // verus!
