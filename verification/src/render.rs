//! What the pet window shows for a context: labels, accessories, the clip and
//! its frame timing, and the timing of one-shot interaction animations.

use vstd::prelude::*;

use crate::animation::{clip_number, spec_for_runtime, AnimationClip, AnimationSpec};
use crate::behavior::Behavior;
use crate::context::DesktopContext;
use crate::package::{InteractionAnimationKey, PetPackage};

verus! {

/// Whether the package can render the interaction animation `key`.
pub fn has_interaction_animation(package: &PetPackage, key: InteractionAnimationKey) -> (has: bool)
    ensures
        has == (package.spec_interaction(key) matches Some(d) && package.spec_renderable(d)),
{
    package.has_renderable_interaction(key)
}

/// Whether the package has a renderable animation of its own for `behavior`,
/// without falling back to Idle.
pub fn has_dedicated_animation(package: &PetPackage, behavior: Behavior) -> (has: bool)
    ensures
        has == (package.spec_animation(behavior) matches Some(d) && package.spec_renderable(d)),
{
    match package.animation(behavior) {
        Some(definition) => !package.is_sprite() || definition.frames.len() > 0,
        None => false,
    }
}

/// Counter that invalidates pending timers: each restart hands out a new
/// token, and a timer acts only while its token is current.
#[derive(Debug, Clone, Copy, PartialEq, Eq, Structural)]
pub struct Generation {
    pub value: u64,
}

pub open spec fn next_generation(value: u64) -> u64 {
    if value == u64::MAX {
        0
    } else {
        (value + 1) as u64
    }
}

impl Generation {
    pub fn new() -> (g: Generation)
        ensures
            g.value == 0,
    {
        Generation { value: 0 }
    }

    /// Starts a new generation and returns its token; timers holding an
    /// older token do nothing.
    pub fn advance(&mut self) -> (token: u64)
        ensures
            final(self).value == next_generation(old(self).value),
            token == final(self).value,
    {
        self.value = self.value.wrapping_add(1);
        self.value
    }

    pub fn is_current(&self, token: u64) -> (current: bool)
        ensures
            current == (token == self.value),
    {
        token == self.value
    }
}

/// Cancels any interaction animation in flight: the generation moves on.
pub fn cancel_interaction_animation(generation: &mut Generation)
    ensures
        final(generation).value == next_generation(old(generation).value),
        final(generation).value != old(generation).value,
{
    generation.advance();
}

/// Duration of interaction frame `frame`, 160 ms when the package gives none.
pub open spec fn interaction_frame_ms(d: crate::package::AnimationDefinition, frame: int) -> u64 {
    match d.spec_frame_duration_ms(frame) {
        Some(ms) => ms,
        None => 160,
    }
}

/// Milliseconds from the start of an interaction animation to frame `k`.
pub open spec fn frame_start(d: crate::package::AnimationDefinition, k: int) -> int
    decreases k,
{
    if k <= 0 {
        0
    } else {
        frame_start(d, k - 1) + interaction_frame_ms(d, k - 1)
    }
}

/// When each frame of the interaction animation `key` starts, counted in
/// milliseconds from the first frame; the last entry is when the animation
/// ends. None when the package cannot play that interaction: only sprite
/// packages draw interaction frames, and only from an animation with frames.
pub open spec fn spec_interaction_schedule(
    package: PetPackage,
    key: InteractionAnimationKey,
) -> Option<Seq<int>> {
    match package.spec_interaction(key) {
        Some(d) => if package.spec_is_sprite() && package.spec_renderable(d) && d.frames@.len() > 0 {
            Some(Seq::new((d.frames@.len() + 1) as nat, |k: int| frame_start(d, k)))
        } else {
            None
        },
        None => None,
    }
}

proof fn lemma_frame_start_bound(d: crate::package::AnimationDefinition, k: int)
    requires
        k >= 0,
    ensures
        0 <= frame_start(d, k) <= k * 0xFFFF_FFFF_FFFF_FFFF,
    decreases k,
{
    if k > 0 {
        lemma_frame_start_bound(d, k - 1);
    }
}

pub fn interaction_schedule(
    package: &PetPackage,
    key: InteractionAnimationKey,
) -> (schedule: Option<Vec<u128>>)
    ensures
        match spec_interaction_schedule(*package, key) {
            Some(s) => schedule matches Some(v) && v@.len() == s.len() && forall|k: int| 0 <= k < s.len() ==> v@[k] == s[k],
            None => schedule is None,
        },
{
    let definition = match package.interaction_animation(key) {
        Some(d) => d,
        None => return None,
    };
    if !package.has_renderable_interaction(key) || definition.frames.len() == 0 {
        return None;
    }
    if !package.is_sprite() {
        return None;
    }
    let n = definition.frames.len();
    let mut starts: Vec<u128> = Vec::new();
    starts.push(0);
    let mut elapsed: u128 = 0;
    let mut frame: usize = 0;
    while frame < n
        invariant
            n == definition.frames@.len(),
            frame <= n,
            starts@.len() == frame + 1,
            elapsed == frame_start(*definition, frame as int),
            forall|k: int| 0 <= k <= frame ==> starts@[k] == frame_start(*definition, k),
        decreases n - frame,
    {
        let ms = match definition.frame_duration_ms(frame) {
            Some(ms) => ms,
            None => 160,
        };
        proof {
            lemma_frame_start_bound(*definition, frame as int);
            assert((frame as int) * 0xFFFF_FFFF_FFFF_FFFF + 0xFFFF_FFFF_FFFF_FFFF < 0x1_0000_0000_0000_0000_0000_0000_0000_0000) by (nonlinear_arith)
                requires frame < 0x1_0000_0000_0000_0000;
        }
        elapsed = elapsed + ms as u128;
        starts.push(elapsed);
        frame = frame + 1;
    }
    Some(starts)
}

/// What a frame tick of the window does: the behavior and frame to draw, and
/// the interval to use next when the animation gives one.
pub struct AnimationTick {
    pub behavior: Behavior,
    pub frame: usize,
    pub next_interval_ms: Option<i32>,
}

pub open spec fn cap_i32(ms: u64) -> i32 {
    if ms > 0x7FFF_FFFF {
        0x7FFF_FFFFi32
    } else {
        ms as i32
    }
}

/// A tick for clip number `clip` at frame `frame`; None for unknown clips.
pub fn animation_tick(package: &PetPackage, clip: i32, frame: i32) -> (tick: Option<AnimationTick>)
    ensures
        match tick {
            Some(t) => 0 <= clip <= 5 && t.frame == (if frame < 0 {
                0
            } else {
                frame as int
            }) && exists|c: AnimationClip| clip_number(c) == clip && t.behavior
                == crate::animation::clip_behavior(c) && t.next_interval_ms == match package.spec_animation_with_idle_fallback(t.behavior) {
                Some((_, d)) => match d.spec_frame_duration_ms(t.frame as int) {
                    Some(ms) => Some(cap_i32(ms)),
                    None => None,
                },
                None => None,
            },
            None => !(0 <= clip <= 5),
        },
{
    let c = match AnimationClip::from_i32(clip) {
        Some(c) => c,
        None => return None,
    };
    let behavior = c.behavior();
    let frame: usize = if frame < 0 {
        0
    } else {
        frame as usize
    };
    let next_interval_ms = match package.animation_frame_duration_ms(behavior, frame) {
        Some(ms) => Some(if ms > 0x7FFF_FFFF {
            0x7FFF_FFFFi32
        } else {
            ms as i32
        }),
        None => None,
    };
    Some(AnimationTick { behavior, frame, next_interval_ms })
}

/// The label shown for a behavior.
pub open spec fn activity_label(behavior: Behavior) -> Seq<char> {
    match behavior {
        Behavior::Idle => "Idle"@,
        Behavior::Coding => "Coding"@,
        Behavior::ListeningMusic => "Listening"@,
        Behavior::CodingWithMusic => "Coding + Music"@,
        Behavior::Drowsy => "Drowsy"@,
        Behavior::Sleeping => "Sleeping"@,
    }
}

/// The animation settings the window takes for a context.
#[derive(Debug, Clone, Copy, PartialEq, Eq, Structural)]
pub struct AnimationUpdate {
    pub clip: i32,
    pub frame: i32,
    pub frame_count: i32,
    pub interval_ms: i32,
    pub running: bool,
    pub looping: bool,
}

/// Everything the window shows for a context and behavior.
pub struct ContextView {
    pub activity_label: String,
    pub is_drowsy: bool,
    pub is_sleeping: bool,
    pub show_laptop: bool,
    pub show_headphones: bool,
    pub foreground_label: String,
    /// None while an interaction animation owns the sprite.
    pub animation: Option<AnimationUpdate>,
}

/// The animation state after a context change: a new clip restarts at frame
/// 0, a frame past the end restarts at 0, and a per-frame duration of the
/// current frame wins over the clip's uniform interval.
pub open spec fn spec_animation_update(
    package: PetPackage,
    behavior: Behavior,
    context: DesktopContext,
    current_clip: i32,
    current_frame: i32,
) -> AnimationUpdate {
    let animation = spec_for_runtime(
        behavior,
        package,
        context.typing_active,
        context.music_motion_active,
        context.drowsy_motion_active,
    );
    let clip = clip_number(animation.clip);
    let frame0: int = if clip != current_clip {
        0
    } else if current_frame < 0 {
        0
    } else {
        current_frame as int
    };
    let limit: int = if animation.frame_count < 1 {
        1
    } else {
        animation.frame_count as int
    };
    let frame = if frame0 >= limit {
        0
    } else {
        frame0
    };
    let interval = match package.spec_animation_with_idle_fallback(behavior) {
        Some((_, d)) => match d.spec_frame_duration_ms(frame) {
            Some(ms) => cap_i32(ms),
            None => animation.spec_interval_ms(),
        },
        None => animation.spec_interval_ms(),
    };
    AnimationUpdate {
        clip,
        frame: frame as i32,
        frame_count: animation.frame_count,
        interval_ms: interval,
        running: animation.spec_running(),
        looping: animation.looping,
    }
}

/// What the pet window shows for `context` resolved to `behavior`, given the
/// clip and frame it shows now and whether an interaction animation plays.
pub fn apply_context(
    package: &PetPackage,
    context: &DesktopContext,
    behavior: Behavior,
    interaction_active: bool,
    current_clip: i32,
    current_frame: i32,
) -> (view: ContextView)
    ensures
        view.activity_label@ == activity_label(behavior),
        view.is_drowsy == (behavior == Behavior::Drowsy),
        view.is_sleeping == (behavior == Behavior::Sleeping),
        view.show_laptop == (behavior == Behavior::Coding || behavior == Behavior::CodingWithMusic),
        view.show_headphones == (behavior == Behavior::ListeningMusic || behavior
            == Behavior::CodingWithMusic),
        view.foreground_label@ == match context.foreground_process {
            Some(p) => p@,
            None => "Desktop"@,
        },
        interaction_active ==> view.animation is None,
        !interaction_active ==> view.animation == Some(
            spec_animation_update(*package, behavior, *context, current_clip, current_frame),
        ),
{
    let activity_label = match behavior {
        Behavior::Idle => String::from_str("Idle"),
        Behavior::Coding => String::from_str("Coding"),
        Behavior::ListeningMusic => String::from_str("Listening"),
        Behavior::CodingWithMusic => String::from_str("Coding + Music"),
        Behavior::Drowsy => String::from_str("Drowsy"),
        Behavior::Sleeping => String::from_str("Sleeping"),
    };
    let foreground_label = match &context.foreground_process {
        Some(p) => p.clone(),
        None => String::from_str("Desktop"),
    };
    let is_drowsy = behavior == Behavior::Drowsy;
    let is_sleeping = behavior == Behavior::Sleeping;
    let show_laptop = behavior == Behavior::Coding || behavior == Behavior::CodingWithMusic;
    let show_headphones = behavior == Behavior::ListeningMusic || behavior == Behavior::CodingWithMusic;
    if interaction_active {
        return ContextView {
            activity_label,
            is_drowsy,
            is_sleeping,
            show_laptop,
            show_headphones,
            foreground_label,
            animation: None,
        };
    }
    let animation = AnimationSpec::for_runtime(
        behavior,
        package,
        context.typing_active,
        context.music_motion_active,
        context.drowsy_motion_active,
    );
    let clip = animation.clip.as_i32();
    let frame0: i32 = if clip != current_clip {
        0
    } else if current_frame < 0 {
        0
    } else {
        current_frame
    };
    let limit: i32 = if animation.frame_count < 1 {
        1
    } else {
        animation.frame_count
    };
    let frame: i32 = if frame0 >= limit {
        0
    } else {
        frame0
    };
    let interval_ms = match package.animation_frame_duration_ms(behavior, frame as usize) {
        Some(ms) => if ms > 0x7FFF_FFFF {
            0x7FFF_FFFFi32
        } else {
            ms as i32
        },
        None => animation.interval_ms(),
    };
    ContextView {
        activity_label,
        is_drowsy,
        is_sleeping,
        show_laptop,
        show_headphones,
        foreground_label,
        animation: Some(
            AnimationUpdate {
                clip,
                frame,
                frame_count: animation.frame_count,
                interval_ms,
                running: animation.running(),
                looping: animation.looping,
            },
        ),
    }
}

/// What a window region was computed from: the sprite file and its size
/// before and after scaling.
#[derive(Debug, Clone)]
pub struct AlphaRegionKey {
    pub path: String,
    pub source_width: u32,
    pub source_height: u32,
    pub target_width: u32,
    pub target_height: u32,
}

pub open spec fn same_region_key(a: AlphaRegionKey, b: AlphaRegionKey) -> bool {
    &&& a.path@ == b.path@
    &&& a.source_width == b.source_width
    &&& a.source_height == b.source_height
    &&& a.target_width == b.target_width
    &&& a.target_height == b.target_height
}

/// Remembers the key of the window region last applied, so that the region
/// is only rebuilt when the frame or its size changes.
pub struct AlphaRegionCache {
    pub current: Option<AlphaRegionKey>,
}

impl AlphaRegionCache {
    pub fn new() -> (cache: AlphaRegionCache)
        ensures
            cache.current is None,
    {
        AlphaRegionCache { current: None }
    }

    /// Whether the region must be rebuilt for `key`; the key is remembered.
    pub fn should_update(&mut self, key: AlphaRegionKey) -> (update: bool)
        ensures
            update == !(old(self).current matches Some(c) && same_region_key(c, key)),
            final(self).current matches Some(c) && same_region_key(c, key),
    {
        let same = match &self.current {
            Some(c) => c.path == key.path && c.source_width == key.source_width
                && c.source_height == key.source_height && c.target_width == key.target_width
                && c.target_height == key.target_height,
            None => false,
        };
        if !same {
            self.current = Some(key);
        }
        !same
    }

    /// Forgets the region, as when the placeholder or a new scale takes over.
    pub fn clear(&mut self)
        ensures
            final(self).current is None,
    {
        self.current = None;
    }
}

/// The size check a composition surface passes before any device is made:
/// both sides must be non-zero.
pub fn check_surface_size(width: u32, height: u32) -> (checked: Result<(), String>)
    ensures
        checked is Ok <==> (width > 0 && height > 0),
        checked matches Err(message) ==> message@ == "DirectComposition surface size must be non-zero"@,
{
    if width == 0 || height == 0 {
        return Err(String::from_str("DirectComposition surface size must be non-zero"));
    }
    Ok(())
}

} // verus!
