//! Pet packages: the manifest model, its animation tables and the lookups
//! that the renderers make in them.

use vstd::prelude::*;

use crate::behavior::Behavior;
use crate::paths::{join_path, spec_join_path};
use crate::preferences::DEFAULT_SCALE_BITS;

verus! {

/// The only manifest schema version this build understands.
pub const SUPPORTED_SCHEMA_VERSION: u32 = 1;

#[derive(Debug, Clone, Copy, PartialEq, Eq, Structural)]
pub enum RendererKind {
    Placeholder,
    Sprite,
    Live2d,
    Spine,
    Model3d,
}

/// Animation slots, in manifest order.
#[derive(Debug, Clone, Copy, PartialEq, Eq, Structural)]
pub enum AnimationKey {
    Idle,
    Coding,
    ListeningMusic,
    CodingWithMusic,
    Drowsy,
    Sleeping,
}

/// One-shot interaction animation slots, in manifest order.
#[derive(Debug, Clone, Copy, PartialEq, Eq, Structural)]
pub enum InteractionAnimationKey {
    Petting,
    Stretch,
    LookAtCat,
    Daydream,
}

pub open spec fn animation_key_of(behavior: Behavior) -> AnimationKey {
    match behavior {
        Behavior::Idle => AnimationKey::Idle,
        Behavior::Coding => AnimationKey::Coding,
        Behavior::ListeningMusic => AnimationKey::ListeningMusic,
        Behavior::CodingWithMusic => AnimationKey::CodingWithMusic,
        Behavior::Drowsy => AnimationKey::Drowsy,
        Behavior::Sleeping => AnimationKey::Sleeping,
    }
}

impl From<Behavior> for AnimationKey {
    fn from(value: Behavior) -> (key: AnimationKey) {
        match value {
            Behavior::Idle => AnimationKey::Idle,
            Behavior::Coding => AnimationKey::Coding,
            Behavior::ListeningMusic => AnimationKey::ListeningMusic,
            Behavior::CodingWithMusic => AnimationKey::CodingWithMusic,
            Behavior::Drowsy => AnimationKey::Drowsy,
            Behavior::Sleeping => AnimationKey::Sleeping,
        }
    }
}

impl vstd::std_specs::convert::FromSpecImpl<Behavior> for AnimationKey {
    open spec fn obeys_from_spec() -> bool {
        true
    }

    open spec fn from_spec(v: Behavior) -> AnimationKey {
        animation_key_of(v)
    }
}

/// Frames and timing of one animation.
#[derive(Debug, Clone)]
pub struct AnimationDefinition {
    pub frames: Vec<String>,
    pub frame_count: Option<u32>,
    pub interval_ms: Option<u64>,
    pub frame_durations_ms: Vec<u64>,
    pub looping: bool,
}

impl AnimationDefinition {
    /// Real frames win over the declared count; a declared count of zero or
    /// none counts as a single frame.
    pub open spec fn spec_effective_frame_count(&self) -> nat {
        if self.frames@.len() == 0 {
            match self.frame_count {
                Some(count) => if count == 0 {
                    1
                } else {
                    count as nat
                },
                None => 1,
            }
        } else {
            self.frames@.len()
        }
    }

    /// A per-frame duration overrides the uniform interval; zero means none.
    pub open spec fn spec_frame_duration_ms(&self, frame: int) -> Option<u64> {
        let chosen = if 0 <= frame < self.frame_durations_ms@.len() {
            Some(self.frame_durations_ms@[frame])
        } else {
            self.interval_ms
        };
        match chosen {
            Some(ms) => if ms > 0 {
                Some(ms)
            } else {
                None
            },
            None => None,
        }
    }

    pub fn effective_frame_count(&self) -> (count: usize)
        ensures
            count == self.spec_effective_frame_count(),
    {
        if self.frames.len() == 0 {
            match self.frame_count {
                Some(count) => if count == 0 {
                    1
                } else {
                    count as usize
                },
                None => 1,
            }
        } else {
            self.frames.len()
        }
    }

    pub fn frame_duration_ms(&self, frame: usize) -> (duration: Option<u64>)
        ensures
            duration == self.spec_frame_duration_ms(frame as int),
    {
        let chosen = if frame < self.frame_durations_ms.len() {
            Some(self.frame_durations_ms[frame])
        } else {
            self.interval_ms
        };
        match chosen {
            Some(ms) => if ms > 0 {
                Some(ms)
            } else {
                None
            },
            None => None,
        }
    }
}

/// Sprite rendering options. `scale_bits` holds the IEEE-754 binary32 bits of
/// the scale factor.
#[derive(Debug, Clone, Copy)]
pub struct SpriteSettings {
    pub scale_bits: u32,
    pub alpha_threshold: u8,
}

impl SpriteSettings {
    /// Scale 1.0 and an alpha threshold of 8.
    pub fn default_settings() -> (settings: SpriteSettings)
        ensures
            settings.scale_bits == DEFAULT_SCALE_BITS,
            settings.alpha_threshold == 8,
    {
        SpriteSettings { scale_bits: DEFAULT_SCALE_BITS, alpha_threshold: 8 }
    }
}

/// Options of the (archived) 3D renderer. `scale_bits` holds binary32 bits;
/// the three tables are name pairs in key order.
#[derive(Debug, Clone)]
pub struct Model3dSettings {
    pub source: String,
    pub scale_bits: u32,
    pub motions: Vec<(String, String)>,
    pub expressions: Vec<(String, String)>,
    pub anchors: Vec<(String, String)>,
}

/// Options of the Spine renderer. `scale_bits` holds binary32 bits.
#[derive(Debug, Clone)]
pub struct SpineSettings {
    pub skeleton: String,
    pub atlas: String,
    pub scale_bits: u32,
    pub default_skin: String,
}

/// The manifest of a pet package. The animation tables stand for maps from
/// key to definition: built with [`insert_animation`] and
/// [`insert_interaction`] they hold at most one definition per key, in key
/// order (`spec_tables_well_formed`); lookups take the first entry with a key.
#[derive(Debug, Clone)]
pub struct PetManifest {
    pub schema_version: u32,
    pub id: String,
    pub name: String,
    pub display_name: Option<String>,
    pub version: String,
    pub author: String,
    pub renderer: RendererKind,
    pub sprite: SpriteSettings,
    pub model3d: Option<Model3dSettings>,
    pub spine: Option<SpineSettings>,
    pub license: Option<String>,
    pub animations: Vec<(AnimationKey, AnimationDefinition)>,
    pub interactions: Vec<(InteractionAnimationKey, AnimationDefinition)>,
}

/// The value behind an optional reference.
pub open spec fn deref_option<T>(o: Option<&T>) -> Option<T> {
    match o {
        Some(r) => Some(*r),
        None => None,
    }
}

/// The first definition stored under `key`.
pub open spec fn find_animation(
    entries: Seq<(AnimationKey, AnimationDefinition)>,
    key: AnimationKey,
) -> Option<AnimationDefinition>
    decreases entries.len(),
{
    if entries.len() == 0 {
        None
    } else if entries[0].0 == key {
        Some(entries[0].1)
    } else {
        find_animation(entries.drop_first(), key)
    }
}

/// The first definition stored under `key`.
pub open spec fn find_interaction(
    entries: Seq<(InteractionAnimationKey, AnimationDefinition)>,
    key: InteractionAnimationKey,
) -> Option<AnimationDefinition>
    decreases entries.len(),
{
    if entries.len() == 0 {
        None
    } else if entries[0].0 == key {
        Some(entries[0].1)
    } else {
        find_interaction(entries.drop_first(), key)
    }
}

fn find_animation_exec(
    entries: &Vec<(AnimationKey, AnimationDefinition)>,
    key: AnimationKey,
) -> (found: Option<&AnimationDefinition>)
    ensures
        deref_option(found) == find_animation(entries@, key),
{
    let mut i: usize = 0;
    assert(entries@.subrange(0, entries@.len() as int) =~= entries@);
    while i < entries.len()
        invariant
            i <= entries@.len(),
            find_animation(entries@, key) == find_animation(entries@.subrange(i as int, entries@.len() as int), key),
        decreases entries.len() - i,
    {
        let ghost rest = entries@.subrange(i as int, entries@.len() as int);
        assert(rest.drop_first() =~= entries@.subrange(i + 1, entries@.len() as int));
        if entries[i].0 == key {
            return Some(&entries[i].1);
        }
        i = i + 1;
    }
    None
}

fn find_interaction_exec(
    entries: &Vec<(InteractionAnimationKey, AnimationDefinition)>,
    key: InteractionAnimationKey,
) -> (found: Option<&AnimationDefinition>)
    ensures
        deref_option(found) == find_interaction(entries@, key),
{
    let mut i: usize = 0;
    assert(entries@.subrange(0, entries@.len() as int) =~= entries@);
    while i < entries.len()
        invariant
            i <= entries@.len(),
            find_interaction(entries@, key) == find_interaction(entries@.subrange(i as int, entries@.len() as int), key),
        decreases entries.len() - i,
    {
        let ghost rest = entries@.subrange(i as int, entries@.len() as int);
        assert(rest.drop_first() =~= entries@.subrange(i + 1, entries@.len() as int));
        if entries[i].0 == key {
            return Some(&entries[i].1);
        }
        i = i + 1;
    }
    None
}

/// The behaviors whose animations may stand in for `behavior`, best first.
pub open spec fn fallback_candidates(behavior: Behavior) -> Seq<Behavior> {
    match behavior {
        Behavior::CodingWithMusic => seq![
            Behavior::CodingWithMusic,
            Behavior::Coding,
            Behavior::ListeningMusic,
            Behavior::Idle,
        ],
        Behavior::Idle => seq![Behavior::Idle],
        _ => seq![behavior, Behavior::Idle],
    }
}

/// The frame at index `frame`, or the first frame when the index is past the end.
pub open spec fn frame_or_first(frames: Seq<String>, frame: int) -> Option<Seq<char>> {
    if 0 <= frame < frames.len() {
        Some(frames[frame]@)
    } else if frames.len() > 0 {
        Some(frames[0]@)
    } else {
        None
    }
}

/// A loaded pet package: its directory and its manifest.
#[derive(Debug, Clone)]
pub struct PetPackage {
    root: String,
    manifest: PetManifest,
}

impl PetPackage {
    pub closed spec fn spec_root(&self) -> Seq<char> {
        self.root@
    }

    pub closed spec fn spec_manifest(&self) -> PetManifest {
        self.manifest
    }

    pub open spec fn spec_is_sprite(&self) -> bool {
        self.spec_manifest().renderer == RendererKind::Sprite
    }

    /// Sprite packages can only draw animations that have frame files.
    pub open spec fn spec_renderable(&self, definition: AnimationDefinition) -> bool {
        !self.spec_is_sprite() || definition.frames@.len() > 0
    }

    pub open spec fn spec_animation(&self, behavior: Behavior) -> Option<AnimationDefinition> {
        find_animation(self.spec_manifest().animations@, animation_key_of(behavior))
    }

    pub open spec fn spec_interaction(
        &self,
        key: InteractionAnimationKey,
    ) -> Option<AnimationDefinition> {
        find_interaction(self.spec_manifest().interactions@, key)
    }

    /// The first candidate with a renderable animation.
    pub open spec fn first_renderable(
        &self,
        candidates: Seq<Behavior>,
    ) -> Option<(Behavior, AnimationDefinition)>
        decreases candidates.len(),
    {
        if candidates.len() == 0 {
            None
        } else {
            match self.spec_animation(candidates[0]) {
                Some(definition) => if self.spec_renderable(definition) {
                    Some((candidates[0], definition))
                } else {
                    self.first_renderable(candidates.drop_first())
                },
                None => self.first_renderable(candidates.drop_first()),
            }
        }
    }

    pub open spec fn spec_animation_with_idle_fallback(
        &self,
        behavior: Behavior,
    ) -> Option<(Behavior, AnimationDefinition)> {
        self.first_renderable(fallback_candidates(behavior))
    }

    pub open spec fn spec_sprite_frame_path(
        &self,
        behavior: Behavior,
        frame: int,
    ) -> Option<Seq<char>> {
        if !self.spec_is_sprite() {
            None
        } else {
            match self.spec_animation_with_idle_fallback(behavior) {
                Some((_, definition)) => match frame_or_first(definition.frames@, frame) {
                    Some(relative) => Some(spec_join_path(self.spec_root(), relative)),
                    None => None,
                },
                None => None,
            }
        }
    }

    pub open spec fn spec_interaction_frame_path(
        &self,
        key: InteractionAnimationKey,
        frame: int,
    ) -> Option<Seq<char>> {
        if !self.spec_is_sprite() {
            None
        } else {
            match self.spec_interaction(key) {
                Some(definition) => if !self.spec_renderable(definition) {
                    None
                } else {
                    match frame_or_first(definition.frames@, frame) {
                        Some(relative) => Some(spec_join_path(self.spec_root(), relative)),
                        None => None,
                    }
                },
                None => None,
            }
        }
    }

    /// A package made of a directory and a manifest, as they stand.
    pub fn new(root: String, manifest: PetManifest) -> (package: PetPackage)
        ensures
            package.spec_root() == root@,
            package.spec_manifest() == manifest,
    {
        PetPackage { root, manifest }
    }

    pub fn manifest(&self) -> (manifest: &PetManifest)
        ensures
            *manifest == self.spec_manifest(),
    {
        &self.manifest
    }

    pub fn root(&self) -> (root: &str)
        ensures
            root@ == self.spec_root(),
    {
        self.root.as_str()
    }

    pub fn animation(&self, behavior: Behavior) -> (definition: Option<&AnimationDefinition>)
        ensures
            deref_option(definition) == self.spec_animation(behavior),
    {
        find_animation_exec(&self.manifest.animations, AnimationKey::from(behavior))
    }

    pub fn interaction_animation(
        &self,
        key: InteractionAnimationKey,
    ) -> (definition: Option<&AnimationDefinition>)
        ensures
            deref_option(definition) == self.spec_interaction(key),
    {
        find_interaction_exec(&self.manifest.interactions, key)
    }

    fn animation_is_renderable(&self, definition: &AnimationDefinition) -> (renderable: bool)
        ensures
            renderable == self.spec_renderable(*definition),
    {
        !self.is_sprite() || definition.frames.len() > 0
    }

    pub fn has_renderable_interaction(&self, key: InteractionAnimationKey) -> (renderable: bool)
        ensures
            renderable == (self.spec_interaction(key) matches Some(d) && self.spec_renderable(d)),
    {
        match self.interaction_animation(key) {
            Some(definition) => self.animation_is_renderable(definition),
            None => false,
        }
    }

    pub fn animation_with_idle_fallback(
        &self,
        behavior: Behavior,
    ) -> (found: Option<(Behavior, &AnimationDefinition)>)
        ensures
            match found {
                Some((b, d)) => self.spec_animation_with_idle_fallback(behavior) == Some((b, *d)),
                None => self.spec_animation_with_idle_fallback(behavior) is None,
            },
    {
        let candidates: Vec<Behavior> = match behavior {
            Behavior::CodingWithMusic => vec![
                Behavior::CodingWithMusic,
                Behavior::Coding,
                Behavior::ListeningMusic,
                Behavior::Idle,
            ],
            Behavior::Idle => vec![Behavior::Idle],
            _ => vec![behavior, Behavior::Idle],
        };
        assert(candidates@ =~= fallback_candidates(behavior));
        let mut i: usize = 0;
        assert(candidates@.subrange(0, candidates@.len() as int) =~= candidates@);
        while i < candidates.len()
            invariant
                i <= candidates@.len(),
                candidates@ == fallback_candidates(behavior),
                self.first_renderable(candidates@) == self.first_renderable(candidates@.subrange(i as int, candidates@.len() as int)),
            decreases candidates.len() - i,
        {
            let ghost rest = candidates@.subrange(i as int, candidates@.len() as int);
            assert(rest.drop_first() =~= candidates@.subrange(i + 1, candidates@.len() as int));
            let candidate = candidates[i];
            match self.animation(candidate) {
                Some(definition) => {
                    if self.animation_is_renderable(definition) {
                        return Some((candidate, definition));
                    }
                },
                None => {},
            }
            i = i + 1;
        }
        None
    }

    pub fn is_sprite(&self) -> (sprite: bool)
        ensures
            sprite == self.spec_is_sprite(),
    {
        match self.manifest.renderer {
            RendererKind::Sprite => true,
            _ => false,
        }
    }

    pub fn sprite_settings(&self) -> (settings: &SpriteSettings)
        ensures
            *settings == self.spec_manifest().sprite,
    {
        &self.manifest.sprite
    }

    pub fn is_spine(&self) -> (spine: bool)
        ensures
            spine == (self.spec_manifest().renderer == RendererKind::Spine),
    {
        match self.manifest.renderer {
            RendererKind::Spine => true,
            _ => false,
        }
    }

    pub fn spine_settings(&self) -> (settings: Option<&SpineSettings>)
        ensures
            deref_option(settings) == self.spec_manifest().spine,
    {
        match &self.manifest.spine {
            Some(settings) => Some(settings),
            None => None,
        }
    }

    pub fn spine_skeleton_path(&self) -> (path: Option<String>)
        ensures
            match self.spec_manifest().spine {
                Some(settings) => path matches Some(p) && p@ == spec_join_path(self.spec_root(), settings.skeleton@),
                None => path is None,
            },
    {
        match &self.manifest.spine {
            Some(settings) => Some(join_path(self.root.as_str(), settings.skeleton.as_str())),
            None => None,
        }
    }

    pub fn spine_atlas_path(&self) -> (path: Option<String>)
        ensures
            match self.spec_manifest().spine {
                Some(settings) => path matches Some(p) && p@ == spec_join_path(self.spec_root(), settings.atlas@),
                None => path is None,
            },
    {
        match &self.manifest.spine {
            Some(settings) => Some(join_path(self.root.as_str(), settings.atlas.as_str())),
            None => None,
        }
    }

    pub fn model3d_settings(&self) -> (settings: Option<&Model3dSettings>)
        ensures
            deref_option(settings) == self.spec_manifest().model3d,
    {
        match &self.manifest.model3d {
            Some(settings) => Some(settings),
            None => None,
        }
    }

    pub fn model3d_path(&self) -> (path: Option<String>)
        ensures
            match self.spec_manifest().model3d {
                Some(settings) => path matches Some(p) && p@ == spec_join_path(self.spec_root(), settings.source@),
                None => path is None,
            },
    {
        match &self.manifest.model3d {
            Some(settings) => Some(join_path(self.root.as_str(), settings.source.as_str())),
            None => None,
        }
    }

    fn frame_path(&self, definition: &AnimationDefinition, frame: usize) -> (path: Option<String>)
        ensures
            match frame_or_first(definition.frames@, frame as int) {
                Some(relative) => path matches Some(p) && p@ == spec_join_path(self.spec_root(), relative),
                None => path is None,
            },
    {
        if frame < definition.frames.len() {
            Some(join_path(self.root.as_str(), definition.frames[frame].as_str()))
        } else if definition.frames.len() > 0 {
            Some(join_path(self.root.as_str(), definition.frames[0].as_str()))
        } else {
            None
        }
    }

    /// The file of sprite frame `frame` of the animation that `behavior` falls back to.
    pub fn sprite_frame_path(&self, behavior: Behavior, frame: usize) -> (path: Option<String>)
        ensures
            match self.spec_sprite_frame_path(behavior, frame as int) {
                Some(p) => path matches Some(q) && q@ == p,
                None => path is None,
            },
    {
        if !self.is_sprite() {
            return None;
        }
        match self.animation_with_idle_fallback(behavior) {
            Some((_, definition)) => self.frame_path(definition, frame),
            None => None,
        }
    }

    pub fn interaction_frame_path(
        &self,
        key: InteractionAnimationKey,
        frame: usize,
    ) -> (path: Option<String>)
        ensures
            match self.spec_interaction_frame_path(key, frame as int) {
                Some(p) => path matches Some(q) && q@ == p,
                None => path is None,
            },
    {
        if !self.is_sprite() {
            return None;
        }
        match self.interaction_animation(key) {
            Some(definition) => {
                if !self.animation_is_renderable(definition) {
                    return None;
                }
                self.frame_path(definition, frame)
            },
            None => None,
        }
    }

    pub fn interaction_frame_duration_ms(
        &self,
        key: InteractionAnimationKey,
        frame: usize,
    ) -> (duration: Option<u64>)
        ensures
            duration == match self.spec_interaction(key) {
                Some(definition) => definition.spec_frame_duration_ms(frame as int),
                None => None,
            },
    {
        match self.interaction_animation(key) {
            Some(definition) => definition.frame_duration_ms(frame),
            None => None,
        }
    }

    pub fn animation_frame_duration_ms(
        &self,
        behavior: Behavior,
        frame: usize,
    ) -> (duration: Option<u64>)
        ensures
            duration == match self.spec_animation_with_idle_fallback(behavior) {
                Some((_, definition)) => definition.spec_frame_duration_ms(frame as int),
                None => None,
            },
    {
        match self.animation_with_idle_fallback(behavior) {
            Some((_, definition)) => definition.frame_duration_ms(frame),
            None => None,
        }
    }
}

/// Frame count and frame interval of each built-in placeholder animation.
pub open spec fn placeholder_timing(key: AnimationKey) -> (u32, Option<u64>) {
    match key {
        AnimationKey::Idle => (1, None),
        AnimationKey::Coding => (2, Some(160)),
        AnimationKey::ListeningMusic => (4, Some(240)),
        AnimationKey::CodingWithMusic => (4, Some(160)),
        AnimationKey::Drowsy => (2, Some(900)),
        AnimationKey::Sleeping => (2, Some(1500)),
    }
}

pub open spec fn animation_key_at(i: int) -> AnimationKey {
    if i == 0 {
        AnimationKey::Idle
    } else if i == 1 {
        AnimationKey::Coding
    } else if i == 2 {
        AnimationKey::ListeningMusic
    } else if i == 3 {
        AnimationKey::CodingWithMusic
    } else if i == 4 {
        AnimationKey::Drowsy
    } else {
        AnimationKey::Sleeping
    }
}

/// The package of the built-in placeholder: a frameless definition per
/// behavior with the placeholder's timing, and no interactions.
pub open spec fn is_builtin_placeholder(p: PetPackage) -> bool {
    let m = p.spec_manifest();
    &&& p.spec_root().len() == 0
    &&& m.schema_version == SUPPORTED_SCHEMA_VERSION
    &&& m.id@ == "sena.builtin"@
    &&& m.name@ == "Sena"@
    &&& m.display_name matches Some(d) && d@ == "星奈"@
    &&& m.version@ == "0.1.0"@
    &&& m.author@ == "Sena Project"@
    &&& m.renderer == RendererKind::Placeholder
    &&& m.sprite.scale_bits == DEFAULT_SCALE_BITS
    &&& m.sprite.alpha_threshold == 8
    &&& m.model3d is None
    &&& m.spine is None
    &&& m.license matches Some(l) && l@ == "Apache-2.0"@
    &&& m.interactions@.len() == 0
    &&& m.animations@.len() == 6
    &&& forall|i: int| 0 <= i < 6 ==> {
        let (key, d) = #[trigger] m.animations@[i];
        &&& key == animation_key_at(i)
        &&& d.frames@.len() == 0
        &&& d.frame_count == Some(placeholder_timing(key).0)
        &&& d.interval_ms == placeholder_timing(key).1
        &&& d.frame_durations_ms@.len() == 0
        &&& d.looping
    }
}

fn placeholder_definition(frame_count: u32, interval_ms: Option<u64>) -> (d: AnimationDefinition)
    ensures
        d.frames@.len() == 0,
        d.frame_count == Some(frame_count),
        d.interval_ms == interval_ms,
        d.frame_durations_ms@.len() == 0,
        d.looping,
{
    AnimationDefinition {
        frames: Vec::new(),
        frame_count: Some(frame_count),
        interval_ms,
        frame_durations_ms: Vec::new(),
        looping: true,
    }
}

impl PetPackage {
    /// The placeholder package used when no pet package can be loaded.
    pub fn builtin_placeholder() -> (package: PetPackage)
        ensures
            is_builtin_placeholder(package),
            package.spec_manifest().spec_tables_well_formed(),
    {
        let animations = vec![
            (AnimationKey::Idle, placeholder_definition(1, None)),
            (AnimationKey::Coding, placeholder_definition(2, Some(160))),
            (AnimationKey::ListeningMusic, placeholder_definition(4, Some(240))),
            (AnimationKey::CodingWithMusic, placeholder_definition(4, Some(160))),
            (AnimationKey::Drowsy, placeholder_definition(2, Some(900))),
            (AnimationKey::Sleeping, placeholder_definition(2, Some(1500))),
        ];
        let manifest = PetManifest {
            schema_version: SUPPORTED_SCHEMA_VERSION,
            id: String::from_str("sena.builtin"),
            name: String::from_str("Sena"),
            display_name: Some(String::from_str("星奈")),
            version: String::from_str("0.1.0"),
            author: String::from_str("Sena Project"),
            renderer: RendererKind::Placeholder,
            sprite: SpriteSettings::default_settings(),
            model3d: None,
            spine: None,
            license: Some(String::from_str("Apache-2.0")),
            animations,
            interactions: Vec::new(),
        };
        let package = PetPackage::new(String::new(), manifest);
        assert forall|i: int| 0 <= i < 6 implies {
            let (key, d) = #[trigger] package.spec_manifest().animations@[i];
            &&& key == animation_key_at(i)
            &&& d.frames@.len() == 0
            &&& d.frame_count == Some(placeholder_timing(key).0)
            &&& d.interval_ms == placeholder_timing(key).1
            &&& d.frame_durations_ms@.len() == 0
            &&& d.looping
        } by {
        }
        let ghost entries = package.spec_manifest().animations@;
        assert forall|i: int, j: int| #![trigger entries[i], entries[j]] 0 <= i < j < entries.len() implies animation_key_rank(
            entries[i].0,
        ) < animation_key_rank(entries[j].0) by {
            assert(entries[i].0 == animation_key_at(i));
            assert(entries[j].0 == animation_key_at(j));
        }
        package
    }
}

/// When the entries before `i` all have other keys, the entry at `i` is the one found.
pub proof fn lemma_find_first_key(entries: Seq<(AnimationKey, AnimationDefinition)>, i: int)
    requires
        0 <= i < entries.len(),
        forall|j: int| 0 <= j < i ==> (#[trigger] entries[j]).0 != entries[i].0,
    ensures
        find_animation(entries, entries[i].0) == Some(entries[i].1),
    decreases i,
{
    if i > 0 {
        let rest = entries.drop_first();
        assert forall|j: int| 0 <= j < i - 1 implies (#[trigger] rest[j]).0 != rest[i - 1].0 by {
            assert(rest[j] == entries[j + 1]);
        }
        lemma_find_first_key(rest, i - 1);
    }
}

/// The place of each animation key in key order.
pub open spec fn animation_key_rank(key: AnimationKey) -> int {
    match key {
        AnimationKey::Idle => 0,
        AnimationKey::Coding => 1,
        AnimationKey::ListeningMusic => 2,
        AnimationKey::CodingWithMusic => 3,
        AnimationKey::Drowsy => 4,
        AnimationKey::Sleeping => 5,
    }
}

/// The place of each interaction key in key order.
pub open spec fn interaction_key_rank(key: InteractionAnimationKey) -> int {
    match key {
        InteractionAnimationKey::Petting => 0,
        InteractionAnimationKey::Stretch => 1,
        InteractionAnimationKey::LookAtCat => 2,
        InteractionAnimationKey::Daydream => 3,
    }
}

/// An animation table as a map keeps it: at most one entry per key, in key
/// order.
pub open spec fn animations_in_key_order(entries: Seq<(AnimationKey, AnimationDefinition)>) -> bool {
    forall|i: int, j: int|
        #![trigger entries[i], entries[j]]
        0 <= i < j < entries.len() ==> animation_key_rank(entries[i].0) < animation_key_rank(entries[j].0)
}

/// An interaction table as a map keeps it: at most one entry per key, in key
/// order.
pub open spec fn interactions_in_key_order(
    entries: Seq<(InteractionAnimationKey, AnimationDefinition)>,
) -> bool {
    forall|i: int, j: int|
        #![trigger entries[i], entries[j]]
        0 <= i < j < entries.len() ==> interaction_key_rank(entries[i].0) < interaction_key_rank(
            entries[j].0,
        )
}

impl PetManifest {
    /// Both tables hold at most one definition per key, in key order.
    pub open spec fn spec_tables_well_formed(&self) -> bool {
        animations_in_key_order(self.animations@) && interactions_in_key_order(self.interactions@)
    }
}

proof fn lemma_find_animation_absent(entries: Seq<(AnimationKey, AnimationDefinition)>, key: AnimationKey)
    requires
        forall|j: int| 0 <= j < entries.len() ==> (#[trigger] entries[j]).0 != key,
    ensures
        find_animation(entries, key) is None,
    decreases entries.len(),
{
    if entries.len() > 0 {
        let rest = entries.drop_first();
        assert(entries[0].0 != key);
        assert forall|j: int| 0 <= j < rest.len() implies (#[trigger] rest[j]).0 != key by {
            assert(rest[j] == entries[j + 1]);
        }
        lemma_find_animation_absent(rest, key);
    }
}

proof fn lemma_find_interaction_first(entries: Seq<(InteractionAnimationKey, AnimationDefinition)>, i: int)
    requires
        0 <= i < entries.len(),
        forall|j: int| 0 <= j < i ==> (#[trigger] entries[j]).0 != entries[i].0,
    ensures
        find_interaction(entries, entries[i].0) == Some(entries[i].1),
    decreases i,
{
    if i > 0 {
        let rest = entries.drop_first();
        assert forall|j: int| 0 <= j < i - 1 implies (#[trigger] rest[j]).0 != rest[i - 1].0 by {
            assert(rest[j] == entries[j + 1]);
        }
        lemma_find_interaction_first(rest, i - 1);
    }
}

proof fn lemma_find_interaction_absent(
    entries: Seq<(InteractionAnimationKey, AnimationDefinition)>,
    key: InteractionAnimationKey,
)
    requires
        forall|j: int| 0 <= j < entries.len() ==> (#[trigger] entries[j]).0 != key,
    ensures
        find_interaction(entries, key) is None,
    decreases entries.len(),
{
    if entries.len() > 0 {
        let rest = entries.drop_first();
        assert(entries[0].0 != key);
        assert forall|j: int| 0 <= j < rest.len() implies (#[trigger] rest[j]).0 != key by {
            assert(rest[j] == entries[j + 1]);
        }
        lemma_find_interaction_absent(rest, key);
    }
}

/// In a table in key order, the definition found under a key is the one
/// entry with that key, and a key without an entry finds nothing.
pub proof fn law_ordered_tables_hold_one_entry_per_key(
    animations: Seq<(AnimationKey, AnimationDefinition)>,
    interactions: Seq<(InteractionAnimationKey, AnimationDefinition)>,
    key: AnimationKey,
    interaction: InteractionAnimationKey,
)
    requires
        animations_in_key_order(animations),
        interactions_in_key_order(interactions),
    ensures
        forall|i: int| 0 <= i < animations.len() ==> find_animation(animations, (#[trigger] animations[i]).0)
            == Some(animations[i].1),
        (forall|i: int| 0 <= i < animations.len() ==> (#[trigger] animations[i]).0 != key) ==> find_animation(
            animations,
            key,
        ) is None,
        forall|i: int| 0 <= i < interactions.len() ==> find_interaction(
            interactions,
            (#[trigger] interactions[i]).0,
        ) == Some(interactions[i].1),
        (forall|i: int| 0 <= i < interactions.len() ==> (#[trigger] interactions[i]).0 != interaction)
            ==> find_interaction(interactions, interaction) is None,
{
    assert forall|i: int| 0 <= i < animations.len() implies find_animation(animations, (#[trigger] animations[i]).0)
        == Some(animations[i].1) by {
        assert forall|j: int| 0 <= j < i implies (#[trigger] animations[j]).0 != animations[i].0 by {
            assert(animation_key_rank(animations[j].0) < animation_key_rank(animations[i].0));
        }
        lemma_find_first_key(animations, i);
    }
    if forall|i: int| 0 <= i < animations.len() ==> (#[trigger] animations[i]).0 != key {
        lemma_find_animation_absent(animations, key);
    }
    assert forall|i: int| 0 <= i < interactions.len() implies find_interaction(
        interactions,
        (#[trigger] interactions[i]).0,
    ) == Some(interactions[i].1) by {
        assert forall|j: int| 0 <= j < i implies (#[trigger] interactions[j]).0 != interactions[i].0 by {
            assert(interaction_key_rank(interactions[j].0) < interaction_key_rank(interactions[i].0));
        }
        lemma_find_interaction_first(interactions, i);
    }
    if forall|i: int| 0 <= i < interactions.len() ==> (#[trigger] interactions[i]).0 != interaction {
        lemma_find_interaction_absent(interactions, interaction);
    }
}

fn animation_rank(key: AnimationKey) -> (rank: u8)
    ensures
        rank == animation_key_rank(key),
{
    match key {
        AnimationKey::Idle => 0,
        AnimationKey::Coding => 1,
        AnimationKey::ListeningMusic => 2,
        AnimationKey::CodingWithMusic => 3,
        AnimationKey::Drowsy => 4,
        AnimationKey::Sleeping => 5,
    }
}

/// Puts `definition` under `key` in a table kept in key order, as a map
/// insertion does: an entry with the same key is replaced, otherwise the new
/// entry goes in its place in key order.
pub fn insert_animation(
    table: &mut Vec<(AnimationKey, AnimationDefinition)>,
    key: AnimationKey,
    definition: AnimationDefinition,
)
    requires
        animations_in_key_order(old(table)@),
    ensures
        animations_in_key_order(final(table)@),
        forall|k: AnimationKey| #[trigger] find_animation(final(table)@, k) == (if k == key {
            Some(definition)
        } else {
            find_animation(old(table)@, k)
        }),
{
    let ghost before = table@;
    let rank = animation_rank(key);
    let mut i: usize = 0;
    while i < table.len()
        invariant_except_break
            i <= table@.len(),
            table@ == before,
            forall|j: int| 0 <= j < i ==> animation_key_rank((#[trigger] table@[j]).0) < rank,
        ensures
            i <= table@.len(),
            table@ == before,
            forall|j: int| 0 <= j < i ==> animation_key_rank((#[trigger] table@[j]).0) < rank,
            i < table@.len() ==> animation_key_rank(table@[i as int].0) >= rank,
        decreases table.len() - i,
    {
        if animation_rank(table[i].0) >= rank {
            break;
        }
        i = i + 1;
    }
    let replace = i < table.len() && table[i].0 == key;
    if replace {
        table.set(i, (key, definition));
    } else {
        table.insert(i, (key, definition));
    }
    let ghost after = table@;
    assert(after[i as int] == (key, definition));
    assert forall|j: int| 0 <= j < i implies (#[trigger] after[j]) == before[j] by {}
    assert forall|a: int, b: int| #![trigger after[a], after[b]] 0 <= a < b < after.len() implies animation_key_rank(after[a].0)
        < animation_key_rank(after[b].0) by {
        if !replace {
            if a > i {
                assert(after[a] == before[a - 1] && after[b] == before[b - 1]);
            } else if a == i {
                assert(after[b] == before[b - 1]);
                assert(animation_key_rank(before[i as int].0) >= rank);
                assert(before[i as int].0 != key);
                if b - 1 > i {
                    assert(animation_key_rank(before[i as int].0) < animation_key_rank(before[b - 1].0));
                }
            } else if b > i {
                assert(after[b] == before[b - 1]);
                if b - 1 > i {
                    assert(animation_key_rank(before[i as int].0) < animation_key_rank(before[b - 1].0));
                }
            }
        } else {
            if a != i && b != i {
                assert(after[a] == before[a] && after[b] == before[b]);
            } else if a == i {
                assert(after[b] == before[b]);
                assert(animation_key_rank(before[a].0) < animation_key_rank(before[b].0));
            } else {
                assert(after[a] == before[a]);
                assert(animation_key_rank(before[a].0) < animation_key_rank(before[b].0));
            }
        }
    }
    assert forall|k: AnimationKey| #[trigger] find_animation(after, k) == (if k == key {
        Some(definition)
    } else {
        find_animation(before, k)
    }) by {
        law_ordered_tables_hold_one_entry_per_key(after, Seq::empty(), k, InteractionAnimationKey::Petting);
        law_ordered_tables_hold_one_entry_per_key(before, Seq::empty(), k, InteractionAnimationKey::Petting);
        if k == key {
            assert(find_animation(after, after[i as int].0) == Some(after[i as int].1));
        } else if exists|j: int| 0 <= j < before.len() && (#[trigger] before[j]).0 == k {
            let j = choose|j: int| 0 <= j < before.len() && (#[trigger] before[j]).0 == k;
            assert(find_animation(before, before[j].0) == Some(before[j].1));
            let j2: int = if replace || j < i { j } else { j + 1 };
            assert(after[j2] == before[j]);
            assert(find_animation(after, after[j2].0) == Some(after[j2].1));
        } else {
            assert forall|j: int| 0 <= j < after.len() implies (#[trigger] after[j]).0 != k by {
                if j != i {
                    if replace || j < i {
                        assert(after[j] == before[j]);
                    } else {
                        assert(after[j] == before[j - 1]);
                    }
                }
            }
        }
    }
}

fn interaction_rank(key: InteractionAnimationKey) -> (rank: u8)
    ensures
        rank == interaction_key_rank(key),
{
    match key {
        InteractionAnimationKey::Petting => 0,
        InteractionAnimationKey::Stretch => 1,
        InteractionAnimationKey::LookAtCat => 2,
        InteractionAnimationKey::Daydream => 3,
    }
}

/// Puts `definition` under `key` in an interaction table kept in key order, as a map
/// insertion does: an entry with the same key is replaced, otherwise the new
/// entry goes in its place in key order.
pub fn insert_interaction(
    table: &mut Vec<(InteractionAnimationKey, AnimationDefinition)>,
    key: InteractionAnimationKey,
    definition: AnimationDefinition,
)
    requires
        interactions_in_key_order(old(table)@),
    ensures
        interactions_in_key_order(final(table)@),
        forall|k: InteractionAnimationKey| #[trigger] find_interaction(final(table)@, k) == (if k == key {
            Some(definition)
        } else {
            find_interaction(old(table)@, k)
        }),
{
    let ghost before = table@;
    let rank = interaction_rank(key);
    let mut i: usize = 0;
    while i < table.len()
        invariant_except_break
            i <= table@.len(),
            table@ == before,
            forall|j: int| 0 <= j < i ==> interaction_key_rank((#[trigger] table@[j]).0) < rank,
        ensures
            i <= table@.len(),
            table@ == before,
            forall|j: int| 0 <= j < i ==> interaction_key_rank((#[trigger] table@[j]).0) < rank,
            i < table@.len() ==> interaction_key_rank(table@[i as int].0) >= rank,
        decreases table.len() - i,
    {
        if interaction_rank(table[i].0) >= rank {
            break;
        }
        i = i + 1;
    }
    let replace = i < table.len() && table[i].0 == key;
    if replace {
        table.set(i, (key, definition));
    } else {
        table.insert(i, (key, definition));
    }
    let ghost after = table@;
    assert(after[i as int] == (key, definition));
    assert forall|j: int| 0 <= j < i implies (#[trigger] after[j]) == before[j] by {}
    assert forall|a: int, b: int| #![trigger after[a], after[b]] 0 <= a < b < after.len() implies interaction_key_rank(after[a].0)
        < interaction_key_rank(after[b].0) by {
        if !replace {
            if a > i {
                assert(after[a] == before[a - 1] && after[b] == before[b - 1]);
            } else if a == i {
                assert(after[b] == before[b - 1]);
                assert(interaction_key_rank(before[i as int].0) >= rank);
                assert(before[i as int].0 != key);
                if b - 1 > i {
                    assert(interaction_key_rank(before[i as int].0) < interaction_key_rank(before[b - 1].0));
                }
            } else if b > i {
                assert(after[b] == before[b - 1]);
                if b - 1 > i {
                    assert(interaction_key_rank(before[i as int].0) < interaction_key_rank(before[b - 1].0));
                }
            }
        } else {
            if a != i && b != i {
                assert(after[a] == before[a] && after[b] == before[b]);
            } else if a == i {
                assert(after[b] == before[b]);
                assert(interaction_key_rank(before[a].0) < interaction_key_rank(before[b].0));
            } else {
                assert(after[a] == before[a]);
                assert(interaction_key_rank(before[a].0) < interaction_key_rank(before[b].0));
            }
        }
    }
    assert forall|k: InteractionAnimationKey| #[trigger] find_interaction(after, k) == (if k == key {
        Some(definition)
    } else {
        find_interaction(before, k)
    }) by {
        law_ordered_tables_hold_one_entry_per_key(Seq::empty(), after, AnimationKey::Idle, k);
        law_ordered_tables_hold_one_entry_per_key(Seq::empty(), before, AnimationKey::Idle, k);
        if k == key {
            assert(find_interaction(after, after[i as int].0) == Some(after[i as int].1));
        } else if exists|j: int| 0 <= j < before.len() && (#[trigger] before[j]).0 == k {
            let j = choose|j: int| 0 <= j < before.len() && (#[trigger] before[j]).0 == k;
            assert(find_interaction(before, before[j].0) == Some(before[j].1));
            let j2: int = if replace || j < i { j } else { j + 1 };
            assert(after[j2] == before[j]);
            assert(find_interaction(after, after[j2].0) == Some(after[j2].1));
        } else {
            assert forall|j: int| 0 <= j < after.len() implies (#[trigger] after[j]).0 != k by {
                if j != i {
                    if replace || j < i {
                        assert(after[j] == before[j]);
                    } else {
                        assert(after[j] == before[j - 1]);
                    }
                }
            }
        }
    }
}

proof fn lemma_first_renderable_reaches_idle(package: PetPackage, candidates: Seq<Behavior>)
    requires
        candidates.len() > 0,
        candidates.last() == Behavior::Idle,
        package.spec_animation(Behavior::Idle) matches Some(d) && package.spec_renderable(d),
    ensures
        package.first_renderable(candidates) matches Some((b, d)) && package.spec_renderable(d)
            && package.spec_animation(b) == Some(d),
    decreases candidates.len(),
{
    if candidates.len() > 1 {
        match package.spec_animation(candidates[0]) {
            Some(d) => {
                if !package.spec_renderable(d) {
                    lemma_first_renderable_reaches_idle(package, candidates.drop_first());
                }
            },
            None => {
                lemma_first_renderable_reaches_idle(package, candidates.drop_first());
            },
        }
    }
}

/// A package whose Idle animation can be drawn always has something to draw:
/// every behavior resolves to a renderable animation, and in a sprite
/// package to a frame file, whatever the frame index.
pub proof fn law_idle_keeps_pet_visible(package: PetPackage, behavior: Behavior, frame: int)
    requires
        package.spec_animation(Behavior::Idle) matches Some(d) && package.spec_renderable(d),
    ensures
        package.spec_animation_with_idle_fallback(behavior) matches Some((b, d))
            && package.spec_renderable(d) && package.spec_animation(b) == Some(d),
        package.spec_is_sprite() ==> package.spec_sprite_frame_path(behavior, frame) is Some,
{
    lemma_first_renderable_reaches_idle(package, fallback_candidates(behavior));
}

/// Sprite frame paths always name one of the frames of the animation that
/// the behavior falls back to, placed under the package directory.
pub proof fn law_sprite_frames_come_from_the_fallback(
    package: PetPackage,
    behavior: Behavior,
    frame: int,
)
    requires
        package.spec_sprite_frame_path(behavior, frame) is Some,
    ensures
        package.spec_animation_with_idle_fallback(behavior) matches Some((_, d)) && exists|j: int|
            0 <= j < d.frames@.len() && package.spec_sprite_frame_path(behavior, frame) == Some(
                spec_join_path(package.spec_root(), #[trigger] d.frames@[j]@),
            ),
{
    let (_, d) = package.spec_animation_with_idle_fallback(behavior).unwrap();
    if 0 <= frame < d.frames@.len() {
        assert(package.spec_sprite_frame_path(behavior, frame) == Some(spec_join_path(package.spec_root(), d.frames@[frame]@)));
    } else {
        assert(package.spec_sprite_frame_path(behavior, frame) == Some(spec_join_path(package.spec_root(), d.frames@[0]@)));
    }
}

/// The animation stored for `behavior` when the package can draw it.
pub open spec fn drawable_animation(package: PetPackage, behavior: Behavior) -> Option<AnimationDefinition> {
    match package.spec_animation(behavior) {
        Some(d) => if package.spec_renderable(d) {
            Some(d)
        } else {
            None
        },
        None => None,
    }
}

/// CodingWithMusic falls back to Coding before ListeningMusic: without a
/// drawable CodingWithMusic animation, a drawable Coding animation is chosen
/// (and its frames are drawn); ListeningMusic is chosen only when neither
/// CodingWithMusic nor Coding can be drawn, and Idle only when none of the
/// three can.
pub proof fn law_coding_with_music_prefers_coding(package: PetPackage, frame: int)
    ensures
        drawable_animation(package, Behavior::CodingWithMusic) matches Some(d)
            ==> package.spec_animation_with_idle_fallback(Behavior::CodingWithMusic) == Some(
            (Behavior::CodingWithMusic, d),
        ),
        drawable_animation(package, Behavior::CodingWithMusic) is None ==> (drawable_animation(
            package,
            Behavior::Coding,
        ) matches Some(c) ==> package.spec_animation_with_idle_fallback(Behavior::CodingWithMusic)
            == Some((Behavior::Coding, c)) && package.spec_sprite_frame_path(Behavior::CodingWithMusic, frame)
            == package.spec_sprite_frame_path(Behavior::Coding, frame)),
        package.spec_animation_with_idle_fallback(Behavior::CodingWithMusic) matches Some((b, _))
            && b == Behavior::ListeningMusic ==> drawable_animation(package, Behavior::CodingWithMusic) is None
            && drawable_animation(package, Behavior::Coding) is None,
        package.spec_animation_with_idle_fallback(Behavior::CodingWithMusic) matches Some((b, _))
            && b == Behavior::Idle ==> drawable_animation(package, Behavior::CodingWithMusic) is None
            && drawable_animation(package, Behavior::Coding) is None && drawable_animation(
            package,
            Behavior::ListeningMusic,
        ) is None,
{
    reveal_with_fuel(PetPackage::first_renderable, 5);
    let cands = fallback_candidates(Behavior::CodingWithMusic);
    assert(cands[0] == Behavior::CodingWithMusic && cands[1] == Behavior::Coding
        && cands[2] == Behavior::ListeningMusic && cands[3] == Behavior::Idle);
    assert(cands.drop_first() =~= seq![Behavior::Coding, Behavior::ListeningMusic, Behavior::Idle]);
    assert(cands.drop_first().drop_first() =~= seq![Behavior::ListeningMusic, Behavior::Idle]);
    assert(cands.drop_first().drop_first().drop_first() =~= seq![Behavior::Idle]);
    assert(cands.drop_first().drop_first().drop_first().drop_first() =~= Seq::<Behavior>::empty());
    let c2 = fallback_candidates(Behavior::Coding);
    assert(c2[0] == Behavior::Coding);
}

} // verus!
