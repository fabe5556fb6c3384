//! Validation of a pet manifest before the package is used.

use vstd::prelude::*;

use crate::package::{
    is_builtin_placeholder, PetPackage, AnimationDefinition, AnimationKey, InteractionAnimationKey, Model3dSettings, PetManifest,
    RendererKind, SpineSettings, SUPPORTED_SCHEMA_VERSION,
};
use crate::paths::{
    extension_is_one_of, is_safe_relative_path, is_supported_model3d_asset,
    is_supported_spine_atlas, is_supported_spine_skeleton, is_supported_sprite_asset, join_path,
    spec_is_safe_relative_path, spec_join_path,
};
use crate::text::{append_decimal, decimal_text, is_blank, is_blank_str, join_texts, spec_join_texts};

verus! {

/// Bits of the binary32 value 0.1, the smallest sprite scale.
pub const SPRITE_SCALE_MIN_BITS: u32 = 0x3DCC_CCCD;

/// Bits of the binary32 value 4.0, the largest sprite scale.
pub const SPRITE_SCALE_MAX_BITS: u32 = 0x4080_0000;

/// Bits of the binary32 value 0.05, the smallest Spine or 3D model scale.
pub const ASSET_SCALE_MIN_BITS: u32 = 0x3D4C_CCCD;

/// Bits of the binary32 value 10.0, the largest Spine or 3D model scale.
pub const ASSET_SCALE_MAX_BITS: u32 = 0x4120_0000;

/// Why a pet package cannot be used. Paths are texts as the package loader
/// formed them.
#[derive(Debug, Clone)]
pub enum PackageError {
    NotFound(Vec<String>),
    ReadManifest { path: String, message: String },
    ParseManifest { path: String, message: String },
    UnsupportedSchema { found: u32, supported: u32 },
    InvalidManifest(String),
    UnsafeAssetPath(String),
    UnsupportedAssetFormat(String),
    MissingAsset(String),
}

/// [`PackageError`] with its texts as character sequences.
pub enum PackageErrorView {
    NotFound(Seq<Seq<char>>),
    ReadManifest { path: Seq<char>, message: Seq<char> },
    ParseManifest { path: Seq<char>, message: Seq<char> },
    UnsupportedSchema { found: u32, supported: u32 },
    InvalidManifest(Seq<char>),
    UnsafeAssetPath(Seq<char>),
    UnsupportedAssetFormat(Seq<char>),
    MissingAsset(Seq<char>),
}

impl View for PackageError {
    type V = PackageErrorView;

    open spec fn view(&self) -> PackageErrorView {
        match self {
            PackageError::NotFound(paths) => PackageErrorView::NotFound(
                paths@.map_values(|p: String| p@),
            ),
            PackageError::ReadManifest { path, message } => PackageErrorView::ReadManifest {
                path: path@,
                message: message@,
            },
            PackageError::ParseManifest { path, message } => PackageErrorView::ParseManifest {
                path: path@,
                message: message@,
            },
            PackageError::UnsupportedSchema { found, supported } =>
                PackageErrorView::UnsupportedSchema { found: *found, supported: *supported },
            PackageError::InvalidManifest(m) => PackageErrorView::InvalidManifest(m@),
            PackageError::UnsafeAssetPath(p) => PackageErrorView::UnsafeAssetPath(p@),
            PackageError::UnsupportedAssetFormat(p) => PackageErrorView::UnsupportedAssetFormat(
                p@,
            ),
            PackageError::MissingAsset(p) => PackageErrorView::MissingAsset(p@),
        }
    }
}

pub open spec fn result_view(r: Result<(), PackageError>) -> Result<(), PackageErrorView> {
    match r {
        Ok(()) => Ok(()),
        Err(e) => Err(e@),
    }
}

type Check = Result<(), PackageErrorView>;

/// `rel` names a file that exists under the package directory.
pub open spec fn asset_exists(existing: Seq<String>, rel: Seq<char>) -> bool {
    exists|k: int| 0 <= k < existing.len() && (#[trigger] existing[k])@ == rel
}

pub open spec fn invalid(message: Seq<char>) -> Check {
    Err(PackageErrorView::InvalidManifest(message))
}

pub open spec fn animation_key_name(key: AnimationKey) -> Seq<char> {
    match key {
        AnimationKey::Idle => "Idle"@,
        AnimationKey::Coding => "Coding"@,
        AnimationKey::ListeningMusic => "ListeningMusic"@,
        AnimationKey::CodingWithMusic => "CodingWithMusic"@,
        AnimationKey::Drowsy => "Drowsy"@,
        AnimationKey::Sleeping => "Sleeping"@,
    }
}

pub open spec fn interaction_key_name(key: InteractionAnimationKey) -> Seq<char> {
    match key {
        InteractionAnimationKey::Petting => "interaction Petting"@,
        InteractionAnimationKey::Stretch => "interaction Stretch"@,
        InteractionAnimationKey::LookAtCat => "interaction LookAtCat"@,
        InteractionAnimationKey::Daydream => "interaction Daydream"@,
    }
}

/// The checks of one frame file: a safe relative path and, for sprites, a
/// PNG/WebP file that exists.
pub open spec fn check_frame(
    frame: Seq<char>,
    sprite: bool,
    root: Seq<char>,
    existing: Seq<String>,
) -> Check {
    if !spec_is_safe_relative_path(frame) {
        Err(PackageErrorView::UnsafeAssetPath(frame))
    } else if sprite && !extension_is_one_of(frame, "png"@, "webp"@) {
        Err(PackageErrorView::UnsupportedAssetFormat(frame))
    } else if sprite && !asset_exists(existing, frame) {
        Err(PackageErrorView::MissingAsset(spec_join_path(root, frame)))
    } else {
        Ok(())
    }
}

/// The first failing frame check, in frame order.
pub open spec fn check_frames(
    frames: Seq<String>,
    sprite: bool,
    root: Seq<char>,
    existing: Seq<String>,
) -> Check
    decreases frames.len(),
{
    if frames.len() == 0 {
        Ok(())
    } else {
        match check_frame(frames[0]@, sprite, root, existing) {
            Ok(()) => check_frames(frames.drop_first(), sprite, root, existing),
            Err(e) => Err(e),
        }
    }
}

/// The checks of one animation: per-frame durations, when given, have one
/// positive entry per frame; then every frame passes [`check_frame`].
pub open spec fn check_definition(
    label: Seq<char>,
    d: AnimationDefinition,
    sprite: bool,
    root: Seq<char>,
    existing: Seq<String>,
) -> Check {
    let count = d.spec_effective_frame_count();
    if d.frame_durations_ms@.len() > 0 && d.frame_durations_ms@.len() != count {
        invalid(label + " frame_durations_ms must have exactly "@ + decimal_text(count) + " entries"@)
    } else if d.frame_durations_ms@.len() > 0 && exists|i: int| 0 <= i < d.frame_durations_ms@.len() && #[trigger] d.frame_durations_ms@[i] == 0 {
        invalid(label + " frame durations must be greater than zero"@)
    } else {
        check_frames(d.frames@, sprite, root, existing)
    }
}

pub open spec fn check_animations(
    entries: Seq<(AnimationKey, AnimationDefinition)>,
    sprite: bool,
    root: Seq<char>,
    existing: Seq<String>,
) -> Check
    decreases entries.len(),
{
    if entries.len() == 0 {
        Ok(())
    } else {
        match check_definition(animation_key_name(entries[0].0), entries[0].1, sprite, root, existing) {
            Ok(()) => check_animations(entries.drop_first(), sprite, root, existing),
            Err(e) => Err(e),
        }
    }
}

pub open spec fn check_interactions(
    entries: Seq<(InteractionAnimationKey, AnimationDefinition)>,
    sprite: bool,
    root: Seq<char>,
    existing: Seq<String>,
) -> Check
    decreases entries.len(),
{
    if entries.len() == 0 {
        Ok(())
    } else {
        match check_definition(interaction_key_name(entries[0].0), entries[0].1, sprite, root, existing) {
            Ok(()) => check_interactions(entries.drop_first(), sprite, root, existing),
            Err(e) => Err(e),
        }
    }
}

/// The checks of a Spine renderer's settings, in order.
pub open spec fn check_spine(
    spine: Option<SpineSettings>,
    root: Seq<char>,
    existing: Seq<String>,
) -> Check {
    match spine {
        None => invalid("spine renderer requires spine settings"@),
        Some(s) => {
            if !spec_is_safe_relative_path(s.skeleton@) {
                Err(PackageErrorView::UnsafeAssetPath(s.skeleton@))
            } else if !extension_is_one_of(s.skeleton@, "skel"@, "json"@) {
                Err(PackageErrorView::UnsupportedAssetFormat(s.skeleton@))
            } else if !spec_is_safe_relative_path(s.atlas@) {
                Err(PackageErrorView::UnsafeAssetPath(s.atlas@))
            } else if !extension_is_one_of(s.atlas@, "atlas"@, "atlas"@) {
                Err(PackageErrorView::UnsupportedAssetFormat(s.atlas@))
            } else if !(ASSET_SCALE_MIN_BITS <= s.scale_bits <= ASSET_SCALE_MAX_BITS) {
                invalid("spine.scale must be between 0.05 and 10.0"@)
            } else if is_blank(s.default_skin@) {
                invalid("spine.default_skin must not be empty"@)
            } else if !asset_exists(existing, s.skeleton@) {
                Err(PackageErrorView::MissingAsset(spec_join_path(root, s.skeleton@)))
            } else if !asset_exists(existing, s.atlas@) {
                Err(PackageErrorView::MissingAsset(spec_join_path(root, s.atlas@)))
            } else {
                Ok(())
            }
        },
    }
}

/// The checks of a 3D renderer's settings, in order.
pub open spec fn check_model3d(
    model: Option<Model3dSettings>,
    root: Seq<char>,
    existing: Seq<String>,
) -> Check {
    match model {
        None => invalid("model3d renderer requires model3d settings"@),
        Some(m) => {
            if !spec_is_safe_relative_path(m.source@) {
                Err(PackageErrorView::UnsafeAssetPath(m.source@))
            } else if !extension_is_one_of(m.source@, "vrm"@, "glb"@) {
                Err(PackageErrorView::UnsupportedAssetFormat(m.source@))
            } else if !(ASSET_SCALE_MIN_BITS <= m.scale_bits <= ASSET_SCALE_MAX_BITS) {
                invalid("model3d.scale must be between 0.05 and 10.0"@)
            } else if !asset_exists(existing, m.source@) {
                Err(PackageErrorView::MissingAsset(spec_join_path(root, m.source@)))
            } else {
                Ok(())
            }
        },
    }
}

pub open spec fn no_animation_frames(entries: Seq<(AnimationKey, AnimationDefinition)>) -> bool {
    forall|i: int| 0 <= i < entries.len() ==> (#[trigger] entries[i]).1.frames@.len() == 0
}

/// The first failing check of a manifest, in the order the loader applies
/// them: schema version, identity, sprite scale, renderer settings, every
/// animation then every interaction, and the sprite frame requirement.
/// `existing` lists the package-relative paths of the asset files that exist.
pub open spec fn spec_validate_manifest(
    root: Seq<char>,
    m: PetManifest,
    existing: Seq<String>,
) -> Check {
    let sprite = m.renderer == RendererKind::Sprite;
    if m.schema_version != SUPPORTED_SCHEMA_VERSION {
        Err(PackageErrorView::UnsupportedSchema { found: m.schema_version, supported: SUPPORTED_SCHEMA_VERSION })
    } else if is_blank(m.id@) || is_blank(m.name@) {
        invalid("id and name must not be empty"@)
    } else if sprite && !(SPRITE_SCALE_MIN_BITS <= m.sprite.scale_bits <= SPRITE_SCALE_MAX_BITS) {
        invalid("sprite.scale must be between 0.1 and 4.0"@)
    } else if m.renderer == RendererKind::Spine && check_spine(m.spine, root, existing) is Err {
        check_spine(m.spine, root, existing)
    } else if m.renderer == RendererKind::Model3d && check_model3d(m.model3d, root, existing) is Err {
        check_model3d(m.model3d, root, existing)
    } else if check_animations(m.animations@, sprite, root, existing) is Err {
        check_animations(m.animations@, sprite, root, existing)
    } else if check_interactions(m.interactions@, sprite, root, existing) is Err {
        check_interactions(m.interactions@, sprite, root, existing)
    } else if sprite && no_animation_frames(m.animations@) {
        invalid("sprite packages must provide at least one frame asset"@)
    } else {
        Ok(())
    }
}

fn asset_exists_exec(existing: &Vec<String>, rel: &String) -> (exists: bool)
    ensures
        exists == asset_exists(existing@, rel@),
{
    let mut k: usize = 0;
    while k < existing.len()
        invariant
            k <= existing@.len(),
            forall|j: int| 0 <= j < k ==> (#[trigger] existing@[j])@ != rel@,
        decreases existing.len() - k,
    {
        if existing[k] == *rel {
            return true;
        }
        k = k + 1;
    }
    false
}

fn invalid_manifest(message: &str) -> (e: PackageError)
    ensures
        e@ == PackageErrorView::InvalidManifest(message@),
{
    PackageError::InvalidManifest(String::from_str(message))
}

fn check_frame_exec(
    frame: &String,
    sprite: bool,
    root: &str,
    existing: &Vec<String>,
) -> (r: Result<(), PackageError>)
    ensures
        result_view(r) == check_frame(frame@, sprite, root@, existing@),
{
    if !is_safe_relative_path(frame.as_str()) {
        return Err(PackageError::UnsafeAssetPath(frame.clone()));
    }
    if sprite {
        if !is_supported_sprite_asset(frame.as_str()) {
            return Err(PackageError::UnsupportedAssetFormat(frame.clone()));
        }
        if !asset_exists_exec(existing, frame) {
            return Err(PackageError::MissingAsset(join_path(root, frame.as_str())));
        }
    }
    Ok(())
}

fn check_frames_exec(
    frames: &Vec<String>,
    sprite: bool,
    root: &str,
    existing: &Vec<String>,
) -> (r: Result<(), PackageError>)
    ensures
        result_view(r) == check_frames(frames@, sprite, root@, existing@),
{
    let mut i: usize = 0;
    assert(frames@.subrange(0, frames@.len() as int) =~= frames@);
    while i < frames.len()
        invariant
            i <= frames@.len(),
            check_frames(frames@, sprite, root@, existing@) == check_frames(frames@.subrange(i as int, frames@.len() as int), sprite, root@, existing@),
        decreases frames.len() - i,
    {
        let ghost rest = frames@.subrange(i as int, frames@.len() as int);
        assert(rest.drop_first() =~= frames@.subrange(i + 1, frames@.len() as int));
        let r = check_frame_exec(&frames[i], sprite, root, existing);
        if r.is_err() {
            return r;
        }
        i = i + 1;
    }
    Ok(())
}

fn append_animation_label(s: &mut String, key: AnimationKey)
    ensures
        final(s)@ == old(s)@ + animation_key_name(key),
{
    match key {
        AnimationKey::Idle => s.append("Idle"),
        AnimationKey::Coding => s.append("Coding"),
        AnimationKey::ListeningMusic => s.append("ListeningMusic"),
        AnimationKey::CodingWithMusic => s.append("CodingWithMusic"),
        AnimationKey::Drowsy => s.append("Drowsy"),
        AnimationKey::Sleeping => s.append("Sleeping"),
    }
}

fn append_interaction_label(s: &mut String, key: InteractionAnimationKey)
    ensures
        final(s)@ == old(s)@ + interaction_key_name(key),
{
    match key {
        InteractionAnimationKey::Petting => s.append("interaction Petting"),
        InteractionAnimationKey::Stretch => s.append("interaction Stretch"),
        InteractionAnimationKey::LookAtCat => s.append("interaction LookAtCat"),
        InteractionAnimationKey::Daydream => s.append("interaction Daydream"),
    }
}

fn check_definition_exec(
    label: String,
    d: &AnimationDefinition,
    sprite: bool,
    root: &str,
    existing: &Vec<String>,
) -> (r: Result<(), PackageError>)
    ensures
        result_view(r) == check_definition(label@, *d, sprite, root@, existing@),
{
    let count = d.effective_frame_count();
    let n = d.frame_durations_ms.len();
    if n > 0 && n != count {
        let mut message = label;
        message.append(" frame_durations_ms must have exactly ");
        append_decimal(&mut message, count as u64);
        message.append(" entries");
        return Err(PackageError::InvalidManifest(message));
    }
    if n > 0 {
        let mut i: usize = 0;
        while i < n
            invariant
                n == d.frame_durations_ms@.len(),
                n == count,
                count == d.spec_effective_frame_count(),
                i <= n,
                forall|j: int| 0 <= j < i ==> #[trigger] d.frame_durations_ms@[j] != 0,
            decreases n - i,
        {
            if d.frame_durations_ms[i] == 0 {
                assert(d.frame_durations_ms@[i as int] == 0);
                let mut message = label;
                message.append(" frame durations must be greater than zero");
                return Err(PackageError::InvalidManifest(message));
            }
            i = i + 1;
        }
    }
    check_frames_exec(&d.frames, sprite, root, existing)
}

fn check_animations_exec(
    entries: &Vec<(AnimationKey, AnimationDefinition)>,
    sprite: bool,
    root: &str,
    existing: &Vec<String>,
) -> (r: Result<(), PackageError>)
    ensures
        result_view(r) == check_animations(entries@, sprite, root@, existing@),
{
    let mut i: usize = 0;
    assert(entries@.subrange(0, entries@.len() as int) =~= entries@);
    while i < entries.len()
        invariant
            i <= entries@.len(),
            check_animations(entries@, sprite, root@, existing@) == check_animations(entries@.subrange(i as int, entries@.len() as int), sprite, root@, existing@),
        decreases entries.len() - i,
    {
        let ghost rest = entries@.subrange(i as int, entries@.len() as int);
        assert(rest.drop_first() =~= entries@.subrange(i + 1, entries@.len() as int));
        let mut label = String::new();
        append_animation_label(&mut label, entries[i].0);
        assert(label@ =~= animation_key_name(entries@[i as int].0));
        let r = check_definition_exec(label, &entries[i].1, sprite, root, existing);
        if r.is_err() {
            return r;
        }
        i = i + 1;
    }
    Ok(())
}

fn check_interactions_exec(
    entries: &Vec<(InteractionAnimationKey, AnimationDefinition)>,
    sprite: bool,
    root: &str,
    existing: &Vec<String>,
) -> (r: Result<(), PackageError>)
    ensures
        result_view(r) == check_interactions(entries@, sprite, root@, existing@),
{
    let mut i: usize = 0;
    assert(entries@.subrange(0, entries@.len() as int) =~= entries@);
    while i < entries.len()
        invariant
            i <= entries@.len(),
            check_interactions(entries@, sprite, root@, existing@) == check_interactions(entries@.subrange(i as int, entries@.len() as int), sprite, root@, existing@),
        decreases entries.len() - i,
    {
        let ghost rest = entries@.subrange(i as int, entries@.len() as int);
        assert(rest.drop_first() =~= entries@.subrange(i + 1, entries@.len() as int));
        let mut label = String::new();
        append_interaction_label(&mut label, entries[i].0);
        assert(label@ =~= interaction_key_name(entries@[i as int].0));
        let r = check_definition_exec(label, &entries[i].1, sprite, root, existing);
        if r.is_err() {
            return r;
        }
        i = i + 1;
    }
    Ok(())
}

fn check_spine_exec(
    spine: &Option<SpineSettings>,
    root: &str,
    existing: &Vec<String>,
) -> (r: Result<(), PackageError>)
    ensures
        result_view(r) == check_spine(*spine, root@, existing@),
{
    match spine {
        None => Err(invalid_manifest("spine renderer requires spine settings")),
        Some(s) => {
            if !is_safe_relative_path(s.skeleton.as_str()) {
                return Err(PackageError::UnsafeAssetPath(s.skeleton.clone()));
            }
            if !is_supported_spine_skeleton(s.skeleton.as_str()) {
                return Err(PackageError::UnsupportedAssetFormat(s.skeleton.clone()));
            }
            if !is_safe_relative_path(s.atlas.as_str()) {
                return Err(PackageError::UnsafeAssetPath(s.atlas.clone()));
            }
            if !is_supported_spine_atlas(s.atlas.as_str()) {
                return Err(PackageError::UnsupportedAssetFormat(s.atlas.clone()));
            }
            if !(ASSET_SCALE_MIN_BITS <= s.scale_bits && s.scale_bits <= ASSET_SCALE_MAX_BITS) {
                return Err(invalid_manifest("spine.scale must be between 0.05 and 10.0"));
            }
            if is_blank_str(s.default_skin.as_str()) {
                return Err(invalid_manifest("spine.default_skin must not be empty"));
            }
            if !asset_exists_exec(existing, &s.skeleton) {
                return Err(PackageError::MissingAsset(join_path(root, s.skeleton.as_str())));
            }
            if !asset_exists_exec(existing, &s.atlas) {
                return Err(PackageError::MissingAsset(join_path(root, s.atlas.as_str())));
            }
            Ok(())
        },
    }
}

fn check_model3d_exec(
    model: &Option<Model3dSettings>,
    root: &str,
    existing: &Vec<String>,
) -> (r: Result<(), PackageError>)
    ensures
        result_view(r) == check_model3d(*model, root@, existing@),
{
    match model {
        None => Err(invalid_manifest("model3d renderer requires model3d settings")),
        Some(m) => {
            if !is_safe_relative_path(m.source.as_str()) {
                return Err(PackageError::UnsafeAssetPath(m.source.clone()));
            }
            if !is_supported_model3d_asset(m.source.as_str()) {
                return Err(PackageError::UnsupportedAssetFormat(m.source.clone()));
            }
            if !(ASSET_SCALE_MIN_BITS <= m.scale_bits && m.scale_bits <= ASSET_SCALE_MAX_BITS) {
                return Err(invalid_manifest("model3d.scale must be between 0.05 and 10.0"));
            }
            if !asset_exists_exec(existing, &m.source) {
                return Err(PackageError::MissingAsset(join_path(root, m.source.as_str())));
            }
            Ok(())
        },
    }
}

/// Checks a manifest before its package is used. `existing_assets` holds the
/// package-relative paths of the asset files that exist under `root`.
pub fn validate_manifest(
    root: &str,
    manifest: &PetManifest,
    existing_assets: &Vec<String>,
) -> (r: Result<(), PackageError>)
    ensures
        result_view(r) == spec_validate_manifest(root@, *manifest, existing_assets@),
{
    if manifest.schema_version != SUPPORTED_SCHEMA_VERSION {
        return Err(PackageError::UnsupportedSchema { found: manifest.schema_version, supported: SUPPORTED_SCHEMA_VERSION });
    }
    if is_blank_str(manifest.id.as_str()) || is_blank_str(manifest.name.as_str()) {
        return Err(invalid_manifest("id and name must not be empty"));
    }
    let sprite = match manifest.renderer {
        RendererKind::Sprite => true,
        _ => false,
    };
    let bits = manifest.sprite.scale_bits;
    if sprite && !(SPRITE_SCALE_MIN_BITS <= bits && bits <= SPRITE_SCALE_MAX_BITS) {
        return Err(invalid_manifest("sprite.scale must be between 0.1 and 4.0"));
    }
    match manifest.renderer {
        RendererKind::Spine => {
            let r = check_spine_exec(&manifest.spine, root, existing_assets);
            if r.is_err() {
                return r;
            }
        },
        RendererKind::Model3d => {
            let r = check_model3d_exec(&manifest.model3d, root, existing_assets);
            if r.is_err() {
                return r;
            }
        },
        _ => {},
    }
    let r = check_animations_exec(&manifest.animations, sprite, root, existing_assets);
    if r.is_err() {
        return r;
    }
    let r = check_interactions_exec(&manifest.interactions, sprite, root, existing_assets);
    if r.is_err() {
        return r;
    }
    if sprite {
        let mut i: usize = 0;
        let mut all_empty = true;
        while i < manifest.animations.len()
            invariant
                i <= manifest.animations@.len(),
                all_empty == forall|j: int| 0 <= j < i ==> (#[trigger] manifest.animations@[j]).1.frames@.len() == 0,
            decreases manifest.animations.len() - i,
        {
            if manifest.animations[i].1.frames.len() > 0 {
                all_empty = false;
            }
            i = i + 1;
        }
        if all_empty {
            return Err(invalid_manifest("sprite packages must provide at least one frame asset"));
        }
    }
    Ok(())
}

/// Package-relative asset paths whose files the validation of `m` may look
/// for: the Spine skeleton and atlas, the 3D model, then every animation and
/// interaction frame of a sprite package.
pub open spec fn spec_referenced_assets(m: PetManifest) -> Seq<Seq<char>> {
    let spine = match m.spine {
        Some(s) => if m.renderer == RendererKind::Spine {
            seq![s.skeleton@, s.atlas@]
        } else {
            Seq::empty()
        },
        None => Seq::empty(),
    };
    let model = match m.model3d {
        Some(md) => if m.renderer == RendererKind::Model3d {
            seq![md.source@]
        } else {
            Seq::empty()
        },
        None => Seq::empty(),
    };
    let frames = if m.renderer == RendererKind::Sprite {
        animation_frames(m.animations@) + interaction_frames(m.interactions@)
    } else {
        Seq::empty()
    };
    spine + model + frames
}

pub open spec fn animation_frames(entries: Seq<(AnimationKey, AnimationDefinition)>) -> Seq<Seq<char>>
    decreases entries.len(),
{
    if entries.len() == 0 {
        Seq::empty()
    } else {
        entries[0].1.frames@.map_values(|f: String| f@) + animation_frames(entries.drop_first())
    }
}

pub open spec fn interaction_frames(entries: Seq<(InteractionAnimationKey, AnimationDefinition)>) -> Seq<Seq<char>>
    decreases entries.len(),
{
    if entries.len() == 0 {
        Seq::empty()
    } else {
        entries[0].1.frames@.map_values(|f: String| f@) + interaction_frames(entries.drop_first())
    }
}

fn push_frames(out: &mut Vec<String>, frames: &Vec<String>)
    ensures
        final(out)@.map_values(|f: String| f@) == old(out)@.map_values(|f: String| f@) + frames@.map_values(|f: String| f@),
{
    let ghost start = out@.map_values(|f: String| f@);
    let mut i: usize = 0;
    while i < frames.len()
        invariant
            i <= frames@.len(),
            out@.map_values(|f: String| f@) == start + frames@.subrange(0, i as int).map_values(|f: String| f@),
        decreases frames.len() - i,
    {
        let ghost prev = out@;
        out.push(frames[i].clone());
        assert(out@ =~= prev.push(frames@[i as int]));
        assert(out@.map_values(|f: String| f@) =~= prev.map_values(|f: String| f@).push(frames@[i as int]@));
        assert(frames@.subrange(0, i + 1).map_values(|f: String| f@) =~= frames@.subrange(0, i as int).map_values(|f: String| f@).push(frames@[i as int]@));
        assert(out@.map_values(|f: String| f@) =~= start + frames@.subrange(0, i + 1).map_values(|f: String| f@));
        i = i + 1;
    }
    assert(frames@.subrange(0, frames@.len() as int) =~= frames@);
}

/// The asset paths to look for before [`validate_manifest`] runs.
pub fn referenced_assets(manifest: &PetManifest) -> (paths: Vec<String>)
    ensures
        paths@.map_values(|f: String| f@) == spec_referenced_assets(*manifest),
{
    let mut out: Vec<String> = Vec::new();
    match manifest.renderer {
        RendererKind::Spine => {
            if let Some(s) = &manifest.spine {
                out.push(s.skeleton.clone());
                out.push(s.atlas.clone());
            }
        },
        RendererKind::Model3d => {
            if let Some(m) = &manifest.model3d {
                out.push(m.source.clone());
            }
        },
        RendererKind::Sprite => {
            let ghost before = out@.map_values(|f: String| f@);
            let mut i: usize = 0;
            while i < manifest.animations.len()
                invariant
                    i <= manifest.animations@.len(),
                    out@.map_values(|f: String| f@) == animation_frames(manifest.animations@.subrange(0, i as int)),
                decreases manifest.animations.len() - i,
            {
                proof {
                    lemma_animation_frames_push(manifest.animations@, i as int);
                }
                push_frames(&mut out, &manifest.animations[i].1.frames);
                i = i + 1;
            }
            assert(manifest.animations@.subrange(0, manifest.animations@.len() as int) =~= manifest.animations@);
            let ghost mid = out@.map_values(|f: String| f@);
            let mut j: usize = 0;
            while j < manifest.interactions.len()
                invariant
                    j <= manifest.interactions@.len(),
                    out@.map_values(|f: String| f@) == mid + interaction_frames(manifest.interactions@.subrange(0, j as int)),
                decreases manifest.interactions.len() - j,
            {
                proof {
                    lemma_interaction_frames_push(manifest.interactions@, j as int);
                }
                push_frames(&mut out, &manifest.interactions[j].1.frames);
                assert(out@.map_values(|f: String| f@) =~= mid + interaction_frames(manifest.interactions@.subrange(0, j + 1)));
                j = j + 1;
            }
            assert(manifest.interactions@.subrange(0, manifest.interactions@.len() as int) =~= manifest.interactions@);
        },
        _ => {},
    }
    assert(out@.map_values(|f: String| f@) =~= spec_referenced_assets(*manifest));
    out
}

proof fn lemma_animation_frames_push(entries: Seq<(AnimationKey, AnimationDefinition)>, i: int)
    requires
        0 <= i < entries.len(),
    ensures
        animation_frames(entries.subrange(0, i + 1)) == animation_frames(entries.subrange(0, i)) + entries[i].1.frames@.map_values(|f: String| f@),
    decreases i,
{
    let a = entries.subrange(0, i + 1);
    let b = entries.subrange(0, i);
    if i == 0 {
        assert(a.drop_first() =~= Seq::<(AnimationKey, AnimationDefinition)>::empty());
        assert(a[0] == entries[0]);
        assert(animation_frames(a.drop_first()) =~= Seq::<Seq<char>>::empty());
        assert(animation_frames(a) =~= entries[0].1.frames@.map_values(|f: String| f@));
        assert(animation_frames(b) =~= Seq::<Seq<char>>::empty());
    } else {
        lemma_animation_frames_push(entries.drop_first(), i - 1);
        assert(a.drop_first() =~= entries.drop_first().subrange(0, i));
        assert(b.drop_first() =~= entries.drop_first().subrange(0, i - 1));
        assert(animation_frames(a) =~= animation_frames(b) + entries[i].1.frames@.map_values(|f: String| f@));
    }
}

proof fn lemma_interaction_frames_push(
    entries: Seq<(InteractionAnimationKey, AnimationDefinition)>,
    i: int,
)
    requires
        0 <= i < entries.len(),
    ensures
        interaction_frames(entries.subrange(0, i + 1)) == interaction_frames(entries.subrange(0, i)) + entries[i].1.frames@.map_values(|f: String| f@),
    decreases i,
{
    let a = entries.subrange(0, i + 1);
    let b = entries.subrange(0, i);
    if i == 0 {
        assert(a.drop_first() =~= Seq::<(InteractionAnimationKey, AnimationDefinition)>::empty());
        assert(a[0] == entries[0]);
        assert(interaction_frames(a.drop_first()) =~= Seq::<Seq<char>>::empty());
        assert(interaction_frames(a) =~= entries[0].1.frames@.map_values(|f: String| f@));
        assert(interaction_frames(b) =~= Seq::<Seq<char>>::empty());
    } else {
        lemma_interaction_frames_push(entries.drop_first(), i - 1);
        assert(a.drop_first() =~= entries.drop_first().subrange(0, i));
        assert(b.drop_first() =~= entries.drop_first().subrange(0, i - 1));
        assert(interaction_frames(a) =~= interaction_frames(b) + entries[i].1.frames@.map_values(|f: String| f@));
    }
}

impl PetPackage {
    /// A package from a parsed manifest, once the manifest passes
    /// [`validate_manifest`]; `existing_assets` as there.
    pub fn from_manifest(
        root: String,
        manifest: PetManifest,
        existing_assets: &Vec<String>,
    ) -> (r: Result<PetPackage, PackageError>)
        ensures
            match spec_validate_manifest(root@, manifest, existing_assets@) {
                Ok(()) => r matches Ok(p) && p.spec_root() == root@ && p.spec_manifest() == manifest,
                Err(e) => r matches Err(err) && err@ == e,
            },
    {
        match validate_manifest(root.as_str(), &manifest, existing_assets) {
            Ok(()) => Ok(PetPackage::new(root, manifest)),
            Err(e) => Err(e),
        }
    }
}

impl PackageError {
    pub open spec fn spec_message(&self) -> Seq<char> {
        match self@ {
            PackageErrorView::NotFound(paths) => "no pet package found in "@ + spec_join_texts(paths, ", "@),
            PackageErrorView::ReadManifest { path, message } => "failed to read "@ + path + ": "@ + message,
            PackageErrorView::ParseManifest { path, message } => "failed to parse "@ + path + ": "@ + message,
            PackageErrorView::UnsupportedSchema { found, supported } => "pet package schema "@
                + decimal_text(found as nat) + " is not supported; expected "@ + decimal_text(supported as nat),
            PackageErrorView::InvalidManifest(m) => "invalid pet package: "@ + m,
            PackageErrorView::UnsafeAssetPath(p) => "pet package contains unsafe asset path: "@ + p,
            PackageErrorView::UnsupportedAssetFormat(p) => "unsupported pet asset format: "@ + p
                + "; expected PNG/WebP for Sprite, SKEL/JSON + ATLAS for Spine, or VRM/GLB for Model3d"@,
            PackageErrorView::MissingAsset(p) => "pet package asset does not exist: "@ + p,
        }
    }

    /// The text shown to the user for this error.
    pub fn message(&self) -> (text: String)
        ensures
            text@ == self.spec_message(),
    {
        match self {
            PackageError::NotFound(paths) => {
                let mut text = String::from_str("no pet package found in ");
                let joined = join_texts(paths, ", ");
                text.append(joined.as_str());
                text
            },
            PackageError::ReadManifest { path, message } => {
                let mut text = String::from_str("failed to read ");
                text.append(path.as_str());
                text.append(": ");
                text.append(message.as_str());
                text
            },
            PackageError::ParseManifest { path, message } => {
                let mut text = String::from_str("failed to parse ");
                text.append(path.as_str());
                text.append(": ");
                text.append(message.as_str());
                text
            },
            PackageError::UnsupportedSchema { found, supported } => {
                let mut text = String::from_str("pet package schema ");
                append_decimal(&mut text, *found as u64);
                text.append(" is not supported; expected ");
                append_decimal(&mut text, *supported as u64);
                text
            },
            PackageError::InvalidManifest(m) => {
                let mut text = String::from_str("invalid pet package: ");
                text.append(m.as_str());
                text
            },
            PackageError::UnsafeAssetPath(p) => {
                let mut text = String::from_str("pet package contains unsafe asset path: ");
                text.append(p.as_str());
                text
            },
            PackageError::UnsupportedAssetFormat(p) => {
                let mut text = String::from_str("unsupported pet asset format: ");
                text.append(p.as_str());
                text.append(
                    "; expected PNG/WebP for Sprite, SKEL/JSON + ATLAS for Spine, or VRM/GLB for Model3d",
                );
                text
            },
            PackageError::MissingAsset(p) => {
                let mut text = String::from_str("pet package asset does not exist: ");
                text.append(p.as_str());
                text
            },
        }
    }
}

/// What trying one candidate directory gave.
pub enum CandidateOutcome {
    /// The directory has no `pet.json`.
    NoManifest,
    Loaded,
    Failed(PackageError),
}

/// The search for the default package over candidate directories, in order:
/// directories without a manifest are skipped, the first package that loads
/// wins, and otherwise the first error is reported.
pub struct PackageSearch {
    pub first_error: Option<PackageError>,
}

impl PackageSearch {
    pub fn new() -> (s: PackageSearch)
        ensures
            s.first_error is None,
    {
        PackageSearch { first_error: None }
    }

    /// Records one candidate; returns true when the search is over.
    pub fn record(&mut self, outcome: CandidateOutcome) -> (done: bool)
        ensures
            done == (outcome is Loaded),
            match outcome {
                CandidateOutcome::Failed(e) => match old(self).first_error {
                    Some(f) => final(self).first_error == Some(f),
                    None => final(self).first_error == Some(e),
                },
                _ => final(self).first_error == old(self).first_error,
            },
    {
        match outcome {
            CandidateOutcome::NoManifest => false,
            CandidateOutcome::Loaded => true,
            CandidateOutcome::Failed(error) => {
                if self.first_error.is_none() {
                    self.first_error = Some(error);
                }
                false
            },
        }
    }

    /// The error of a search that loaded nothing: the first failure, or
    /// `NotFound` with every candidate when none had a manifest.
    pub fn finish(self, candidates: Vec<String>) -> (e: PackageError)
        ensures
            match self.first_error {
                Some(f) => e == f,
                None => e@ == PackageErrorView::NotFound(candidates@.map_values(|p: String| p@)),
            },
    {
        match self.first_error {
            Some(error) => error,
            None => PackageError::NotFound(candidates),
        }
    }
}

/// The package the pet uses: the one that loaded, or the built-in
/// placeholder when no package could be loaded.
pub fn package_or_placeholder(loaded: Result<PetPackage, PackageError>) -> (package: PetPackage)
    ensures
        match loaded {
            Ok(p) => package == p,
            Err(_) => is_builtin_placeholder(package),
        },
{
    match loaded {
        Ok(package) => package,
        Err(_) => PetPackage::builtin_placeholder(),
    }
}

/// A frame that passes [`check_frame`] is a safe relative path, and in a
/// sprite package a PNG/WebP file that exists.
pub open spec fn frame_is_acceptable(
    frame: Seq<char>,
    sprite: bool,
    existing: Seq<String>,
) -> bool {
    &&& spec_is_safe_relative_path(frame)
    &&& sprite ==> extension_is_one_of(frame, "png"@, "webp"@)
    &&& sprite ==> asset_exists(existing, frame)
}

/// An animation whose per-frame durations, when given, are one positive
/// duration per frame, and whose frames are all acceptable.
pub open spec fn definition_is_acceptable(
    d: AnimationDefinition,
    sprite: bool,
    existing: Seq<String>,
) -> bool {
    &&& (d.frame_durations_ms@.len() > 0 ==> d.frame_durations_ms@.len() == d.spec_effective_frame_count())
    &&& forall|i: int| 0 <= i < d.frame_durations_ms@.len() ==> #[trigger] d.frame_durations_ms@[i] > 0
    &&& forall|j: int| 0 <= j < d.frames@.len() ==> frame_is_acceptable(#[trigger] d.frames@[j]@, sprite, existing)
}

proof fn lemma_check_frames_ok(
    frames: Seq<String>,
    sprite: bool,
    root: Seq<char>,
    existing: Seq<String>,
)
    requires
        check_frames(frames, sprite, root, existing) is Ok,
    ensures
        forall|j: int| 0 <= j < frames.len() ==> frame_is_acceptable(#[trigger] frames[j]@, sprite, existing),
    decreases frames.len(),
{
    if frames.len() > 0 {
        lemma_check_frames_ok(frames.drop_first(), sprite, root, existing);
        assert forall|j: int| 0 <= j < frames.len() implies frame_is_acceptable(#[trigger] frames[j]@, sprite, existing) by {
            if j > 0 {
                assert(frames[j] == frames.drop_first()[j - 1]);
            }
        }
    }
}

proof fn lemma_check_definition_ok(
    label: Seq<char>,
    d: AnimationDefinition,
    sprite: bool,
    root: Seq<char>,
    existing: Seq<String>,
)
    requires
        check_definition(label, d, sprite, root, existing) is Ok,
    ensures
        definition_is_acceptable(d, sprite, existing),
{
    lemma_check_frames_ok(d.frames@, sprite, root, existing);
    assert forall|i: int| 0 <= i < d.frame_durations_ms@.len() implies #[trigger] d.frame_durations_ms@[i] > 0 by {
        if d.frame_durations_ms@[i] == 0 {
            assert(d.frame_durations_ms@.len() > 0);
        }
    }
}

proof fn lemma_check_animations_ok(
    entries: Seq<(AnimationKey, AnimationDefinition)>,
    sprite: bool,
    root: Seq<char>,
    existing: Seq<String>,
)
    requires
        check_animations(entries, sprite, root, existing) is Ok,
    ensures
        forall|i: int| 0 <= i < entries.len() ==> definition_is_acceptable((#[trigger] entries[i]).1, sprite, existing),
    decreases entries.len(),
{
    if entries.len() > 0 {
        lemma_check_definition_ok(animation_key_name(entries[0].0), entries[0].1, sprite, root, existing);
        lemma_check_animations_ok(entries.drop_first(), sprite, root, existing);
        assert forall|i: int| 0 <= i < entries.len() implies definition_is_acceptable((#[trigger] entries[i]).1, sprite, existing) by {
            if i > 0 {
                assert(entries[i] == entries.drop_first()[i - 1]);
            }
        }
    }
}

proof fn lemma_check_interactions_ok(
    entries: Seq<(InteractionAnimationKey, AnimationDefinition)>,
    sprite: bool,
    root: Seq<char>,
    existing: Seq<String>,
)
    requires
        check_interactions(entries, sprite, root, existing) is Ok,
    ensures
        forall|i: int| 0 <= i < entries.len() ==> definition_is_acceptable((#[trigger] entries[i]).1, sprite, existing),
    decreases entries.len(),
{
    if entries.len() > 0 {
        lemma_check_definition_ok(interaction_key_name(entries[0].0), entries[0].1, sprite, root, existing);
        lemma_check_interactions_ok(entries.drop_first(), sprite, root, existing);
        assert forall|i: int| 0 <= i < entries.len() implies definition_is_acceptable((#[trigger] entries[i]).1, sprite, existing) by {
            if i > 0 {
                assert(entries[i] == entries.drop_first()[i - 1]);
            }
        }
    }
}

/// What a manifest that passes validation guarantees: a supported schema, a
/// non-blank identity, only safe relative asset paths (for sprites: existing
/// PNG/WebP files, at least one of them an animation frame), per-frame
/// durations that match the frame count and are positive, and Spine and 3D
/// settings whose assets are safe, of the right format (SKEL/JSON and ATLAS,
/// VRM/GLB), exist, and come with a scale in range.
pub proof fn law_validated_manifest(root: Seq<char>, m: PetManifest, existing: Seq<String>)
    requires
        spec_validate_manifest(root, m, existing) is Ok,
    ensures
        m.schema_version == SUPPORTED_SCHEMA_VERSION,
        !is_blank(m.id@) && !is_blank(m.name@),
        forall|i: int| 0 <= i < m.animations@.len() ==> definition_is_acceptable(
            (#[trigger] m.animations@[i]).1,
            m.renderer == RendererKind::Sprite,
            existing,
        ),
        forall|i: int| 0 <= i < m.interactions@.len() ==> definition_is_acceptable(
            (#[trigger] m.interactions@[i]).1,
            m.renderer == RendererKind::Sprite,
            existing,
        ),
        m.renderer == RendererKind::Sprite ==> !no_animation_frames(m.animations@),
        m.renderer == RendererKind::Spine ==> (m.spine matches Some(s) && spec_is_safe_relative_path(s.skeleton@)
            && spec_is_safe_relative_path(s.atlas@) && asset_exists(existing, s.skeleton@)
            && asset_exists(existing, s.atlas@)),
        m.renderer == RendererKind::Model3d ==> (m.model3d matches Some(md) && spec_is_safe_relative_path(md.source@)
            && asset_exists(existing, md.source@)),
        m.renderer == RendererKind::Spine ==> (m.spine matches Some(s) && extension_is_one_of(
            s.skeleton@,
            "skel"@,
            "json"@,
        ) && extension_is_one_of(s.atlas@, "atlas"@, "atlas"@) && ASSET_SCALE_MIN_BITS <= s.scale_bits
            <= ASSET_SCALE_MAX_BITS && !is_blank(s.default_skin@)),
        m.renderer == RendererKind::Model3d ==> (m.model3d matches Some(md) && extension_is_one_of(
            md.source@,
            "vrm"@,
            "glb"@,
        ) && ASSET_SCALE_MIN_BITS <= md.scale_bits <= ASSET_SCALE_MAX_BITS),
        m.renderer == RendererKind::Sprite ==> SPRITE_SCALE_MIN_BITS <= m.sprite.scale_bits
            <= SPRITE_SCALE_MAX_BITS,
{
    let sprite = m.renderer == RendererKind::Sprite;
    lemma_check_animations_ok(m.animations@, sprite, root, existing);
    lemma_check_interactions_ok(m.interactions@, sprite, root, existing);
}

/// In a validated package every frame duration of every animation frame is
/// a positive timer interval.
pub proof fn law_validated_frames_have_timing(
    root: Seq<char>,
    m: PetManifest,
    existing: Seq<String>,
    i: int,
    frame: int,
)
    requires
        spec_validate_manifest(root, m, existing) is Ok,
        0 <= i < m.animations@.len(),
        0 <= frame < m.animations@[i].1.spec_effective_frame_count(),
        m.animations@[i].1.frame_durations_ms@.len() > 0,
    ensures
        m.animations@[i].1.spec_frame_duration_ms(frame) matches Some(ms) && ms > 0,
{
    law_validated_manifest(root, m, existing);
    assert(definition_is_acceptable(m.animations@[i].1, m.renderer == RendererKind::Sprite, existing));
}

/// Two lists of existing files agree on whether each of `paths` exists.
pub open spec fn agree_on(e1: Seq<String>, e2: Seq<String>, paths: Seq<Seq<char>>) -> bool {
    forall|i: int| 0 <= i < paths.len() ==> asset_exists(e1, #[trigger] paths[i]) == asset_exists(e2, paths[i])
}

proof fn lemma_frames_agree(frames: Seq<String>, sprite: bool, root: Seq<char>, e1: Seq<String>, e2: Seq<String>)
    requires
        sprite ==> agree_on(e1, e2, frames.map_values(|f: String| f@)),
    ensures
        check_frames(frames, sprite, root, e1) == check_frames(frames, sprite, root, e2),
    decreases frames.len(),
{
    if frames.len() > 0 {
        let names = frames.map_values(|f: String| f@);
        assert(names[0] == frames[0]@);
        let rest = frames.drop_first();
        let rest_names = rest.map_values(|f: String| f@);
        if sprite {
            assert forall|i: int| 0 <= i < rest_names.len() implies asset_exists(e1, #[trigger] rest_names[i])
                == asset_exists(e2, rest_names[i]) by {
                assert(rest_names[i] == names[i + 1]);
            }
        }
        lemma_frames_agree(rest, sprite, root, e1, e2);
    }
}

proof fn lemma_definition_agree(
    label: Seq<char>,
    d: AnimationDefinition,
    sprite: bool,
    root: Seq<char>,
    e1: Seq<String>,
    e2: Seq<String>,
)
    requires
        sprite ==> agree_on(e1, e2, d.frames@.map_values(|f: String| f@)),
    ensures
        check_definition(label, d, sprite, root, e1) == check_definition(label, d, sprite, root, e2),
{
    lemma_frames_agree(d.frames@, sprite, root, e1, e2);
}

proof fn lemma_split_agree(e1: Seq<String>, e2: Seq<String>, a: Seq<Seq<char>>, b: Seq<Seq<char>>)
    requires
        agree_on(e1, e2, a + b),
    ensures
        agree_on(e1, e2, a),
        agree_on(e1, e2, b),
{
    assert forall|i: int| 0 <= i < a.len() implies asset_exists(e1, #[trigger] a[i]) == asset_exists(e2, a[i]) by {
        assert((a + b)[i] == a[i]);
    }
    assert forall|i: int| 0 <= i < b.len() implies asset_exists(e1, #[trigger] b[i]) == asset_exists(e2, b[i]) by {
        assert((a + b)[a.len() + i] == b[i]);
    }
}

proof fn lemma_animations_agree(
    entries: Seq<(AnimationKey, AnimationDefinition)>,
    sprite: bool,
    root: Seq<char>,
    e1: Seq<String>,
    e2: Seq<String>,
)
    requires
        sprite ==> agree_on(e1, e2, animation_frames(entries)),
    ensures
        check_animations(entries, sprite, root, e1) == check_animations(entries, sprite, root, e2),
    decreases entries.len(),
{
    if entries.len() > 0 {
        if sprite {
            lemma_split_agree(
                e1,
                e2,
                entries[0].1.frames@.map_values(|f: String| f@),
                animation_frames(entries.drop_first()),
            );
        }
        lemma_definition_agree(animation_key_name(entries[0].0), entries[0].1, sprite, root, e1, e2);
        lemma_animations_agree(entries.drop_first(), sprite, root, e1, e2);
    }
}

proof fn lemma_interactions_agree(
    entries: Seq<(InteractionAnimationKey, AnimationDefinition)>,
    sprite: bool,
    root: Seq<char>,
    e1: Seq<String>,
    e2: Seq<String>,
)
    requires
        sprite ==> agree_on(e1, e2, interaction_frames(entries)),
    ensures
        check_interactions(entries, sprite, root, e1) == check_interactions(entries, sprite, root, e2),
    decreases entries.len(),
{
    if entries.len() > 0 {
        if sprite {
            lemma_split_agree(
                e1,
                e2,
                entries[0].1.frames@.map_values(|f: String| f@),
                interaction_frames(entries.drop_first()),
            );
        }
        lemma_definition_agree(interaction_key_name(entries[0].0), entries[0].1, sprite, root, e1, e2);
        lemma_interactions_agree(entries.drop_first(), sprite, root, e1, e2);
    }
}

/// Validation looks only at the files the manifest refers to: two lists of
/// existing files that agree on every path in `spec_referenced_assets(m)`
/// give the same validation result.
pub proof fn law_validation_reads_only_referenced_assets(
    root: Seq<char>,
    m: PetManifest,
    e1: Seq<String>,
    e2: Seq<String>,
)
    requires
        forall|r: Seq<char>| #[trigger] spec_referenced_assets(m).contains(r) ==> asset_exists(e1, r) == asset_exists(e2, r),
    ensures
        spec_validate_manifest(root, m, e1) == spec_validate_manifest(root, m, e2),
{
    let refs = spec_referenced_assets(m);
    assert(agree_on(e1, e2, refs)) by {
        assert forall|i: int| 0 <= i < refs.len() implies asset_exists(e1, #[trigger] refs[i]) == asset_exists(e2, refs[i]) by {
            assert(refs.contains(refs[i]));
        }
    }
    let sprite = m.renderer == RendererKind::Sprite;
    if sprite {
        let frames = animation_frames(m.animations@) + interaction_frames(m.interactions@);
        assert(refs =~= frames);
        lemma_split_agree(e1, e2, animation_frames(m.animations@), interaction_frames(m.interactions@));
    }
    lemma_animations_agree(m.animations@, sprite, root, e1, e2);
    lemma_interactions_agree(m.interactions@, sprite, root, e1, e2);
    if m.renderer == RendererKind::Spine {
        if let Some(s) = m.spine {
            assert(refs =~= seq![s.skeleton@, s.atlas@]);
            assert(refs[0] == s.skeleton@ && refs[1] == s.atlas@);
        }
    }
    if m.renderer == RendererKind::Model3d {
        if let Some(md) = m.model3d {
            assert(refs =~= seq![md.source@]);
            assert(refs[0] == md.source@);
        }
    }
}

} // verus!
