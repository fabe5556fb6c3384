//! Sprite frames decoded into RGBA pixels, each frame file at most once:
//! a cache keyed by the frame's path remembers the first result, failures
//! included, until it is cleared.

use vstd::prelude::*;

use crate::paths::{extension_is_one_of, has_extension};

verus! {

/// A decoded frame: its size and its pixels, four bytes (R, G, B, A) each,
/// row after row.
pub struct DecodedSprite {
    pub width: u32,
    pub height: u32,
    pub rgba: Vec<u8>,
}

/// A decoded frame as plain values: width, height and pixel bytes.
pub type SpriteView = (u32, u32, Seq<u8>);

impl View for DecodedSprite {
    type V = SpriteView;

    open spec fn view(&self) -> SpriteView {
        (self.width, self.height, self.rgba@)
    }
}

/// A decoding result as plain values.
pub open spec fn sprite_view(sprite: Option<DecodedSprite>) -> Option<SpriteView> {
    match sprite {
        Some(s) => Some(s@),
        None => None,
    }
}

/// The image formats this build can decode.
#[derive(Debug, Clone, Copy, PartialEq, Eq, Structural)]
pub enum SpriteFormat {
    Png,
    WebP,
}

/// The format a frame file is decoded as, chosen by its extension (ignoring
/// ASCII case): `png` and `apng` are PNG, `webp` is WebP. Any other
/// extension, or none, names no format this build decodes.
pub open spec fn spec_sprite_format(path: Seq<char>) -> Option<SpriteFormat> {
    if extension_is_one_of(path, "png"@, "apng"@) {
        Some(SpriteFormat::Png)
    } else if extension_is_one_of(path, "webp"@, "webp"@) {
        Some(SpriteFormat::WebP)
    } else {
        None
    }
}

pub fn sprite_format(path: &str) -> (format: Option<SpriteFormat>)
    ensures
        format == spec_sprite_format(path@),
{
    if has_extension(path, "png", "apng") {
        Some(SpriteFormat::Png)
    } else if has_extension(path, "webp", "webp") {
        Some(SpriteFormat::WebP)
    } else {
        None
    }
}

/// What the `image` crate makes of an encoded image file read as `format`:
/// its size and RGBA8 pixels, or None when the bytes are no image of that
/// format.
pub uninterp spec fn spec_decode_rgba8(bytes: Seq<u8>, format: SpriteFormat) -> Option<(u32, u32, Seq<u8>)>;

/// Calls `image::load_from_memory_with_format`, which decodes the bytes with
/// the decoder of the given format only, then converts the image to 8-bit
/// RGBA. The contract claims only that the result is a function of the bytes
/// and the format, named by `spec_decode_rgba8`.
#[verifier::external_body]
fn decode_sprite(bytes: &[u8], format: SpriteFormat) -> (sprite: Option<DecodedSprite>)
    ensures
        sprite_view(sprite) == spec_decode_rgba8(bytes@, format),
{
    let format = match format {
        SpriteFormat::Png => image::ImageFormat::Png,
        SpriteFormat::WebP => image::ImageFormat::WebP,
    };
    match image::load_from_memory_with_format(bytes, format) {
        Ok(decoded) => {
            let rgba = decoded.into_rgba8();
            Some(DecodedSprite { width: rgba.width(), height: rgba.height(), rgba: rgba.into_raw() })
        },
        Err(_) => None,
    }
}

/// The decoded frame of the file at `path` holding `bytes`; None when its
/// extension names no format this build decodes.
pub open spec fn spec_decoded_frame(path: Seq<char>, bytes: Seq<u8>) -> Option<SpriteView> {
    match spec_sprite_format(path) {
        Some(format) => spec_decode_rgba8(bytes, format),
        None => None,
    }
}

/// The cache as plain values: (frame path, decoding result) in insertion order.
pub type CacheView = Seq<(Seq<char>, Option<SpriteView>)>;

/// The result stored first under `path`, if any.
pub open spec fn cache_lookup(entries: CacheView, path: Seq<char>) -> Option<Option<SpriteView>>
    decreases entries.len(),
{
    if entries.len() == 0 {
        None
    } else if entries[0].0 == path {
        Some(entries[0].1)
    } else {
        cache_lookup(entries.drop_first(), path)
    }
}

/// Storing `result` under `path`: a path already cached keeps its first
/// result; a new path is appended.
pub open spec fn cache_store(entries: CacheView, path: Seq<char>, result: Option<SpriteView>) -> CacheView {
    if cache_lookup(entries, path) is Some {
        entries
    } else {
        entries.push((path, result))
    }
}

/// Decoded frames by path.
pub struct SpriteCache {
    entries: Vec<(String, Option<DecodedSprite>)>,
}

impl View for SpriteCache {
    type V = CacheView;

    closed spec fn view(&self) -> CacheView {
        self.entries@.map_values(|e: (String, Option<DecodedSprite>)| (e.0@, sprite_view(e.1)))
    }
}

impl SpriteCache {
    /// An empty cache.
    pub fn new() -> (cache: SpriteCache)
        ensures
            cache@ == Seq::<(Seq<char>, Option<SpriteView>)>::empty(),
    {
        let cache = SpriteCache { entries: Vec::new() };
        assert(cache@ =~= Seq::<(Seq<char>, Option<SpriteView>)>::empty());
        cache
    }

    /// The result cached for `path`: None when the path was never stored,
    /// Some(None) when its frame could not be read or decoded.
    pub fn get(&self, path: &String) -> (found: Option<&Option<DecodedSprite>>)
        ensures
            match found {
                Some(r) => cache_lookup(self@, path@) == Some(sprite_view(*r)),
                None => cache_lookup(self@, path@) is None,
            },
    {
        let mut i: usize = 0;
        assert(self@.subrange(0, self@.len() as int) =~= self@);
        while i < self.entries.len()
            invariant
                i <= self.entries@.len(),
                cache_lookup(self@, path@) == cache_lookup(self@.subrange(i as int, self@.len() as int), path@),
            decreases self.entries.len() - i,
        {
            let ghost rest = self@.subrange(i as int, self@.len() as int);
            assert(rest.drop_first() =~= self@.subrange(i + 1, self@.len() as int));
            assert(rest[0] == (self.entries@[i as int].0@, sprite_view(self.entries@[i as int].1)));
            if self.entries[i].0 == *path {
                return Some(&self.entries[i].1);
            }
            i = i + 1;
        }
        assert(self@.subrange(i as int, self@.len() as int) =~= Seq::<(Seq<char>, Option<SpriteView>)>::empty());
        None
    }

    /// Stores a decoding result under `path`, unless the path already has one.
    pub fn store(&mut self, path: &String, sprite: Option<DecodedSprite>)
        ensures
            final(self)@ == cache_store(old(self)@, path@, sprite_view(sprite)),
    {
        if self.get(path).is_some() {
            return;
        }
        let ghost before = self@;
        self.entries.push((path.clone(), sprite));
        assert(self@ =~= before.push((path@, sprite_view(sprite))));
    }

    /// Decodes the frame file `bytes` read from `path`, in the format its
    /// extension names, and caches the result, unless `path` is cached
    /// already: then nothing is decoded.
    pub fn load(&mut self, path: &String, bytes: &[u8])
        ensures
            final(self)@ == cache_store(old(self)@, path@, spec_decoded_frame(path@, bytes@)),
    {
        if self.get(path).is_some() {
            return;
        }
        let sprite = match sprite_format(path.as_str()) {
            Some(format) => decode_sprite(bytes, format),
            None => None,
        };
        self.store(path, sprite);
    }

    /// Forgets every frame, as a change of scale requires.
    pub fn clear(&mut self)
        ensures
            final(self)@ == Seq::<(Seq<char>, Option<SpriteView>)>::empty(),
    {
        self.entries = Vec::new();
        assert(self@ =~= Seq::<(Seq<char>, Option<SpriteView>)>::empty());
    }
}

proof fn lemma_lookup_push(entries: CacheView, entry: (Seq<char>, Option<SpriteView>), path: Seq<char>)
    ensures
        cache_lookup(entries.push(entry), path) == (match cache_lookup(entries, path) {
            Some(r) => Some(r),
            None => if entry.0 == path {
                Some(entry.1)
            } else {
                None
            },
        }),
    decreases entries.len(),
{
    let pushed = entries.push(entry);
    if entries.len() > 0 {
        assert(pushed[0] == entries[0]);
        assert(pushed.drop_first() =~= entries.drop_first().push(entry));
        lemma_lookup_push(entries.drop_first(), entry, path);
    } else {
        assert(pushed[0] == entry);
        assert(pushed.drop_first() =~= Seq::<(Seq<char>, Option<SpriteView>)>::empty());
        assert(cache_lookup(pushed.drop_first(), path) is None);
    }
}

/// A frame path is decoded at most once: after storing a result under
/// `path`, looking it up gives the first result ever stored there (the new
/// one only when the path was not cached), and other paths keep theirs.
pub proof fn law_cache_keeps_first_result(
    entries: CacheView,
    path: Seq<char>,
    result: Option<SpriteView>,
    other: Seq<char>,
)
    requires
        other != path,
    ensures
        cache_lookup(cache_store(entries, path, result), path) == Some(match cache_lookup(entries, path) {
            Some(first) => first,
            None => result,
        }),
        cache_lookup(cache_store(entries, path, result), other) == cache_lookup(entries, other),
        cache_store(cache_store(entries, path, result), path, result) == cache_store(entries, path, result),
{
    lemma_lookup_push(entries, (path, result), path);
    lemma_lookup_push(entries, (path, result), other);
}

/// A cleared cache holds no frame.
pub proof fn law_cleared_cache_is_empty(path: Seq<char>)
    ensures
        cache_lookup(Seq::<(Seq<char>, Option<SpriteView>)>::empty(), path) is None,
{
}

} // verus!
