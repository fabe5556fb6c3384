//! The user's saved preferences and the rules that keep them sane.
//! Scales are held as the bits of IEEE-754 binary32 numbers.

use vstd::prelude::*;

verus! {

/// Bits of the binary32 value 1.0.
pub const DEFAULT_SCALE_BITS: u32 = 0x3F80_0000;

/// Bits of the binary32 value 0.6, the smallest user scale.
pub const MIN_SCALE_BITS: u32 = 0x3F19_999A;

/// Bits of the binary32 value 1.4, the largest user scale.
pub const MAX_SCALE_BITS: u32 = 0x3FB3_3333;

/// The binary32 number with these bits is an infinity or a NaN.
pub open spec fn bits_not_finite(bits: u32) -> bool {
    bits & 0x7F80_0000 == 0x7F80_0000
}

/// The binary32 number with these bits has its sign bit set.
pub open spec fn bits_negative(bits: u32) -> bool {
    bits >= 0x8000_0000
}

/// A scale made safe to use: a non-finite scale becomes 1.0, and a finite one
/// is clamped to the range 0.6 ..= 1.4. Non-negative finite binary32 numbers
/// are ordered as their bit patterns, and every negative number (and -0.0)
/// lies below 0.6.
pub open spec fn spec_normalize_scale_bits(bits: u32) -> u32 {
    if bits_not_finite(bits) {
        DEFAULT_SCALE_BITS
    } else if bits_negative(bits) || bits < MIN_SCALE_BITS {
        MIN_SCALE_BITS
    } else if bits > MAX_SCALE_BITS {
        MAX_SCALE_BITS
    } else {
        bits
    }
}

pub fn normalize_scale_bits(bits: u32) -> (normalized: u32)
    ensures
        normalized == spec_normalize_scale_bits(bits),
{
    if bits & 0x7F80_0000 == 0x7F80_0000 {
        DEFAULT_SCALE_BITS
    } else if bits >= 0x8000_0000 || bits < MIN_SCALE_BITS {
        MIN_SCALE_BITS
    } else if bits > MAX_SCALE_BITS {
        MAX_SCALE_BITS
    } else {
        bits
    }
}

#[derive(Debug, Clone, Copy, PartialEq, Eq, Structural)]
pub struct Preferences {
    pub window_x: Option<i32>,
    pub window_y: Option<i32>,
    pub scale_bits: u32,
    pub always_on_top: bool,
    pub onboarding_completed: bool,
}

pub open spec fn default_preferences() -> Preferences {
    Preferences {
        window_x: None,
        window_y: None,
        scale_bits: DEFAULT_SCALE_BITS,
        always_on_top: true,
        onboarding_completed: false,
    }
}

impl Default for Preferences {
    fn default() -> (p: Preferences)
        ensures
            p == default_preferences(),
    {
        Preferences {
            window_x: None,
            window_y: None,
            scale_bits: DEFAULT_SCALE_BITS,
            always_on_top: true,
            onboarding_completed: false,
        }
    }
}

impl Preferences {
    pub open spec fn spec_position(self) -> Option<(i32, i32)> {
        match (self.window_x, self.window_y) {
            (Some(x), Some(y)) => Some((x, y)),
            _ => None,
        }
    }

    /// The preferences with a safe scale.
    pub fn normalized(self) -> (p: Preferences)
        ensures
            p == (Preferences { scale_bits: spec_normalize_scale_bits(self.scale_bits), ..self }),
    {
        Preferences { scale_bits: normalize_scale_bits(self.scale_bits), ..self }
    }

    /// The saved window position, when both coordinates were saved.
    pub fn position(&self) -> (position: Option<(i32, i32)>)
        ensures
            position == self.spec_position(),
    {
        match (self.window_x, self.window_y) {
            (Some(x), Some(y)) => Some((x, y)),
            _ => None,
        }
    }
}

/// Preferences together with the file they are saved to.
#[derive(Debug, Clone)]
pub struct PreferencesStore {
    path: String,
    value: Preferences,
}

impl PreferencesStore {
    pub closed spec fn spec_value(&self) -> Preferences {
        self.value
    }

    pub closed spec fn spec_path(&self) -> Seq<char> {
        self.path@
    }

    /// The file the preferences are saved to.
    pub fn path(&self) -> (path: &str)
        ensures
            path@ == self.spec_path(),
    {
        self.path.as_str()
    }

    /// A store for `path` holding what was read from it, normalized; the
    /// defaults when nothing could be read.
    pub fn from_loaded(path: String, loaded: Option<Preferences>) -> (store: PreferencesStore)
        ensures
            store.spec_path() == path@,
            store.spec_value() == (match loaded {
                Some(p) => Preferences { scale_bits: spec_normalize_scale_bits(p.scale_bits), ..p },
                None => Preferences { scale_bits: spec_normalize_scale_bits(DEFAULT_SCALE_BITS), ..default_preferences() },
            }),
    {
        let value = match loaded {
            Some(p) => p,
            None => Preferences::default(),
        };
        PreferencesStore { path, value: value.normalized() }
    }

    pub fn value(&self) -> (value: &Preferences)
        ensures
            *value == self.spec_value(),
    {
        &self.value
    }

    pub fn set_position(&mut self, x: i32, y: i32)
        ensures
            final(self).spec_path() == old(self).spec_path(),
            final(self).spec_value() == (Preferences { window_x: Some(x), window_y: Some(y), ..old(self).spec_value() }),
    {
        self.value.window_x = Some(x);
        self.value.window_y = Some(y);
    }

    /// Stores a scale made safe by [`normalize_scale_bits`].
    pub fn set_scale(&mut self, scale_bits: u32)
        ensures
            final(self).spec_path() == old(self).spec_path(),
            final(self).spec_value() == (Preferences { scale_bits: spec_normalize_scale_bits(scale_bits), ..old(self).spec_value() }),
    {
        self.value.scale_bits = normalize_scale_bits(scale_bits);
    }

    pub fn set_always_on_top(&mut self, enabled: bool)
        ensures
            final(self).spec_path() == old(self).spec_path(),
            final(self).spec_value() == (Preferences { always_on_top: enabled, ..old(self).spec_value() }),
    {
        self.value.always_on_top = enabled;
    }

    pub fn set_onboarding_completed(&mut self, completed: bool)
        ensures
            final(self).spec_path() == old(self).spec_path(),
            final(self).spec_value() == (Preferences { onboarding_completed: completed, ..old(self).spec_value() }),
    {
        self.value.onboarding_completed = completed;
    }
}

/// A normalized scale lies in 0.6 ..= 1.4, and normalizing again changes nothing.
pub proof fn law_normalized_scale_is_stable(bits: u32)
    ensures
        MIN_SCALE_BITS <= spec_normalize_scale_bits(bits) <= MAX_SCALE_BITS,
        spec_normalize_scale_bits(spec_normalize_scale_bits(bits)) == spec_normalize_scale_bits(bits),
        MIN_SCALE_BITS <= bits <= MAX_SCALE_BITS ==> spec_normalize_scale_bits(bits) == bits,
{
    assert(MIN_SCALE_BITS & 0x7F80_0000 != 0x7F80_0000) by (bit_vector);
    assert(MAX_SCALE_BITS & 0x7F80_0000 != 0x7F80_0000) by (bit_vector);
    assert(bits < 0x7F80_0000 ==> bits & 0x7F80_0000 != 0x7F80_0000) by (bit_vector);
}

/// A saved position is read back as it was saved.
pub proof fn law_position_round_trip(p: Preferences, x: i32, y: i32)
    ensures
        (Preferences { window_x: Some(x), window_y: Some(y), ..p }).spec_position() == Some((x, y)),
{
}

} // verus!
