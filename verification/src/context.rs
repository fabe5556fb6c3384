//! Snapshot of the desktop state that the behavior engine reads.

use vstd::prelude::*;

verus! {

/// Whether some media session is currently playing.
#[derive(Debug, Clone, Copy, PartialEq, Eq, Structural)]
pub enum MediaState {
    Stopped,
    Playing,
}

impl Default for MediaState {
    fn default() -> (m: MediaState)
        ensures
            m == MediaState::Stopped,
    {
        MediaState::Stopped
    }
}

/// How long the user has been away from keyboard and mouse, in coarse steps.
#[derive(Debug, Clone, Copy, PartialEq, Eq, Structural)]
pub enum UserActivity {
    Active,
    Drowsy,
    Idle,
}

impl Default for UserActivity {
    fn default() -> (a: UserActivity)
        ensures
            a == UserActivity::Active,
    {
        UserActivity::Active
    }
}

/// Period of the local day; it selects how quickly the pet gets sleepy.
#[derive(Debug, Clone, Copy, PartialEq, Eq, Structural)]
pub enum DayPhase {
    Morning,
    Day,
    Evening,
    LateNight,
}

/// The day phase of an hour of the local clock (taken modulo 24).
pub open spec fn spec_day_phase(hour: int) -> DayPhase {
    let h = hour % 24;
    if 6 <= h <= 10 {
        DayPhase::Morning
    } else if 11 <= h <= 17 {
        DayPhase::Day
    } else if 18 <= h <= 22 {
        DayPhase::Evening
    } else {
        DayPhase::LateNight
    }
}

/// Seconds of input idleness after which the user counts as drowsy, then as idle.
pub open spec fn spec_idle_thresholds(phase: DayPhase) -> (u64, u64) {
    match phase {
        DayPhase::Morning | DayPhase::Day => (300, 600),
        DayPhase::Evening => (240, 540),
        DayPhase::LateNight => (180, 420),
    }
}

impl DayPhase {
    pub fn from_hour(hour: u8) -> (phase: DayPhase)
        ensures
            phase == spec_day_phase(hour as int),
    {
        let h = hour % 24;
        if 6 <= h && h <= 10 {
            DayPhase::Morning
        } else if 11 <= h && h <= 17 {
            DayPhase::Day
        } else if 18 <= h && h <= 22 {
            DayPhase::Evening
        } else {
            DayPhase::LateNight
        }
    }

    pub fn idle_threshold_seconds(self) -> (thresholds: (u64, u64))
        ensures
            thresholds == spec_idle_thresholds(self),
    {
        match self {
            DayPhase::Morning | DayPhase::Day => (5 * 60, 10 * 60),
            DayPhase::Evening => (4 * 60, 9 * 60),
            DayPhase::LateNight => (3 * 60, 7 * 60),
        }
    }
}

/// ASCII case folding of one character, as a code point.
pub open spec fn ascii_fold(c: char) -> u32 {
    if 'A' <= c && c <= 'Z' {
        (c as u32 + 32) as u32
    } else {
        c as u32
    }
}

/// Two strings are equal when ASCII letters are compared without regard to case.
pub open spec fn ascii_eq_ignore_case(a: Seq<char>, b: Seq<char>) -> bool {
    &&& a.len() == b.len()
    &&& forall|i: int| 0 <= i < a.len() ==> ascii_fold(#[trigger] a[i]) == ascii_fold(b[i])
}

/// Executable names of the editors and IDEs that count as coding.
pub open spec fn coding_process_names() -> Seq<Seq<char>> {
    seq![
        "codex.exe"@,
        "code.exe"@,
        "cursor.exe"@,
        "idea64.exe"@,
        "clion64.exe"@,
        "rustrover64.exe"@,
    ]
}

pub open spec fn spec_is_known_coding_process(process: Seq<char>) -> bool {
    exists|i: int|
        0 <= i < coding_process_names().len() && ascii_eq_ignore_case(
            process,
            #[trigger] coding_process_names()[i],
        )
}

fn fold_char(c: char) -> (folded: u32)
    ensures
        folded == ascii_fold(c),
{
    if 'A' <= c && c <= 'Z' {
        (c as u32) + 32
    } else {
        c as u32
    }
}

/// Compares two strings, ignoring the case of ASCII letters.
pub fn eq_ignore_ascii_case(a: &str, b: &str) -> (equal: bool)
    ensures
        equal == ascii_eq_ignore_case(a@, b@),
{
    let len = a.unicode_len();
    if len != b.unicode_len() {
        return false;
    }
    let mut i: usize = 0;
    while i < len
        invariant
            len == a@.len(),
            len == b@.len(),
            i <= len,
            forall|j: int| 0 <= j < i ==> ascii_fold(#[trigger] a@[j]) == ascii_fold(b@[j]),
        decreases len - i,
    {
        if fold_char(a.get_char(i)) != fold_char(b.get_char(i)) {
            return false;
        }
        i = i + 1;
    }
    true
}

/// Whether a foreground executable name belongs to a known coding tool.
pub fn is_known_coding_process(process: &str) -> (known: bool)
    ensures
        known == spec_is_known_coding_process(process@),
{
    let names: [&str; 6] = [
        "codex.exe",
        "code.exe",
        "cursor.exe",
        "idea64.exe",
        "clion64.exe",
        "rustrover64.exe",
    ];
    let mut i: usize = 0;
    while i < 6
        invariant
            i <= 6,
            forall|k: int| 0 <= k < 6 ==> (#[trigger] names@[k])@ == coding_process_names()[k],
            forall|k: int| 0 <= k < i ==> !ascii_eq_ignore_case(process@, #[trigger] coding_process_names()[k]),
        decreases 6 - i,
    {
        if eq_ignore_ascii_case(process, names[i]) {
            return true;
        }
        i = i + 1;
    }
    false
}

/// Lightweight snapshot of the desktop state.
#[derive(Debug, Clone, PartialEq, Eq)]
pub struct DesktopContext {
    pub foreground_process: Option<String>,
    pub media: MediaState,
    pub user_activity: UserActivity,
    pub session_locked: bool,
    pub typing_active: bool,
    pub music_motion_active: bool,
    pub drowsy_motion_active: bool,
    pub sleeping_motion_active: bool,
}

impl DesktopContext {
    pub open spec fn spec_is_coding(&self) -> bool {
        match self.foreground_process {
            Some(p) => spec_is_known_coding_process(p@),
            None => false,
        }
    }

    /// An empty desktop: nothing in front, no media, an active and unlocked user.
    pub fn new() -> (context: DesktopContext)
        ensures
            context.foreground_process is None,
            context.media == MediaState::Stopped,
            context.user_activity == UserActivity::Active,
            !context.session_locked,
            !context.typing_active,
            !context.music_motion_active,
            !context.drowsy_motion_active,
            !context.sleeping_motion_active,
    {
        DesktopContext {
            foreground_process: None,
            media: MediaState::Stopped,
            user_activity: UserActivity::Active,
            session_locked: false,
            typing_active: false,
            music_motion_active: false,
            drowsy_motion_active: false,
            sleeping_motion_active: false,
        }
    }

    pub fn is_coding(&self) -> (coding: bool)
        ensures
            coding == self.spec_is_coding(),
    {
        match &self.foreground_process {
            Some(process) => is_known_coding_process(process.as_str()),
            None => false,
        }
    }
}

impl Default for DesktopContext {
    fn default() -> (context: DesktopContext)
        ensures
            context.foreground_process is None,
            context.media == MediaState::Stopped,
            context.user_activity == UserActivity::Active,
            !context.session_locked,
            !context.typing_active,
            !context.music_motion_active,
            !context.drowsy_motion_active,
            !context.sleeping_motion_active,
    {
        DesktopContext::new()
    }
}

/// The day phase depends only on the hour modulo 24.
pub proof fn law_day_phase_periodic(hour: int)
    ensures
        spec_day_phase(hour) == spec_day_phase(hour + 24),
{
}

} // verus!
