//! How the desktop context reacts to events: input idleness, foreground
//! changes, keyboard pulses, session locks, media changes, and the short
//! motion bursts that keep a drowsy, sleeping or listening pet alive.

use vstd::prelude::*;

use crate::context::{
    spec_idle_thresholds, DayPhase, DesktopContext, MediaState, UserActivity,
};

verus! {

/// The activity level after `idle_ms` milliseconds without input.
pub open spec fn spec_classify_activity(idle_ms: u64, phase: DayPhase) -> UserActivity {
    let (drowsy_after, sleeping_after) = spec_idle_thresholds(phase);
    if idle_ms >= sleeping_after * 1000 {
        UserActivity::Idle
    } else if idle_ms >= drowsy_after * 1000 {
        UserActivity::Drowsy
    } else {
        UserActivity::Active
    }
}

pub fn classify_activity(idle_ms: u64, phase: DayPhase) -> (activity: UserActivity)
    ensures
        activity == spec_classify_activity(idle_ms, phase),
{
    let (drowsy_after, sleeping_after) = phase.idle_threshold_seconds();
    if idle_ms >= sleeping_after * 1000 {
        UserActivity::Idle
    } else if idle_ms >= drowsy_after * 1000 {
        UserActivity::Drowsy
    } else {
        UserActivity::Active
    }
}

/// Updates the activity level from a measured idle time; no measurement
/// changes nothing. Returns whether the level changed.
pub fn refresh_user_activity(
    context: &mut DesktopContext,
    idle_ms: Option<u64>,
    phase: DayPhase,
) -> (changed: bool)
    ensures
        match idle_ms {
            None => *final(context) == *old(context) && !changed,
            Some(ms) => {
                &&& final(context).user_activity == spec_classify_activity(ms, phase)
                &&& changed == (old(context).user_activity != spec_classify_activity(ms, phase))
                &&& *final(context) == (DesktopContext { user_activity: spec_classify_activity(ms, phase), ..*old(context) })
            },
        },
{
    let ms = match idle_ms {
        Some(ms) => ms,
        None => return false,
    };
    let activity = classify_activity(ms, phase);
    if context.user_activity == activity {
        false
    } else {
        context.user_activity = activity;
        true
    }
}

pub open spec fn spec_sleeping_allows_motion(c: DesktopContext) -> bool {
    c.user_activity == UserActivity::Idle && c.media != MediaState::Playing && !c.session_locked
}

pub open spec fn spec_drowsy_allows_motion(c: DesktopContext) -> bool {
    c.user_activity == UserActivity::Drowsy && c.media != MediaState::Playing && !c.session_locked
}

pub open spec fn spec_music_allows_motion(c: DesktopContext) -> bool {
    c.media == MediaState::Playing && !c.session_locked
}

/// Sleeping motion needs an idle user, no media and an unlocked session.
pub fn sleeping_context_allows_motion(context: &DesktopContext) -> (allowed: bool)
    ensures
        allowed == spec_sleeping_allows_motion(*context),
{
    context.user_activity == UserActivity::Idle && context.media != MediaState::Playing
        && !context.session_locked
}

/// Drowsy motion needs a drowsy user, no media and an unlocked session.
pub fn drowsy_context_allows_motion(context: &DesktopContext) -> (allowed: bool)
    ensures
        allowed == spec_drowsy_allows_motion(*context),
{
    context.user_activity == UserActivity::Drowsy && context.media != MediaState::Playing
        && !context.session_locked
}

/// Music motion needs playing media and an unlocked session.
pub fn music_context_allows_motion(context: &DesktopContext) -> (allowed: bool)
    ensures
        allowed == spec_music_allows_motion(*context),
{
    context.media == MediaState::Playing && !context.session_locked
}

/// Which motion a burst schedule drives.
#[derive(Debug, Clone, Copy, PartialEq, Eq, Structural)]
pub enum MotionKind {
    Sleeping,
    Drowsy,
    Music,
}

/// Seconds of rest before burst number `cycle`; each kind cycles through four
/// irregular pauses.
pub open spec fn spec_rest_seconds(kind: MotionKind, cycle: u64) -> u64 {
    let i = cycle % 4;
    match kind {
        MotionKind::Sleeping => if i == 0 { 35 } else if i == 1 { 52 } else if i == 2 { 43 } else { 61 },
        MotionKind::Drowsy => if i == 0 { 18 } else if i == 1 { 27 } else if i == 2 { 22 } else { 31 },
        MotionKind::Music => if i == 0 { 7 } else if i == 1 { 11 } else if i == 2 { 9 } else { 13 },
    }
}

pub open spec fn spec_burst_ms(kind: MotionKind) -> u64 {
    match kind {
        MotionKind::Sleeping => 2400,
        MotionKind::Drowsy => 1600,
        MotionKind::Music => 900,
    }
}

pub fn rest_seconds(kind: MotionKind, cycle: u64) -> (seconds: u64)
    ensures
        seconds == spec_rest_seconds(kind, cycle),
{
    let i = cycle % 4;
    match kind {
        MotionKind::Sleeping => if i == 0 { 35 } else if i == 1 { 52 } else if i == 2 { 43 } else { 61 },
        MotionKind::Drowsy => if i == 0 { 18 } else if i == 1 { 27 } else if i == 2 { 22 } else { 31 },
        MotionKind::Music => if i == 0 { 7 } else if i == 1 { 11 } else if i == 2 { 9 } else { 13 },
    }
}

/// How long one motion burst lasts, in milliseconds.
pub fn burst_ms(kind: MotionKind) -> (ms: u64)
    ensures
        ms == spec_burst_ms(kind),
{
    match kind {
        MotionKind::Sleeping => 2400,
        MotionKind::Drowsy => 1600,
        MotionKind::Music => 900,
    }
}

pub open spec fn with_motion_flag(c: DesktopContext, kind: MotionKind, on: bool) -> DesktopContext {
    match kind {
        MotionKind::Sleeping => DesktopContext { sleeping_motion_active: on, ..c },
        MotionKind::Drowsy => DesktopContext { drowsy_motion_active: on, ..c },
        MotionKind::Music => DesktopContext { music_motion_active: on, ..c },
    }
}

pub open spec fn spec_allows_motion(c: DesktopContext, kind: MotionKind) -> bool {
    match kind {
        MotionKind::Sleeping => spec_sleeping_allows_motion(c),
        MotionKind::Drowsy => spec_drowsy_allows_motion(c),
        MotionKind::Music => spec_music_allows_motion(c),
    }
}

fn set_motion_flag(context: &mut DesktopContext, kind: MotionKind, on: bool)
    ensures
        *final(context) == with_motion_flag(*old(context), kind, on),
{
    match kind {
        MotionKind::Sleeping => context.sleeping_motion_active = on,
        MotionKind::Drowsy => context.drowsy_motion_active = on,
        MotionKind::Music => context.music_motion_active = on,
    }
}

fn allows_motion(context: &DesktopContext, kind: MotionKind) -> (allowed: bool)
    ensures
        allowed == spec_allows_motion(*context, kind),
{
    match kind {
        MotionKind::Sleeping => sleeping_context_allows_motion(context),
        MotionKind::Drowsy => drowsy_context_allows_motion(context),
        MotionKind::Music => music_context_allows_motion(context),
    }
}

/// Restarting a schedule stops the current burst; a new schedule starts only
/// when the context allows that motion and the package has a dedicated
/// animation for it.
pub fn restart_motion(
    context: &mut DesktopContext,
    kind: MotionKind,
    has_dedicated_animation: bool,
) -> (schedule: bool)
    ensures
        *final(context) == with_motion_flag(*old(context), kind, false),
        schedule == (spec_allows_motion(*final(context), kind) && has_dedicated_animation),
{
    set_motion_flag(context, kind, false);
    allows_motion(context, kind) && has_dedicated_animation
}

/// Seconds of input idleness that a burst of `kind` needs: the drowsy or
/// sleeping threshold of the day phase; music needs none.
pub open spec fn spec_burst_idle_seconds(kind: MotionKind, phase: DayPhase) -> u64 {
    match kind {
        MotionKind::Sleeping => spec_idle_thresholds(phase).1,
        MotionKind::Drowsy => spec_idle_thresholds(phase).0,
        MotionKind::Music => 0,
    }
}

pub open spec fn spec_burst_may_start(
    c: DesktopContext,
    kind: MotionKind,
    idle_ms: Option<u64>,
    phase: DayPhase,
) -> bool {
    &&& spec_allows_motion(c, kind)
    &&& (kind == MotionKind::Music || (idle_ms matches Some(ms) && ms >= spec_burst_idle_seconds(kind, phase) * 1000))
}

/// When the rest is over, a burst starts if the context still allows it and,
/// for drowsy and sleeping motion, the user has been idle long enough.
pub fn start_burst(
    context: &mut DesktopContext,
    kind: MotionKind,
    idle_ms: Option<u64>,
    phase: DayPhase,
) -> (started: bool)
    ensures
        started == spec_burst_may_start(*old(context), kind, idle_ms, phase),
        started ==> *final(context) == with_motion_flag(*old(context), kind, true),
        !started ==> *final(context) == *old(context),
{
    if !allows_motion(context, kind) {
        return false;
    }
    let long_enough = match kind {
        MotionKind::Music => true,
        MotionKind::Sleeping => match idle_ms {
            Some(ms) => ms >= phase.idle_threshold_seconds().1 * 1000,
            None => false,
        },
        MotionKind::Drowsy => match idle_ms {
            Some(ms) => ms >= phase.idle_threshold_seconds().0 * 1000,
            None => false,
        },
    };
    if !long_enough {
        return false;
    }
    set_motion_flag(context, kind, true);
    true
}

/// A burst ends; the schedule goes on while the context still allows it.
pub fn finish_burst(context: &mut DesktopContext, kind: MotionKind) -> (continue_schedule: bool)
    ensures
        *final(context) == with_motion_flag(*old(context), kind, false),
        continue_schedule == spec_allows_motion(*final(context), kind),
{
    set_motion_flag(context, kind, false);
    allows_motion(context, kind)
}

/// A new foreground process; a typing pulse ends when the new process is not
/// a coding tool. Returns whether typing was cleared.
pub fn apply_foreground_change(
    context: &mut DesktopContext,
    process: String,
) -> (typing_cleared: bool)
    ensures
        final(context).foreground_process == Some(process),
        typing_cleared == (!final(context).spec_is_coding() && old(context).typing_active),
        *final(context) == (DesktopContext {
            foreground_process: Some(process),
            typing_active: old(context).typing_active && !typing_cleared,
            ..*old(context)
        }),
{
    context.foreground_process = Some(process);
    if !context.is_coding() && context.typing_active {
        context.typing_active = false;
        true
    } else {
        false
    }
}

/// Keyboard activity counts only while a coding tool is in front of an
/// unlocked session.
pub fn keyboard_activity_applies(context: &DesktopContext) -> (applies: bool)
    ensures
        applies == (context.spec_is_coding() && !context.session_locked),
{
    context.is_coding() && !context.session_locked
}

/// A keyboard pulse while coding: typing starts and the user is active.
/// Returns (valid, changed).
pub fn apply_typing_pulse(context: &mut DesktopContext) -> (r: (bool, bool))
    ensures
        r.0 == (old(context).spec_is_coding() && !old(context).session_locked),
        !r.0 ==> *final(context) == *old(context) && !r.1,
        r.0 ==> *final(context) == (DesktopContext { typing_active: true, user_activity: UserActivity::Active, ..*old(context) }),
        r.0 ==> r.1 == (!old(context).typing_active || old(context).user_activity != UserActivity::Active),
{
    if !context.is_coding() || context.session_locked {
        (false, false)
    } else {
        let changed = !context.typing_active || context.user_activity != UserActivity::Active;
        context.typing_active = true;
        context.user_activity = UserActivity::Active;
        (true, changed)
    }
}

/// The typing pulse times out. Returns whether typing was active.
pub fn end_typing_pulse(context: &mut DesktopContext) -> (changed: bool)
    ensures
        changed == old(context).typing_active,
        *final(context) == (DesktopContext { typing_active: false, ..*old(context) }),
{
    if context.typing_active {
        context.typing_active = false;
        true
    } else {
        false
    }
}

/// What a lock or unlock did to the context.
#[derive(Debug, Clone, Copy, PartialEq, Eq, Structural)]
pub struct SessionChange {
    pub changed: bool,
    pub typing_cleared: bool,
    pub music_cleared: bool,
    pub media_playing: bool,
}

impl SessionChange {
    /// Whether the motion schedules must be restarted.
    pub open spec fn spec_needs_restart(self) -> bool {
        self.changed || self.typing_cleared || self.music_cleared
    }

    pub fn needs_restart(&self) -> (restart: bool)
        ensures
            restart == self.spec_needs_restart(),
    {
        self.changed || self.typing_cleared || self.music_cleared
    }
}

/// The session was locked or unlocked. Locking stops typing and music motion.
pub fn apply_session_change(context: &mut DesktopContext, locked: bool) -> (change: SessionChange)
    ensures
        change.changed == (old(context).session_locked != locked),
        change.typing_cleared == (locked && old(context).typing_active),
        change.music_cleared == (locked && old(context).music_motion_active),
        change.media_playing == (old(context).media == MediaState::Playing),
        *final(context) == (DesktopContext {
            session_locked: locked,
            typing_active: old(context).typing_active && !locked,
            music_motion_active: old(context).music_motion_active && !locked,
            ..*old(context)
        }),
{
    let changed = context.session_locked != locked;
    context.session_locked = locked;
    let typing_cleared = locked && context.typing_active;
    if typing_cleared {
        context.typing_active = false;
    }
    let music_cleared = locked && context.music_motion_active;
    if music_cleared {
        context.music_motion_active = false;
    }
    SessionChange {
        changed,
        typing_cleared,
        music_cleared,
        media_playing: context.media == MediaState::Playing,
    }
}

/// The media state changed; music motion stops, and a new music schedule
/// starts when media plays in an unlocked session.
pub fn apply_media_change(context: &mut DesktopContext, media: MediaState) -> (schedule_music: bool)
    ensures
        *final(context) == (DesktopContext { media, music_motion_active: false, ..*old(context) }),
        schedule_music == (media == MediaState::Playing && !old(context).session_locked),
{
    context.media = media;
    context.music_motion_active = false;
    media == MediaState::Playing && !context.session_locked
}

/// Each day phase gets drowsy strictly before it gets idle, and the evening
/// and late night are gentler (quicker) than the day.
pub proof fn law_idle_thresholds_ordered(phase: DayPhase)
    ensures
        spec_idle_thresholds(phase).0 < spec_idle_thresholds(phase).1,
        spec_idle_thresholds(DayPhase::LateNight).0 < spec_idle_thresholds(DayPhase::Evening).0,
        spec_idle_thresholds(DayPhase::Evening).0 < spec_idle_thresholds(DayPhase::Day).0,
        spec_idle_thresholds(DayPhase::LateNight).1 < spec_idle_thresholds(DayPhase::Evening).1,
        spec_idle_thresholds(DayPhase::Evening).1 < spec_idle_thresholds(DayPhase::Day).1,
        spec_idle_thresholds(DayPhase::Morning) == spec_idle_thresholds(DayPhase::Day),
{
}

pub open spec fn activity_rank(a: UserActivity) -> int {
    match a {
        UserActivity::Active => 0,
        UserActivity::Drowsy => 1,
        UserActivity::Idle => 2,
    }
}

/// Longer idleness never makes the user more active: the activity level
/// only moves Active, then Drowsy, then Idle as idle time grows.
pub proof fn law_activity_monotone_in_idle_time(a: u64, b: u64, phase: DayPhase)
    requires
        a <= b,
    ensures
        activity_rank(spec_classify_activity(a, phase)) <= activity_rank(spec_classify_activity(b, phase)),
{
}

/// In a locked session no kind of motion is allowed, so no burst starts.
pub proof fn law_locked_session_is_still(
    c: DesktopContext,
    kind: MotionKind,
    idle_ms: Option<u64>,
    phase: DayPhase,
)
    requires
        c.session_locked,
    ensures
        !spec_burst_may_start(c, kind, idle_ms, phase),
        !spec_allows_motion(c, kind),
{
}

/// The rest pauses repeat every four bursts and never drop below the
/// length of the burst they precede.
pub proof fn law_rest_cycle(kind: MotionKind, cycle: u64)
    requires
        cycle <= u64::MAX - 4,
    ensures
        spec_rest_seconds(kind, cycle) == spec_rest_seconds(kind, (cycle + 4) as u64),
        spec_rest_seconds(kind, cycle) * 1000 > spec_burst_ms(kind),
{
}

/// Music motion does not wait for the user to go idle: a music burst starts
/// exactly when media plays in an unlocked session, whatever the idle time
/// and the day phase.
pub proof fn law_music_bursts_ignore_idle_time(
    c: DesktopContext,
    idle_ms: Option<u64>,
    phase: DayPhase,
)
    ensures
        spec_burst_may_start(c, MotionKind::Music, idle_ms, phase) == (c.media == MediaState::Playing
            && !c.session_locked),
{
}

} // verus!
