//! What the pet should be doing, decided from the desktop context alone.

use vstd::prelude::*;

use crate::context::{DesktopContext, MediaState, UserActivity};

verus! {

/// The semantic state that renderers turn into animation.
#[derive(Debug, Clone, Copy, PartialEq, Eq, Structural)]
pub enum Behavior {
    Idle,
    Coding,
    ListeningMusic,
    CodingWithMusic,
    Drowsy,
    Sleeping,
}

/// The behavior of a context: a locked session sleeps; without playing media
/// an idle user sleeps and a drowsy user is drowsy; otherwise coding and
/// music combine.
pub open spec fn spec_resolve(
    session_locked: bool,
    media: MediaState,
    activity: UserActivity,
    coding: bool,
) -> Behavior {
    let playing = media == MediaState::Playing;
    if session_locked {
        Behavior::Sleeping
    } else if !playing && activity == UserActivity::Idle {
        Behavior::Sleeping
    } else if !playing && activity == UserActivity::Drowsy {
        Behavior::Drowsy
    } else if coding && playing {
        Behavior::CodingWithMusic
    } else if coding {
        Behavior::Coding
    } else if playing {
        Behavior::ListeningMusic
    } else {
        Behavior::Idle
    }
}

pub open spec fn spec_resolve_context(context: DesktopContext) -> Behavior {
    spec_resolve(
        context.session_locked,
        context.media,
        context.user_activity,
        context.spec_is_coding(),
    )
}

impl Default for Behavior {
    fn default() -> (b: Behavior)
        ensures
            b == Behavior::Idle,
    {
        Behavior::Idle
    }
}

/// Maps desktop contexts to behaviors; it holds no state.
#[derive(Debug)]
pub struct BehaviorEngine;

impl Default for BehaviorEngine {
    fn default() -> (engine: BehaviorEngine) {
        BehaviorEngine
    }
}

impl BehaviorEngine {
    pub fn resolve(&self, context: &DesktopContext) -> (behavior: Behavior)
        ensures
            behavior == spec_resolve_context(*context),
    {
        if context.session_locked {
            return Behavior::Sleeping;
        }
        let playing = match context.media {
            MediaState::Playing => true,
            MediaState::Stopped => false,
        };
        if !playing {
            match context.user_activity {
                UserActivity::Idle => return Behavior::Sleeping,
                UserActivity::Drowsy => return Behavior::Drowsy,
                UserActivity::Active => {},
            }
        }
        let coding = context.is_coding();
        if coding && playing {
            Behavior::CodingWithMusic
        } else if coding {
            Behavior::Coding
        } else if playing {
            Behavior::ListeningMusic
        } else {
            Behavior::Idle
        }
    }
}

/// A locked session always sleeps, whatever else the context holds.
pub proof fn law_locked_session_has_priority(context: DesktopContext)
    requires
        context.session_locked,
    ensures
        spec_resolve_context(context) == Behavior::Sleeping,
{
}

/// While media plays in an unlocked session, input idleness never makes the
/// pet drowsy or asleep: it listens to music, coding or not.
pub proof fn law_playing_media_prevents_idle_sleep(context: DesktopContext)
    requires
        !context.session_locked,
        context.media == MediaState::Playing,
    ensures
        spec_resolve_context(context) == (if context.spec_is_coding() {
            Behavior::CodingWithMusic
        } else {
            Behavior::ListeningMusic
        }),
{
}

/// Without media, a drowsy user gets the Drowsy behavior and an idle user the
/// Sleeping one, so the pet passes through drowsiness before it sleeps.
pub proof fn law_drowsy_before_sleeping(context: DesktopContext)
    requires
        !context.session_locked,
        context.media == MediaState::Stopped,
    ensures
        context.user_activity == UserActivity::Drowsy ==> spec_resolve_context(context)
            == Behavior::Drowsy,
        context.user_activity == UserActivity::Idle ==> spec_resolve_context(context)
            == Behavior::Sleeping,
{
}

} // verus!
