//! Decision logic of Sena, a context-aware desktop companion: what the pet
//! should do for a given desktop context, how a pet package is validated and
//! animated, and the small rules that the platform layer applies to the
//! events it receives.

pub mod activity;
pub mod animation;
pub mod behavior;
pub mod context;
pub mod interaction;
pub mod motion;
pub mod package;
pub mod paths;
pub mod platform;
pub mod preferences;
pub mod render;
pub mod shell;
pub mod sprite;
pub mod text;
pub mod validate;
