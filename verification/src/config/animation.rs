//! How a window moves between its hidden and its shown state.

use crate::config::error;
use crate::config::error::{ConfigError, ConfigErrorKind};
use crate::text;
use vstd::prelude::*;

verus! {

/// What changes while a window appears or disappears.
#[derive(Debug, Clone, Copy, PartialEq, Eq, Structural)]
pub enum AnimationStyle {
    Off,
    Slide,
    Fade,
    SlideFade,
}

/// How the speed of an animation changes over its course.
#[derive(Debug, Clone, Copy, PartialEq, Eq, Structural)]
pub enum AnimationEasing {
    Linear,
    EaseOut,
    EaseInOut,
}

/// The animation of one app.
#[derive(Debug, Clone, Copy, PartialEq, Eq, Structural)]
pub struct AnimationConfig {
    pub style: AnimationStyle,
    pub easing: AnimationEasing,
    pub duration_ms: u16,
}

/// The animation of one app as it is written; what is left out has a default.
#[derive(Debug)]
pub struct RawAnimationConfig {
    pub style: Option<String>,
    pub easing: Option<String>,
    pub duration_ms: Option<u16>,
}

/// The longest animation, in milliseconds.
pub const MAX_DURATION_MS: u16 = 2_000;

/// The style that a text names.
pub open spec fn style_named(raw: Seq<char>) -> Option<AnimationStyle> {
    if raw == "none"@ {
        Some(AnimationStyle::Off)
    } else if raw == "slide"@ {
        Some(AnimationStyle::Slide)
    } else if raw == "fade"@ {
        Some(AnimationStyle::Fade)
    } else if raw == "slide-fade"@ {
        Some(AnimationStyle::SlideFade)
    } else {
        None
    }
}

/// The easing that a text names.
pub open spec fn easing_named(raw: Seq<char>) -> Option<AnimationEasing> {
    if raw == "linear"@ {
        Some(AnimationEasing::Linear)
    } else if raw == "ease-out"@ {
        Some(AnimationEasing::EaseOut)
    } else if raw == "ease-in-out"@ {
        Some(AnimationEasing::EaseInOut)
    } else {
        None
    }
}

/// The animation of an app that says nothing of it.
pub open spec fn default_animation() -> AnimationConfig {
    AnimationConfig {
        style: AnimationStyle::Off,
        easing: AnimationEasing::EaseOut,
        duration_ms: 150,
    }
}

/// The animation that an app's entry describes, or the first thing wrong with it: the style,
/// then the easing, then the duration.
pub open spec fn animation_of(raw: Option<RawAnimationConfig>, app: Seq<char>) -> Result<
    AnimationConfig,
    error::ErrorView,
> {
    match raw {
        None => Ok(default_animation()),
        Some(raw) => {
            let style = text::text_or(raw.style, "none"@);
            let easing = text::text_or(raw.easing, "ease-out"@);
            let duration_ms = match raw.duration_ms {
                Some(ms) => ms,
                None => 150u16,
            };
            match style_named(style) {
                None => Err(
                    error::refusal(ConfigErrorKind::InvalidStyle, app, Seq::empty(), style),
                ),
                Some(s) => match easing_named(easing) {
                    None => Err(
                        error::refusal(ConfigErrorKind::InvalidEasing, app, Seq::empty(), easing),
                    ),
                    Some(e) => if duration_ms > MAX_DURATION_MS {
                        Err(
                            error::refusal(
                                ConfigErrorKind::DurationTooLong,
                                app,
                                Seq::empty(),
                                text::decimal(duration_ms as nat),
                            ),
                        )
                    } else {
                        Ok(AnimationConfig { style: s, easing: e, duration_ms })
                    },
                },
            }
        },
    }
}

impl AnimationStyle {
    /// Reads a style: `none`, `slide`, `fade` or `slide-fade`.
    pub fn parse(app_name: &str, raw: &str) -> (style: Result<AnimationStyle, ConfigError>)
        ensures
            error::agrees(
                style,
                match style_named(raw@) {
                    Some(s) => Ok(s),
                    None => Err(
                        error::refusal(
                            ConfigErrorKind::InvalidStyle,
                            app_name@,
                            Seq::empty(),
                            raw@,
                        ),
                    ),
                },
            ),
    {
        if text::same_text(raw, "none") {
            Ok(AnimationStyle::Off)
        } else if text::same_text(raw, "slide") {
            Ok(AnimationStyle::Slide)
        } else if text::same_text(raw, "fade") {
            Ok(AnimationStyle::Fade)
        } else if text::same_text(raw, "slide-fade") {
            Ok(AnimationStyle::SlideFade)
        } else {
            Err(ConfigError::of_app(ConfigErrorKind::InvalidStyle, app_name, raw))
        }
    }
}

impl AnimationEasing {
    /// Reads an easing: `linear`, `ease-out` or `ease-in-out`.
    pub fn parse(app_name: &str, raw: &str) -> (easing: Result<AnimationEasing, ConfigError>)
        ensures
            error::agrees(
                easing,
                match easing_named(raw@) {
                    Some(e) => Ok(e),
                    None => Err(
                        error::refusal(
                            ConfigErrorKind::InvalidEasing,
                            app_name@,
                            Seq::empty(),
                            raw@,
                        ),
                    ),
                },
            ),
    {
        if text::same_text(raw, "linear") {
            Ok(AnimationEasing::Linear)
        } else if text::same_text(raw, "ease-out") {
            Ok(AnimationEasing::EaseOut)
        } else if text::same_text(raw, "ease-in-out") {
            Ok(AnimationEasing::EaseInOut)
        } else {
            Err(ConfigError::of_app(ConfigErrorKind::InvalidEasing, app_name, raw))
        }
    }
}

impl AnimationConfig {
    /// Reads the animation of an app.
    pub fn from_raw(raw: Option<&RawAnimationConfig>, app_name: &str) -> (animation: Result<
        AnimationConfig,
        ConfigError,
    >)
        ensures
            error::agrees(
                animation,
                animation_of(
                    match raw {
                        Some(r) => Some(*r),
                        None => None,
                    },
                    app_name@,
                ),
            ),
    {
        let raw = match raw {
            None => {
                return Ok(AnimationConfig::default());
            },
            Some(raw) => raw,
        };
        let style = match AnimationStyle::parse(app_name, text::given_or(&raw.style, "none")) {
            Ok(style) => style,
            Err(e) => {
                return Err(e);
            },
        };
        let easing = match AnimationEasing::parse(app_name, text::given_or(&raw.easing, "ease-out")) {
            Ok(easing) => easing,
            Err(e) => {
                return Err(e);
            },
        };
        let duration_ms: u16 = match raw.duration_ms {
            Some(ms) => ms,
            None => 150,
        };
        if duration_ms > MAX_DURATION_MS {
            let written = text::decimal_text(duration_ms as u64);
            return Err(
                ConfigError::of_app(ConfigErrorKind::DurationTooLong, app_name, written.as_str()),
            );
        }
        Ok(AnimationConfig { style, easing, duration_ms })
    }
}

impl Default for AnimationConfig {
    fn default() -> (animation: Self)
        ensures
            animation == default_animation(),
    {
        AnimationConfig {
            style: AnimationStyle::Off,
            easing: AnimationEasing::EaseOut,
            duration_ms: 150,
        }
    }
}

} // verus!
