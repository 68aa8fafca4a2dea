//! What the user configures: the apps, their hotkeys, and where their windows go.

pub mod animation;
pub mod app;
pub mod error;
pub mod laws;
pub mod placement;
pub mod reading;

use crate::hotkey;
use crate::text;
use vstd::prelude::*;

pub use animation::{AnimationConfig, AnimationEasing, AnimationStyle, RawAnimationConfig};
pub use app::{
    build_spawn_command, compile_optional_regex, AppConfig, AttachMode, RawAppConfig, RawDirectory,
};
pub use error::{ConfigError, ConfigErrorKind};
pub use placement::{
    parse_metric, MetricKind, PlacementConfig, PlacementMetric, PlacementPosition,
    RawPlacementConfig,
};

verus! {

/// The whole configuration.
#[derive(Debug)]
pub struct Config {
    pub apps: Vec<AppConfig>,
    pub log_level: String,
}

/// The whole configuration as it is written.
#[derive(Debug)]
pub struct RawConfig {
    pub apps: Vec<RawAppConfig>,
    pub log_level: Option<String>,
}

/// The log levels that can be set.
pub open spec fn log_level_known(level: Seq<char>) -> bool {
    ||| level == "error"@
    ||| level == "warn"@
    ||| level == "info"@
    ||| level == "debug"@
    ||| level == "trace"@
    ||| level == "off"@
}

/// The log level that is written, in any case and with white space around it; `error` where
/// none is.
pub open spec fn log_level_of(raw: Option<Seq<char>>) -> Result<Seq<char>, error::ErrorView> {
    match raw {
        None => Ok("error"@),
        Some(raw) => {
            let level = text::lowered(text::trimmed(raw));
            if log_level_known(level) {
                Ok(level)
            } else {
                Err(
                    error::refusal(
                        ConfigErrorKind::InvalidLogLevel,
                        Seq::empty(),
                        Seq::empty(),
                        level,
                    ),
                )
            }
        },
    }
}

/// The names of the first apps.
pub open spec fn names_before(apps: Seq<RawAppConfig>, count: int) -> Seq<Seq<char>> {
    Seq::new(count as nat, |j: int| text::trimmed(apps[j].name@))
}

/// The key sequences of the first apps.
pub open spec fn sequences_before(apps: Seq<RawAppConfig>, count: int) -> Seq<Seq<char>> {
    Seq::new(count as nat, |j: int| hotkey::sequence_of(apps[j].hotkey@)->0)
}

/// The first rule that an app breaks, read after the apps before it.
pub open spec fn refusal_at(apps: Seq<RawAppConfig>, i: int) -> Option<error::ErrorView> {
    app::app_refusal(apps[i], names_before(apps, i), sequences_before(apps, i))
}

/// Whether an app is the first that breaks a rule, with the refusal that this earns.
pub open spec fn first_refusal_at(
    apps: Seq<RawAppConfig>,
    i: int,
    refusal: error::ErrorView,
) -> bool {
    &&& 0 <= i < apps.len()
    &&& refusal_at(apps, i) == Some(refusal)
    &&& forall|j: int| 0 <= j < i ==> refusal_at(apps, j) is None
}

/// Whether a configuration is the one that was written, and no app in it breaks a rule.
pub open spec fn config_of(raw: RawConfig, config: Config) -> bool {
    &&& raw.apps@.len() > 0
    &&& log_level_of(text::optional(raw.log_level)) == Ok::<Seq<char>, error::ErrorView>(
        config.log_level@,
    )
    &&& config.apps@.len() == raw.apps@.len()
    &&& forall|i: int|
        0 <= i < raw.apps@.len() ==> refusal_at(raw.apps@, i) is None && app::app_of(
            #[trigger] raw.apps@[i],
            config.apps@[i],
        )
}

/// Whether a refusal is the one that a written configuration earns: there are no apps, or the
/// log level is unknown, or the first app at fault has this fault.
pub open spec fn refused_with(raw: RawConfig, refusal: error::ErrorView) -> bool {
    if raw.apps@.len() == 0 {
        refusal == error::refusal(
            ConfigErrorKind::NoApps,
            Seq::empty(),
            Seq::empty(),
            Seq::empty(),
        )
    } else if log_level_of(text::optional(raw.log_level)) is Err {
        refusal == log_level_of(text::optional(raw.log_level))->Err_0
    } else {
        exists|i: int| first_refusal_at(raw.apps@, i, refusal)
    }
}

fn read_log_level(raw: &Option<String>) -> (level: Result<String, ConfigError>)
    ensures
        match (level, log_level_of(text::optional(*raw))) {
            (Ok(l), Ok(wanted)) => l@ == wanted,
            (Err(e), Err(wanted)) => e@ == wanted,
            _ => false,
        },
{
    match raw {
        None => Ok("error".to_owned()),
        Some(raw) => {
            let level = text::to_lower(text::trim(raw.as_str()).as_str());
            let l = level.as_str();
            if text::same_text(l, "error") || text::same_text(l, "warn") || text::same_text(
                l,
                "info",
            ) || text::same_text(l, "debug") || text::same_text(l, "trace") || text::same_text(
                l,
                "off",
            ) {
                Ok(level)
            } else {
                proof {
                    text::lemma_empty_literal();
                }
                Err(ConfigError::of_app(ConfigErrorKind::InvalidLogLevel, "", l))
            }
        },
    }
}

impl Clone for Config {
    fn clone(&self) -> (copy: Self)
        ensures
            copy.log_level == self.log_level,
            copy.apps@.len() == self.apps@.len(),
            forall|i: int|
                0 <= i < self.apps@.len() ==> app::same_app(
                    #[trigger] copy.apps@[i],
                    self.apps@[i],
                ),
    {
        let mut apps: Vec<AppConfig> = Vec::new();
        let mut i: usize = 0;
        while i < self.apps.len()
            invariant
                i <= self.apps@.len(),
                apps@.len() == i,
                forall|j: int|
                    0 <= j < i ==> app::same_app(#[trigger] apps@[j], self.apps@[j]),
            decreases self.apps.len() - i,
        {
            apps.push(self.apps[i].clone());
            i += 1;
        }
        Config { apps, log_level: self.log_level.clone() }
    }
}

impl Config {
    /// Reads a configuration: at least one app, each without fault, and no name and no key
    /// sequence taken twice.
    pub fn from_raw(raw: RawConfig) -> (config: Result<Config, ConfigError>)
        ensures
            match config {
                Ok(config) => config_of(raw, config),
                Err(e) => refused_with(raw, e@),
            },
    {
        if raw.apps.len() == 0 {
            proof {
                text::lemma_empty_literal();
            }
            return Err(ConfigError::plain(ConfigErrorKind::NoApps, ""));
        }
        let log_level = match read_log_level(&raw.log_level) {
            Ok(log_level) => log_level,
            Err(e) => {
                return Err(e);
            },
        };
        let mut names: Vec<String> = Vec::new();
        let mut sequences: Vec<String> = Vec::new();
        let mut apps: Vec<AppConfig> = Vec::new();
        let mut i: usize = 0;
        while i < raw.apps.len()
            invariant
                i <= raw.apps@.len(),
                raw.apps@.len() > 0,
                log_level_of(text::optional(raw.log_level)) is Ok,
                apps@.len() == i,
                text::contents(names@) == names_before(raw.apps@, i as int),
                text::contents(sequences@) == sequences_before(raw.apps@, i as int),
                forall|j: int|
                    0 <= j < i ==> refusal_at(raw.apps@, j) is None && app::app_of(
                        #[trigger] raw.apps@[j],
                        apps@[j],
                    ),
            decreases raw.apps.len() - i,
        {
            let ghost names_then = text::contents(names@);
            let ghost sequences_then = text::contents(sequences@);
            match AppConfig::from_raw(&raw.apps[i], &names, &sequences) {
                Ok(app) => {
                    names.push(app.name.clone());
                    sequences.push(app.hotkey.sequence().to_owned());
                    proof {
                        assert(text::contents(names@) =~= names_then.push(app.name@));
                        assert(text::contents(sequences@) =~= sequences_then.push(
                            app.hotkey.sequence_text(),
                        ));
                    }
                    apps.push(app);
                },
                Err(e) => {
                    proof {
                        assert forall|j: int| 0 <= j < i implies refusal_at(
                            raw.apps@,
                            j,
                        ) is None by {
                            assert(app::app_of(raw.apps@[j], apps@[j]));
                        }
                        assert(first_refusal_at(raw.apps@, i as int, e@));
                    }
                    return Err(e);
                },
            }
            i += 1;
            assert(text::contents(names@) =~= names_before(raw.apps@, i as int));
            assert(text::contents(sequences@) =~= sequences_before(raw.apps@, i as int));
        }
        Ok(Config { apps, log_level })
    }
}

} // verus!
