//! Why a configuration is refused.

use crate::text;
use vstd::prelude::*;
use vstd::string::*;

verus! {

/// The rule that a configuration breaks.
#[derive(Debug, Clone, Copy, PartialEq, Eq, Structural)]
pub enum ConfigErrorKind {
    /// There is no app entry.
    NoApps,
    /// The log level is none of the known ones.
    InvalidLogLevel,
    /// An app's name is blank.
    EmptyName,
    /// An app's name has more than 64 characters.
    NameTooLong,
    /// Two apps have one name.
    DuplicateName,
    /// An app's hotkey cannot be read.
    InvalidHotkey,
    /// Two apps have one key sequence.
    DuplicateHotkey,
    /// An app sets nothing by which its window is recognised.
    MissingMatcher,
    /// An app's attach mode is unknown.
    InvalidAttachMode,
    /// An app's command is an empty list.
    EmptyCommand,
    /// The program of an app's command is blank.
    InvalidProgram,
    /// An app sets a command and arguments besides.
    CommandAndArguments,
    /// A regular expression of an app does not compile.
    InvalidRegex,
    /// A metric is not a number with a unit.
    InvalidMetric,
    /// A size is zero or less.
    NonPositiveMetric,
    /// A size is more than the whole screen.
    PercentTooLarge,
    /// A percentage does not fit in 16 bits.
    OutOfRangeMetric,
    /// A position is unknown.
    InvalidPosition,
    /// An animation style is unknown.
    InvalidStyle,
    /// An animation easing is unknown.
    InvalidEasing,
    /// An animation takes more than two seconds.
    DurationTooLong,
    /// A working directory is not absolute.
    RelativeDirectory,
    /// A working directory does not exist.
    MissingDirectory,
}

/// A refusal: the rule, the app it concerns, and the field and value at fault. What a rule does
/// not concern is empty. Where something else could not be read, that is the cause.
#[derive(Debug)]
pub struct ConfigError {
    pub kind: ConfigErrorKind,
    pub app: String,
    pub field: String,
    pub value: String,
    pub cause: Option<String>,
}

/// A refusal by the texts that it holds.
pub struct ErrorView {
    pub kind: ConfigErrorKind,
    pub app: Seq<char>,
    pub field: Seq<char>,
    pub value: Seq<char>,
    pub cause: Option<Seq<char>>,
}

impl View for ConfigError {
    type V = ErrorView;

    open spec fn view(&self) -> ErrorView {
        ErrorView {
            kind: self.kind,
            app: self.app@,
            field: self.field@,
            value: self.value@,
            cause: text::optional(self.cause),
        }
    }
}

/// Whether a result is the one wanted: the same value, or a refusal with the same texts.
pub open spec fn agrees<T>(result: Result<T, ConfigError>, wanted: Result<T, ErrorView>) -> bool {
    match (result, wanted) {
        (Ok(a), Ok(b)) => a == b,
        (Err(a), Err(b)) => a@ == b,
        _ => false,
    }
}

/// The refusal of something that an app sets, without a cause.
pub open spec fn refusal(
    kind: ConfigErrorKind,
    app: Seq<char>,
    field: Seq<char>,
    value: Seq<char>,
) -> ErrorView {
    ErrorView { kind, app, field, value, cause: None }
}

/// A refusal with the cause that it has.
pub open spec fn caused(e: ErrorView, cause: Option<Seq<char>>) -> ErrorView {
    ErrorView { cause, ..e }
}

/// A sentence about one app.
pub open spec fn about(app: Seq<char>, rest: Seq<char>) -> Seq<char> {
    "app '"@ + app + "' "@ + rest
}

/// A sentence with a quoted value in it.
pub open spec fn quoting(before: Seq<char>, value: Seq<char>, after: Seq<char>) -> Seq<char> {
    before + value + after
}

/// What a refusal says to the user.
pub open spec fn message_of(e: ErrorView) -> Seq<char> {
    match e.kind {
        ConfigErrorKind::NoApps => "config must contain at least one [[app]] entry"@,
        ConfigErrorKind::InvalidLogLevel => quoting(
            "invalid log_level '"@,
            e.value,
            "' (expected error/warn/info/debug/trace/off)"@,
        ),
        ConfigErrorKind::EmptyName => "app name must not be empty"@,
        ConfigErrorKind::NameTooLong => quoting(
            "app name '"@,
            e.app,
            "' exceeds 64 characters"@,
        ),
        ConfigErrorKind::DuplicateName => quoting("duplicate app name '"@, e.app, "'"@),
        ConfigErrorKind::InvalidHotkey => quoting("invalid hotkey for app '"@, e.app, "'"@),
        ConfigErrorKind::DuplicateHotkey => quoting("duplicate hotkey '"@, e.value, "'"@),
        ConfigErrorKind::MissingMatcher => about(
            e.app,
            "must set at least one of filename, process_name, or window_title"@,
        ),
        ConfigErrorKind::InvalidAttachMode => about(
            e.app,
            quoting("has invalid attach_mode '"@, e.value, "'"@),
        ),
        ConfigErrorKind::EmptyCommand => about(e.app, "has empty command"@),
        ConfigErrorKind::InvalidProgram => about(e.app, "has invalid command program"@),
        ConfigErrorKind::CommandAndArguments => about(
            e.app,
            "cannot set both command and arguments"@,
        ),
        ConfigErrorKind::InvalidRegex => about(
            e.app,
            quoting("has invalid "@, e.field, " regex"@),
        ),
        ConfigErrorKind::InvalidMetric => about(
            e.app,
            quoting("has invalid "@, e.field, quoting(" metric '"@, e.value, "'"@)),
        ),
        ConfigErrorKind::NonPositiveMetric => about(
            e.app,
            quoting("has non-positive "@, e.field, quoting(" metric '"@, e.value, "'"@)),
        ),
        ConfigErrorKind::PercentTooLarge => about(
            e.app,
            quoting(
                "has "@,
                e.field,
                quoting(" percentage larger than 100: '"@, e.value, "'"@),
            ),
        ),
        ConfigErrorKind::OutOfRangeMetric => about(
            e.app,
            quoting("has out-of-range "@, e.field, quoting(" metric '"@, e.value, "'"@)),
        ),
        ConfigErrorKind::InvalidPosition => about(
            e.app,
            quoting("has invalid position '"@, e.value, "'"@),
        ),
        ConfigErrorKind::InvalidStyle => about(
            e.app,
            quoting("has invalid animation.style '"@, e.value, "'"@),
        ),
        ConfigErrorKind::InvalidEasing => about(
            e.app,
            quoting("has invalid animation.easing '"@, e.value, "'"@),
        ),
        ConfigErrorKind::DurationTooLong => about(
            e.app,
            quoting("has animation.duration_ms larger than 2000: '"@, e.value, "'"@),
        ),
        ConfigErrorKind::RelativeDirectory => about(
            e.app,
            quoting("has non-absolute working_directory '"@, e.value, "'"@),
        ),
        ConfigErrorKind::MissingDirectory => about(
            e.app,
            quoting("working_directory does not exist: '"@, e.value, "'"@),
        ),
    }
}

/// A refusal with its cause, where it has one.
pub open spec fn chain_of(e: ErrorView) -> Seq<char> {
    match e.cause {
        Some(cause) => message_of(e) + ": "@ + cause,
        None => message_of(e),
    }
}

fn tell_about(app: &str, rest: &str) -> (s: String)
    ensures
        s@ == about(app@, rest@),
{
    "app '".to_owned().concat(app).concat("' ").concat(rest)
}

fn quote(before: &str, value: &str, after: &str) -> (s: String)
    ensures
        s@ == quoting(before@, value@, after@),
{
    before.to_owned().concat(value).concat(after)
}

impl ConfigError {
    /// A refusal that quotes the given texts.
    pub fn new(kind: ConfigErrorKind, app: &str, field: &str, value: &str) -> (e: ConfigError)
        ensures
            e@ == refusal(kind, app@, field@, value@),
    {
        ConfigError {
            kind,
            app: app.to_owned(),
            field: field.to_owned(),
            value: value.to_owned(),
            cause: None,
        }
    }

    /// The refusal with a cause.
    pub fn with_cause(self, cause: Option<String>) -> (e: ConfigError)
        ensures
            e@ == caused(self@, text::optional(cause)),
    {
        ConfigError {
            kind: self.kind,
            app: self.app,
            field: self.field,
            value: self.value,
            cause,
        }
    }

    /// A refusal that concerns no single field.
    pub fn of_app(kind: ConfigErrorKind, app: &str, value: &str) -> (e: ConfigError)
        ensures
            e@ == refusal(kind, app@, Seq::empty(), value@),
    {
        proof {
            text::lemma_empty_literal();
        }
        ConfigError::new(kind, app, "", value)
    }

    /// A refusal that quotes no value.
    pub fn plain(kind: ConfigErrorKind, app: &str) -> (e: ConfigError)
        ensures
            e@ == refusal(kind, app@, Seq::empty(), Seq::empty()),
    {
        proof {
            text::lemma_empty_literal();
        }
        ConfigError::new(kind, app, "", "")
    }

    /// The refusal as a sentence for the user, followed by its cause where it has one.
    pub fn chain(&self) -> (s: String)
        ensures
            s@ == chain_of(self@),
    {
        match &self.cause {
            Some(cause) => self.message().concat(": ").concat(cause.as_str()),
            None => self.message(),
        }
    }

    /// The refusal as a sentence for the user.
    pub fn message(&self) -> (s: String)
        ensures
            s@ == message_of(self@),
    {
        let app = self.app.as_str();
        let field = self.field.as_str();
        let value = self.value.as_str();
        match self.kind {
            ConfigErrorKind::NoApps => "config must contain at least one [[app]] entry".to_owned(),
            ConfigErrorKind::InvalidLogLevel => quote(
                "invalid log_level '",
                value,
                "' (expected error/warn/info/debug/trace/off)",
            ),
            ConfigErrorKind::EmptyName => "app name must not be empty".to_owned(),
            ConfigErrorKind::NameTooLong => quote("app name '", app, "' exceeds 64 characters"),
            ConfigErrorKind::DuplicateName => quote("duplicate app name '", app, "'"),
            ConfigErrorKind::InvalidHotkey => quote("invalid hotkey for app '", app, "'"),
            ConfigErrorKind::DuplicateHotkey => quote("duplicate hotkey '", value, "'"),
            ConfigErrorKind::MissingMatcher => tell_about(
                app,
                "must set at least one of filename, process_name, or window_title",
            ),
            ConfigErrorKind::InvalidAttachMode => tell_about(
                app,
                quote("has invalid attach_mode '", value, "'").as_str(),
            ),
            ConfigErrorKind::EmptyCommand => tell_about(app, "has empty command"),
            ConfigErrorKind::InvalidProgram => tell_about(app, "has invalid command program"),
            ConfigErrorKind::CommandAndArguments => tell_about(
                app,
                "cannot set both command and arguments",
            ),
            ConfigErrorKind::InvalidRegex => tell_about(
                app,
                quote("has invalid ", field, " regex").as_str(),
            ),
            ConfigErrorKind::InvalidMetric => tell_about(
                app,
                quote("has invalid ", field, quote(" metric '", value, "'").as_str()).as_str(),
            ),
            ConfigErrorKind::NonPositiveMetric => tell_about(
                app,
                quote(
                    "has non-positive ",
                    field,
                    quote(" metric '", value, "'").as_str(),
                ).as_str(),
            ),
            ConfigErrorKind::PercentTooLarge => tell_about(
                app,
                quote(
                    "has ",
                    field,
                    quote(" percentage larger than 100: '", value, "'").as_str(),
                ).as_str(),
            ),
            ConfigErrorKind::OutOfRangeMetric => tell_about(
                app,
                quote(
                    "has out-of-range ",
                    field,
                    quote(" metric '", value, "'").as_str(),
                ).as_str(),
            ),
            ConfigErrorKind::InvalidPosition => tell_about(
                app,
                quote("has invalid position '", value, "'").as_str(),
            ),
            ConfigErrorKind::InvalidStyle => tell_about(
                app,
                quote("has invalid animation.style '", value, "'").as_str(),
            ),
            ConfigErrorKind::InvalidEasing => tell_about(
                app,
                quote("has invalid animation.easing '", value, "'").as_str(),
            ),
            ConfigErrorKind::DurationTooLong => tell_about(
                app,
                quote("has animation.duration_ms larger than 2000: '", value, "'").as_str(),
            ),
            ConfigErrorKind::RelativeDirectory => tell_about(
                app,
                quote("has non-absolute working_directory '", value, "'").as_str(),
            ),
            ConfigErrorKind::MissingDirectory => tell_about(
                app,
                quote("working_directory does not exist: '", value, "'").as_str(),
            ),
        }
    }
}

} // verus!
