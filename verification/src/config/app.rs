//! One app: how it is started, how its window is found, and how it is shown.

use crate::config::animation;
use crate::config::animation::{AnimationConfig, RawAnimationConfig};
use crate::config::error;
use crate::config::error::{ConfigError, ConfigErrorKind};
use crate::config::placement;
use crate::config::placement::{PlacementConfig, RawPlacementConfig};
use crate::hotkey;
use crate::hotkey::Hotkey;
use crate::pattern;
use crate::text;
use regex::Regex;
use vstd::prelude::*;
use vstd::string::*;

verus! {

/// What is done for an app that has no window yet.
#[derive(Debug, Clone, Copy, PartialEq, Eq, Structural)]
pub enum AttachMode {
    Find,
    FindOrStart,
}

/// One configured app.
#[derive(Debug)]
pub struct AppConfig {
    pub name: String,
    pub hotkey: Hotkey,
    pub filename: Option<String>,
    pub command: Vec<String>,
    pub process_name: Option<Regex>,
    pub window_title: Option<Regex>,
    pub attach_mode: AttachMode,
    pub working_directory: Option<String>,
    pub hide_decorations: bool,
    pub hide_on_focus_lost: bool,
    pub placement: PlacementConfig,
    pub animation: AnimationConfig,
}

/// A directory as it is written, with whether there is one at that path.
#[derive(Debug)]
pub struct RawDirectory {
    pub path: String,
    pub exists: bool,
}

/// One app as it is written.
#[derive(Debug)]
pub struct RawAppConfig {
    pub name: String,
    pub hotkey: String,
    pub filename: Option<String>,
    pub command: Option<Vec<String>>,
    pub process_name: Option<String>,
    pub window_title: Option<String>,
    pub attach_mode: Option<String>,
    pub arguments: Option<Vec<String>>,
    pub working_directory: Option<RawDirectory>,
    pub hide_decorations: Option<bool>,
    pub hide_on_focus_lost: Option<bool>,
    pub placement: Option<RawPlacementConfig>,
    pub animation: Option<RawAnimationConfig>,
}

/// The most characters that an app's name has.
pub const MAX_NAME_CHARS: usize = 64;

/// A list of strings that may be left out, by the characters that each holds.
pub open spec fn optional_contents(list: Option<Vec<String>>) -> Option<Seq<Seq<char>>> {
    match list {
        Some(list) => Some(text::contents(list@)),
        None => None,
    }
}

/// A list of strings that is empty where it is left out.
pub open spec fn contents_or_none(list: Option<Vec<String>>) -> Seq<Seq<char>> {
    match list {
        Some(list) => text::contents(list@),
        None => Seq::empty(),
    }
}

/// The command that starts an app: the explicit one, which excludes arguments, or the file name
/// followed by the arguments.
pub open spec fn command_of(
    app: Seq<char>,
    explicit: Option<Seq<Seq<char>>>,
    arguments: Seq<Seq<char>>,
    filename: Option<Seq<char>>,
) -> Result<Seq<Seq<char>>, error::ErrorView> {
    match explicit {
        Some(command) => if command.len() == 0 {
            Err(error::refusal(ConfigErrorKind::EmptyCommand, app, Seq::empty(), Seq::empty()))
        } else if text::trimmed(command[0]).len() == 0 {
            Err(error::refusal(ConfigErrorKind::InvalidProgram, app, Seq::empty(), Seq::empty()))
        } else if arguments.len() > 0 {
            Err(
                error::refusal(
                    ConfigErrorKind::CommandAndArguments,
                    app,
                    Seq::empty(),
                    Seq::empty(),
                ),
            )
        } else {
            Ok(command)
        },
        None => match filename {
            Some(filename) => Ok(seq![filename] + arguments),
            None => Ok(arguments),
        },
    }
}

/// The attach mode that a text names.
pub open spec fn attach_mode_named(raw: Seq<char>) -> Option<AttachMode> {
    if raw == "find"@ {
        Some(AttachMode::Find)
    } else if raw == "find-or-start"@ {
        Some(AttachMode::FindOrStart)
    } else {
        None
    }
}

/// What becomes of an optional pattern, read without regard to case: no expression where none
/// is written, the compiled one, or the error where it does not compile.
pub open spec fn pattern_of(raw: Option<Seq<char>>) -> Result<Option<Regex>, regex::Error> {
    match raw {
        None => Ok(None),
        Some(raw) => match pattern::compiled_regex("(?i)"@ + raw) {
            Ok(re) => Ok(Some(re)),
            Err(e) => Err(e),
        },
    }
}

/// The refusal of a pattern that does not compile.
pub open spec fn pattern_refusal(app: Seq<char>, field: Seq<char>, e: regex::Error) -> error::ErrorView {
    error::caused(
        error::refusal(ConfigErrorKind::InvalidRegex, app, field, Seq::empty()),
        Some(pattern::regex_error_text(e)),
    )
}

/// The refusal of a hotkey that cannot be read.
pub open spec fn hotkey_refusal(app: Seq<char>, raw: Seq<char>) -> error::ErrorView {
    error::caused(
        error::refusal(ConfigErrorKind::InvalidHotkey, app, Seq::empty(), raw),
        Some(hotkey::fault_message(hotkey::fault_of(raw))),
    )
}

/// The characters that a name keeps in a shortcut's identifier: lower-case letters and digits,
/// with an underscore for every other character.
pub open spec fn sanitized(name: Seq<char>) -> Seq<char> {
    Seq::new(name.len(), |i: int| sanitized_char(name[i]))
}

/// What one character of a name becomes in a shortcut's identifier.
pub open spec fn sanitized_char(c: char) -> char {
    let l = text::lower_char(c);
    if 'a' <= l <= 'z' || text::digit(l) {
        l
    } else {
        '_'
    }
}

/// Whether two apps are configured alike in every respect.
pub open spec fn same_app(a: AppConfig, b: AppConfig) -> bool {
    &&& a.name == b.name
    &&& a.hotkey == b.hotkey
    &&& a.filename == b.filename
    &&& a.command@ == b.command@
    &&& a.process_name == b.process_name
    &&& a.window_title == b.window_title
    &&& a.attach_mode == b.attach_mode
    &&& a.working_directory == b.working_directory
    &&& a.hide_decorations == b.hide_decorations
    &&& a.hide_on_focus_lost == b.hide_on_focus_lost
    &&& a.placement == b.placement
    &&& a.animation == b.animation
}

/// Whether a path begins at the root.
pub open spec fn absolute(path: Seq<char>) -> bool {
    path.len() > 0 && path[0] == '/'
}

/// Whether a name is longer than names may be.
pub open spec fn name_too_long(name: Seq<char>) -> bool {
    name.len() > MAX_NAME_CHARS
}

/// The first rule that an app's entry breaks, given the names and the key sequences of the apps
/// before it.
pub open spec fn app_refusal(
    raw: RawAppConfig,
    names: Seq<Seq<char>>,
    sequences: Seq<Seq<char>>,
) -> Option<error::ErrorView> {
    let name = text::trimmed(raw.name@);
    let none = Seq::<char>::empty();
    let mode = text::text_or(raw.attach_mode, "find-or-start"@);
    let command = command_of(
        name,
        optional_contents(raw.command),
        contents_or_none(raw.arguments),
        text::optional(raw.filename),
    );
    let process_name = pattern_of(text::optional(raw.process_name));
    let window_title = pattern_of(text::optional(raw.window_title));
    let placement = placement::placement_of(raw.placement, name);
    let animation = animation::animation_of(raw.animation, name);
    if name.len() == 0 {
        Some(error::refusal(ConfigErrorKind::EmptyName, name, none, none))
    } else if name_too_long(name) {
        Some(error::refusal(ConfigErrorKind::NameTooLong, name, none, none))
    } else if names.contains(name) {
        Some(error::refusal(ConfigErrorKind::DuplicateName, name, none, none))
    } else if hotkey::sequence_of(raw.hotkey@) is None {
        Some(hotkey_refusal(name, raw.hotkey@))
    } else if sequences.contains(hotkey::sequence_of(raw.hotkey@)->0) {
        Some(error::refusal(ConfigErrorKind::DuplicateHotkey, name, none, raw.hotkey@))
    } else if raw.filename is None && raw.process_name is None && raw.window_title is None {
        Some(error::refusal(ConfigErrorKind::MissingMatcher, name, none, none))
    } else if attach_mode_named(mode) is None {
        Some(error::refusal(ConfigErrorKind::InvalidAttachMode, name, none, mode))
    } else if command is Err {
        Some(command->Err_0)
    } else if process_name is Err {
        Some(pattern_refusal(name, "process_name"@, process_name->Err_0))
    } else if window_title is Err {
        Some(pattern_refusal(name, "window_title"@, window_title->Err_0))
    } else if placement is Err {
        Some(placement->Err_0)
    } else if animation is Err {
        Some(animation->Err_0)
    } else if raw.working_directory is Some && !absolute(raw.working_directory->0.path@) {
        Some(
            error::refusal(
                ConfigErrorKind::RelativeDirectory,
                name,
                none,
                raw.working_directory->0.path@,
            ),
        )
    } else if raw.working_directory is Some && !raw.working_directory->0.exists {
        Some(
            error::refusal(
                ConfigErrorKind::MissingDirectory,
                name,
                none,
                raw.working_directory->0.path@,
            ),
        )
    } else {
        None
    }
}

/// Whether an app is the one that an entry without fault describes.
pub open spec fn app_of(raw: RawAppConfig, app: AppConfig) -> bool {
    let name = text::trimmed(raw.name@);
    &&& app.name@ == name
    &&& app.hotkey.raw_text() == raw.hotkey@
    &&& Some(app.hotkey.sequence_text()) == hotkey::sequence_of(raw.hotkey@)
    &&& app.filename == raw.filename
    &&& Ok::<Seq<Seq<char>>, error::ErrorView>(text::contents(app.command@)) == command_of(
        name,
        optional_contents(raw.command),
        contents_or_none(raw.arguments),
        text::optional(raw.filename),
    )
    &&& Ok::<Option<Regex>, regex::Error>(app.process_name) == pattern_of(
        text::optional(raw.process_name),
    )
    &&& Ok::<Option<Regex>, regex::Error>(app.window_title) == pattern_of(
        text::optional(raw.window_title),
    )
    &&& Some(app.attach_mode) == attach_mode_named(
        text::text_or(raw.attach_mode, "find-or-start"@),
    )
    &&& app.working_directory == match raw.working_directory {
        Some(directory) => Some(directory.path),
        None => None,
    }
    &&& app.hide_decorations == (raw.hide_decorations == Some(true))
    &&& app.hide_on_focus_lost == (raw.hide_on_focus_lost == Some(true))
    &&& Ok::<PlacementConfig, error::ErrorView>(app.placement) == placement::placement_of(
        raw.placement,
        name,
    )
    &&& Ok::<AnimationConfig, error::ErrorView>(app.animation) == animation::animation_of(
        raw.animation,
        name,
    )
}

/// Builds the command that starts an app.
pub fn build_spawn_command(
    app_name: &str,
    explicit_command: Option<&[String]>,
    arguments: &[String],
    filename: Option<&str>,
) -> (command: Result<Vec<String>, ConfigError>)
    ensures
        match (
            command,
            command_of(
                app_name@,
                match explicit_command {
                    Some(c) => Some(text::contents(c@)),
                    None => None,
                },
                text::contents(arguments@),
                match filename {
                    Some(f) => Some(f@),
                    None => None,
                },
            ),
        ) {
            (Ok(c), Ok(wanted)) => text::contents(c@) == wanted,
            (Err(e), Err(wanted)) => e@ == wanted,
            _ => false,
        },
{
    if let Some(command) = explicit_command {
        if command.len() == 0 {
            return Err(ConfigError::plain(ConfigErrorKind::EmptyCommand, app_name));
        }
        assert(text::contents(command@)[0] == command@[0]@);
        let program = text::trim_chars(&text::chars_of(command[0].as_str()));
        if program.len() == 0 {
            return Err(ConfigError::plain(ConfigErrorKind::InvalidProgram, app_name));
        }
        if arguments.len() > 0 {
            return Err(ConfigError::plain(ConfigErrorKind::CommandAndArguments, app_name));
        }
        return Ok(text::copy_strings(command));
    }
    let mut command: Vec<String> = Vec::new();
    if let Some(filename) = filename {
        command.push(filename.to_owned());
    }
    let ghost first = command@;
    let mut rest = text::copy_strings(arguments);
    command.append(&mut rest);
    assert(command@ == first + arguments@);
    assert(text::contents(command@) =~= text::contents(first) + text::contents(arguments@));
    proof {
        if let Some(f) = filename {
            assert(text::contents(first) =~= seq![f@]);
        }
    }
    Ok(command)
}

/// What an app makes of the outcome of compiling one of its patterns.
pub fn accept_regex(app_name: &str, field: &str, compiled: Result<Regex, regex::Error>) -> (re:
    Result<Option<Regex>, ConfigError>)
    ensures
        error::agrees(
            re,
            match compiled {
                Ok(re) => Ok(Some(re)),
                Err(e) => Err(pattern_refusal(app_name@, field@, e)),
            },
        ),
{
    match compiled {
        Ok(re) => Ok(Some(re)),
        Err(e) => {
            proof {
                text::lemma_empty_literal();
            }
            Err(
                ConfigError::new(ConfigErrorKind::InvalidRegex, app_name, field, "").with_cause(
                    Some(pattern::error_text(&e)),
                ),
            )
        },
    }
}

/// Compiles an app's pattern, where it has one, so that it matches without regard to case.
pub fn compile_optional_regex(app_name: &str, field: &str, pattern: Option<&str>) -> (re: Result<
    Option<Regex>,
    ConfigError,
>)
    ensures
        error::agrees(
            re,
            match pattern_of(
                match pattern {
                    Some(p) => Some(p@),
                    None => None,
                },
            ) {
                Ok(re) => Ok(re),
                Err(e) => Err(pattern_refusal(app_name@, field@, e)),
            },
        ),
{
    match pattern {
        None => Ok(None),
        Some(raw) => {
            let insensitive = "(?i)".to_owned().concat(raw);
            accept_regex(app_name, field, Regex::new(insensitive.as_str()))
        },
    }
}

fn read_attach_mode(raw: &str) -> (mode: Option<AttachMode>)
    ensures
        mode == attach_mode_named(raw@),
{
    if text::same_text(raw, "find") {
        Some(AttachMode::Find)
    } else if text::same_text(raw, "find-or-start") {
        Some(AttachMode::FindOrStart)
    } else {
        None
    }
}

fn as_text(s: &Option<String>) -> (t: Option<&str>)
    ensures
        t is Some == s is Some,
        t matches Some(t) ==> t@ == s->0@,
{
    match s {
        Some(s) => Some(s.as_str()),
        None => None,
    }
}

fn is_absolute(path: &str) -> (b: bool)
    ensures
        b == absolute(path@),
{
    let chars = text::chars_of(path);
    chars.len() > 0 && chars[0] == '/'
}

fn check_directory(directory: &Option<RawDirectory>, app_name: &str) -> (result: Result<
    Option<String>,
    ConfigError,
>)
    ensures
        error::agrees(
            result,
            match directory {
                None => Ok(None),
                Some(d) => if !absolute(d.path@) {
                    Err(
                        error::refusal(
                            ConfigErrorKind::RelativeDirectory,
                            app_name@,
                            Seq::empty(),
                            d.path@,
                        ),
                    )
                } else if !d.exists {
                    Err(
                        error::refusal(
                            ConfigErrorKind::MissingDirectory,
                            app_name@,
                            Seq::empty(),
                            d.path@,
                        ),
                    )
                } else {
                    Ok(Some(d.path))
                },
            },
        ),
{
    match directory {
        None => Ok(None),
        Some(d) => if !is_absolute(d.path.as_str()) {
            Err(ConfigError::of_app(ConfigErrorKind::RelativeDirectory, app_name, d.path.as_str()))
        } else if !d.exists {
            Err(ConfigError::of_app(ConfigErrorKind::MissingDirectory, app_name, d.path.as_str()))
        } else {
            Ok(Some(d.path.clone()))
        },
    }
}

fn command_from_raw(raw: &RawAppConfig, app_name: &str) -> (command: Result<
    Vec<String>,
    ConfigError,
>)
    ensures
        match (
            command,
            command_of(
                app_name@,
                optional_contents(raw.command),
                contents_or_none(raw.arguments),
                text::optional(raw.filename),
            ),
        ) {
            (Ok(c), Ok(wanted)) => text::contents(c@) == wanted,
            (Err(e), Err(wanted)) => e@ == wanted,
            _ => false,
        },
{
    let explicit = match &raw.command {
        Some(command) => Some(command.as_slice()),
        None => None,
    };
    let none: Vec<String> = Vec::new();
    let arguments = match &raw.arguments {
        Some(arguments) => arguments.as_slice(),
        None => none.as_slice(),
    };
    assert(text::contents(none@) =~= Seq::empty());
    build_spawn_command(app_name, explicit, arguments, as_text(&raw.filename))
}

impl Clone for AppConfig {
    fn clone(&self) -> (copy: Self)
        ensures
            same_app(copy, *self),
    {
        AppConfig {
            name: self.name.clone(),
            hotkey: self.hotkey.clone(),
            filename: self.filename.clone(),
            command: text::copy_strings(self.command.as_slice()),
            process_name: match &self.process_name {
                Some(re) => Some(re.clone()),
                None => None,
            },
            window_title: match &self.window_title {
                Some(re) => Some(re.clone()),
                None => None,
            },
            attach_mode: self.attach_mode,
            working_directory: self.working_directory.clone(),
            hide_decorations: self.hide_decorations,
            hide_on_focus_lost: self.hide_on_focus_lost,
            placement: self.placement,
            animation: self.animation,
        }
    }
}

impl AppConfig {
    /// The app's name, fit for a shortcut's identifier.
    pub fn sanitized_name(&self) -> (s: String)
        ensures
            s@ == sanitized(self.name@),
    {
        let chars = text::chars_of(self.name.as_str());
        let mut s = String::new();
        let mut i: usize = 0;
        while i < chars.len()
            invariant
                chars@ == self.name@,
                i <= chars.len(),
                s@ == sanitized(self.name@).take(i as int),
            decreases chars.len() - i,
        {
            let l = text::lower(chars[i]);
            if ('a' <= l && l <= 'z') || ('0' <= l && l <= '9') {
                s.push(l);
            } else {
                s.push('_');
            }
            i += 1;
            assert(s@ =~= sanitized(self.name@).take(i as int));
        }
        assert(sanitized(self.name@).take(self.name@.len() as int) == sanitized(self.name@));
        s
    }

    /// Reads one app, given the names and the key sequences that the apps before it took.
    pub fn from_raw(raw: &RawAppConfig, names: &Vec<String>, sequences: &Vec<String>) -> (app:
        Result<AppConfig, ConfigError>)
        ensures
            match (
                app,
                app_refusal(*raw, text::contents(names@), text::contents(sequences@)),
            ) {
                (Ok(app), None) => app_of(*raw, app),
                (Err(e), Some(wanted)) => e@ == wanted,
                _ => false,
            },
    {
        let name = text::trim(raw.name.as_str());
        if name.as_str().is_empty() {
            return Err(ConfigError::plain(ConfigErrorKind::EmptyName, name.as_str()));
        }
        if text::chars_of(name.as_str()).len() > MAX_NAME_CHARS {
            return Err(ConfigError::plain(ConfigErrorKind::NameTooLong, name.as_str()));
        }
        if text::holds(names, name.as_str()) {
            return Err(ConfigError::plain(ConfigErrorKind::DuplicateName, name.as_str()));
        }
        let hotkey = match Hotkey::parse(raw.hotkey.as_str()) {
            Ok(hotkey) => hotkey,
            Err(fault) => {
                return Err(
                    ConfigError::of_app(
                        ConfigErrorKind::InvalidHotkey,
                        name.as_str(),
                        raw.hotkey.as_str(),
                    ).with_cause(Some(fault.message())),
                );
            },
        };
        if text::holds(sequences, hotkey.sequence()) {
            return Err(
                ConfigError::of_app(
                    ConfigErrorKind::DuplicateHotkey,
                    name.as_str(),
                    hotkey.raw(),
                ),
            );
        }
        if raw.filename.is_none() && raw.process_name.is_none() && raw.window_title.is_none() {
            return Err(ConfigError::plain(ConfigErrorKind::MissingMatcher, name.as_str()));
        }
        let mode = text::given_or(&raw.attach_mode, "find-or-start");
        let attach_mode = match read_attach_mode(mode) {
            Some(attach_mode) => attach_mode,
            None => {
                return Err(
                    ConfigError::of_app(ConfigErrorKind::InvalidAttachMode, name.as_str(), mode),
                );
            },
        };
        let command = match command_from_raw(raw, name.as_str()) {
            Ok(command) => command,
            Err(e) => {
                return Err(e);
            },
        };
        let process_name = match compile_optional_regex(
            name.as_str(),
            "process_name",
            as_text(&raw.process_name),
        ) {
            Ok(re) => re,
            Err(e) => {
                return Err(e);
            },
        };
        let window_title = match compile_optional_regex(
            name.as_str(),
            "window_title",
            as_text(&raw.window_title),
        ) {
            Ok(re) => re,
            Err(e) => {
                return Err(e);
            },
        };
        let placement = match PlacementConfig::from_raw(raw.placement.as_ref(), name.as_str()) {
            Ok(placement) => placement,
            Err(e) => {
                return Err(e);
            },
        };
        let animation = match AnimationConfig::from_raw(raw.animation.as_ref(), name.as_str()) {
            Ok(animation) => animation,
            Err(e) => {
                return Err(e);
            },
        };
        let working_directory = match check_directory(&raw.working_directory, name.as_str()) {
            Ok(directory) => directory,
            Err(e) => {
                return Err(e);
            },
        };
        Ok(
            AppConfig {
                name,
                hotkey,
                filename: raw.filename.clone(),
                command,
                process_name,
                window_title,
                attach_mode,
                working_directory,
                hide_decorations: match raw.hide_decorations {
                    Some(flag) => flag,
                    None => false,
                },
                hide_on_focus_lost: match raw.hide_on_focus_lost {
                    Some(flag) => flag,
                    None => false,
                },
                placement,
                animation,
            },
        )
    }
}

} // verus!
