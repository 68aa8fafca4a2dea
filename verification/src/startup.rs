//! What is settled when the program starts.

use crate::app_registry::ManagedApp;
use crate::config::app;
use crate::config::Config;
use crate::text;
use crate::wm::HOTKEY_PREFIX;
use vstd::prelude::*;
use vstd::string::*;

verus! {

/// The identifier of the shortcut of the app at a position: its name, fit for an identifier, and
/// its number, counted from one.
pub open spec fn shortcut_id(name: Seq<char>, i: int) -> Seq<char> {
    HOTKEY_PREFIX@ + app::sanitized(name) + "_"@ + text::decimal((i + 1) as nat)
}

/// Whether an entry of the registry is the one that the app at a position begins with: nothing is
/// known of its window yet.
pub open spec fn entry_of(config: Config, i: int, entry: ManagedApp) -> bool {
    &&& app::same_app(entry.config, config.apps@[i])
    &&& entry.tracked_window_id is None
    &&& entry.restore_geometry is None
    &&& entry.restore_no_border is None
    &&& !entry.visible
    &&& entry.shortcut_id@ == shortcut_id(config.apps@[i].name@, i)
}

/// Whether a list of entries is the one that a configuration begins with.
pub open spec fn entries_of(config: Config, entries: Seq<ManagedApp>) -> bool {
    entries.len() == config.apps@.len() && forall|i: int|
        0 <= i < entries.len() ==> entry_of(config, i, #[trigger] entries[i])
}

/// What the desktop calls an app's shortcut.
pub open spec fn title_of(name: Seq<char>) -> Seq<char> {
    "PlasmaDrop hotkey - "@ + name
}

/// The log level in force: the one that is asked for by name, else one that depends on how often
/// more words are asked for, else the configured one.
pub open spec fn level_of(asked: Option<Seq<char>>, verbose: u8, configured: Seq<char>) -> Seq<
    char,
> {
    match asked {
        Some(level) => level,
        None => if verbose == 0 {
            configured
        } else if verbose == 1 {
            "debug"@
        } else {
            "trace"@
        },
    }
}

/// The entries that the configured apps begin with, in the order in which they are configured.
pub fn build_registry_entries(config: &Config) -> (entries: Vec<ManagedApp>)
    ensures
        entries_of(*config, entries@),
{
    let mut entries: Vec<ManagedApp> = Vec::new();
    let mut i: usize = 0;
    while i < config.apps.len()
        invariant
            i <= config.apps@.len(),
            entries@.len() == i,
            forall|j: int| 0 <= j < i ==> entry_of(*config, j, #[trigger] entries@[j]),
        decreases config.apps.len() - i,
    {
        let app = &config.apps[i];
        let shortcut_id = HOTKEY_PREFIX.to_owned().concat(app.sanitized_name().as_str()).concat(
            "_",
        ).concat(text::decimal_text(i as u64 + 1).as_str());
        entries.push(
            ManagedApp {
                config: app.clone(),
                tracked_window_id: None,
                restore_geometry: None,
                restore_no_border: None,
                visible: false,
                shortcut_id,
            },
        );
        i += 1;
    }
    entries
}

/// What the desktop is to call the shortcut of the app with a name.
pub fn hotkey_title(name: &str) -> (title: String)
    ensures
        title@ == title_of(name@),
{
    "PlasmaDrop hotkey - ".to_owned().concat(name)
}

/// Settles the log level.
pub fn choose_log_level(asked: Option<&str>, verbose: u8, configured: &str) -> (level: String)
    ensures
        level@ == level_of(
            match asked {
                Some(level) => Some(level@),
                None => None,
            },
            verbose,
            configured@,
        ),
{
    match asked {
        Some(level) => level.to_owned(),
        None => if verbose == 0 {
            configured.to_owned()
        } else if verbose == 1 {
            "debug".to_owned()
        } else {
            "trace".to_owned()
        },
    }
}

/// Why a file is not written over.
pub open spec fn overwrite_refusal(path: Seq<char>) -> Seq<char> {
    "'"@ + path + "' already exists; rerun with --force to overwrite"@
}

/// Refuses to write over a file that is there already, unless that is forced.
pub fn check_overwrite(path: &str, present: bool, force: bool) -> (result: Result<(), String>)
    ensures
        result is Ok == (!present || force),
        result matches Err(reason) ==> reason@ == overwrite_refusal(path@),
{
    if present && !force {
        Err(
            "'".to_owned().concat(path).concat(
                "' already exists; rerun with --force to overwrite",
            ),
        )
    } else {
        Ok(())
    }
}

/// The shortcut of every app can be told from the shortcuts of other programs by how it begins.
pub proof fn law_own_shortcuts_are_marked(name: Seq<char>, i: int)
    ensures
        text::starts_with(shortcut_id(name, i), HOTKEY_PREFIX@),
{
    assert(shortcut_id(name, i).take(HOTKEY_PREFIX@.len() as int) =~= HOTKEY_PREFIX@);
}

proof fn lemma_same_tail(head_a: Seq<char>, a: nat, head_b: Seq<char>, b: nat)
    requires
        head_a + "_"@ + text::decimal(a) == head_b + "_"@ + text::decimal(b),
        text::decimal(a).len() <= text::decimal(b).len(),
    ensures
        a == b,
{
    reveal_strlit("_");
    text::lemma_decimal_reads_back(a);
    text::lemma_decimal_reads_back(b);
    let left = text::decimal(a);
    let right = text::decimal(b);
    let all = head_a + "_"@ + left;
    let at = all.len() - left.len() - 1;
    assert(all[at] == '_');
    if left.len() < right.len() {
        let k = at - (all.len() - right.len());
        assert((head_b + "_"@ + right)[at] == right[k]);
        assert(text::digit(right[k]));
    }
    assert(all.skip(at + 1) =~= left);
    assert((head_b + "_"@ + right).skip(at + 1) =~= right);
}

/// No two apps have one shortcut, whatever they are called.
pub proof fn law_shortcuts_are_distinct(a: Seq<char>, i: int, b: Seq<char>, j: int)
    requires
        0 <= i,
        0 <= j,
        i != j,
    ensures
        shortcut_id(a, i) != shortcut_id(b, j),
{
    if shortcut_id(a, i) == shortcut_id(b, j) {
        let head_a = HOTKEY_PREFIX@ + app::sanitized(a);
        let head_b = HOTKEY_PREFIX@ + app::sanitized(b);
        let m = (i + 1) as nat;
        let n = (j + 1) as nat;
        if text::decimal(m).len() <= text::decimal(n).len() {
            lemma_same_tail(head_a, m, head_b, n);
        } else {
            lemma_same_tail(head_b, n, head_a, m);
        }
    }
}

/// In the registry that a configuration begins with, every shortcut belongs to one app.
pub proof fn law_entries_have_distinct_shortcuts(
    config: Config,
    entries: Seq<ManagedApp>,
    i: int,
    j: int,
)
    requires
        entries_of(config, entries),
        0 <= i < entries.len(),
        0 <= j < entries.len(),
        i != j,
    ensures
        entries[i].shortcut_id@ != entries[j].shortcut_id@,
{
    assert(entry_of(config, i, entries[i]));
    assert(entry_of(config, j, entries[j]));
    law_shortcuts_are_distinct(config.apps@[i].name@, i, config.apps@[j].name@, j);
}

/// What a character of a name becomes in an identifier: a small letter or a digit stays, a capital
/// becomes small, and everything else becomes an underscore.
pub proof fn law_letters_and_digits_stay(name: Seq<char>, i: int)
    requires
        0 <= i < name.len(),
    ensures
        app::sanitized(name).len() == name.len(),
        ({
            let c = name[i] as int;
            let kept = app::sanitized(name)[i];
            &&& 97 <= c <= 122 || 48 <= c <= 57 ==> kept == name[i]
            &&& 65 <= c <= 90 ==> kept as int == c + 32
            &&& !(97 <= c <= 122 || 48 <= c <= 57 || 65 <= c <= 90) ==> kept == '_'
        }),
{
}

/// The registry begins with one entry for each app, in the order in which they are configured,
/// under a shortcut that tells the app by its name and its number. Nothing is known of any window.
pub proof fn law_registry_begins_with_the_configured_apps(
    config: Config,
    entries: Seq<ManagedApp>,
    i: int,
)
    requires
        entries_of(config, entries),
        0 <= i < config.apps@.len(),
    ensures
        entries.len() == config.apps@.len(),
        ({
            let entry = entries[i];
            let configured = config.apps@[i];
            &&& entry.config.name == configured.name
            &&& entry.config.hotkey == configured.hotkey
            &&& entry.config.filename == configured.filename
            &&& entry.config.command@ == configured.command@
            &&& entry.config.process_name == configured.process_name
            &&& entry.config.window_title == configured.window_title
            &&& entry.config.attach_mode == configured.attach_mode
            &&& entry.config.working_directory == configured.working_directory
            &&& entry.config.hide_decorations == configured.hide_decorations
            &&& entry.config.hide_on_focus_lost == configured.hide_on_focus_lost
            &&& entry.config.placement == configured.placement
            &&& entry.config.animation == configured.animation
            &&& entry.tracked_window_id is None
            &&& entry.restore_geometry is None
            &&& entry.restore_no_border is None
            &&& !entry.visible
            &&& entry.shortcut_id@ == "plasma_drop_hotkey_"@ + app::sanitized(configured.name@)
                + "_"@ + text::decimal((i + 1) as nat)
        }),
{
    assert(entry_of(config, i, entries[i]));
}

/// The level that is asked for by name is in force whatever else is said. Else asking for more
/// words once, or more than once, sets the level, and only where that is not asked for is it the
/// configured one.
pub proof fn law_what_is_asked_for_goes_before_what_is_configured(
    asked: Seq<char>,
    verbose: u8,
    configured: Seq<char>,
)
    ensures
        level_of(Some(asked), verbose, configured) == asked,
        level_of(None, 0, configured) == configured,
        level_of(None, 1, configured) == "debug"@,
        verbose >= 2 ==> level_of(None, verbose, configured) == "trace"@,
{
}

/// The title of a shortcut ends with the name of its app, and what it begins with is the same for
/// all.
pub proof fn law_titles_name_the_app(name: Seq<char>)
    ensures
        title_of(name) == "PlasmaDrop hotkey - "@ + name,
        overwrite_refusal(name) == "'"@ + name
            + "' already exists; rerun with --force to overwrite"@,
{
}

} // verus!
