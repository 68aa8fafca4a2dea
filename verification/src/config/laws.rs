//! What holds of every configuration that is accepted.

use crate::config;
use crate::config::animation;
use crate::config::animation::RawAnimationConfig;
use crate::config::app;
use crate::config::error;
use crate::config::placement;
use crate::config::placement::{MetricKind, PlacementMetric, RawPlacementConfig};
use crate::config::{Config, RawConfig};
use crate::hotkey;
use crate::text;
use vstd::prelude::*;

verus! {

/// No two apps of an accepted configuration have one name, and no two have one key sequence.
pub proof fn law_names_and_hotkeys_are_unique(raw: RawConfig, config: Config, i: int, j: int)
    requires
        config::config_of(raw, config),
        0 <= i < j < config.apps@.len(),
    ensures
        config.apps@[i].name@ != config.apps@[j].name@,
        config.apps@[i].hotkey.sequence_text() != config.apps@[j].hotkey.sequence_text(),
{
    let first = raw.apps@[i];
    let second = raw.apps@[j];
    assert(config::refusal_at(raw.apps@, j) is None);
    assert(app::app_of(first, config.apps@[i]));
    assert(app::app_of(second, config.apps@[j]));
    let names = config::names_before(raw.apps@, j);
    let sequences = config::sequences_before(raw.apps@, j);
    assert(names[i] == text::trimmed(first.name@));
    assert(names.contains(text::trimmed(first.name@)));
    assert(sequences[i] == hotkey::sequence_of(first.hotkey@)->0);
    assert(sequences.contains(hotkey::sequence_of(first.hotkey@)->0));
}

/// Every app of an accepted configuration has a name that is neither blank nor too long, can be
/// told by something, has a size that is more than nothing and no more than its screen, moves for
/// no longer than is allowed, and is started, where it has a file name, by some command in a
/// directory that is absolute.
pub proof fn law_accepted_app_is_sound(raw: RawConfig, config: Config, i: int)
    requires
        config::config_of(raw, config),
        0 <= i < config.apps@.len(),
    ensures
        ({
            let app = config.apps@[i];
            &&& app.name@.len() > 0
            &&& text::trimmed(app.name@) == app.name@
            &&& !app::name_too_long(app.name@)
            &&& app.filename is Some || app.process_name is Some || app.window_title is Some
            &&& placement::is_size(app.placement.width)
            &&& placement::is_size(app.placement.height)
            &&& app.animation.duration_ms <= animation::MAX_DURATION_MS
            &&& app.filename is Some ==> app.command@.len() > 0
            &&& app.working_directory is Some ==> app::absolute(app.working_directory->0@)
        }),
{
    let written = raw.apps@[i];
    let app = config.apps@[i];
    assert(config::refusal_at(raw.apps@, i) is None);
    assert(app::app_of(written, app));
    text::lemma_trimmed(written.name@);
    assert(text::contents(app.command@).len() == app.command@.len());
}

/// The log level of an accepted configuration is one of the known ones.
pub proof fn law_accepted_log_level_is_known(raw: RawConfig, config: Config)
    requires
        config::config_of(raw, config),
    ensures
        config::log_level_known(config.log_level@),
{
}

/// A configuration that is accepted earns no refusal.
pub proof fn law_accepted_is_not_refused(
    raw: RawConfig,
    config: Config,
    refusal: error::ErrorView,
)
    requires
        config::config_of(raw, config),
    ensures
        !config::refused_with(raw, refusal),
{
    assert forall|i: int| !config::first_refusal_at(raw.apps@, i, refusal) by {
        if 0 <= i < raw.apps@.len() {
            assert(app::app_of(raw.apps@[i], config.apps@[i]));
        }
    }
}

/// A configuration earns at most one refusal.
pub proof fn law_refusal_is_unique(raw: RawConfig, a: error::ErrorView, b: error::ErrorView)
    requires
        config::refused_with(raw, a),
        config::refused_with(raw, b),
    ensures
        a == b,
{
    if raw.apps@.len() > 0 && config::log_level_of(text::optional(raw.log_level)) is Ok {
        let i = choose|i: int| config::first_refusal_at(raw.apps@, i, a);
        let j = choose|j: int| config::first_refusal_at(raw.apps@, j, b);
        assert(config::first_refusal_at(raw.apps@, i, a));
        assert(config::first_refusal_at(raw.apps@, j, b));
        assert(!(i < j));
        assert(!(j < i));
    }
}

/// A name that is fit for an identifier holds lower-case letters, digits and underscores alone,
/// has as many characters as the name, and stays as it is when it is made fit again.
pub proof fn law_sanitized_name_is_fit(name: Seq<char>)
    ensures
        app::sanitized(name).len() == name.len(),
        forall|i: int|
            0 <= i < name.len() ==> {
                let c = #[trigger] app::sanitized(name)[i];
                'a' <= c <= 'z' || text::digit(c) || c == '_'
            },
        app::sanitized(app::sanitized(name)) == app::sanitized(name),
{
    assert(app::sanitized(app::sanitized(name)) =~= app::sanitized(name));
}

proof fn lemma_number_is_tight(n: nat, unit: Seq<char>)
    requires
        unit.len() > 0,
        !text::white(unit.last()),
    ensures
        text::trimmed(text::decimal(n) + unit) == text::decimal(n) + unit,
        !text::has_white(text::decimal(n)),
        text::decimal(n).len() > 0,
{
    let digits = text::decimal(n);
    let written = digits + unit;
    text::lemma_decimal_reads_back(n);
    text::lemma_trimmed(written);
    assert(text::digit(digits[0]));
    assert(written[0] == digits[0]);
    assert(written.last() == unit.last());
}

proof fn lemma_number_reads_back(n: nat)
    requires
        n <= i32::MAX,
    ensures
        text::written_i32(text::decimal(n)) == Some(n as i32),
{
    let digits = text::decimal(n);
    text::lemma_decimal_reads_back(n);
    assert(text::digit(digits[0]));
}

/// A number of pixels that is written with its unit is read as that number.
pub proof fn law_pixels_read_back(n: i32, kind: MetricKind)
    requires
        n > 0,
    ensures
        placement::metric_of(text::decimal(n as nat) + "px"@, kind)
            == Ok::<PlacementMetric, placement::MetricFault>(PlacementMetric::Pixels(n)),
{
    reveal_strlit("px");
    reveal_strlit("%");
    let digits = text::decimal(n as nat);
    let written = digits + "px"@;
    lemma_number_is_tight(n as nat, "px"@);
    lemma_number_reads_back(n as nat);
    assert(written.skip(written.len() - "%"@.len())[0] == 'x');
    assert(!text::ends_with(written, "%"@));
    assert(written.skip(written.len() - "px"@.len()) =~= "px"@);
    assert(written.take(written.len() - "px"@.len()) =~= digits);
}

/// A percentage that is written with its unit is read as that percentage.
pub proof fn law_percent_reads_back(n: i16, kind: MetricKind)
    requires
        n > 0,
        kind == MetricKind::Size ==> n <= 100,
    ensures
        placement::metric_of(text::decimal(n as nat) + "%"@, kind)
            == Ok::<PlacementMetric, placement::MetricFault>(PlacementMetric::Percent(n)),
{
    reveal_strlit("%");
    let digits = text::decimal(n as nat);
    let written = digits + "%"@;
    lemma_number_is_tight(n as nat, "%"@);
    lemma_number_reads_back(n as nat);
    assert(written.skip(written.len() - "%"@.len()) =~= "%"@);
    assert(written.take(written.len() - "%"@.len()) =~= digits);
}

/// A placement in which everything is left out is the same as no placement.
pub proof fn law_empty_placement_is_the_default(raw: RawPlacementConfig, name: Seq<char>)
    requires
        raw.width is None,
        raw.height is None,
        raw.position is None,
        raw.offset_x is None,
        raw.offset_y is None,
    ensures
        placement::placement_of(Some(raw), name) == placement::placement_of(None, name),
{
    reveal_strlit("100%");
    reveal_strlit("0px");
    reveal_strlit("px");
    reveal_strlit("%");
    law_percent_reads_back(100, MetricKind::Size);
    assert(text::decimal(100) =~= seq!['1', '0', '0']) by {
        reveal_with_fuel(text::decimal, 3);
    }
    assert(text::decimal(100) + "%"@ =~= "100%"@);
    assert(text::decimal(0) =~= seq!['0']);
    assert(text::decimal(0) + "px"@ =~= "0px"@);
    let written = "0px"@;
    lemma_number_is_tight(0, "px"@);
    lemma_number_reads_back(0);
    assert(written.skip(written.len() - "%"@.len())[0] == 'x');
    assert(!text::ends_with(written, "%"@));
    assert(written.skip(written.len() - "px"@.len()) =~= "px"@);
    assert(written.take(written.len() - "px"@.len()) =~= text::decimal(0));
    assert(placement::metric_of("0px"@, MetricKind::Offset)
        == Ok::<PlacementMetric, placement::MetricFault>(PlacementMetric::Pixels(0)));
}

/// An animation in which everything is left out is the same as no animation.
pub proof fn law_empty_animation_is_the_default(raw: RawAnimationConfig, name: Seq<char>)
    requires
        raw.style is None,
        raw.easing is None,
        raw.duration_ms is None,
    ensures
        animation::animation_of(Some(raw), name) == animation::animation_of(None, name),
{
    reveal_strlit("ease-out");
    reveal_strlit("linear");
    assert("ease-out"@.len() != "linear"@.len());
}

} // verus!
