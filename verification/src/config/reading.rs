//! What is read from what is written.

use crate::app_registry;
use crate::app_registry::ManagedApp;
use crate::config;
use crate::config::animation;
use crate::config::animation::{
    AnimationConfig, AnimationEasing, AnimationStyle, RawAnimationConfig,
};
use crate::config::app;
use crate::config::app::{AttachMode, RawAppConfig};
use crate::config::error;
use crate::config::error::ConfigErrorKind;
use crate::config::placement;
use crate::config::placement::{
    MetricFault, MetricKind, PlacementConfig, PlacementMetric, PlacementPosition,
    RawPlacementConfig,
};
use crate::config::{Config, RawConfig};
use crate::hotkey;
use crate::pattern;
use crate::screen::ScreenView;
use crate::startup;
use crate::text;
use crate::toggle::conduct;
use crate::toggle::laws;
use crate::toggle::model;
use crate::toggle::types::{EventView, StageView, WindowGoalView};
use crate::wm;
use crate::wm::ManagedWindow;
use vstd::prelude::*;

verus! {

proof fn lemma_modes_differ()
    ensures
        "find"@ != "find-or-start"@,
{
    reveal_strlit("find");
    reveal_strlit("find-or-start");
    assert("find"@.len() != "find-or-start"@.len());
}

/// In an accepted configuration an app that is written to be found is only to be found; one that
/// is written to be found or started, or of which nothing is written, may be started. Nothing else
/// can be written.
pub proof fn law_attach_mode_is_the_written_one(raw: RawConfig, config: Config, i: int)
    requires
        config::config_of(raw, config),
        0 <= i < config.apps@.len(),
    ensures
        match raw.apps@[i].attach_mode {
            None => config.apps@[i].attach_mode == AttachMode::FindOrStart,
            Some(mode) => {
                &&& mode@ == "find"@ || mode@ == "find-or-start"@
                &&& mode@ == "find"@ ==> config.apps@[i].attach_mode == AttachMode::Find
                &&& mode@ == "find-or-start"@ ==> config.apps@[i].attach_mode
                    == AttachMode::FindOrStart
            },
        },
{
    lemma_modes_differ();
    assert(app::app_of(raw.apps@[i], config.apps@[i]));
}

/// Whether a registry holds the apps that a configuration begins with, whatever has become known
/// of their windows since.
pub open spec fn holds_apps_of(config: Config, apps: Seq<ManagedApp>) -> bool {
    exists|entries: Seq<ManagedApp>| #[trigger]
        startup::entries_of(config, entries) && laws::same_apps(entries, apps)
}

proof fn lemma_app_of_registry(raw: RawConfig, config: Config, apps: Seq<ManagedApp>, i: int)
    requires
        config::config_of(raw, config),
        holds_apps_of(config, apps),
        0 <= i < config.apps@.len(),
    ensures
        apps.len() == config.apps@.len(),
        app::same_app(apps[i].config, config.apps@[i]),
        app_registry::position(apps, config.apps@[i].name@) == Some(i),
{
    let entries = choose|entries: Seq<ManagedApp>| #[trigger]
        startup::entries_of(config, entries) && laws::same_apps(entries, apps);
    let name = config.apps@[i].name@;
    assert forall|j: int| 0 <= j < apps.len() implies app::same_app(
        (#[trigger] apps[j]).config,
        config.apps@[j],
    ) by {
        assert(startup::entry_of(config, j, entries[j]));
        assert(entries[j].config == apps[j].config);
    }
    app_registry::lemma_position(apps, name);
    assert(apps[i].config.name@ == name);
    assert(app_registry::position(apps, name) is Some);
    let k = app_registry::position(apps, name)->0;
    assert(app::same_app(apps[k].config, config.apps@[k]));
    if k != i {
        if k < i {
            config::laws::law_names_and_hotkeys_are_unique(raw, config, k, i);
        } else {
            assert(apps[i].config.name@ != name);
        }
    }
}

/// An app that is written to be found is never started, whatever happens.
pub proof fn law_app_written_to_be_found_is_never_started(
    raw: RawConfig,
    config: Config,
    i: int,
    t: model::ToggleView,
    stage: StageView,
    event: EventView,
    now: u64,
)
    requires
        config::config_of(raw, config),
        0 <= i < config.apps@.len(),
        raw.apps@[i].attach_mode is Some,
        raw.apps@[i].attach_mode->0@ == "find"@,
        holds_apps_of(config, t.registry.apps),
        laws::subject(stage) == config.apps@[i].name@,
    ensures
        !conduct::starts(model::step(t, stage, event, now).1),
{
    lemma_app_of_registry(raw, config, t.registry.apps, i);
    law_attach_mode_is_the_written_one(raw, config, i);
    conduct::law_app_to_be_found_is_never_started(t, stage, event, now);
}

/// An app of which a file name or a command is written, and not that it is only to be found, is
/// started when it is to be shown and no window of its is listed, unless it was started less than
/// fifteen seconds ago.
pub proof fn law_app_is_started_unless_written_otherwise(
    raw: RawConfig,
    config: Config,
    i: int,
    t: model::ToggleView,
    name: String,
    on: Option<ScreenView>,
    windows: Seq<ManagedWindow>,
    now: u64,
)
    requires
        config::config_of(raw, config),
        0 <= i < config.apps@.len(),
        raw.apps@[i].attach_mode matches Some(mode) ==> mode@ == "find-or-start"@,
        raw.apps@[i].filename is Some || raw.apps@[i].command is Some,
        holds_apps_of(config, t.registry.apps),
        name@ == config.apps@[i].name@,
        !conduct::started_lately(t, name@, now),
        forall|j: int|
            0 <= j < windows.len() ==> !wm::types::window_matches(
                #[trigger] windows[j],
                t.registry.apps[i].config,
            ),
    ensures
        conduct::starts(
            model::step(
                t,
                StageView::Listed(WindowGoalView::Show { name, screen: on }),
                EventView::WindowList(windows),
                now,
            ).1,
        ),
{
    lemma_app_of_registry(raw, config, t.registry.apps, i);
    law_attach_mode_is_the_written_one(raw, config, i);
    law_command_is_the_written_one(raw, config, i);
    conduct::law_app_without_window_is_started(t, name, on, windows, now);
}

/// An accepted app has the name that is written, without the white space around it, the hotkey, the
/// file name and the directory that are written, and the flags that are, which are off where they
/// are not written. Its expressions are the written ones, compiled to disregard case, and it has
/// none that is not written.
pub proof fn law_app_is_as_it_is_written(raw: RawConfig, config: Config, i: int)
    requires
        config::config_of(raw, config),
        0 <= i < raw.apps@.len(),
    ensures
        config.apps@.len() == raw.apps@.len(),
        ({
            let written = raw.apps@[i];
            let app = config.apps@[i];
            &&& app.name@ == text::trimmed(written.name@)
            &&& app.hotkey.raw_text() == written.hotkey@
            &&& hotkey::sequence_of(written.hotkey@) == Some(app.hotkey.sequence_text())
            &&& app.filename == written.filename
            &&& match written.working_directory {
                Some(directory) => app.working_directory == Some(directory.path)
                    && directory.exists && directory.path@.len() > 0 && directory.path@[0] == '/',
                None => app.working_directory is None,
            }
            &&& match written.hide_decorations {
                Some(flag) => app.hide_decorations == flag,
                None => !app.hide_decorations,
            }
            &&& match written.hide_on_focus_lost {
                Some(flag) => app.hide_on_focus_lost == flag,
                None => !app.hide_on_focus_lost,
            }
            &&& match written.process_name {
                Some(pattern) => app.process_name is Some && pattern::compiled_regex(
                    "(?i)"@ + pattern@,
                ) == Ok::<regex::Regex, regex::Error>(app.process_name->0),
                None => app.process_name is None,
            }
            &&& match written.window_title {
                Some(pattern) => app.window_title is Some && pattern::compiled_regex(
                    "(?i)"@ + pattern@,
                ) == Ok::<regex::Regex, regex::Error>(app.window_title->0),
                None => app.window_title is None,
            }
        }),
{
    assert(config::refusal_at(raw.apps@, i) is None);
    assert(app::app_of(raw.apps@[i], config.apps@[i]));
}

/// An accepted app is started by the command that is written, word for word; where none is, by its
/// file name, followed by its arguments in their order.
pub proof fn law_command_is_the_written_one(raw: RawConfig, config: Config, i: int)
    requires
        config::config_of(raw, config),
        0 <= i < raw.apps@.len(),
    ensures
        ({
            let written = raw.apps@[i];
            let command = config.apps@[i].command@;
            let arguments = match written.arguments {
                Some(arguments) => arguments@,
                None => Seq::empty(),
            };
            match written.command {
                Some(explicit) => {
                    &&& command.len() == explicit@.len()
                    &&& explicit@.len() > 0
                    &&& arguments.len() == 0
                    &&& forall|k: int|
                        0 <= k < command.len() ==> (#[trigger] command[k])@ == explicit@[k]@
                },
                None => match written.filename {
                    Some(filename) => {
                        &&& command.len() == arguments.len() + 1
                        &&& command[0]@ == filename@
                        &&& forall|k: int|
                            1 <= k < command.len() ==> (#[trigger] command[k])@ == arguments[k
                                - 1]@
                    },
                    None => {
                        &&& command.len() == arguments.len()
                        &&& forall|k: int|
                            0 <= k < command.len() ==> (#[trigger] command[k])@ == arguments[k]@
                    },
                },
            }
        }),
{
    let written = raw.apps@[i];
    let command = config.apps@[i].command@;
    let arguments = match written.arguments {
        Some(arguments) => arguments@,
        None => Seq::empty(),
    };
    assert(app::app_of(written, config.apps@[i]));
    assert(text::contents(command).len() == command.len());
    assert(app::contents_or_none(written.arguments).len() == arguments.len());
    assert forall|k: int| 0 <= k < command.len() implies (#[trigger] command[k])@
        == text::contents(command)[k] by {}
    assert forall|k: int| 0 <= k < arguments.len() implies (#[trigger] arguments[k])@
        == app::contents_or_none(written.arguments)[k] by {}
    if let Some(explicit) = written.command {
        assert(text::contents(explicit@).len() == explicit@.len());
        assert forall|k: int| 0 <= k < explicit@.len() implies (#[trigger] explicit@[k])@
            == text::contents(explicit@)[k] by {}
        assert(text::contents(command) == text::contents(explicit@));
    } else if let Some(filename) = written.filename {
        assert(text::contents(command) == seq![filename@] + app::contents_or_none(
            written.arguments,
        ));
    }
}

/// A command is refused exactly where it is written and empty, or its program is blank, or there
/// are arguments besides; without a written one there is nothing to refuse.
pub proof fn law_command_is_refused_for_its_fault(
    app: Seq<char>,
    explicit: Seq<Seq<char>>,
    arguments: Seq<Seq<char>>,
    filename: Option<Seq<char>>,
)
    ensures
        ({
            let command = app::command_of(app, Some(explicit), arguments, filename);
            let blank = explicit.len() > 0 && text::trimmed(explicit[0]).len() == 0;
            &&& command is Ok <==> explicit.len() > 0 && !blank && arguments.len() == 0
            &&& command matches Ok(words) ==> words == explicit
            &&& command matches Err(e) ==> {
                &&& e.app == app
                &&& e.kind == if explicit.len() == 0 {
                    ConfigErrorKind::EmptyCommand
                } else if blank {
                    ConfigErrorKind::InvalidProgram
                } else {
                    ConfigErrorKind::CommandAndArguments
                }
            }
        }),
        app::command_of(app, None, arguments, filename) is Ok,
{
}

/// The name of a position.
pub open spec fn position_name(position: PlacementPosition) -> Seq<char> {
    match position {
        PlacementPosition::TopLeft => "top-left"@,
        PlacementPosition::Top => "top"@,
        PlacementPosition::TopRight => "top-right"@,
        PlacementPosition::Left => "left"@,
        PlacementPosition::Center => "center"@,
        PlacementPosition::Right => "right"@,
        PlacementPosition::BottomLeft => "bottom-left"@,
        PlacementPosition::Bottom => "bottom"@,
        PlacementPosition::BottomRight => "bottom-right"@,
    }
}

/// The name of a style.
pub open spec fn style_name(style: AnimationStyle) -> Seq<char> {
    match style {
        AnimationStyle::Off => "none"@,
        AnimationStyle::Slide => "slide"@,
        AnimationStyle::Fade => "fade"@,
        AnimationStyle::SlideFade => "slide-fade"@,
    }
}

/// The name of an easing.
pub open spec fn easing_name(easing: AnimationEasing) -> Seq<char> {
    match easing {
        AnimationEasing::Linear => "linear"@,
        AnimationEasing::EaseOut => "ease-out"@,
        AnimationEasing::EaseInOut => "ease-in-out"@,
    }
}

/// Every position is read from its own name, and from no other text.
pub proof fn law_positions_have_names(position: PlacementPosition, raw: Seq<char>)
    ensures
        placement::position_named(raw) == Some(position) <==> raw == position_name(position),
        placement::position_named(raw) is None ==> raw != position_name(position),
{
    reveal_strlit("top-left");
    reveal_strlit("top");
    reveal_strlit("top-right");
    reveal_strlit("left");
    reveal_strlit("center");
    reveal_strlit("right");
    reveal_strlit("bottom-left");
    reveal_strlit("bottom");
    reveal_strlit("bottom-right");
    assert("top-left"@[0] == 't' && "top"@[0] == 't' && "top-right"@[0] == 't');
    assert("left"@[0] == 'l' && "center"@[0] == 'c' && "right"@[0] == 'r');
    assert("bottom-left"@[0] == 'b' && "bottom"@[0] == 'b' && "bottom-right"@[0] == 'b');
    assert("top-left"@.len() == 8 && "top"@.len() == 3 && "top-right"@.len() == 9);
    assert("bottom-left"@.len() == 11 && "bottom"@.len() == 6 && "bottom-right"@.len() == 12);
}

/// Every style is read from its own name, and from no other text.
pub proof fn law_styles_have_names(style: AnimationStyle, raw: Seq<char>)
    ensures
        animation::style_named(raw) == Some(style) <==> raw == style_name(style),
{
    reveal_strlit("none");
    reveal_strlit("slide");
    reveal_strlit("fade");
    reveal_strlit("slide-fade");
    assert("none"@[0] == 'n' && "fade"@[0] == 'f' && "slide"@[0] == 's' && "slide-fade"@[0] == 's');
    assert("slide"@.len() != "slide-fade"@.len());
}

/// Every easing is read from its own name, and from no other text.
pub proof fn law_easings_have_names(easing: AnimationEasing, raw: Seq<char>)
    ensures
        animation::easing_named(raw) == Some(easing) <==> raw == easing_name(easing),
{
    reveal_strlit("linear");
    reveal_strlit("ease-out");
    reveal_strlit("ease-in-out");
    assert("linear"@[0] == 'l' && "ease-out"@[0] == 'e' && "ease-in-out"@[0] == 'e');
    assert("ease-out"@.len() != "ease-in-out"@.len());
}

proof fn lemma_number_is_tight(value: Seq<char>, unit: Seq<char>)
    requires
        text::written_i32(value) is Some,
        unit.len() > 0,
        !text::white(unit.last()),
    ensures
        value.len() > 0,
        !text::has_white(value),
        text::trimmed(value + unit) == value + unit,
{
    text::laws::law_only_digits_are_read(value);
    let raw = value + unit;
    assert forall|i: int| 0 <= i < value.len() implies !text::white(#[trigger] value[i]) by {
        assert('+' as int == 43 && '-' as int == 45);
    }
    assert(raw[0] == value[0]);
    assert(raw.last() == unit.last());
    text::lemma_trimmed(raw);
}

/// A number with a unit is read as that number of pixels or of percent. A size has to be more than
/// nothing, and no more than the whole where it is a percentage; an offset may be anything, but a
/// percentage has to fit in sixteen bits.
pub proof fn law_metric_is_a_number_with_a_unit(value: Seq<char>, n: i32)
    requires
        text::written_i32(value) == Some(n),
    ensures
        ({
            let raw = value + "px"@;
            &&& placement::metric_of(raw, MetricKind::Offset) == Ok::<PlacementMetric, MetricFault>(
                PlacementMetric::Pixels(n),
            )
            &&& match placement::metric_of(raw, MetricKind::Size) {
                Ok(metric) => n > 0 && metric == PlacementMetric::Pixels(n),
                Err(fault) => n <= 0 && fault.kind == ConfigErrorKind::NonPositiveMetric
                    && fault.number is None,
            }
        }),
        ({
            let raw = value + "%"@;
            &&& match placement::metric_of(raw, MetricKind::Offset) {
                Ok(metric) => -32768 <= n <= 32767 && metric == PlacementMetric::Percent(n as i16),
                Err(fault) => !(-32768 <= n <= 32767) && fault.kind
                    == ConfigErrorKind::OutOfRangeMetric && fault.number is None,
            }
            &&& match placement::metric_of(raw, MetricKind::Size) {
                Ok(metric) => 0 < n <= 100 && metric == PlacementMetric::Percent(n as i16),
                Err(fault) => fault.number is None && if n <= 0 {
                    fault.kind == ConfigErrorKind::NonPositiveMetric
                } else {
                    n > 100 && fault.kind == ConfigErrorKind::PercentTooLarge
                },
            }
        }),
{
    reveal_strlit("px");
    reveal_strlit("%");
    let pixels = value + "px"@;
    let percent = value + "%"@;
    lemma_number_is_tight(value, "px"@);
    lemma_number_is_tight(value, "%"@);
    assert(pixels.skip(pixels.len() - "%"@.len())[0] == 'x');
    assert(!text::ends_with(pixels, "%"@));
    assert(pixels.skip(pixels.len() - "px"@.len()) =~= "px"@);
    assert(pixels.take(pixels.len() - "px"@.len()) =~= value);
    assert(percent.skip(percent.len() - "%"@.len()) =~= "%"@);
    assert(percent.take(percent.len() - "%"@.len()) =~= value);
}

/// Nothing but a number with a unit is a metric: where a text is none, with white space or without,
/// it is refused as no metric at all.
pub proof fn law_nothing_else_is_a_metric(raw: Seq<char>, kind: MetricKind)
    requires
        forall|value: Seq<char>|
            raw == #[trigger] (value + "px"@) || raw == value + "%"@ ==> text::written_i32(
                value,
            ) is None,
    ensures
        placement::metric_of(raw, kind) is Err,
        placement::metric_of(raw, kind)->Err_0.kind == ConfigErrorKind::InvalidMetric,
{
    if text::ends_with(raw, "%"@) {
        let value = raw.take(raw.len() - "%"@.len());
        assert(raw =~= value + "%"@);
        let other = value + "px"@;
    } else if text::ends_with(raw, "px"@) {
        let value = raw.take(raw.len() - "px"@.len());
        assert(raw =~= value + "px"@);
    }
}

/// Where a metric has a unit, and what stands before it is no number, it is told why it is none.
pub proof fn law_unreadable_number_is_told(value: Seq<char>, kind: MetricKind)
    requires
        value.len() > 0,
        !text::has_white(value),
        text::written_i32(value) is None,
    ensures
        placement::metric_of(value + "px"@, kind) == Err::<PlacementMetric, MetricFault>(
            MetricFault {
                kind: ConfigErrorKind::InvalidMetric,
                number: Some(text::number_fault(value)),
            },
        ),
        placement::metric_of(value + "%"@, kind) == Err::<PlacementMetric, MetricFault>(
            MetricFault {
                kind: ConfigErrorKind::InvalidMetric,
                number: Some(text::number_fault(value)),
            },
        ),
{
    reveal_strlit("px");
    reveal_strlit("%");
    let pixels = value + "px"@;
    let percent = value + "%"@;
    assert(!text::white(value[0]));
    assert(pixels[0] == value[0] && percent[0] == value[0]);
    assert(pixels.last() == 'x' && percent.last() == '%');
    text::lemma_trimmed(pixels);
    text::lemma_trimmed(percent);
    assert(pixels.skip(pixels.len() - "%"@.len())[0] == 'x');
    assert(!text::ends_with(pixels, "%"@));
    assert(pixels.skip(pixels.len() - "px"@.len()) =~= "px"@);
    assert(pixels.take(pixels.len() - "px"@.len()) =~= value);
    assert(percent.skip(percent.len() - "%"@.len()) =~= "%"@);
    assert(percent.take(percent.len() - "%"@.len()) =~= value);
}

/// The metric that an accepted app has for a field is the one that is written there, and the
/// default where nothing is.
pub open spec fn is_metric(
    written: Option<String>,
    kind: MetricKind,
    default: PlacementMetric,
    metric: PlacementMetric,
) -> bool {
    match written {
        Some(written) => placement::metric_of(written@, kind) == Ok::<PlacementMetric, MetricFault>(
            metric,
        ),
        None => metric == default,
    }
}

proof fn lemma_defaults()
    ensures
        placement::metric_of("100%"@, MetricKind::Size) == Ok::<PlacementMetric, MetricFault>(
            PlacementMetric::Percent(100),
        ),
        placement::metric_of("0px"@, MetricKind::Offset) == Ok::<PlacementMetric, MetricFault>(
            PlacementMetric::Pixels(0),
        ),
{
    reveal_strlit("100%");
    reveal_strlit("0px");
    reveal_strlit("px");
    reveal_strlit("%");
    text::laws::law_numbers_are_read_back(100);
    text::laws::law_numbers_are_read_back(0);
    assert(text::decimal(100) =~= seq!['1', '0', '0']) by {
        reveal_with_fuel(text::decimal, 3);
    }
    assert(text::decimal(0) =~= seq!['0']);
    assert("100%"@ =~= text::decimal(100) + "%"@);
    assert("0px"@ =~= text::decimal(0) + "px"@);
    law_metric_is_a_number_with_a_unit(text::decimal(100), 100);
    law_metric_is_a_number_with_a_unit(text::decimal(0), 0);
}

/// A placement that is accepted has the width, the height, the position and the offsets that are
/// written, each in its own field. What is not written is the whole side for a size, the upper left
/// corner, and no offset.
pub proof fn law_placement_is_the_written_one(
    raw: RawPlacementConfig,
    name: Seq<char>,
    p: PlacementConfig,
)
    ensures
        placement::placement_of(Some(raw), name) == Ok::<PlacementConfig, error::ErrorView>(p)
            ==> {
            &&& is_metric(raw.width, MetricKind::Size, PlacementMetric::Percent(100), p.width)
            &&& is_metric(raw.height, MetricKind::Size, PlacementMetric::Percent(100), p.height)
            &&& is_metric(raw.offset_x, MetricKind::Offset, PlacementMetric::Pixels(0), p.offset_x)
            &&& is_metric(raw.offset_y, MetricKind::Offset, PlacementMetric::Pixels(0), p.offset_y)
            &&& match raw.position {
                Some(position) => position@ == position_name(p.position),
                None => p.position == PlacementPosition::TopLeft,
            }
        },
        placement::placement_of(None, name) == Ok::<PlacementConfig, error::ErrorView>(p) <==> p
            == (PlacementConfig {
            width: PlacementMetric::Percent(100),
            height: PlacementMetric::Percent(100),
            position: PlacementPosition::TopLeft,
            offset_x: PlacementMetric::Pixels(0),
            offset_y: PlacementMetric::Pixels(0),
        }),
{
    lemma_defaults();
    law_positions_have_names(PlacementPosition::TopLeft, "top-left"@);
    if let Some(position) = raw.position {
        law_positions_have_names(p.position, position@);
    }
}

/// A placement is accepted exactly where every metric in it is one and its position has a name.
/// Where it is not, the first thing at fault is named: the width, the height, the position, the
/// offset to the right, the offset downwards.
pub proof fn law_placement_is_refused_for_its_first_fault(
    raw: RawPlacementConfig,
    name: Seq<char>,
)
    ensures
        ({
            let width_ok = raw.width matches Some(s) ==> placement::metric_of(
                s@,
                MetricKind::Size,
            ) is Ok;
            let height_ok = raw.height matches Some(s) ==> placement::metric_of(
                s@,
                MetricKind::Size,
            ) is Ok;
            let position_ok = raw.position matches Some(s) ==> placement::position_named(
                s@,
            ) is Some;
            let x_ok = raw.offset_x matches Some(s) ==> placement::metric_of(
                s@,
                MetricKind::Offset,
            ) is Ok;
            let y_ok = raw.offset_y matches Some(s) ==> placement::metric_of(
                s@,
                MetricKind::Offset,
            ) is Ok;
            match placement::placement_of(Some(raw), name) {
                Ok(_) => width_ok && height_ok && position_ok && x_ok && y_ok,
                Err(e) => e.app == name && if !width_ok {
                    blames(e, "width"@, raw.width->0@, MetricKind::Size)
                } else if !height_ok {
                    blames(e, "height"@, raw.height->0@, MetricKind::Size)
                } else if !position_ok {
                    e.kind == ConfigErrorKind::InvalidPosition && e.value == raw.position->0@
                } else if !x_ok {
                    blames(e, "offset_x"@, raw.offset_x->0@, MetricKind::Offset)
                } else {
                    !y_ok && blames(e, "offset_y"@, raw.offset_y->0@, MetricKind::Offset)
                },
            }
        }),
{
    lemma_defaults();
    law_positions_have_names(PlacementPosition::TopLeft, "top-left"@);
}

/// Whether a refusal names a field, and what is written there, for the fault that it has.
pub open spec fn blames(
    e: error::ErrorView,
    field: Seq<char>,
    written: Seq<char>,
    kind: MetricKind,
) -> bool {
    &&& e.field == field
    &&& e.value == written
    &&& e.kind == placement::metric_of(written, kind)->Err_0.kind
    &&& e.cause == match placement::metric_of(written, kind)->Err_0.number {
        Some(number) => Some(text::number_message(number)),
        None => None,
    }
}

/// An animation is accepted exactly where its style and its easing have names and it takes two
/// seconds at most. It is then the written one; what is not written is no animation, one that slows
/// down, of three twentieths of a second. Where it is refused the first thing at fault is named:
/// the style, the easing, the duration.
pub proof fn law_animation_is_the_written_one(raw: RawAnimationConfig, name: Seq<char>)
    ensures
        ({
            let style_ok = raw.style matches Some(s) ==> animation::style_named(s@) is Some;
            let easing_ok = raw.easing matches Some(s) ==> animation::easing_named(s@) is Some;
            match animation::animation_of(Some(raw), name) {
                Ok(a) => {
                    &&& match raw.style {
                        Some(style) => style@ == style_name(a.style),
                        None => a.style == AnimationStyle::Off,
                    }
                    &&& match raw.easing {
                        Some(easing) => easing@ == easing_name(a.easing),
                        None => a.easing == AnimationEasing::EaseOut,
                    }
                    &&& match raw.duration_ms {
                        Some(duration) => a.duration_ms == duration,
                        None => a.duration_ms == 150,
                    }
                    &&& a.duration_ms <= 2000
                },
                Err(e) => e.app == name && if !style_ok {
                    e.kind == ConfigErrorKind::InvalidStyle && e.value == raw.style->0@
                } else if !easing_ok {
                    e.kind == ConfigErrorKind::InvalidEasing && e.value == raw.easing->0@
                } else {
                    &&& raw.duration_ms is Some
                    &&& raw.duration_ms->0 > 2000
                    &&& e.kind == ConfigErrorKind::DurationTooLong
                    &&& e.value == text::decimal(raw.duration_ms->0 as nat)
                },
            }
        }),
        animation::animation_of(None, name) == Ok::<AnimationConfig, error::ErrorView>(
            AnimationConfig {
                style: AnimationStyle::Off,
                easing: AnimationEasing::EaseOut,
                duration_ms: 150,
            },
        ),
{
    law_styles_have_names(AnimationStyle::Off, "none"@);
    law_easings_have_names(AnimationEasing::EaseOut, "ease-out"@);
    if let Ok(a) = animation::animation_of(Some(raw), name) {
        if let Some(style) = raw.style {
            law_styles_have_names(a.style, style@);
        }
        if let Some(easing) = raw.easing {
            law_easings_have_names(a.easing, easing@);
        }
    }
}

/// An app's entry is accepted exactly where none of these rules is broken, and else it is refused
/// for the first one that is: it has a name, of sixty-four characters at most, that no app before it
/// has; a hotkey that can be read, whose key sequence no app before it has; something to tell its
/// window by; a known attach mode; a command without fault; expressions that compile; a placement
/// and an animation without fault; and a directory that is absolute and exists.
pub proof fn law_entry_is_refused_for_its_first_fault(
    raw: RawAppConfig,
    names: Seq<Seq<char>>,
    sequences: Seq<Seq<char>>,
)
    ensures
        ({
            let name = text::trimmed(raw.name@);
            let sequence = hotkey::sequence_of(raw.hotkey@);
            let command = app::command_of(
                name,
                app::optional_contents(raw.command),
                app::contents_or_none(raw.arguments),
                text::optional(raw.filename),
            );
            let refusal = app::app_refusal(raw, names, sequences);
            let kind = refusal->0.kind;
            let placing = placement::placement_of(raw.placement, name);
            let moving = animation::animation_of(raw.animation, name);
            &&& refusal is Some ==> refusal->0.app == name
            &&& if name.len() == 0 {
                refusal is Some && kind == ConfigErrorKind::EmptyName
            } else if name.len() > 64 {
                refusal is Some && kind == ConfigErrorKind::NameTooLong
            } else if names.contains(name) {
                refusal is Some && kind == ConfigErrorKind::DuplicateName
            } else if sequence is None {
                refusal is Some && kind == ConfigErrorKind::InvalidHotkey
            } else if sequences.contains(sequence->0) {
                refusal is Some && kind == ConfigErrorKind::DuplicateHotkey && refusal->0.value
                    == raw.hotkey@
            } else if raw.filename is None && raw.process_name is None && raw.window_title
                is None {
                refusal is Some && kind == ConfigErrorKind::MissingMatcher
            } else if raw.attach_mode is Some && raw.attach_mode->0@ != "find"@
                && raw.attach_mode->0@ != "find-or-start"@ {
                refusal is Some && kind == ConfigErrorKind::InvalidAttachMode && refusal->0.value
                    == raw.attach_mode->0@
            } else if command is Err {
                refusal == Some(command->Err_0)
            } else if !compiles(raw.process_name) {
                refusal is Some && kind == ConfigErrorKind::InvalidRegex && refusal->0.field
                    == "process_name"@
            } else if !compiles(raw.window_title) {
                refusal is Some && kind == ConfigErrorKind::InvalidRegex && refusal->0.field
                    == "window_title"@
            } else if placing is Err {
                refusal == Some(placing->Err_0)
            } else if moving is Err {
                refusal == Some(moving->Err_0)
            } else if raw.working_directory is Some && !(raw.working_directory->0.path@.len() > 0
                && raw.working_directory->0.path@[0] == '/') {
                refusal is Some && kind == ConfigErrorKind::RelativeDirectory && refusal->0.value
                    == raw.working_directory->0.path@
            } else if raw.working_directory is Some && !raw.working_directory->0.exists {
                refusal is Some && kind == ConfigErrorKind::MissingDirectory && refusal->0.value
                    == raw.working_directory->0.path@
            } else {
                refusal is None
            }
        }),
{
    let name = text::trimmed(raw.name@);
    lemma_modes_differ();
    if let Some(written) = raw.placement {
        law_placement_is_refused_for_its_first_fault(written, name);
    }
    if let Some(written) = raw.animation {
        law_animation_is_the_written_one(written, name);
    }
}

/// Whether an expression that may be left out compiles, where case is disregarded.
pub open spec fn compiles(pattern: Option<String>) -> bool {
    match pattern {
        Some(pattern) => pattern::compiled_regex("(?i)"@ + pattern@) is Ok,
        None => true,
    }
}

/// The log level of an accepted configuration is the written one, without the white space around it
/// and in small letters, and only errors are logged where none is written. A level that is not one
/// of the six is refused, and so is a configuration without apps, before anything else.
pub proof fn law_log_level_is_the_written_one(raw: RawConfig, config: Config, e: error::ErrorView)
    ensures
        config::config_of(raw, config) ==> match raw.log_level {
            None => config.log_level@ == "error"@,
            Some(level) => config.log_level@ == text::lowered(text::trimmed(level@)),
        },
        config::config_of(raw, config) ==> seq![
            "error"@,
            "warn"@,
            "info"@,
            "debug"@,
            "trace"@,
            "off"@,
        ].contains(config.log_level@),
        raw.apps@.len() == 0 && config::refused_with(raw, e) ==> e.kind == ConfigErrorKind::NoApps,
        config::config_of(raw, config) ==> raw.apps@.len() > 0,
        ({
            let level = text::lowered(text::trimmed(raw.log_level->0@));
            raw.apps@.len() > 0 && raw.log_level is Some && !seq![
                "error"@,
                "warn"@,
                "info"@,
                "debug"@,
                "trace"@,
                "off"@,
            ].contains(level) && config::refused_with(raw, e) ==> e.kind
                == ConfigErrorKind::InvalidLogLevel && e.value == level
        }),
{
    let known = seq!["error"@, "warn"@, "info"@, "debug"@, "trace"@, "off"@];
    assert(known[0] == "error"@ && known[1] == "warn"@ && known[2] == "info"@);
    assert(known[3] == "debug"@ && known[4] == "trace"@ && known[5] == "off"@);
}

/// A configuration is refused for the first app at fault, given the names and the key sequences of
/// those before it, where its log level is known.
pub proof fn law_first_app_at_fault_is_reported(raw: RawConfig, e: error::ErrorView)
    requires
        config::refused_with(raw, e),
        e.kind != ConfigErrorKind::NoApps,
        e.kind != ConfigErrorKind::InvalidLogLevel,
    ensures
        exists|i: int|
            0 <= i < raw.apps@.len() && app::app_refusal(
                #[trigger] raw.apps@[i],
                Seq::new(i as nat, |j: int| text::trimmed(raw.apps@[j].name@)),
                Seq::new(i as nat, |j: int| hotkey::sequence_of(raw.apps@[j].hotkey@)->0),
            ) == Some(e) && forall|k: int|
                0 <= k < i ==> app::app_refusal(
                    #[trigger] raw.apps@[k],
                    Seq::new(k as nat, |j: int| text::trimmed(raw.apps@[j].name@)),
                    Seq::new(k as nat, |j: int| hotkey::sequence_of(raw.apps@[j].hotkey@)->0),
                ) is None,
{
    let i = choose|i: int| config::first_refusal_at(raw.apps@, i, e);
    assert(config::first_refusal_at(raw.apps@, i, e));
    assert forall|k: int| 0 <= k <= i implies config::names_before(raw.apps@, k) == Seq::new(
        k as nat,
        |j: int| text::trimmed(raw.apps@[j].name@),
    ) && config::sequences_before(raw.apps@, k) == Seq::new(
        k as nat,
        |j: int| hotkey::sequence_of(raw.apps@[j].hotkey@)->0,
    ) by {
        assert(config::names_before(raw.apps@, k) =~= Seq::new(
            k as nat,
            |j: int| text::trimmed(raw.apps@[j].name@),
        ));
        assert(config::sequences_before(raw.apps@, k) =~= Seq::new(
            k as nat,
            |j: int| hotkey::sequence_of(raw.apps@[j].hotkey@)->0,
        ));
    }
    assert forall|k: int| 0 <= k < i implies app::app_refusal(
        #[trigger] raw.apps@[k],
        Seq::new(k as nat, |j: int| text::trimmed(raw.apps@[j].name@)),
        Seq::new(k as nat, |j: int| hotkey::sequence_of(raw.apps@[j].hotkey@)->0),
    ) is None by {
        assert(config::refusal_at(raw.apps@, k) is None);
    }
    assert(raw.apps@[i] == raw.apps@[i]);
}

/// What is said to the user names the app, the field and the value at fault, so far as the rule
/// concerns them, and the cause, where there is one, comes behind it.
pub proof fn law_message_names_what_is_at_fault(e: error::ErrorView)
    ensures
        error::message_of(e) =~= match e.kind {
            ConfigErrorKind::NoApps => "config must contain at least one [[app]] entry"@,
            ConfigErrorKind::InvalidLogLevel => "invalid log_level '"@ + e.value
                + "' (expected error/warn/info/debug/trace/off)"@,
            ConfigErrorKind::EmptyName => "app name must not be empty"@,
            ConfigErrorKind::NameTooLong => "app name '"@ + e.app + "' exceeds 64 characters"@,
            ConfigErrorKind::DuplicateName => "duplicate app name '"@ + e.app + "'"@,
            ConfigErrorKind::InvalidHotkey => "invalid hotkey for app '"@ + e.app + "'"@,
            ConfigErrorKind::DuplicateHotkey => "duplicate hotkey '"@ + e.value + "'"@,
            ConfigErrorKind::MissingMatcher => "app '"@ + e.app + "' "@
                + "must set at least one of filename, process_name, or window_title"@,
            ConfigErrorKind::InvalidAttachMode => "app '"@ + e.app + "' "@
                + "has invalid attach_mode '"@ + e.value + "'"@,
            ConfigErrorKind::EmptyCommand => "app '"@ + e.app + "' "@ + "has empty command"@,
            ConfigErrorKind::InvalidProgram => "app '"@ + e.app + "' "@
                + "has invalid command program"@,
            ConfigErrorKind::CommandAndArguments => "app '"@ + e.app + "' "@
                + "cannot set both command and arguments"@,
            ConfigErrorKind::InvalidRegex => "app '"@ + e.app + "' "@ + "has invalid "@ + e.field
                + " regex"@,
            ConfigErrorKind::InvalidMetric => "app '"@ + e.app + "' "@ + "has invalid "@ + e.field
                + " metric '"@ + e.value + "'"@,
            ConfigErrorKind::NonPositiveMetric => "app '"@ + e.app + "' "@ + "has non-positive "@
                + e.field + " metric '"@ + e.value + "'"@,
            ConfigErrorKind::PercentTooLarge => "app '"@ + e.app + "' "@ + "has "@ + e.field
                + " percentage larger than 100: '"@ + e.value + "'"@,
            ConfigErrorKind::OutOfRangeMetric => "app '"@ + e.app + "' "@ + "has out-of-range "@
                + e.field + " metric '"@ + e.value + "'"@,
            ConfigErrorKind::InvalidPosition => "app '"@ + e.app + "' "@
                + "has invalid position '"@ + e.value + "'"@,
            ConfigErrorKind::InvalidStyle => "app '"@ + e.app + "' "@
                + "has invalid animation.style '"@ + e.value + "'"@,
            ConfigErrorKind::InvalidEasing => "app '"@ + e.app + "' "@
                + "has invalid animation.easing '"@ + e.value + "'"@,
            ConfigErrorKind::DurationTooLong => "app '"@ + e.app + "' "@
                + "has animation.duration_ms larger than 2000: '"@ + e.value + "'"@,
            ConfigErrorKind::RelativeDirectory => "app '"@ + e.app + "' "@
                + "has non-absolute working_directory '"@ + e.value + "'"@,
            ConfigErrorKind::MissingDirectory => "app '"@ + e.app + "' "@
                + "working_directory does not exist: '"@ + e.value + "'"@,
        },
        error::chain_of(e) == match e.cause {
            Some(cause) => error::message_of(e) + ": "@ + cause,
            None => error::message_of(e),
        },
{
}

/// A refusal tells what the hotkey or the number at fault is refused for, and nothing else has a
/// cause but an expression that does not compile.
pub proof fn law_causes_are_told(
    raw: RawAppConfig,
    names: Seq<Seq<char>>,
    sequences: Seq<Seq<char>>,
    token: Seq<char>,
)
    ensures
        app::app_refusal(raw, names, sequences) matches Some(e) ==> match e.kind {
            ConfigErrorKind::InvalidHotkey => e.cause == Some(
                hotkey::fault_message(hotkey::fault_of(raw.hotkey@)),
            ),
            ConfigErrorKind::InvalidRegex => {
                let pattern = if e.field == "process_name"@ {
                    raw.process_name
                } else {
                    raw.window_title
                };
                &&& pattern is Some
                &&& pattern::compiled_regex("(?i)"@ + pattern->0@) is Err
                &&& e.cause == Some(
                    pattern::regex_error_text(
                        pattern::compiled_regex("(?i)"@ + pattern->0@)->Err_0,
                    ),
                )
            },
            ConfigErrorKind::InvalidMetric => true,
            _ => e.cause is None,
        },
        hotkey::fault_message(hotkey::HotkeyFault::UnknownModifier(token)) == "unknown modifier '"@
            + token + "'"@,
        hotkey::fault_message(hotkey::HotkeyFault::UnknownKey(token)) == "unknown key '"@ + token
            + "'"@,
{
    reveal_strlit("process_name");
    reveal_strlit("window_title");
    assert("process_name"@[0] != "window_title"@[0]);
}

} // verus!
