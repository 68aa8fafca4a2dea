//! Where a window goes on its screen, and how large it is.

use crate::config::error;
use crate::config::error::{ConfigError, ConfigErrorKind};
use crate::text;
use crate::text::NumberError;
use vstd::prelude::*;

verus! {

/// A length: a share of the screen, or a number of pixels.
#[derive(Debug, Clone, Copy, PartialEq, Eq, Structural)]
pub enum PlacementMetric {
    Percent(i16),
    Pixels(i32),
}

/// The edge or corner of the screen that a window is held to.
#[derive(Debug, Clone, Copy, PartialEq, Eq, Structural)]
pub enum PlacementPosition {
    TopLeft,
    Top,
    TopRight,
    Left,
    Center,
    Right,
    BottomLeft,
    Bottom,
    BottomRight,
}

/// The placement of one app's window.
#[derive(Debug, Clone, Copy, PartialEq, Eq, Structural)]
pub struct PlacementConfig {
    pub width: PlacementMetric,
    pub height: PlacementMetric,
    pub position: PlacementPosition,
    pub offset_x: PlacementMetric,
    pub offset_y: PlacementMetric,
}

/// The placement of one app's window as it is written; what is left out has a default.
#[derive(Debug)]
pub struct RawPlacementConfig {
    pub width: Option<String>,
    pub height: Option<String>,
    pub position: Option<String>,
    pub offset_x: Option<String>,
    pub offset_y: Option<String>,
}

/// What a metric measures: a size is positive and at most the whole screen, an offset is free.
#[derive(Debug, Clone, Copy, PartialEq, Eq, Structural)]
pub enum MetricKind {
    Size,
    Offset,
}

/// The rule that a metric breaks, and why its number cannot be read where that is the reason.
#[derive(Debug, Clone, Copy, PartialEq, Eq, Structural)]
pub struct MetricFault {
    pub kind: ConfigErrorKind,
    pub number: Option<NumberError>,
}

/// A fault that does not lie in how the number is written.
pub open spec fn fault(kind: ConfigErrorKind) -> MetricFault {
    MetricFault { kind, number: None }
}

/// Whether a metric is a size that a configuration may ask for.
pub open spec fn is_size(metric: PlacementMetric) -> bool {
    match metric {
        PlacementMetric::Percent(p) => 0 < p <= 100,
        PlacementMetric::Pixels(n) => 0 < n,
    }
}

/// The metric that a number with a unit makes, or the rule that it breaks.
pub open spec fn metric_of_number(n: i32, percent: bool, kind: MetricKind) -> Result<
    PlacementMetric,
    ConfigErrorKind,
> {
    if kind == MetricKind::Size && n <= 0 {
        Err(ConfigErrorKind::NonPositiveMetric)
    } else if !percent {
        Ok(PlacementMetric::Pixels(n))
    } else if kind == MetricKind::Size && n > 100 {
        Err(ConfigErrorKind::PercentTooLarge)
    } else if n < i16::MIN || n > i16::MAX {
        Err(ConfigErrorKind::OutOfRangeMetric)
    } else {
        Ok(PlacementMetric::Percent(n as i16))
    }
}

/// The text before the unit, and whether the unit is a percentage.
pub open spec fn without_unit(raw: Seq<char>) -> Option<(Seq<char>, bool)> {
    if text::ends_with(raw, "%"@) {
        Some((raw.take(raw.len() - "%"@.len()), true))
    } else if text::ends_with(raw, "px"@) {
        Some((raw.take(raw.len() - "px"@.len()), false))
    } else {
        None
    }
}

/// The metric that a text writes, such as `50%` or `640px`, or the rule that it breaks. White
/// space is allowed nowhere.
pub open spec fn metric_of(raw: Seq<char>, kind: MetricKind) -> Result<
    PlacementMetric,
    MetricFault,
> {
    if raw.len() == 0 || text::trimmed(raw) != raw {
        Err(fault(ConfigErrorKind::InvalidMetric))
    } else {
        match without_unit(raw) {
            None => Err(fault(ConfigErrorKind::InvalidMetric)),
            Some((value, percent)) => if value.len() == 0 || text::has_white(value) {
                Err(fault(ConfigErrorKind::InvalidMetric))
            } else {
                match text::written_i32(value) {
                    None => Err(
                        MetricFault {
                            kind: ConfigErrorKind::InvalidMetric,
                            number: Some(text::number_fault(value)),
                        },
                    ),
                    Some(n) => match metric_of_number(n, percent, kind) {
                        Ok(m) => Ok(m),
                        Err(k) => Err(fault(k)),
                    },
                }
            },
        }
    }
}

/// The metric that a field of an app writes, or why it is refused.
pub open spec fn field_metric(
    app: Seq<char>,
    field: Seq<char>,
    raw: Seq<char>,
    kind: MetricKind,
) -> Result<PlacementMetric, error::ErrorView> {
    match metric_of(raw, kind) {
        Ok(m) => Ok(m),
        Err(fault) => Err(
            error::caused(
                error::refusal(fault.kind, app, field, raw),
                match fault.number {
                    Some(e) => Some(text::number_message(e)),
                    None => None,
                },
            ),
        ),
    }
}

/// The position that a text names.
pub open spec fn position_named(raw: Seq<char>) -> Option<PlacementPosition> {
    if raw == "top-left"@ {
        Some(PlacementPosition::TopLeft)
    } else if raw == "top"@ {
        Some(PlacementPosition::Top)
    } else if raw == "top-right"@ {
        Some(PlacementPosition::TopRight)
    } else if raw == "left"@ {
        Some(PlacementPosition::Left)
    } else if raw == "center"@ {
        Some(PlacementPosition::Center)
    } else if raw == "right"@ {
        Some(PlacementPosition::Right)
    } else if raw == "bottom-left"@ {
        Some(PlacementPosition::BottomLeft)
    } else if raw == "bottom"@ {
        Some(PlacementPosition::Bottom)
    } else if raw == "bottom-right"@ {
        Some(PlacementPosition::BottomRight)
    } else {
        None
    }
}

/// The placement of a window of which nothing is said: the whole screen.
pub open spec fn default_placement() -> PlacementConfig {
    PlacementConfig {
        width: PlacementMetric::Percent(100),
        height: PlacementMetric::Percent(100),
        position: PlacementPosition::TopLeft,
        offset_x: PlacementMetric::Pixels(0),
        offset_y: PlacementMetric::Pixels(0),
    }
}

/// The placement that an app's entry describes, or the first thing wrong with it: the width,
/// the height, the position, then the offsets.
pub open spec fn placement_of(raw: Option<RawPlacementConfig>, app: Seq<char>) -> Result<
    PlacementConfig,
    error::ErrorView,
> {
    match raw {
        None => Ok(default_placement()),
        Some(raw) => {
            let width = field_metric(
                app,
                "width"@,
                text::text_or(raw.width, "100%"@),
                MetricKind::Size,
            );
            let height = field_metric(
                app,
                "height"@,
                text::text_or(raw.height, "100%"@),
                MetricKind::Size,
            );
            let position = text::text_or(raw.position, "top-left"@);
            let offset_x = field_metric(
                app,
                "offset_x"@,
                text::text_or(raw.offset_x, "0px"@),
                MetricKind::Offset,
            );
            let offset_y = field_metric(
                app,
                "offset_y"@,
                text::text_or(raw.offset_y, "0px"@),
                MetricKind::Offset,
            );
            if width is Err {
                Err(width->Err_0)
            } else if height is Err {
                Err(height->Err_0)
            } else if position_named(position) is None {
                Err(error::refusal(ConfigErrorKind::InvalidPosition, app, Seq::empty(), position))
            } else if offset_x is Err {
                Err(offset_x->Err_0)
            } else if offset_y is Err {
                Err(offset_y->Err_0)
            } else {
                Ok(
                    PlacementConfig {
                        width: width->Ok_0,
                        height: height->Ok_0,
                        position: position_named(position)->0,
                        offset_x: offset_x->Ok_0,
                        offset_y: offset_y->Ok_0,
                    },
                )
            }
        },
    }
}

fn plain(kind: ConfigErrorKind) -> (f: MetricFault)
    ensures
        f == fault(kind),
{
    MetricFault { kind, number: None }
}

fn read_metric(raw: &str, kind: MetricKind) -> (metric: Result<PlacementMetric, MetricFault>)
    ensures
        metric == metric_of(raw@, kind),
{
    let chars = text::chars_of(raw);
    let tight = text::trim_chars(&chars);
    if chars.len() == 0 || !text::same_chars(&tight, &chars) {
        return Err(plain(ConfigErrorKind::InvalidMetric));
    }
    let (value, percent) = match text::strip_suffix(&chars, "%") {
        Some(value) => (value, true),
        None => match text::strip_suffix(&chars, "px") {
            Some(value) => (value, false),
            None => {
                return Err(plain(ConfigErrorKind::InvalidMetric));
            },
        },
    };
    assert(without_unit(raw@) == Some((value@, percent)));
    if value.len() == 0 || text::contains_white(&value) {
        return Err(plain(ConfigErrorKind::InvalidMetric));
    }
    let number: i32 = match text::parse_i32(&value) {
        Ok(number) => number,
        Err(e) => {
            return Err(
                MetricFault { kind: ConfigErrorKind::InvalidMetric, number: Some(e) },
            );
        },
    };
    if kind == MetricKind::Size && number <= 0 {
        return Err(plain(ConfigErrorKind::NonPositiveMetric));
    }
    if !percent {
        return Ok(PlacementMetric::Pixels(number));
    }
    if kind == MetricKind::Size && number > 100 {
        return Err(plain(ConfigErrorKind::PercentTooLarge));
    }
    if number < -32768 || number > 32767 {
        return Err(plain(ConfigErrorKind::OutOfRangeMetric));
    }
    Ok(PlacementMetric::Percent(number as i16))
}

/// Reads a metric: a whole number with the unit `%` or `px`.
pub fn parse_metric(app_name: &str, field: &str, raw: &str, kind: MetricKind) -> (metric: Result<
    PlacementMetric,
    ConfigError,
>)
    ensures
        error::agrees(metric, field_metric(app_name@, field@, raw@, kind)),
{
    match read_metric(raw, kind) {
        Ok(metric) => Ok(metric),
        Err(broken) => Err(
            ConfigError::new(broken.kind, app_name, field, raw).with_cause(
                match &broken.number {
                    Some(e) => Some(e.message()),
                    None => None,
                },
            ),
        ),
    }
}

impl PlacementPosition {
    /// Reads a position: the name of an edge, of a corner, or `center`.
    pub fn parse(app_name: &str, raw: &str) -> (position: Result<PlacementPosition, ConfigError>)
        ensures
            error::agrees(
                position,
                match position_named(raw@) {
                    Some(p) => Ok(p),
                    None => Err(
                        error::refusal(
                            ConfigErrorKind::InvalidPosition,
                            app_name@,
                            Seq::empty(),
                            raw@,
                        ),
                    ),
                },
            ),
    {
        if text::same_text(raw, "top-left") {
            Ok(PlacementPosition::TopLeft)
        } else if text::same_text(raw, "top") {
            Ok(PlacementPosition::Top)
        } else if text::same_text(raw, "top-right") {
            Ok(PlacementPosition::TopRight)
        } else if text::same_text(raw, "left") {
            Ok(PlacementPosition::Left)
        } else if text::same_text(raw, "center") {
            Ok(PlacementPosition::Center)
        } else if text::same_text(raw, "right") {
            Ok(PlacementPosition::Right)
        } else if text::same_text(raw, "bottom-left") {
            Ok(PlacementPosition::BottomLeft)
        } else if text::same_text(raw, "bottom") {
            Ok(PlacementPosition::Bottom)
        } else if text::same_text(raw, "bottom-right") {
            Ok(PlacementPosition::BottomRight)
        } else {
            Err(ConfigError::of_app(ConfigErrorKind::InvalidPosition, app_name, raw))
        }
    }
}

impl PlacementConfig {
    /// Reads the placement of an app's window.
    pub fn from_raw(raw: Option<&RawPlacementConfig>, app_name: &str) -> (placement: Result<
        PlacementConfig,
        ConfigError,
    >)
        ensures
            error::agrees(
                placement,
                placement_of(
                    match raw {
                        Some(r) => Some(*r),
                        None => None,
                    },
                    app_name@,
                ),
            ),
    {
        let raw = match raw {
            None => {
                return Ok(PlacementConfig::default());
            },
            Some(raw) => raw,
        };
        let width = match parse_metric(
            app_name,
            "width",
            text::given_or(&raw.width, "100%"),
            MetricKind::Size,
        ) {
            Ok(width) => width,
            Err(e) => {
                return Err(e);
            },
        };
        let height = match parse_metric(
            app_name,
            "height",
            text::given_or(&raw.height, "100%"),
            MetricKind::Size,
        ) {
            Ok(height) => height,
            Err(e) => {
                return Err(e);
            },
        };
        let position = match PlacementPosition::parse(
            app_name,
            text::given_or(&raw.position, "top-left"),
        ) {
            Ok(position) => position,
            Err(e) => {
                return Err(e);
            },
        };
        let offset_x = match parse_metric(
            app_name,
            "offset_x",
            text::given_or(&raw.offset_x, "0px"),
            MetricKind::Offset,
        ) {
            Ok(offset) => offset,
            Err(e) => {
                return Err(e);
            },
        };
        let offset_y = match parse_metric(
            app_name,
            "offset_y",
            text::given_or(&raw.offset_y, "0px"),
            MetricKind::Offset,
        ) {
            Ok(offset) => offset,
            Err(e) => {
                return Err(e);
            },
        };
        Ok(PlacementConfig { width, height, position, offset_x, offset_y })
    }
}

impl Default for PlacementConfig {
    fn default() -> (placement: Self)
        ensures
            placement == default_placement(),
    {
        PlacementConfig {
            width: PlacementMetric::Percent(100),
            height: PlacementMetric::Percent(100),
            position: PlacementPosition::TopLeft,
            offset_x: PlacementMetric::Pixels(0),
            offset_y: PlacementMetric::Pixels(0),
        }
    }
}

} // verus!
