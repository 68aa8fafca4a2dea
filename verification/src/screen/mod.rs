//! Screens: which one a point or a window is on, where windows go on it, and where they are
//! parked while hidden.

pub mod laws;
pub mod reading;
pub mod support;

use crate::config::placement;
use crate::config::{PlacementConfig, PlacementMetric, PlacementPosition};
use crate::wm::FrameGeometry;
use vstd::prelude::*;

pub use support::{parse_support_information, SupportError};

verus! {

/// A screen, with its place on the desktop in pixels.
#[derive(Debug, PartialEq, Eq)]
pub struct ScreenInfo {
    pub index: u32,
    pub name: String,
    pub x: i32,
    pub y: i32,
    pub width: i32,
    pub height: i32,
}

/// A screen by the text and the numbers that it holds.
pub struct ScreenView {
    pub index: u32,
    pub name: Seq<char>,
    pub x: i32,
    pub y: i32,
    pub width: i32,
    pub height: i32,
}

impl View for ScreenInfo {
    type V = ScreenView;

    open spec fn view(&self) -> ScreenView {
        ScreenView {
            index: self.index,
            name: self.name@,
            x: self.x,
            y: self.y,
            width: self.width,
            height: self.height,
        }
    }
}

impl Clone for ScreenInfo {
    fn clone(&self) -> (copy: Self)
        ensures
            copy == *self,
    {
        ScreenInfo {
            index: self.index,
            name: self.name.clone(),
            x: self.x,
            y: self.y,
            width: self.width,
            height: self.height,
        }
    }
}

/// A list of screens by what each holds.
pub open spec fn views(screens: Seq<ScreenInfo>) -> Seq<ScreenView> {
    screens.map_values(|s: ScreenInfo| s@)
}

/// A list of its own with the same screens.
pub fn copy_screens(screens: &Vec<ScreenInfo>) -> (copy: Vec<ScreenInfo>)
    ensures
        copy@ == screens@,
{
    let mut copy: Vec<ScreenInfo> = Vec::new();
    let mut i: usize = 0;
    while i < screens.len()
        invariant
            i <= screens@.len(),
            copy@ == screens@.take(i as int),
        decreases screens.len() - i,
    {
        copy.push(screens[i].clone());
        i += 1;
    }
    assert(screens@.take(screens@.len() as int) == screens@);
    copy
}

/// Why a placement does not fit a screen.
#[derive(Debug, Clone, Copy, PartialEq, Eq, Structural)]
pub enum PlacementError {
    /// The window is wider than the screen.
    TooWide,
    /// The window is taller than the screen.
    TooTall,
}

/// What is said of a placement that does not fit.
pub open spec fn misfit_message(e: PlacementError) -> Seq<char> {
    match e {
        PlacementError::TooWide => "the window is wider than the screen"@,
        PlacementError::TooTall => "the window is taller than the screen"@,
    }
}

impl PlacementError {
    /// The reason as a sentence for the user.
    pub fn message(&self) -> (s: String)
        ensures
            s@ == misfit_message(*self),
    {
        match self {
            PlacementError::TooWide => "the window is wider than the screen".to_owned(),
            PlacementError::TooTall => "the window is taller than the screen".to_owned(),
        }
    }
}

/// The nearest number that fits in 32 bits.
pub open spec fn clamped(n: int) -> int {
    if n < i32::MIN {
        i32::MIN as int
    } else if n > i32::MAX {
        i32::MAX as int
    } else {
        n
    }
}

/// A quotient rounded towards zero.
pub open spec fn quotient(n: int, by: int) -> int {
    if n >= 0 {
        n / by
    } else {
        -((-n) / by)
    }
}

/// The length in pixels that a metric means on a side of the given length.
pub open spec fn extent(metric: PlacementMetric, side: int) -> int {
    match metric {
        PlacementMetric::Percent(p) => quotient(side * p, 100),
        PlacementMetric::Pixels(n) => n as int,
    }
}

/// Where along a side a window is held.
#[derive(Debug, Clone, Copy, PartialEq, Eq, Structural)]
pub enum Anchor {
    Start,
    Middle,
    End,
}

/// Where a position holds a window from left to right.
pub open spec fn across(position: PlacementPosition) -> Anchor {
    match position {
        PlacementPosition::TopLeft => Anchor::Start,
        PlacementPosition::Left => Anchor::Start,
        PlacementPosition::BottomLeft => Anchor::Start,
        PlacementPosition::Top => Anchor::Middle,
        PlacementPosition::Center => Anchor::Middle,
        PlacementPosition::Bottom => Anchor::Middle,
        PlacementPosition::TopRight => Anchor::End,
        PlacementPosition::Right => Anchor::End,
        PlacementPosition::BottomRight => Anchor::End,
    }
}

/// Where a position holds a window from top to bottom.
pub open spec fn down(position: PlacementPosition) -> Anchor {
    match position {
        PlacementPosition::TopLeft => Anchor::Start,
        PlacementPosition::Top => Anchor::Start,
        PlacementPosition::TopRight => Anchor::Start,
        PlacementPosition::Left => Anchor::Middle,
        PlacementPosition::Center => Anchor::Middle,
        PlacementPosition::Right => Anchor::Middle,
        PlacementPosition::BottomLeft => Anchor::End,
        PlacementPosition::Bottom => Anchor::End,
        PlacementPosition::BottomRight => Anchor::End,
    }
}

/// How far from the start of a side a window of the given length begins.
pub open spec fn start_of(anchor: Anchor, side: int, length: int) -> int {
    match anchor {
        Anchor::Start => 0,
        Anchor::Middle => quotient(side - length, 2),
        Anchor::End => side - length,
    }
}

/// Where a placement puts a window on a screen.
pub open spec fn placed(screen: ScreenView, placement: PlacementConfig) -> FrameGeometry {
    let width = clamped(extent(placement.width, screen.width as int));
    let height = clamped(extent(placement.height, screen.height as int));
    FrameGeometry {
        x: clamped(
            screen.x + start_of(across(placement.position), screen.width as int, width) + extent(
                placement.offset_x,
                screen.width as int,
            ),
        ) as i32,
        y: clamped(
            screen.y + start_of(down(placement.position), screen.height as int, height) + extent(
                placement.offset_y,
                screen.height as int,
            ),
        ) as i32,
        width: width as i32,
        height: height as i32,
    }
}

/// What is wrong with a placement on a screen: a size in pixels that is more than the screen's.
pub open spec fn misfit(screen: ScreenView, placement: PlacementConfig) -> Option<PlacementError> {
    if placement.width matches PlacementMetric::Pixels(n) && n > screen.width {
        Some(PlacementError::TooWide)
    } else if placement.height matches PlacementMetric::Pixels(n) && n > screen.height {
        Some(PlacementError::TooTall)
    } else {
        None
    }
}

/// Whether a point is on a screen.
pub open spec fn on_screen(screen: ScreenView, x: int, y: int) -> bool {
    screen.x <= x < screen.x + screen.width && screen.y <= y < screen.y + screen.height
}

/// The length that two stretches have in common.
pub open spec fn common(from_a: int, length_a: int, from_b: int, length_b: int) -> int {
    let from = if from_a > from_b {
        from_a
    } else {
        from_b
    };
    let to = if from_a + length_a < from_b + length_b {
        from_a + length_a
    } else {
        from_b + length_b
    };
    if to > from {
        to - from
    } else {
        0
    }
}

/// The area that a window and a screen have in common.
pub open spec fn overlap(screen: ScreenView, geometry: FrameGeometry) -> int {
    common(screen.x as int, screen.width as int, geometry.x as int, geometry.width as int)
        * common(screen.y as int, screen.height as int, geometry.y as int, geometry.height as int)
}

/// The uppermost edge of some screens.
pub open spec fn top_of(screens: Seq<ScreenView>) -> int
    decreases screens.len(),
{
    if screens.len() <= 1 {
        screens[0].y as int
    } else {
        let above = top_of(screens.drop_last());
        if screens.last().y < above {
            screens.last().y as int
        } else {
            above
        }
    }
}

/// Where a window is parked while it is hidden: above every screen.
pub open spec fn parked(screens: Seq<ScreenView>, visible: FrameGeometry) -> FrameGeometry {
    FrameGeometry { y: clamped(top_of(screens) - visible.height) as i32, ..visible }
}

fn clamp(n: i64) -> (c: i32)
    ensures
        c == clamped(n as int),
{
    if n < -0x8000_0000 {
        i32::MIN
    } else if n > 0x7fff_ffff {
        i32::MAX
    } else {
        n as i32
    }
}

fn divide(n: i64, by: i64) -> (q: i64)
    requires
        by > 0,
        n > i64::MIN,
    ensures
        q == quotient(n as int, by as int),
        n >= 0 ==> 0 <= q <= n,
        n < 0 ==> n <= q <= 0,
{
    if n >= 0 {
        assert(0 <= n / by <= n) by (nonlinear_arith)
            requires
                n >= 0,
                by > 0,
        ;
        n / by
    } else {
        let m: i64 = -n;
        assert(0 <= m / by <= m) by (nonlinear_arith)
            requires
                m >= 0,
                by > 0,
        ;
        -(m / by)
    }
}

fn measure(metric: PlacementMetric, side: i32) -> (n: i64)
    ensures
        n == extent(metric, side as int),
        -0x8000_0000_0000 <= n <= 0x8000_0000_0000,
{
    match metric {
        PlacementMetric::Percent(p) => {
            assert(-0x4000_0000_0000 <= side * p <= 0x4000_0000_0000) by (nonlinear_arith)
                requires
                    -0x8000_0000 <= side <= 0x7fff_ffff,
                    -0x8000 <= p <= 0x7fff,
            ;
            divide(side as i64 * p as i64, 100)
        },
        PlacementMetric::Pixels(n) => n as i64,
    }
}

fn anchor_across(position: PlacementPosition) -> (a: Anchor)
    ensures
        a == across(position),
{
    match position {
        PlacementPosition::TopLeft | PlacementPosition::Left | PlacementPosition::BottomLeft =>
            Anchor::Start,
        PlacementPosition::Top | PlacementPosition::Center | PlacementPosition::Bottom =>
            Anchor::Middle,
        PlacementPosition::TopRight | PlacementPosition::Right | PlacementPosition::BottomRight =>
            Anchor::End,
    }
}

fn anchor_down(position: PlacementPosition) -> (a: Anchor)
    ensures
        a == down(position),
{
    match position {
        PlacementPosition::TopLeft | PlacementPosition::Top | PlacementPosition::TopRight =>
            Anchor::Start,
        PlacementPosition::Left | PlacementPosition::Center | PlacementPosition::Right =>
            Anchor::Middle,
        PlacementPosition::BottomLeft | PlacementPosition::Bottom
        | PlacementPosition::BottomRight => Anchor::End,
    }
}

fn begin_at(anchor: Anchor, side: i32, length: i32) -> (n: i64)
    ensures
        n == start_of(anchor, side as int, length as int),
        -0x1_0000_0000 <= n <= 0x1_0000_0000,
{
    match anchor {
        Anchor::Start => 0,
        Anchor::Middle => divide(side as i64 - length as i64, 2),
        Anchor::End => side as i64 - length as i64,
    }
}

fn shared(from_a: i32, length_a: i32, from_b: i32, length_b: i32) -> (n: i64)
    ensures
        n == common(from_a as int, length_a as int, from_b as int, length_b as int),
        0 <= n <= 0x7fff_ffff,
{
    let from: i64 = if from_a > from_b {
        from_a as i64
    } else {
        from_b as i64
    };
    let to_a: i64 = from_a as i64 + length_a as i64;
    let to_b: i64 = from_b as i64 + length_b as i64;
    let to: i64 = if to_a < to_b {
        to_a
    } else {
        to_b
    };
    if to > from {
        to - from
    } else {
        0
    }
}

impl ScreenInfo {
    /// Whether the point is on this screen.
    pub fn contains_point(&self, x: i32, y: i32) -> (b: bool)
        ensures
            b == on_screen(self@, x as int, y as int),
    {
        self.x <= x && (x as i64) < self.x as i64 + self.width as i64 && self.y <= y && (y as i64)
            < self.y as i64 + self.height as i64
    }

    /// The area of the window that is on this screen, in pixels.
    pub fn overlap_area(&self, geometry: &FrameGeometry) -> (area: i64)
        ensures
            area == overlap(self@, *geometry),
    {
        let wide = shared(self.x, self.width, geometry.x, geometry.width);
        let tall = shared(self.y, self.height, geometry.y, geometry.height);
        assert(0 <= wide * tall <= 0x7fff_ffff * 0x7fff_ffff) by (nonlinear_arith)
            requires
                0 <= wide <= 0x7fff_ffff,
                0 <= tall <= 0x7fff_ffff,
        ;
        wide * tall
    }

    /// Refuses a placement that is larger than this screen.
    pub fn validate_placement(&self, placement: &PlacementConfig) -> (result: Result<
        (),
        PlacementError,
    >)
        ensures
            result == match misfit(self@, *placement) {
                None => Ok::<(), PlacementError>(()),
                Some(e) => Err(e),
            },
    {
        if let PlacementMetric::Pixels(n) = placement.width {
            if n > self.width {
                return Err(PlacementError::TooWide);
            }
        }
        if let PlacementMetric::Pixels(n) = placement.height {
            if n > self.height {
                return Err(PlacementError::TooTall);
            }
        }
        Ok(())
    }

    /// Where the placement puts a window on this screen.
    pub fn placement_rect(&self, placement: &PlacementConfig) -> (rect: FrameGeometry)
        ensures
            rect == placed(self@, *placement),
    {
        let width = clamp(measure(placement.width, self.width));
        let height = clamp(measure(placement.height, self.height));
        let x = self.x as i64 + begin_at(anchor_across(placement.position), self.width, width)
            + measure(placement.offset_x, self.width);
        let y = self.y as i64 + begin_at(anchor_down(placement.position), self.height, height)
            + measure(placement.offset_y, self.height);
        FrameGeometry { x: clamp(x), y: clamp(y), width, height }
    }
}

/// Where a window with the given geometry is parked while it is hidden.
pub fn hidden_rect_for_screens(screens: &Vec<ScreenInfo>, visible: &FrameGeometry) -> (rect:
    FrameGeometry)
    requires
        screens@.len() > 0,
    ensures
        rect == parked(views(screens@), *visible),
{
    let mut top: i32 = screens[0].y;
    let mut i: usize = 1;
    assert(views(screens@).take(1)[0] == screens@[0]@);
    while i < screens.len()
        invariant
            1 <= i <= screens@.len(),
            top == top_of(views(screens@).take(i as int)),
        decreases screens.len() - i,
    {
        proof {
            assert(views(screens@).take(i + 1).drop_last() == views(screens@).take(i as int));
            assert(views(screens@).take(i + 1).last() == screens@[i as int]@);
        }
        if screens[i].y < top {
            top = screens[i].y;
        }
        i += 1;
    }
    assert(views(screens@).take(screens@.len() as int) == views(screens@));
    FrameGeometry {
        x: visible.x,
        y: clamp(top as i64 - visible.height as i64),
        width: visible.width,
        height: visible.height,
    }
}

proof fn lemma_top_is_above(screens: Seq<ScreenView>, i: int)
    requires
        0 <= i < screens.len(),
    ensures
        top_of(screens) <= screens[i].y,
    decreases screens.len(),
{
    if screens.len() > 1 && i < screens.len() - 1 {
        lemma_top_is_above(screens.drop_last(), i);
    }
}

/// A parked window keeps its size and its place from left to right, and no part of it is on any
/// screen, unless the desktop goes so far up that there is no room above it.
pub proof fn law_parked_window_is_on_no_screen(
    screens: Seq<ScreenView>,
    visible: FrameGeometry,
    i: int,
)
    requires
        0 <= i < screens.len(),
        top_of(screens) - visible.height >= i32::MIN,
        visible.height >= 0,
    ensures
        overlap(screens[i], parked(screens, visible)) == 0,
        parked(screens, visible) == (FrameGeometry {
            y: parked(screens, visible).y,
            ..visible
        }),
{
    lemma_top_is_above(screens, i);
    let p = parked(screens, visible);
    let wide = common(
        screens[i].x as int,
        screens[i].width as int,
        p.x as int,
        p.width as int,
    );
    assert(top_of(screens) <= i32::MAX);
    assert(common(screens[i].y as int, screens[i].height as int, p.y as int, p.height as int)
        == 0);
    assert(wide * 0 == 0) by (nonlinear_arith);
}

proof fn lemma_share(side: int, p: int)
    requires
        side >= 0,
        0 < p <= 100,
    ensures
        0 <= quotient(side * p, 100) <= side,
{
    assert(0 <= side * p <= side * 100) by (nonlinear_arith)
        requires
            side >= 0,
            0 < p <= 100,
    ;
}

/// A window whose placement fits a screen and is not moved by offsets lies on that screen as a
/// whole.
pub proof fn law_fitting_window_is_on_its_screen(screen: ScreenView, placement: PlacementConfig)
    requires
        screen.width >= 0,
        screen.height >= 0,
        screen.x + screen.width <= i32::MAX,
        screen.y + screen.height <= i32::MAX,
        placement::is_size(placement.width),
        placement::is_size(placement.height),
        misfit(screen, placement) is None,
        extent(placement.offset_x, screen.width as int) == 0,
        extent(placement.offset_y, screen.height as int) == 0,
    ensures
        ({
            let rect = placed(screen, placement);
            &&& rect.width >= 0
            &&& rect.height >= 0
            &&& screen.x <= rect.x
            &&& rect.x + rect.width <= screen.x + screen.width
            &&& screen.y <= rect.y
            &&& rect.y + rect.height <= screen.y + screen.height
        }),
{
    if let PlacementMetric::Percent(p) = placement.width {
        lemma_share(screen.width as int, p as int);
    }
    if let PlacementMetric::Percent(p) = placement.height {
        lemma_share(screen.height as int, p as int);
    }
}

} // verus!
