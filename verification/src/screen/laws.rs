//! What holds of where windows go.

use crate::config::{PlacementConfig, PlacementMetric, PlacementPosition};
use crate::screen;
use crate::screen::{PlacementError, ScreenView};
use crate::wm::FrameGeometry;
use vstd::prelude::*;

verus! {

proof fn lemma_share(side: int, p: int)
    requires
        0 <= side,
        0 <= p,
    ensures
        ({
            let n = screen::quotient(side * p, 100);
            &&& 0 <= n
            &&& 100 * n <= side * p < 100 * n + 100
            &&& p <= 100 ==> n <= side
        }),
{
    assert(0 <= side * p) by (nonlinear_arith)
        requires
            0 <= side,
            0 <= p,
    ;
    if p <= 100 {
        assert(side * p <= side * 100) by (nonlinear_arith)
            requires
                0 <= side,
                p <= 100,
        ;
    }
}

/// A size that is a percentage is that share of the screen's side, rounded down to whole pixels:
/// the width of its width, and the height of its height.
pub proof fn law_percentage_is_a_share_of_the_side(screen: ScreenView, placement: PlacementConfig)
    requires
        0 <= screen.width,
        0 <= screen.height,
    ensures
        placement.width matches PlacementMetric::Percent(p) ==> (1 <= p <= 100 ==> {
            let width = screen::placed(screen, placement).width;
            100 * width <= screen.width * p < 100 * width + 100
        }),
        placement.height matches PlacementMetric::Percent(p) ==> (1 <= p <= 100 ==> {
            let height = screen::placed(screen, placement).height;
            100 * height <= screen.height * p < 100 * height + 100
        }),
{
    if let PlacementMetric::Percent(p) = placement.width {
        if 1 <= p <= 100 {
            lemma_share(screen.width as int, p as int);
        }
    }
    if let PlacementMetric::Percent(p) = placement.height {
        if 1 <= p <= 100 {
            lemma_share(screen.height as int, p as int);
        }
    }
}

/// A larger percentage gives a larger window: strictly so where the side has a pixel for every
/// percent.
pub proof fn law_larger_percentage_is_larger(
    screen: ScreenView,
    placement: PlacementConfig,
    less: i16,
    more: i16,
)
    requires
        0 <= screen.width,
        0 <= screen.height,
        1 <= less < more <= 100,
    ensures
        ({
            let narrow = screen::placed(
                screen,
                PlacementConfig { width: PlacementMetric::Percent(less), ..placement },
            );
            let wide = screen::placed(
                screen,
                PlacementConfig { width: PlacementMetric::Percent(more), ..placement },
            );
            &&& narrow.width <= wide.width
            &&& screen.width >= 100 ==> narrow.width < wide.width
            &&& narrow.height == wide.height
            &&& narrow.y == wide.y
        }),
        ({
            let low = screen::placed(
                screen,
                PlacementConfig { height: PlacementMetric::Percent(less), ..placement },
            );
            let tall = screen::placed(
                screen,
                PlacementConfig { height: PlacementMetric::Percent(more), ..placement },
            );
            &&& low.height <= tall.height
            &&& screen.height >= 100 ==> low.height < tall.height
            &&& low.width == tall.width
            &&& low.x == tall.x
        }),
{
    lemma_share(screen.width as int, less as int);
    lemma_share(screen.width as int, more as int);
    lemma_share(screen.height as int, less as int);
    lemma_share(screen.height as int, more as int);
    assert(screen.width * more >= screen.width * less + screen.width) by (nonlinear_arith)
        requires
            0 <= screen.width,
            less + 1 <= more,
    ;
    assert(screen.height * more >= screen.height * less + screen.height) by (nonlinear_arith)
        requires
            0 <= screen.height,
            less + 1 <= more,
    ;
}

/// A size in pixels is kept as it is, whatever the screen.
pub proof fn law_pixels_are_kept(screen: ScreenView, placement: PlacementConfig)
    ensures
        placement.width matches PlacementMetric::Pixels(n) ==> screen::placed(
            screen,
            placement,
        ).width == n,
        placement.height matches PlacementMetric::Pixels(n) ==> screen::placed(
            screen,
            placement,
        ).height == n,
{
}

/// A window without offsets is held to the edges that its position names: it begins where the
/// screen does, or ends where it does, or leaves as much free on one side as on the other, give or
/// take a pixel.
pub proof fn law_window_is_held_to_its_edges(screen: ScreenView, placement: PlacementConfig)
    requires
        placement.offset_x == PlacementMetric::Pixels(0),
        placement.offset_y == PlacementMetric::Pixels(0),
        i32::MIN < screen::placed(screen, placement).x < i32::MAX,
        i32::MIN < screen::placed(screen, placement).y < i32::MAX,
    ensures
        ({
            let rect = screen::placed(screen, placement);
            let left = rect.x - screen.x;
            let right = screen.x + screen.width - rect.x - rect.width;
            let above = rect.y - screen.y;
            let below = screen.y + screen.height - rect.y - rect.height;
            match placement.position {
                PlacementPosition::TopLeft => left == 0 && above == 0,
                PlacementPosition::Top => even(left, right) && above == 0,
                PlacementPosition::TopRight => right == 0 && above == 0,
                PlacementPosition::Left => left == 0 && even(above, below),
                PlacementPosition::Center => even(left, right)
                    && even(above, below),
                PlacementPosition::Right => right == 0 && even(above, below),
                PlacementPosition::BottomLeft => left == 0 && below == 0,
                PlacementPosition::Bottom => even(left, right) && below == 0,
                PlacementPosition::BottomRight => right == 0 && below == 0,
            }
        }),
{
}

/// Whether two gaps are alike but for the odd pixel, which the second one has.
pub open spec fn even(first: int, second: int) -> bool {
    if first + second >= 0 {
        first <= second <= first + 1
    } else {
        second <= first <= second + 1
    }
}

/// An offset in pixels moves the window by as much along its own axis, and changes nothing else.
pub proof fn law_offset_moves_by_pixels(screen: ScreenView, placement: PlacementConfig, n: i32)
    ensures
        ({
            let base = screen::placed(
                screen,
                PlacementConfig { offset_x: PlacementMetric::Pixels(0), ..placement },
            );
            let moved = screen::placed(
                screen,
                PlacementConfig { offset_x: PlacementMetric::Pixels(n), ..placement },
            );
            &&& (i32::MIN < base.x < i32::MAX && i32::MIN < moved.x < i32::MAX ==> moved.x
                == base.x + n)
            &&& moved == (FrameGeometry { x: moved.x, ..base })
        }),
        ({
            let base = screen::placed(
                screen,
                PlacementConfig { offset_y: PlacementMetric::Pixels(0), ..placement },
            );
            let moved = screen::placed(
                screen,
                PlacementConfig { offset_y: PlacementMetric::Pixels(n), ..placement },
            );
            &&& (i32::MIN < base.y < i32::MAX && i32::MIN < moved.y < i32::MAX ==> moved.y
                == base.y + n)
            &&& moved == (FrameGeometry { y: moved.y, ..base })
        }),
{
}

proof fn lemma_signed_share(side: int, p: int)
    requires
        0 <= side,
    ensures
        ({
            let n = screen::quotient(side * p, 100);
            if p >= 0 {
                100 * n <= side * p < 100 * n + 100
            } else {
                100 * n - 100 < side * p <= 100 * n
            }
        }),
{
    if p >= 0 {
        lemma_share(side, p);
    } else {
        assert(side * p <= 0) by (nonlinear_arith)
            requires
                0 <= side,
                p <= 0,
        ;
    }
}

/// An offset that is a percentage moves the window by that share of the screen's side along its
/// own axis, rounded towards nothing, and to the other side where it is negative.
pub proof fn law_offset_moves_by_a_share(screen: ScreenView, placement: PlacementConfig, p: i16)
    requires
        0 <= screen.width,
        0 <= screen.height,
    ensures
        ({
            let base = screen::placed(
                screen,
                PlacementConfig { offset_x: PlacementMetric::Pixels(0), ..placement },
            );
            let moved = screen::placed(
                screen,
                PlacementConfig { offset_x: PlacementMetric::Percent(p), ..placement },
            );
            let by = moved.x - base.x;
            &&& (i32::MIN < base.x < i32::MAX && i32::MIN < moved.x < i32::MAX ==> if p >= 0 {
                100 * by <= screen.width * p < 100 * by + 100
            } else {
                100 * by - 100 < screen.width * p <= 100 * by
            })
            &&& moved == (FrameGeometry { x: moved.x, ..base })
        }),
        ({
            let base = screen::placed(
                screen,
                PlacementConfig { offset_y: PlacementMetric::Pixels(0), ..placement },
            );
            let moved = screen::placed(
                screen,
                PlacementConfig { offset_y: PlacementMetric::Percent(p), ..placement },
            );
            let by = moved.y - base.y;
            &&& (i32::MIN < base.y < i32::MAX && i32::MIN < moved.y < i32::MAX ==> if p >= 0 {
                100 * by <= screen.height * p < 100 * by + 100
            } else {
                100 * by - 100 < screen.height * p <= 100 * by
            })
            &&& moved == (FrameGeometry { y: moved.y, ..base })
        }),
{
    lemma_signed_share(screen.width as int, p as int);
    lemma_signed_share(screen.height as int, p as int);
}

/// A window goes with its screen: on a screen of the same size elsewhere it has the same size and
/// the same place within the screen.
pub proof fn law_window_goes_with_its_screen(
    screen: ScreenView,
    other: ScreenView,
    placement: PlacementConfig,
)
    requires
        screen.width == other.width,
        screen.height == other.height,
    ensures
        ({
            let here = screen::placed(screen, placement);
            let there = screen::placed(other, placement);
            &&& here.width == there.width
            &&& here.height == there.height
            &&& i32::MIN < here.x < i32::MAX && i32::MIN < there.x < i32::MAX ==> here.x - screen.x
                == there.x - other.x
            &&& i32::MIN < here.y < i32::MAX && i32::MIN < there.y < i32::MAX ==> here.y - screen.y
                == there.y - other.y
        }),
{
}

/// A placement is refused exactly where a size in pixels is more than the screen's side, and the
/// width is looked at first. A percentage always fits.
pub proof fn law_only_what_is_larger_than_the_screen_is_refused(
    screen: ScreenView,
    width: i32,
    height: i32,
    share: i16,
    placement: PlacementConfig,
)
    ensures
        ({
            let both = PlacementConfig {
                width: PlacementMetric::Pixels(width),
                height: PlacementMetric::Pixels(height),
                ..placement
            };
            let low = PlacementConfig { height: PlacementMetric::Percent(share), ..both };
            let narrow = PlacementConfig { width: PlacementMetric::Percent(share), ..both };
            let shares = PlacementConfig { height: PlacementMetric::Percent(share), ..narrow };
            &&& width > screen.width ==> screen::misfit(screen, both) == Some(
                PlacementError::TooWide,
            )
            &&& width <= screen.width && height > screen.height ==> screen::misfit(screen, both)
                == Some(PlacementError::TooTall)
            &&& width <= screen.width && height <= screen.height ==> screen::misfit(
                screen,
                both,
            ) is None
            &&& width > screen.width ==> screen::misfit(screen, low) == Some(
                PlacementError::TooWide,
            )
            &&& width <= screen.width ==> screen::misfit(screen, low) is None
            &&& height > screen.height ==> screen::misfit(screen, narrow) == Some(
                PlacementError::TooTall,
            )
            &&& height <= screen.height ==> screen::misfit(screen, narrow) is None
            &&& screen::misfit(screen, shares) is None
        }),
{
}

proof fn lemma_top_is_reached(screens: Seq<ScreenView>) -> (i: int)
    requires
        screens.len() > 0,
    ensures
        0 <= i < screens.len(),
        screens[i].y == screen::top_of(screens),
        forall|j: int| 0 <= j < screens.len() ==> screens[i].y <= (#[trigger] screens[j]).y,
    decreases screens.len(),
{
    if screens.len() == 1 {
        0
    } else {
        let before = screens.drop_last();
        let i = lemma_top_is_reached(before);
        assert forall|j: int| 0 <= j < before.len() implies before[j] == #[trigger] screens[j] by {}
        if screens.last().y < screens[i].y {
            screens.len() - 1
        } else {
            i
        }
    }
}

/// A parked window has its lower edge on the upper edge of the uppermost screen, so that it lies
/// right above all of them, and keeps its size and its place from left to right.
pub proof fn law_parked_window_lies_right_above_the_screens(
    screens: Seq<ScreenView>,
    visible: FrameGeometry,
)
    requires
        screens.len() > 0,
        forall|i: int|
            0 <= i < screens.len() ==> i32::MIN <= (#[trigger] screens[i]).y - visible.height
                <= i32::MAX,
    ensures
        ({
            let rect = screen::parked(screens, visible);
            &&& forall|i: int|
                0 <= i < screens.len() ==> rect.y + rect.height <= (#[trigger] screens[i]).y
            &&& exists|i: int|
                0 <= i < screens.len() && rect.y + rect.height == (#[trigger] screens[i]).y
            &&& rect.x == visible.x
            &&& rect.width == visible.width
            &&& rect.height == visible.height
        }),
{
    let i = lemma_top_is_reached(screens);
    assert(i32::MIN <= screens[i].y - visible.height <= i32::MAX);
}

/// A point is on a screen exactly where it is no less to the right of and below the screen's
/// corner than nothing, and less than the screen is wide and high.
pub proof fn law_point_is_on_its_screen(screen: ScreenView, right: int, below: int)
    ensures
        screen::on_screen(screen, screen.x + right, screen.y + below) <==> 0 <= right
            < screen.width && 0 <= below < screen.height,
{
}

/// The area that a screen and a window share is that of the rectangle of the points that lie on
/// both, and nothing where there is no such point.
pub proof fn law_overlap_is_the_area_in_common(
    screen: ScreenView,
    window: FrameGeometry,
    left: int,
    top: int,
    right: int,
    bottom: int,
)
    requires
        forall|x: int, y: int|
            (#[trigger] lies(left, top, right, bottom, x, y)) <==> lies(
                screen.x as int,
                screen.y as int,
                screen.x + screen.width,
                screen.y + screen.height,
                x,
                y,
            ) && lies(
                window.x as int,
                window.y as int,
                window.x + window.width,
                window.y + window.height,
                x,
                y,
            ),
    ensures
        screen::overlap(screen, window) == if left < right && top < bottom {
            (right - left) * (bottom - top)
        } else {
            0
        },
{
    let l = if screen.x > window.x {
        screen.x as int
    } else {
        window.x as int
    };
    let t = if screen.y > window.y {
        screen.y as int
    } else {
        window.y as int
    };
    let r = if screen.x + screen.width < window.x + window.width {
        screen.x + screen.width
    } else {
        window.x + window.width
    };
    let b = if screen.y + screen.height < window.y + window.height {
        screen.y + screen.height
    } else {
        window.y + window.height
    };
    let wide = screen::common(
        screen.x as int,
        screen.width as int,
        window.x as int,
        window.width as int,
    );
    let tall = screen::common(
        screen.y as int,
        screen.height as int,
        window.y as int,
        window.height as int,
    );
    if left < right && top < bottom {
        assert(lies(left, top, right, bottom, left, top));
        assert(lies(left, top, right, bottom, right - 1, bottom - 1));
        assert(l <= left && right <= r && t <= top && bottom <= b);
        if l < left {
            assert(!lies(left, top, right, bottom, l, top));
        }
        if r > right {
            assert(!lies(left, top, right, bottom, r - 1, top));
        }
        if t < top {
            assert(!lies(left, top, right, bottom, left, t));
        }
        if b > bottom {
            assert(!lies(left, top, right, bottom, left, b - 1));
        }
        assert(wide == right - left);
        assert(tall == bottom - top);
    } else {
        assert(!lies(left, top, right, bottom, l, t));
        assert(wide == 0 || tall == 0);
        assert(wide * tall == 0) by (nonlinear_arith)
            requires
                wide == 0 || tall == 0,
        ;
    }
}

/// Whether a point lies within a rectangle, whose right and lower edges do not belong to it.
pub open spec fn lies(left: int, top: int, right: int, bottom: int, x: int, y: int) -> bool {
    left <= x < right && top <= y < bottom
}

} // verus!
