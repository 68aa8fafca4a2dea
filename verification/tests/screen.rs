use plasma_drop::config::{PlacementConfig, PlacementMetric, PlacementPosition};
use plasma_drop::screen::{
    hidden_rect_for_screens, parse_support_information, PlacementError, ScreenInfo, SupportError,
};
use plasma_drop::wm::FrameGeometry;

fn screen(index: u32, x: i32, y: i32, width: i32, height: i32) -> ScreenInfo {
    ScreenInfo {
        index,
        name: format!("DP-{index}"),
        x,
        y,
        width,
        height,
    }
}

fn rect(x: i32, y: i32, width: i32, height: i32) -> FrameGeometry {
    FrameGeometry {
        x,
        y,
        width,
        height,
    }
}

fn placement(position: PlacementPosition) -> PlacementConfig {
    PlacementConfig {
        width: PlacementMetric::Percent(50),
        height: PlacementMetric::Pixels(301),
        position,
        offset_x: PlacementMetric::Percent(-10),
        offset_y: PlacementMetric::Pixels(7),
    }
}

#[test]
fn windows_are_held_to_edges_and_corners() {
    let on = screen(0, 100, 200, 1001, 800);
    let wanted = [
        (PlacementPosition::TopLeft, 0, 207),
        (PlacementPosition::Top, 250, 207),
        (PlacementPosition::TopRight, 501, 207),
        (PlacementPosition::Left, 0, 456),
        (PlacementPosition::Center, 250, 456),
        (PlacementPosition::Right, 501, 456),
        (PlacementPosition::BottomLeft, 0, 706),
        (PlacementPosition::Bottom, 250, 706),
        (PlacementPosition::BottomRight, 501, 706),
    ];
    for (position, x, y) in wanted {
        assert_eq!(
            on.placement_rect(&placement(position)),
            rect(x, y, 500, 301),
            "{position:?}"
        );
    }
}

#[test]
fn placement_that_is_too_large_is_refused() {
    let on = screen(0, 0, 0, 600, 300);
    assert_eq!(
        on.validate_placement(&placement(PlacementPosition::Top)),
        Err(PlacementError::TooTall)
    );
    let mut wide = placement(PlacementPosition::Top);
    wide.width = PlacementMetric::Pixels(601);
    assert_eq!(on.validate_placement(&wide), Err(PlacementError::TooWide));
    assert_eq!(
        PlacementError::TooTall.message(),
        "the window is taller than the screen"
    );
    wide.width = PlacementMetric::Pixels(600);
    wide.height = PlacementMetric::Pixels(300);
    assert_eq!(on.validate_placement(&wide), Ok(()));
    wide.offset_x = PlacementMetric::Pixels(0);
    wide.offset_y = PlacementMetric::Pixels(0);
    assert_eq!(on.placement_rect(&wide), rect(0, 0, 600, 300));
}

#[test]
fn parked_windows_are_on_no_screen() {
    let screens = vec![
        screen(0, 0, 0, 1920, 1080),
        screen(1, 0, -1080, 1920, 1080),
        screen(2, 1920, 200, 800, 600),
    ];
    let visible = rect(960, 0, 960, 500);
    let parked = hidden_rect_for_screens(&screens, &visible);
    assert_eq!(parked, rect(960, -1580, 960, 500));
    for on in &screens {
        assert_eq!(on.overlap_area(&parked), 0);
    }
}

#[test]
fn extreme_numbers_do_not_overflow() {
    let on = screen(0, i32::MAX, i32::MIN, i32::MAX, i32::MAX);
    let mut far = placement(PlacementPosition::BottomRight);
    far.offset_x = PlacementMetric::Pixels(i32::MAX);
    far.offset_y = PlacementMetric::Pixels(i32::MIN);
    let r = on.placement_rect(&far);
    assert_eq!((r.x, r.y), (i32::MAX, i32::MIN));
    assert_eq!(
        hidden_rect_for_screens(&vec![on.clone()], &rect(0, 0, 1, 1)).y,
        i32::MIN
    );
    assert!(!on.contains_point(0, 0));
    assert_eq!(
        on.overlap_area(&rect(i32::MAX, i32::MIN, i32::MAX, i32::MAX)),
        i64::from(i32::MAX) * i64::from(i32::MAX)
    );
}

#[test]
fn points_on_the_far_edges_are_off_the_screen() {
    let on = screen(0, -10, 20, 30, 40);
    assert!(on.contains_point(-10, 20));
    assert!(on.contains_point(19, 59));
    assert!(!on.contains_point(20, 59));
    assert!(!on.contains_point(19, 60));
    assert!(!on.contains_point(-11, 20));
}

#[test]
fn overlap_is_an_area() {
    let on = screen(0, 0, 0, 100, 100);
    assert_eq!(on.overlap_area(&rect(90, 80, 50, 50)), 200);
    assert_eq!(on.overlap_area(&rect(100, 0, 50, 50)), 0);
    assert_eq!(on.overlap_area(&rect(-10, -10, 200, 200)), 10_000);
}

#[test]
fn support_information_lists_screens() {
    let text = "KWin Support Information:\nName: nothing\n\nScreens\n=======\nScreen 0:\n---------\n\
                Name: eDP-1\nEnabled: 1\nGeometry: 0,0,1920x1080\nScale: 1\n\nScreen 1:\n\
                Name: HDMI-A-1\n  Geometry:  -10,-1080,2560x1440 \n";
    assert_eq!(
        parse_support_information(text).unwrap(),
        vec![
            ScreenInfo {
                index: 0,
                name: "eDP-1".into(),
                x: 0,
                y: 0,
                width: 1920,
                height: 1080
            },
            ScreenInfo {
                index: 1,
                name: "HDMI-A-1".into(),
                x: -10,
                y: -1080,
                width: 2560,
                height: 1440
            },
        ]
    );
}

#[test]
fn support_information_without_use_is_refused() {
    assert_eq!(
        parse_support_information("").unwrap_err(),
        SupportError::NoScreens
    );
    assert_eq!(
        parse_support_information("Geometry: 0,0,1x1\n").unwrap_err(),
        SupportError::NoScreens
    );
    assert_eq!(
        SupportError::NoScreens.message(),
        "support information describes no screen"
    );
    assert_eq!(
        SupportError::BadGeometry.message(),
        "support information holds a geometry that cannot be read"
    );
    for geometry in ["0,0,1920", "0,0,1920x", "a,0,1x1", "0,0,1x1,2", "0,0,1x1x1"] {
        assert_eq!(
            parse_support_information(&format!("Screen 0:\nGeometry: {geometry}\n")).unwrap_err(),
            SupportError::BadGeometry
        );
    }
}
