//! Windows as the window manager reports them, and which of them belongs to an app.

use crate::config::AppConfig;
use crate::pattern;
use crate::text;
use regex::Regex;
use vstd::prelude::*;

verus! {

/// The position and the size of a window, in pixels.
#[derive(Debug, Clone, Copy, PartialEq, Eq, Structural)]
pub struct FrameGeometry {
    pub x: i32,
    pub y: i32,
    pub width: i32,
    pub height: i32,
}

/// A position on the desktop, in pixels.
#[derive(Debug, Clone, Copy, PartialEq, Eq, Structural)]
pub struct Point {
    pub x: i32,
    pub y: i32,
}

/// A window, with what identifies it.
#[derive(Debug, PartialEq, Eq)]
pub struct ManagedWindow {
    pub internal_id: String,
    pub desktop_file_name: String,
    pub resource_class: String,
    pub resource_name: String,
    pub caption: String,
    pub frame_geometry: FrameGeometry,
    pub no_border: bool,
    pub minimized: bool,
}

impl Clone for ManagedWindow {
    fn clone(&self) -> (copy: Self)
        ensures
            copy == *self,
    {
        ManagedWindow {
            internal_id: self.internal_id.clone(),
            desktop_file_name: self.desktop_file_name.clone(),
            resource_class: self.resource_class.clone(),
            resource_name: self.resource_name.clone(),
            caption: self.caption.clone(),
            frame_geometry: self.frame_geometry,
            no_border: self.no_border,
            minimized: self.minimized,
        }
    }
}

/// What a window's identity is compared with: the final component of the file name, or the
/// whole of it where it has none, in lower case.
pub open spec fn filename_matcher(filename: Seq<char>) -> Seq<char> {
    text::lowered(
        match text::final_component(filename) {
            Some(name) => name,
            None => filename,
        },
    )
}

/// Whether one of a window's identity fields is the app's file name, without regard to case.
pub open spec fn filename_hit(window: ManagedWindow, app: AppConfig) -> bool {
    match app.filename {
        None => false,
        Some(filename) => {
            let wanted = filename_matcher(filename@);
            ||| text::lowered(window.desktop_file_name@) == wanted
            ||| text::lowered(window.resource_class@) == wanted
            ||| text::lowered(window.resource_name@) == wanted
        },
    }
}

/// Whether one of a window's identity fields matches the app's process expression, where it has
/// one.
pub open spec fn process_hit(window: ManagedWindow, app: AppConfig) -> Option<bool> {
    match app.process_name {
        None => None,
        Some(re) => Some(
            pattern::regex_finds(re, window.desktop_file_name@) || pattern::regex_finds(
                re,
                window.resource_class@,
            ) || pattern::regex_finds(re, window.resource_name@),
        ),
    }
}

/// Whether a window's caption matches the app's title expression, where it has one.
pub open spec fn title_hit(window: ManagedWindow, app: AppConfig) -> Option<bool> {
    match app.window_title {
        None => None,
        Some(re) => Some(pattern::regex_finds(re, window.caption@)),
    }
}

/// Whether a window is an app's. An expression that is set must match. The file name counts
/// only where neither expression is set.
pub open spec fn decided(process: Option<bool>, title: Option<bool>, filename: bool) -> bool {
    match (process, title) {
        (None, None) => filename,
        (Some(p), None) => p,
        (None, Some(t)) => t,
        (Some(p), Some(t)) => p && t,
    }
}

/// Whether a window belongs to an app.
pub open spec fn window_matches(window: ManagedWindow, app: AppConfig) -> bool {
    decided(process_hit(window, app), title_hit(window, app), filename_hit(window, app))
}

/// The windows that belong to an app, in the order in which they are listed.
pub open spec fn matching(windows: Seq<ManagedWindow>, app: AppConfig) -> Seq<ManagedWindow> {
    windows.filter(|w: ManagedWindow| window_matches(w, app))
}

/// The name under which a file name is looked for among windows.
pub fn normalize_filename_matcher(filename: &str) -> (matcher: String)
    ensures
        matcher@ == filename_matcher(filename@),
{
    match text::file_name(filename) {
        Some(name) => text::to_lower(name.as_str()),
        None => text::to_lower(filename),
    }
}

fn names_window(window: &ManagedWindow, app: &AppConfig) -> (hit: bool)
    ensures
        hit == filename_hit(*window, *app),
{
    match &app.filename {
        None => false,
        Some(filename) => {
            let wanted = normalize_filename_matcher(filename.as_str());
            let desktop = text::to_lower(window.desktop_file_name.as_str());
            let class = text::to_lower(window.resource_class.as_str());
            let name = text::to_lower(window.resource_name.as_str());
            desktop == wanted || class == wanted || name == wanted
        },
    }
}

/// Whether a window is an app's, from what its expressions and its file name say of it. An
/// expression that is not set says nothing.
pub fn decide_match(process: Option<bool>, title: Option<bool>, filename: bool) -> (b: bool)
    ensures
        b == decided(process, title, filename),
{
    let process_ok = match process {
        Some(hit) => hit,
        None => match title {
            Some(_) => true,
            None => filename,
        },
    };
    let title_ok = match title {
        Some(hit) => hit,
        None => true,
    };
    process_ok && title_ok
}

fn finds(re: &Option<Regex>, text: &str) -> (hit: Option<bool>)
    ensures
        hit == match re {
            Some(re) => Some(pattern::regex_finds(*re, text@)),
            None => None,
        },
{
    match re {
        Some(re) => Some(re.is_match(text)),
        None => None,
    }
}

/// Whether a window belongs to an app.
pub fn matches_window(window: &ManagedWindow, app: &AppConfig) -> (b: bool)
    ensures
        b == window_matches(*window, *app),
{
    let process = match &app.process_name {
        None => None,
        Some(re) => Some(
            re.is_match(window.desktop_file_name.as_str()) || re.is_match(
                window.resource_class.as_str(),
            ) || re.is_match(window.resource_name.as_str()),
        ),
    };
    let title = finds(&app.window_title, window.caption.as_str());
    let filename = names_window(window, app);
    decide_match(process, title, filename)
}

/// The first window that belongs to an app, and how many do.
pub fn find_best_match<'a>(windows: &'a [ManagedWindow], app: &AppConfig) -> (found: (
    Option<&'a ManagedWindow>,
    usize,
))
    ensures
        found.1 == matching(windows@, *app).len(),
        match found.0 {
            Some(w) => matching(windows@, *app).len() > 0 && *w == matching(windows@, *app)[0],
            None => matching(windows@, *app).len() == 0,
        },
{
    let mut first: Option<&'a ManagedWindow> = None;
    let mut count: usize = 0;
    let mut i: usize = 0;
    proof {
        reveal(Seq::filter);
    }
    while i < windows.len()
        invariant
            i <= windows@.len(),
            count <= i,
            count == matching(windows@.take(i as int), *app).len(),
            match first {
                Some(w) => count > 0 && *w == matching(windows@.take(i as int), *app)[0],
                None => count == 0,
            },
        decreases windows.len() - i,
    {
        proof {
            reveal(Seq::filter);
            assert(windows@.take(i + 1).drop_last() == windows@.take(i as int));
        }
        if matches_window(&windows[i], app) {
            if first.is_none() {
                first = Some(&windows[i]);
            }
            count += 1;
        }
        i += 1;
    }
    assert(windows@.take(windows@.len() as int) == windows@);
    (first, count)
}

} // verus!
