//! The apps, with what is known of their windows.

use crate::config::AppConfig;
use crate::text;
use crate::wm::{FrameGeometry, ManagedWindow};
use vstd::prelude::*;

verus! {

/// An app with the state of its window.
#[derive(Debug)]
pub struct ManagedApp {
    pub config: AppConfig,
    /// The window that was last found to be the app's.
    pub tracked_window_id: Option<String>,
    /// The geometry that the window had before it was first shown.
    pub restore_geometry: Option<FrameGeometry>,
    /// Whether the window had no border before its decorations were first hidden.
    pub restore_no_border: Option<bool>,
    pub visible: bool,
    pub shortcut_id: String,
}

/// All apps, and which of them was last shown and not hidden since.
#[derive(Debug)]
pub struct AppRegistry {
    apps: Vec<ManagedApp>,
    current: Option<String>,
}

/// A registry by its apps and the name of the one that is shown.
pub struct RegistryView {
    pub apps: Seq<ManagedApp>,
    pub current: Option<String>,
}

impl View for AppRegistry {
    type V = RegistryView;

    closed spec fn view(&self) -> RegistryView {
        RegistryView { apps: self.apps@, current: self.current }
    }
}

/// The position of the first app with a name.
pub open spec fn position(apps: Seq<ManagedApp>, name: Seq<char>) -> Option<int>
    decreases apps.len(),
{
    if apps.len() == 0 {
        None
    } else {
        match position(apps.drop_last(), name) {
            Some(i) => Some(i),
            None => if apps.last().config.name@ == name {
                Some(apps.len() - 1)
            } else {
                None
            },
        }
    }
}

/// The position of the first app with a shortcut.
pub open spec fn shortcut_position(apps: Seq<ManagedApp>, id: Seq<char>) -> Option<int>
    decreases apps.len(),
{
    if apps.len() == 0 {
        None
    } else {
        match shortcut_position(apps.drop_last(), id) {
            Some(i) => Some(i),
            None => if apps.last().shortcut_id@ == id {
                Some(apps.len() - 1)
            } else {
                None
            },
        }
    }
}

/// The app with a name.
pub open spec fn app_named(r: RegistryView, name: Seq<char>) -> Option<ManagedApp> {
    match position(r.apps, name) {
        Some(i) => Some(r.apps[i]),
        None => None,
    }
}

/// The registry with another app in the place of the one with a name; the same registry where
/// there is none.
pub open spec fn with_app(r: RegistryView, name: Seq<char>, app: ManagedApp) -> RegistryView {
    match position(r.apps, name) {
        Some(i) => RegistryView { apps: r.apps.update(i, app), ..r },
        None => r,
    }
}

/// The registry once an app's window is known.
pub open spec fn with_tracked(r: RegistryView, name: Seq<char>, id: Option<String>) -> RegistryView {
    match app_named(r, name) {
        Some(app) => with_app(r, name, ManagedApp { tracked_window_id: id, ..app }),
        None => r,
    }
}

/// The registry once an app is shown or hidden. An app that is shown becomes the current one,
/// and one that is hidden is the current one no longer.
pub open spec fn with_visible(r: RegistryView, name: String, visible: bool) -> RegistryView {
    match app_named(r, name@) {
        Some(app) => RegistryView {
            current: if visible {
                Some(name)
            } else if r.current is Some && r.current->0@ == name@ {
                None
            } else {
                r.current
            },
            ..with_app(r, name@, ManagedApp { visible, ..app })
        },
        None => r,
    }
}

/// Whether a window is not the one that an app's state speaks of.
pub open spec fn is_new_window(app: ManagedApp, window: ManagedWindow) -> bool {
    app.tracked_window_id is None || app.tracked_window_id->0@ != window.internal_id@
}

/// The registry once an app's window has been shown: its geometry from before is kept, unless
/// one is kept of this window already.
pub open spec fn with_shown(r: RegistryView, name: String, window: ManagedWindow) -> RegistryView {
    match app_named(r, name@) {
        Some(app) => with_visible(
            with_app(
                r,
                name@,
                ManagedApp {
                    restore_geometry: if is_new_window(app, window)
                        || app.restore_geometry is None {
                        Some(window.frame_geometry)
                    } else {
                        app.restore_geometry
                    },
                    tracked_window_id: Some(window.internal_id),
                    ..app
                },
            ),
            name,
            true,
        ),
        None => r,
    }
}

/// The registry once an app's decorations are about to be hidden: whether its window had a
/// border before is kept, unless that is kept of this window already.
pub open spec fn with_border(r: RegistryView, name: Seq<char>, window: ManagedWindow) -> RegistryView {
    match app_named(r, name) {
        Some(app) => with_app(
            r,
            name,
            ManagedApp {
                restore_no_border: if is_new_window(app, window) || app.restore_no_border is None {
                    Some(window.no_border)
                } else {
                    app.restore_no_border
                },
                ..app
            },
        ),
        None => r,
    }
}

/// The app found under a name is in the list and has that name, and no app before it has.
pub proof fn lemma_position(apps: Seq<ManagedApp>, name: Seq<char>)
    ensures
        match position(apps, name) {
            Some(i) => 0 <= i < apps.len() && apps[i].config.name@ == name && forall|j: int|
                0 <= j < i ==> (#[trigger] apps[j]).config.name@ != name,
            None => forall|j: int|
                0 <= j < apps.len() ==> (#[trigger] apps[j]).config.name@ != name,
        },
    decreases apps.len(),
{
    if apps.len() > 0 {
        lemma_position(apps.drop_last(), name);
        let before = apps.drop_last();
        assert forall|j: int| 0 <= j < before.len() implies before[j] == #[trigger] apps[j] by {}
    }
}

/// The app found under a shortcut is in the list and has that shortcut.
pub proof fn lemma_shortcut_position(apps: Seq<ManagedApp>, id: Seq<char>)
    ensures
        match shortcut_position(apps, id) {
            Some(i) => 0 <= i < apps.len() && apps[i].shortcut_id@ == id && forall|j: int|
                0 <= j < i ==> (#[trigger] apps[j]).shortcut_id@ != id,
            None => forall|j: int| 0 <= j < apps.len() ==> (#[trigger] apps[j]).shortcut_id@ != id,
        },
    decreases apps.len(),
{
    if apps.len() > 0 {
        lemma_shortcut_position(apps.drop_last(), id);
        let before = apps.drop_last();
        assert forall|j: int| 0 <= j < before.len() implies before[j] == #[trigger] apps[j] by {}
    }
}

impl AppRegistry {
    /// A registry of the given apps, none of which is current.
    pub fn new(apps: Vec<ManagedApp>) -> (r: AppRegistry)
        ensures
            r@ == (RegistryView { apps: apps@, current: None }),
    {
        AppRegistry { apps, current: None }
    }

    /// All apps, in the order in which they were given.
    pub fn managed_apps(&self) -> (apps: &Vec<ManagedApp>)
        ensures
            apps@ == self@.apps,
    {
        &self.apps
    }

    /// The name of the app that is shown.
    pub fn currently_visible_name(&self) -> (name: Option<&String>)
        ensures
            match name {
                Some(n) => self@.current == Some(*n),
                None => self@.current is None,
            },
    {
        self.current.as_ref()
    }

    fn index_of(&self, name: &str) -> (i: Option<usize>)
        ensures
            match i {
                Some(i) => position(self@.apps, name@) == Some(i as int) && i < self@.apps.len(),
                None => position(self@.apps, name@) is None,
            },
    {
        let mut i: usize = 0;
        while i < self.apps.len()
            invariant
                i <= self.apps@.len(),
                position(self.apps@.take(i as int), name@) is None,
            decreases self.apps.len() - i,
        {
            proof {
                assert(self.apps@.take(i + 1).drop_last() == self.apps@.take(i as int));
            }
            if text::same_text(self.apps[i].config.name.as_str(), name) {
                proof {
                    lemma_position_of_prefix(self.apps@, name@, i + 1);
                }
                return Some(i);
            }
            i += 1;
        }
        assert(self.apps@.take(self.apps@.len() as int) == self.apps@);
        None
    }

    /// The app with the given name.
    pub fn managed_app(&self, name: &str) -> (app: Option<&ManagedApp>)
        ensures
            match app {
                Some(app) => app_named(self@, name@) == Some(*app),
                None => app_named(self@, name@) is None,
            },
    {
        match self.index_of(name) {
            Some(i) => Some(&self.apps[i]),
            None => None,
        }
    }

    /// The name of the app whose shortcut has the given identifier.
    pub fn app_for_shortcut(&self, id: &str) -> (name: Option<&String>)
        ensures
            match (name, shortcut_position(self@.apps, id@)) {
                (Some(n), Some(i)) => *n == self@.apps[i].config.name,
                (None, None) => true,
                _ => false,
            },
    {
        let mut i: usize = 0;
        while i < self.apps.len()
            invariant
                i <= self.apps@.len(),
                forall|j: int| 0 <= j < i ==> (#[trigger] self.apps@[j]).shortcut_id@ != id@,
            decreases self.apps.len() - i,
        {
            if text::same_text(self.apps[i].shortcut_id.as_str(), id) {
                proof {
                    lemma_shortcut_position(self.apps@, id@);
                }
                return Some(&self.apps[i].config.name);
            }
            i += 1;
        }
        proof {
            lemma_shortcut_position(self.apps@, id@);
        }
        None
    }

    /// Notes which window is the app's, where there is such an app.
    pub fn set_tracked(&mut self, name: &str, id: Option<String>)
        ensures
            final(self)@ == with_tracked(old(self)@, name@, id),
    {
        if let Some(i) = self.index_of(name) {
            self.apps[i].tracked_window_id = id;
        }
    }

    /// Notes that the app is shown or hidden, where there is such an app.
    pub fn set_visible(&mut self, name: &String, visible: bool)
        ensures
            final(self)@ == with_visible(old(self)@, *name, visible),
    {
        if let Some(i) = self.index_of(name.as_str()) {
            self.apps[i].visible = visible;
            if visible {
                self.current = Some(name.clone());
            } else {
                let was_current = match &self.current {
                    Some(current) => text::same_text(current.as_str(), name.as_str()),
                    None => false,
                };
                if was_current {
                    self.current = None;
                }
            }
        }
    }

    /// Notes that the app's window has been shown, where there is such an app.
    pub fn note_shown(&mut self, name: &String, window: &ManagedWindow)
        ensures
            final(self)@ == with_shown(old(self)@, *name, *window),
    {
        if let Some(i) = self.index_of(name.as_str()) {
            let new_window = differs(&self.apps[i], window);
            if new_window || self.apps[i].restore_geometry.is_none() {
                self.apps[i].restore_geometry = Some(window.frame_geometry);
            }
            self.apps[i].tracked_window_id = Some(window.internal_id.clone());
            proof {
                let app = old(self)@.apps[i as int];
                assert(self@.apps =~= old(self)@.apps.update(
                    i as int,
                    ManagedApp {
                        restore_geometry: if is_new_window(app, *window)
                            || app.restore_geometry is None {
                            Some(window.frame_geometry)
                        } else {
                            app.restore_geometry
                        },
                        tracked_window_id: Some(window.internal_id),
                        ..app
                    },
                ));
                lemma_same_names(old(self)@.apps, self@.apps, name@);
            }
        }
        self.set_visible(name, true);
    }

    /// Notes whether the app's window had a border, where there is such an app.
    pub fn note_border(&mut self, name: &str, window: &ManagedWindow)
        ensures
            final(self)@ == with_border(old(self)@, name@, *window),
    {
        if let Some(i) = self.index_of(name) {
            let new_window = differs(&self.apps[i], window);
            if new_window || self.apps[i].restore_no_border.is_none() {
                self.apps[i].restore_no_border = Some(window.no_border);
            }
            assert(self@.apps =~= with_border(old(self)@, name@, *window).apps);
        }
    }
}

fn differs(app: &ManagedApp, window: &ManagedWindow) -> (b: bool)
    ensures
        b == is_new_window(*app, *window),
{
    match &app.tracked_window_id {
        Some(id) => !text::same_text(id.as_str(), window.internal_id.as_str()),
        None => true,
    }
}

/// Where an app is found depends on the names of the apps alone.
pub proof fn lemma_same_names(a: Seq<ManagedApp>, b: Seq<ManagedApp>, name: Seq<char>)
    requires
        a.len() == b.len(),
        forall|j: int| 0 <= j < a.len() ==> (#[trigger] a[j]).config.name@ == b[j].config.name@,
    ensures
        position(a, name) == position(b, name),
    decreases a.len(),
{
    if a.len() > 0 {
        lemma_same_names(a.drop_last(), b.drop_last(), name);
    }
}

/// An app that is found among the first ones is found at the same place among all.
pub proof fn lemma_position_of_prefix(apps: Seq<ManagedApp>, name: Seq<char>, count: int)
    requires
        0 <= count <= apps.len(),
        position(apps.take(count), name) is Some,
    ensures
        position(apps, name) == position(apps.take(count), name),
    decreases apps.len() - count,
{
    if count < apps.len() {
        assert(apps.take(count + 1).drop_last() == apps.take(count));
        lemma_position_of_prefix(apps, name, count + 1);
    } else {
        assert(apps.take(count) == apps);
    }
}

} // verus!
