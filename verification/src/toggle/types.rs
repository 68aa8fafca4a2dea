//! The steps of a task: what it asks to be done, what it is told, and what it waits for.

use crate::animation;
use crate::animation::{Opacity, PlanView, TransitionPhase, TransitionPlan};
use crate::config::AnimationConfig;
use crate::screen;
use crate::screen::{PlacementError, ScreenInfo, ScreenView};
use crate::text;
use crate::wm::{FrameGeometry, ManagedWindow, Point};
use vstd::prelude::*;
use vstd::string::*;

verus! {

/// Why a task ends without its work done.
#[derive(Debug, PartialEq, Eq)]
pub enum ToggleError {
    /// No app has the shortcut with this identifier.
    UnknownShortcut(String),
    /// No app has this name.
    UnknownApp(String),
    /// The app with this name has no window, and is not to be started.
    NoWindow(String),
    /// The app with this name was started, and no window of its appeared.
    NeverAppeared(String),
    /// The app with this name has nothing to start it by.
    CannotSpawn(String),
    /// The placement of the app with this name does not fit the screen.
    InvalidPlacement { name: String, error: PlacementError },
    /// What was asked for failed, for this reason.
    Outside(String),
    /// What was reported is no answer to what was asked for.
    Unexpected,
}

/// What an error says to the user.
pub open spec fn message_of(e: ToggleError) -> Seq<char> {
    match e {
        ToggleError::UnknownShortcut(id) => "unknown shortcut '"@ + id@ + "'"@,
        ToggleError::UnknownApp(name) => "unknown app '"@ + name@ + "'"@,
        ToggleError::NoWindow(name) => "no existing window matched app '"@ + name@ + "'"@,
        ToggleError::NeverAppeared(name) => "spawned app '"@ + name@
            + "' but no matching window appeared"@,
        ToggleError::CannotSpawn(name) => "app '"@ + name@
            + "' cannot spawn without filename or command"@,
        ToggleError::InvalidPlacement { name, .. } => "invalid placement for '"@ + name@ + "'"@,
        ToggleError::Outside(reason) => reason@,
        ToggleError::Unexpected => "unexpected reply"@,
    }
}

/// What an error says to the user, followed by its cause where it has one.
pub open spec fn chain_of(e: ToggleError) -> Seq<char> {
    match e {
        ToggleError::InvalidPlacement { error, .. } => message_of(e) + ": "@
            + screen::misfit_message(error),
        _ => message_of(e),
    }
}

fn quote(before: &str, value: &str, after: &str) -> (s: String)
    ensures
        s@ == before@ + value@ + after@,
{
    before.to_owned().concat(value).concat(after)
}

impl ToggleError {
    /// The error as a sentence for the user, followed by its cause where it has one.
    pub fn chain(&self) -> (s: String)
        ensures
            s@ == chain_of(*self),
    {
        match self {
            ToggleError::InvalidPlacement { error, .. } => self.message().concat(": ").concat(
                error.message().as_str(),
            ),
            _ => self.message(),
        }
    }

    /// The error as a sentence for the user.
    pub fn message(&self) -> (s: String)
        ensures
            s@ == message_of(*self),
    {
        match self {
            ToggleError::UnknownShortcut(id) => quote("unknown shortcut '", id.as_str(), "'"),
            ToggleError::UnknownApp(name) => quote("unknown app '", name.as_str(), "'"),
            ToggleError::NoWindow(name) => quote(
                "no existing window matched app '",
                name.as_str(),
                "'",
            ),
            ToggleError::NeverAppeared(name) => quote(
                "spawned app '",
                name.as_str(),
                "' but no matching window appeared",
            ),
            ToggleError::CannotSpawn(name) => quote(
                "app '",
                name.as_str(),
                "' cannot spawn without filename or command",
            ),
            ToggleError::InvalidPlacement { name, .. } => quote(
                "invalid placement for '",
                name.as_str(),
                "'",
            ),
            ToggleError::Outside(reason) => reason.clone(),
            ToggleError::Unexpected => "unexpected reply".to_owned(),
        }
    }
}

/// One thing that is done to a window, or a pause between two such things.
#[derive(Debug, PartialEq, Eq)]
pub enum Command {
    Move { id: String, geometry: FrameGeometry },
    Resize { id: String, geometry: FrameGeometry },
    SetOpacity { id: String, opacity: Opacity },
    SetNoBorder { id: String, no_border: bool },
    SetMinimized { id: String, minimized: bool },
    BringToForeground { id: String },
    Pause { milliseconds: u64 },
}

/// How an app is started.
#[derive(Debug, PartialEq, Eq)]
pub struct SpawnRequest {
    pub program: String,
    pub arguments: Vec<String>,
    pub directory: Option<String>,
}

/// How an app is started, by the texts of the request.
pub struct SpawnView {
    pub program: String,
    pub arguments: Seq<String>,
    pub directory: Option<String>,
}

/// What a task asks to be done next.
#[derive(Debug)]
pub enum Action {
    /// Fetch the window manager's support information.
    SupportInformation,
    /// Fetch the position of the pointer.
    CursorPosition,
    /// Fetch the window that has the focus.
    ActiveWindow,
    /// Fetch the window with this identifier.
    Window(String),
    /// Fetch all windows.
    WindowList,
    /// Work out the transition between these geometries.
    Plan {
        animation: AnimationConfig,
        visible: FrameGeometry,
        hidden: FrameGeometry,
        phase: TransitionPhase,
    },
    /// Do these things in order, up to the first that fails.
    Perform(Vec<Command>),
    /// Start a program.
    Spawn(SpawnRequest),
    /// Wait.
    Sleep { milliseconds: u64 },
}

/// What a task asks to be done next, by what it holds.
pub enum ActionView {
    SupportInformation,
    CursorPosition,
    ActiveWindow,
    Window(String),
    WindowList,
    Plan {
        animation: AnimationConfig,
        visible: FrameGeometry,
        hidden: FrameGeometry,
        phase: TransitionPhase,
    },
    Perform(Seq<Command>),
    Spawn(SpawnView),
    Sleep { milliseconds: u64 },
}

impl View for Action {
    type V = ActionView;

    open spec fn view(&self) -> ActionView {
        match *self {
            Action::SupportInformation => ActionView::SupportInformation,
            Action::CursorPosition => ActionView::CursorPosition,
            Action::ActiveWindow => ActionView::ActiveWindow,
            Action::Window(id) => ActionView::Window(id),
            Action::WindowList => ActionView::WindowList,
            Action::Plan { animation, visible, hidden, phase } => ActionView::Plan {
                animation,
                visible,
                hidden,
                phase,
            },
            Action::Perform(commands) => ActionView::Perform(commands@),
            Action::Spawn(request) => ActionView::Spawn(
                SpawnView {
                    program: request.program,
                    arguments: request.arguments@,
                    directory: request.directory,
                },
            ),
            Action::Sleep { milliseconds } => ActionView::Sleep { milliseconds },
        }
    }
}

/// What a task is told: the answer to what it asked for.
#[derive(Debug)]
pub enum Event {
    SupportInformation(Option<String>),
    CursorPosition(Option<Point>),
    ActiveWindow(Option<ManagedWindow>),
    Window(Option<ManagedWindow>),
    WindowList(Vec<ManagedWindow>),
    Planned(Option<TransitionPlan>),
    /// Everything was performed, the program was started, or the time is over.
    Done,
    /// What was asked for failed, for this reason.
    Failed(String),
}

/// What a task is told, by what it holds.
pub enum EventView {
    SupportInformation(Option<Seq<char>>),
    CursorPosition(Option<Point>),
    ActiveWindow(Option<ManagedWindow>),
    Window(Option<ManagedWindow>),
    WindowList(Seq<ManagedWindow>),
    Planned(Option<PlanView>),
    Done,
    Failed(String),
}

impl View for Event {
    type V = EventView;

    open spec fn view(&self) -> EventView {
        match *self {
            Event::SupportInformation(information) => EventView::SupportInformation(
                text::optional(information),
            ),
            Event::CursorPosition(position) => EventView::CursorPosition(position),
            Event::ActiveWindow(window) => EventView::ActiveWindow(window),
            Event::Window(window) => EventView::Window(window),
            Event::WindowList(windows) => EventView::WindowList(windows@),
            Event::Planned(plan) => EventView::Planned(animation::optional_plan(plan)),
            Event::Done => EventView::Done,
            Event::Failed(reason) => EventView::Failed(reason),
        }
    }
}

/// The screens of the desktop, of which there is at least one.
#[derive(Debug)]
pub struct ScreenList {
    list: Vec<ScreenInfo>,
}

impl View for ScreenList {
    type V = Seq<ScreenView>;

    closed spec fn view(&self) -> Seq<ScreenView> {
        screen::views(self.list@)
    }
}

impl ScreenList {
    #[verifier::type_invariant]
    spec fn well_formed(self) -> bool {
        self.list@.len() > 0
    }

    /// The given screens.
    pub fn new(list: Vec<ScreenInfo>) -> (screens: ScreenList)
        requires
            list@.len() > 0,
        ensures
            screens@ == screen::views(list@),
    {
        ScreenList { list }
    }

    /// The screens themselves.
    pub fn list(&self) -> (list: &Vec<ScreenInfo>)
        ensures
            screen::views(list@) == self@,
            list@.len() > 0,
            self@.len() > 0,
    {
        proof {
            use_type_invariant(self);
        }
        &self.list
    }

    /// A list of its own with the same screens.
    pub fn copy(&self) -> (copy: ScreenList)
        ensures
            copy@ == self@,
    {
        proof {
            use_type_invariant(self);
        }
        ScreenList { list: screen::copy_screens(&self.list) }
    }
}

/// A screen that may be left out, by what it holds.
pub open spec fn optional_screen(screen: Option<ScreenInfo>) -> Option<ScreenView> {
    match screen {
        Some(screen) => Some(screen@),
        None => None,
    }
}

/// What is left of toggling an app once the app that is in its way is hidden.
#[derive(Debug)]
pub struct ToggleRest {
    pub name: String,
    pub known: Option<String>,
    pub screen: Option<ScreenInfo>,
}

/// What is left of toggling an app, by what it holds.
pub struct RestView {
    pub name: String,
    pub known: Option<String>,
    pub screen: Option<ScreenView>,
}

impl View for ToggleRest {
    type V = RestView;

    open spec fn view(&self) -> RestView {
        RestView {
            name: self.name,
            known: self.known,
            screen: optional_screen(self.screen),
        }
    }
}

/// What a task goes on with once an app is hidden.
#[derive(Debug)]
pub enum AfterHide {
    Finish,
    Resume(ToggleRest),
}

/// What a task goes on with once an app is hidden, by what it holds.
pub enum AfterHideView {
    Finish,
    Resume(RestView),
}

impl View for AfterHide {
    type V = AfterHideView;

    open spec fn view(&self) -> AfterHideView {
        match *self {
            AfterHide::Finish => AfterHideView::Finish,
            AfterHide::Resume(rest) => AfterHideView::Resume(rest@),
        }
    }
}

/// What a screen is chosen for.
#[derive(Debug)]
pub enum ScreenGoal {
    /// To toggle an app, once another one is hidden where one is shown.
    Toggle { name: String, known: Option<String>, other: Option<String> },
    /// To show this window of an app.
    Show { name: String, window: ManagedWindow },
}

/// What an app's window is looked for.
#[derive(Debug)]
pub enum WindowGoal {
    Toggle(ToggleRest),
    Hide { name: String, then: AfterHide },
    Show { name: String, screen: Option<ScreenInfo> },
}

/// What an app's window is looked for, by what it holds.
pub enum WindowGoalView {
    Toggle(RestView),
    Hide { name: String, then: AfterHideView },
    Show { name: String, screen: Option<ScreenView> },
}

impl View for WindowGoal {
    type V = WindowGoalView;

    open spec fn view(&self) -> WindowGoalView {
        match *self {
            WindowGoal::Toggle(rest) => WindowGoalView::Toggle(rest@),
            WindowGoal::Hide { name, then } => WindowGoalView::Hide { name, then: then@ },
            WindowGoal::Show { name, screen } => WindowGoalView::Show {
                name,
                screen: optional_screen(screen),
            },
        }
    }
}

/// What the screens are fetched for.
#[derive(Debug)]
pub enum ScreensGoal {
    Choose(ScreenGoal),
    Hide { name: String, then: AfterHide, window: ManagedWindow },
    Show { name: String, window: ManagedWindow, visible: FrameGeometry },
}

/// What the screens are fetched for, by what it holds.
pub enum ScreensGoalView {
    Choose(ScreenGoal),
    Hide { name: String, then: AfterHideView, window: ManagedWindow },
    Show { name: String, window: ManagedWindow, visible: FrameGeometry },
}

impl View for ScreensGoal {
    type V = ScreensGoalView;

    open spec fn view(&self) -> ScreensGoalView {
        match *self {
            ScreensGoal::Choose(goal) => ScreensGoalView::Choose(goal),
            ScreensGoal::Hide { name, then, window } => ScreensGoalView::Hide {
                name,
                then: then@,
                window,
            },
            ScreensGoal::Show { name, window, visible } => ScreensGoalView::Show {
                name,
                window,
                visible,
            },
        }
    }
}

/// Waiting for the window of an app that is being started.
#[derive(Debug)]
pub struct Poll {
    pub name: String,
    pub screen: Option<ScreenInfo>,
    /// Whether the app was started for the sake of this wait.
    pub claimed: bool,
    /// How many more times the windows are looked through.
    pub left: u32,
}

/// Waiting for the window of an app that is being started, by what it holds.
pub struct PollView {
    pub name: String,
    pub screen: Option<ScreenView>,
    pub claimed: bool,
    pub left: u32,
}

impl View for Poll {
    type V = PollView;

    open spec fn view(&self) -> PollView {
        PollView {
            name: self.name,
            screen: optional_screen(self.screen),
            claimed: self.claimed,
            left: self.left,
        }
    }
}

/// What is put back for one window when the program ends.
#[derive(Debug)]
pub struct RestoreEntry {
    pub name: String,
    pub window_id: String,
    pub geometry: Option<FrameGeometry>,
    pub no_border: Option<bool>,
    pub visible: bool,
}

/// What a task waits for.
#[derive(Debug)]
pub enum Stage {
    Screens(ScreensGoal),
    Cursor { goal: ScreenGoal, screens: ScreenList },
    ActiveWindow { goal: ScreenGoal, screens: ScreenList },
    Known(WindowGoal),
    Listed(WindowGoal),
    Spawning { name: String, screen: Option<ScreenInfo> },
    PollWait(Poll),
    PollList(Poll),
    HidePlan {
        name: String,
        then: AfterHide,
        id: String,
        visible: FrameGeometry,
        hidden: FrameGeometry,
    },
    Hiding { name: String, then: AfterHide, id: String },
    ShowPlan { name: String, window: ManagedWindow, visible: FrameGeometry },
    Revealing {
        name: String,
        window: ManagedWindow,
        visible: FrameGeometry,
        plan: Option<TransitionPlan>,
    },
    Showing { name: String, window: ManagedWindow },
    RestoreFind { entries: Vec<RestoreEntry>, next: usize },
    Restoring { entries: Vec<RestoreEntry>, next: usize },
}

/// What a task waits for, by what it holds.
pub enum StageView {
    Screens(ScreensGoalView),
    Cursor { goal: ScreenGoal, screens: Seq<ScreenView> },
    ActiveWindow { goal: ScreenGoal, screens: Seq<ScreenView> },
    Known(WindowGoalView),
    Listed(WindowGoalView),
    Spawning { name: String, screen: Option<ScreenView> },
    PollWait(PollView),
    PollList(PollView),
    HidePlan {
        name: String,
        then: AfterHideView,
        id: String,
        visible: FrameGeometry,
        hidden: FrameGeometry,
    },
    Hiding { name: String, then: AfterHideView, id: String },
    ShowPlan { name: String, window: ManagedWindow, visible: FrameGeometry },
    Revealing {
        name: String,
        window: ManagedWindow,
        visible: FrameGeometry,
        plan: Option<PlanView>,
    },
    Showing { name: String, window: ManagedWindow },
    RestoreFind { entries: Seq<RestoreEntry>, next: int },
    Restoring { entries: Seq<RestoreEntry>, next: int },
}

impl View for Stage {
    type V = StageView;

    open spec fn view(&self) -> StageView {
        match *self {
            Stage::Screens(goal) => StageView::Screens(goal@),
            Stage::Cursor { goal, screens } => StageView::Cursor { goal, screens: screens@ },
            Stage::ActiveWindow { goal, screens } => StageView::ActiveWindow {
                goal,
                screens: screens@,
            },
            Stage::Known(goal) => StageView::Known(goal@),
            Stage::Listed(goal) => StageView::Listed(goal@),
            Stage::Spawning { name, screen } => StageView::Spawning {
                name,
                screen: optional_screen(screen),
            },
            Stage::PollWait(poll) => StageView::PollWait(poll@),
            Stage::PollList(poll) => StageView::PollList(poll@),
            Stage::HidePlan { name, then, id, visible, hidden } => StageView::HidePlan {
                name,
                then: then@,
                id,
                visible,
                hidden,
            },
            Stage::Hiding { name, then, id } => StageView::Hiding { name, then: then@, id },
            Stage::ShowPlan { name, window, visible } => StageView::ShowPlan {
                name,
                window,
                visible,
            },
            Stage::Revealing { name, window, visible, plan } => StageView::Revealing {
                name,
                window,
                visible,
                plan: animation::optional_plan(plan),
            },
            Stage::Showing { name, window } => StageView::Showing { name, window },
            Stage::RestoreFind { entries, next } => StageView::RestoreFind {
                entries: entries@,
                next: next as int,
            },
            Stage::Restoring { entries, next } => StageView::Restoring {
                entries: entries@,
                next: next as int,
            },
        }
    }
}

/// How far a task has come: it asks for something and waits, or it is over.
#[derive(Debug)]
pub enum Progress {
    Ask(Action, Stage),
    Over(Result<(), ToggleError>),
}

/// How far a task has come, by what it holds.
pub enum ProgressView {
    Ask(ActionView, StageView),
    Over(Result<(), ToggleError>),
}

impl View for Progress {
    type V = ProgressView;

    open spec fn view(&self) -> ProgressView {
        match *self {
            Progress::Ask(action, stage) => ProgressView::Ask(action@, stage@),
            Progress::Over(result) => ProgressView::Over(result),
        }
    }
}

/// What a task asks for, and what it is told, is seen as it is: the program with its arguments and
/// its directory, what is to be done in its order, the windows in theirs, and the text.
pub proof fn law_tasks_are_seen_as_they_are(
    request: SpawnRequest,
    commands: Vec<Command>,
    windows: Vec<ManagedWindow>,
    information: String,
    id: String,
)
    ensures
        Action::Spawn(request)@ matches ActionView::Spawn(seen) && seen.program == request.program
            && seen.arguments == request.arguments@ && seen.directory == request.directory,
        Action::Perform(commands)@ == ActionView::Perform(commands@),
        Action::Window(id)@ == ActionView::Window(id),
        Event::WindowList(windows)@ == EventView::WindowList(windows@),
        Event::SupportInformation(Some(information))@ == EventView::SupportInformation(
            Some(information@),
        ),
        Event::SupportInformation(None)@ == EventView::SupportInformation(None),
{
}

} // verus!
