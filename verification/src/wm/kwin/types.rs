//! What goes to the window manager's script and what comes back.

use crate::animation::Opacity;
use crate::text;
use crate::wm::{FrameGeometry, ManagedWindow, Point};
use vstd::prelude::*;
use vstd::string::*;

verus! {

/// The answer to the question for all windows.
#[derive(Debug)]
pub struct WindowListResponse {
    pub windows: Vec<ManagedWindow>,
}

impl Clone for WindowListResponse {
    fn clone(&self) -> (copy: Self)
        ensures
            copy.windows@ == self.windows@,
    {
        let mut windows: Vec<ManagedWindow> = Vec::new();
        let mut i: usize = 0;
        while i < self.windows.len()
            invariant
                i <= self.windows@.len(),
                windows@ == self.windows@.take(i as int),
            decreases self.windows.len() - i,
        {
            windows.push(self.windows[i].clone());
            i += 1;
        }
        assert(self.windows@.take(self.windows@.len() as int) == self.windows@);
        WindowListResponse { windows }
    }
}

/// The answer to the question for one window, which need not exist.
#[derive(Debug)]
pub struct WindowResponse {
    pub window: Option<ManagedWindow>,
}

impl Clone for WindowResponse {
    fn clone(&self) -> (copy: Self)
        ensures
            copy == *self,
    {
        WindowResponse {
            window: match &self.window {
                Some(window) => Some(window.clone()),
                None => None,
            },
        }
    }
}

/// The answer to the question where the pointer is.
#[derive(Debug, Clone, Copy)]
pub struct CursorPositionResponse {
    pub position: Option<Point>,
}

/// The answer to the question for support information.
#[derive(Debug)]
pub struct SupportInformationResponse {
    pub text: String,
}

impl Clone for SupportInformationResponse {
    fn clone(&self) -> (copy: Self)
        ensures
            copy == *self,
    {
        SupportInformationResponse { text: self.text.clone() }
    }
}

/// What the script reports of its own accord.
#[derive(Debug, PartialEq, Eq)]
pub enum KWinEvent {
    /// The shortcut with this identifier was pressed.
    HotkeyPressed(String),
    /// The window with this identifier has the focus now, or none has.
    ActiveWindowChanged(Option<String>),
}

impl Clone for KWinEvent {
    fn clone(&self) -> (copy: Self)
        ensures
            copy == *self,
    {
        match self {
            KWinEvent::HotkeyPressed(id) => KWinEvent::HotkeyPressed(id.clone()),
            KWinEvent::ActiveWindowChanged(id) => KWinEvent::ActiveWindowChanged(id.clone()),
        }
    }
}

/// The window that has the focus, by the identifier that is reported: an empty one stands for no
/// window.
pub open spec fn focused(internal_id: Seq<char>) -> Option<Seq<char>> {
    if internal_id.len() == 0 {
        None
    } else {
        Some(internal_id)
    }
}

impl KWinEvent {
    /// The report that a shortcut was pressed.
    pub fn hotkey_pressed(name: &str) -> (event: KWinEvent)
        ensures
            event matches KWinEvent::HotkeyPressed(id) && id@ == name@,
    {
        KWinEvent::HotkeyPressed(name.to_owned())
    }

    /// The report that the focus has moved; an empty identifier stands for no window.
    pub fn active_window_changed(internal_id: &str) -> (event: KWinEvent)
        ensures
            event matches KWinEvent::ActiveWindowChanged(id) && text::optional(id) == focused(
                internal_id@,
            ),
    {
        if internal_id.is_empty() {
            KWinEvent::ActiveWindowChanged(None)
        } else {
            KWinEvent::ActiveWindowChanged(Some(internal_id.to_owned()))
        }
    }
}

/// How much a message of the script matters.
#[derive(Debug, Clone, Copy, PartialEq, Eq, Structural)]
pub enum Severity {
    Error,
    Warning,
    Info,
}

/// How much a message with a mark matters.
pub open spec fn severity_of(level: Seq<char>) -> Severity {
    if level == "ERR"@ {
        Severity::Error
    } else if level == "WRN"@ {
        Severity::Warning
    } else {
        Severity::Info
    }
}

/// How much a message with the given mark matters.
pub fn severity(level: &str) -> (s: Severity)
    ensures
        s == severity_of(level@),
{
    if text::same_text(level, "ERR") {
        Severity::Error
    } else if text::same_text(level, "WRN") {
        Severity::Warning
    } else {
        Severity::Info
    }
}

/// What the script is asked to do.
#[derive(Debug, PartialEq, Eq)]
pub enum Request {
    RegisterHotkey { name: String, title: String, sequence: String },
    WindowList,
    Window { id: String },
    ActiveWindow,
    CursorPosition,
    Move { id: String, geometry: FrameGeometry },
    Resize { id: String, geometry: FrameGeometry },
    SetOpacity { id: String, opacity: Opacity },
    SetNoBorder { id: String, no_border: bool },
    BringToForeground { id: String },
    SetMinimized { id: String, minimized: bool },
    SupportInformation,
    /// Nothing; it keeps the script waiting for more.
    Noop,
}

/// The value of a parameter.
#[derive(Debug, PartialEq, Eq)]
pub enum ParamValue {
    Text(String),
    Number(i32),
    Flag(bool),
    Real(Opacity),
}

impl Clone for ParamValue {
    fn clone(&self) -> (copy: Self)
        ensures
            copy == *self,
    {
        match self {
            ParamValue::Text(text) => ParamValue::Text(text.clone()),
            ParamValue::Number(number) => ParamValue::Number(*number),
            ParamValue::Flag(flag) => ParamValue::Flag(*flag),
            ParamValue::Real(opacity) => ParamValue::Real(*opacity),
        }
    }
}

/// A parameter of a command.
#[derive(Debug, PartialEq, Eq)]
pub struct Param {
    pub key: &'static str,
    pub value: ParamValue,
}

/// A parameter by what it holds.
pub struct ParamView {
    pub key: Seq<char>,
    pub value: ParamValue,
}

/// A list of parameters by what each holds.
pub open spec fn param_views(params: Seq<Param>) -> Seq<ParamView> {
    params.map_values(|p: Param| ParamView { key: p.key@, value: p.value })
}

/// A parameter with a key and a value.
pub open spec fn param(key: Seq<char>, value: ParamValue) -> ParamView {
    ParamView { key, value }
}

/// The word by which the script knows what it is asked to do.
pub open spec fn type_of(request: Request) -> Seq<char> {
    match request {
        Request::RegisterHotkey { .. } => "REGISTER_HOT_KEY"@,
        Request::WindowList => "GET_WINDOW_LIST"@,
        Request::Window { .. } => "GET_WINDOW"@,
        Request::ActiveWindow => "GET_ACTIVE_WINDOW"@,
        Request::CursorPosition => "GET_CURSOR_POSITION"@,
        Request::Move { .. } => "MOVE_WINDOW"@,
        Request::Resize { .. } => "RESIZE_WINDOW"@,
        Request::SetOpacity { .. } => "SET_WINDOW_OPACITY"@,
        Request::SetNoBorder { .. } => "SET_WINDOW_NO_BORDER"@,
        Request::BringToForeground { .. } => "BRING_WINDOW_TO_FOREGROUND"@,
        Request::SetMinimized { .. } => "SET_WINDOW_MINIMIZED"@,
        Request::SupportInformation => "GET_SUPPORT_INFORMATION"@,
        Request::Noop => "NOOP"@,
    }
}

/// The parameters that go with what the script is asked to do.
pub open spec fn params_of(request: Request) -> Seq<ParamView> {
    match request {
        Request::RegisterHotkey { name, title, sequence } => seq![
            param("name"@, ParamValue::Text(name)),
            param("title"@, ParamValue::Text(title)),
            param("sequence"@, ParamValue::Text(sequence)),
        ],
        Request::Window { id } => seq![param("internalId"@, ParamValue::Text(id))],
        Request::Move { id, geometry } => seq![
            param("internalId"@, ParamValue::Text(id)),
            param("x"@, ParamValue::Number(geometry.x)),
            param("y"@, ParamValue::Number(geometry.y)),
        ],
        Request::Resize { id, geometry } => seq![
            param("internalId"@, ParamValue::Text(id)),
            param("width"@, ParamValue::Number(geometry.width)),
            param("height"@, ParamValue::Number(geometry.height)),
        ],
        Request::SetOpacity { id, opacity } => seq![
            param("internalId"@, ParamValue::Text(id)),
            param("opacity"@, ParamValue::Real(opacity)),
        ],
        Request::SetNoBorder { id, no_border } => seq![
            param("internalId"@, ParamValue::Text(id)),
            param("noBorder"@, ParamValue::Flag(no_border)),
        ],
        Request::BringToForeground { id } => seq![param("internalId"@, ParamValue::Text(id))],
        Request::SetMinimized { id, minimized } => seq![
            param("internalId"@, ParamValue::Text(id)),
            param("minimized"@, ParamValue::Flag(minimized)),
        ],
        Request::WindowList
        | Request::ActiveWindow
        | Request::CursorPosition
        | Request::SupportInformation
        | Request::Noop => Seq::empty(),
    }
}

fn text_param(key: &'static str, value: &String) -> (p: Param)
    ensures
        p.key@ == key@,
        p.value == ParamValue::Text(*value),
{
    Param { key, value: ParamValue::Text(value.clone()) }
}

impl Request {
    /// The word by which the script knows what it is asked to do.
    pub fn command_type(&self) -> (word: &'static str)
        ensures
            word@ == type_of(*self),
    {
        match self {
            Request::RegisterHotkey { .. } => "REGISTER_HOT_KEY",
            Request::WindowList => "GET_WINDOW_LIST",
            Request::Window { .. } => "GET_WINDOW",
            Request::ActiveWindow => "GET_ACTIVE_WINDOW",
            Request::CursorPosition => "GET_CURSOR_POSITION",
            Request::Move { .. } => "MOVE_WINDOW",
            Request::Resize { .. } => "RESIZE_WINDOW",
            Request::SetOpacity { .. } => "SET_WINDOW_OPACITY",
            Request::SetNoBorder { .. } => "SET_WINDOW_NO_BORDER",
            Request::BringToForeground { .. } => "BRING_WINDOW_TO_FOREGROUND",
            Request::SetMinimized { .. } => "SET_WINDOW_MINIMIZED",
            Request::SupportInformation => "GET_SUPPORT_INFORMATION",
            Request::Noop => "NOOP",
        }
    }

    /// The parameters that go with it.
    pub fn params(&self) -> (params: Vec<Param>)
        ensures
            param_views(params@) == params_of(*self),
    {
        let mut params: Vec<Param> = Vec::new();
        match self {
            Request::RegisterHotkey { name, title, sequence } => {
                params.push(text_param("name", name));
                params.push(text_param("title", title));
                params.push(text_param("sequence", sequence));
            },
            Request::Window { id } => {
                params.push(text_param("internalId", id));
            },
            Request::Move { id, geometry } => {
                params.push(text_param("internalId", id));
                params.push(Param { key: "x", value: ParamValue::Number(geometry.x) });
                params.push(Param { key: "y", value: ParamValue::Number(geometry.y) });
            },
            Request::Resize { id, geometry } => {
                params.push(text_param("internalId", id));
                params.push(Param { key: "width", value: ParamValue::Number(geometry.width) });
                params.push(Param { key: "height", value: ParamValue::Number(geometry.height) });
            },
            Request::SetOpacity { id, opacity } => {
                params.push(text_param("internalId", id));
                params.push(Param { key: "opacity", value: ParamValue::Real(*opacity) });
            },
            Request::SetNoBorder { id, no_border } => {
                params.push(text_param("internalId", id));
                params.push(Param { key: "noBorder", value: ParamValue::Flag(*no_border) });
            },
            Request::BringToForeground { id } => {
                params.push(text_param("internalId", id));
            },
            Request::SetMinimized { id, minimized } => {
                params.push(text_param("internalId", id));
                params.push(Param { key: "minimized", value: ParamValue::Flag(*minimized) });
            },
            Request::WindowList
            | Request::ActiveWindow
            | Request::CursorPosition
            | Request::SupportInformation
            | Request::Noop => {},
        }
        assert(param_views(params@) =~= params_of(*self));
        params
    }
}

/// A command on its way to the script.
#[derive(Debug)]
pub struct CommandEnvelope {
    pub command_type: String,
    /// By what the script's response is told from others.
    pub responder_id: u128,
    pub params: Vec<Param>,
}

impl Clone for CommandEnvelope {
    fn clone(&self) -> (copy: Self)
        ensures
            copy.command_type == self.command_type,
            copy.responder_id == self.responder_id,
            copy.params@ == self.params@,
    {
        let mut params: Vec<Param> = Vec::new();
        let mut i: usize = 0;
        while i < self.params.len()
            invariant
                i <= self.params@.len(),
                params@ == self.params@.take(i as int),
            decreases self.params.len() - i,
        {
            params.push(
                Param { key: self.params[i].key, value: self.params[i].value.clone() },
            );
            i += 1;
        }
        assert(self.params@.take(self.params@.len() as int) == self.params@);
        CommandEnvelope {
            command_type: self.command_type.clone(),
            responder_id: self.responder_id,
            params,
        }
    }
}

/// A response of the script, whose parameters are not read yet.
#[derive(Debug)]
pub struct ResponseEnvelope<P> {
    pub cmd_type: String,
    pub responder_id: u128,
    pub params: P,
    pub exception_message: Option<String>,
}

impl<P: Clone> Clone for ResponseEnvelope<P> {
    fn clone(&self) -> (copy: Self)
        ensures
            copy.cmd_type == self.cmd_type,
            copy.responder_id == self.responder_id,
            cloned(self.params, copy.params),
            copy.exception_message == self.exception_message,
    {
        ResponseEnvelope {
            cmd_type: self.cmd_type.clone(),
            responder_id: self.responder_id,
            params: self.params.clone(),
            exception_message: self.exception_message.clone(),
        }
    }
}

/// Whether a number is an identifier of the kind that is drawn at random: its version is four,
/// and its variant is the usual one.
pub open spec fn drawn(id: u128) -> bool {
    (id >> 76) & 0xf == 4 && (id >> 62) & 0x3 == 2
}

/// `Uuid::new_v4` draws an identifier at random, and `Uuid::as_u128` gives it as a number. Its
/// version and its variant are always the same; of all other bits nothing is said. The random
/// bytes come from the system, and the call panics where the system cannot give any.
#[verifier::external_body]
fn draw_id() -> (id: u128)
    ensures
        drawn(id),
{
    uuid::Uuid::new_v4().as_u128()
}

impl CommandEnvelope {
    /// The command that asks for something, with the given identifier for its response.
    pub fn with_id(request: &Request, responder_id: u128) -> (envelope: CommandEnvelope)
        ensures
            envelope.command_type@ == type_of(*request),
            envelope.responder_id == responder_id,
            param_views(envelope.params@) == params_of(*request),
    {
        CommandEnvelope {
            command_type: request.command_type().to_owned(),
            responder_id,
            params: request.params(),
        }
    }

    /// The command that asks for something, with an identifier of its own for its response.
    pub fn new(request: &Request) -> (envelope: CommandEnvelope)
        ensures
            envelope.command_type@ == type_of(*request),
            drawn(envelope.responder_id),
            param_views(envelope.params@) == params_of(*request),
    {
        CommandEnvelope::with_id(request, draw_id())
    }
}

/// An identifier that was drawn is not the empty one.
pub proof fn law_drawn_identifier_is_not_empty(id: u128)
    requires
        drawn(id),
    ensures
        id != 0,
{
    assert((0u128 >> 76) & 0xf == 0) by (bit_vector);
}

} // verus!
