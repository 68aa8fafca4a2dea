//! What holds of what goes to the window manager's script and what comes back.

use crate::wm::kwin::bridge;
use crate::wm::kwin::bridge::{BridgeError, BridgeView, Reply};
use crate::wm::kwin::types;
use crate::wm::kwin::types::{ParamValue, ParamView, Request, ResponseEnvelope, Severity};
use vstd::prelude::*;

verus! {

/// Whether the script finds a value under a key.
pub open spec fn given(params: Seq<ParamView>, key: Seq<char>, value: ParamValue) -> bool {
    exists|i: int|
        0 <= i < params.len() && (#[trigger] params[i]).key == key && params[i].value == value
}

/// Whether parameters name a window and, beside it, so many other things.
pub open spec fn about_window(params: Seq<ParamView>, id: String, others: nat) -> bool {
    params.len() == others + 1 && given(params, "internalId"@, ParamValue::Text(id))
}

/// The script is told what to do by the word that it knows for it, and with everything that it
/// needs and nothing else: which window is meant, where it goes or how large it is, and what it is
/// to be like. What asks about no window says nothing more.
pub proof fn law_request_says_what_is_asked(request: Request)
    ensures
        ({
            let word = types::type_of(request);
            let params = types::params_of(request);
            match request {
                Request::RegisterHotkey { name, title, sequence } => {
                    &&& word == "REGISTER_HOT_KEY"@
                    &&& params.len() == 3
                    &&& given(params, "name"@, ParamValue::Text(name))
                    &&& given(params, "title"@, ParamValue::Text(title))
                    &&& given(params, "sequence"@, ParamValue::Text(sequence))
                },
                Request::WindowList => word == "GET_WINDOW_LIST"@ && params.len() == 0,
                Request::Window { id } => word == "GET_WINDOW"@ && about_window(params, id, 0),
                Request::ActiveWindow => word == "GET_ACTIVE_WINDOW"@ && params.len() == 0,
                Request::CursorPosition => word == "GET_CURSOR_POSITION"@ && params.len() == 0,
                Request::Move { id, geometry } => {
                    &&& word == "MOVE_WINDOW"@
                    &&& about_window(params, id, 2)
                    &&& given(params, "x"@, ParamValue::Number(geometry.x))
                    &&& given(params, "y"@, ParamValue::Number(geometry.y))
                },
                Request::Resize { id, geometry } => {
                    &&& word == "RESIZE_WINDOW"@
                    &&& about_window(params, id, 2)
                    &&& given(params, "width"@, ParamValue::Number(geometry.width))
                    &&& given(params, "height"@, ParamValue::Number(geometry.height))
                },
                Request::SetOpacity { id, opacity } => {
                    &&& word == "SET_WINDOW_OPACITY"@
                    &&& about_window(params, id, 1)
                    &&& given(params, "opacity"@, ParamValue::Real(opacity))
                },
                Request::SetNoBorder { id, no_border } => {
                    &&& word == "SET_WINDOW_NO_BORDER"@
                    &&& about_window(params, id, 1)
                    &&& given(params, "noBorder"@, ParamValue::Flag(no_border))
                },
                Request::BringToForeground { id } => word == "BRING_WINDOW_TO_FOREGROUND"@
                    && about_window(params, id, 0),
                Request::SetMinimized { id, minimized } => {
                    &&& word == "SET_WINDOW_MINIMIZED"@
                    &&& about_window(params, id, 1)
                    &&& given(params, "minimized"@, ParamValue::Flag(minimized))
                },
                Request::SupportInformation => word == "GET_SUPPORT_INFORMATION"@ && params.len()
                    == 0,
                Request::Noop => word == "NOOP"@ && params.len() == 0,
            }
        }),
{
    let params = types::params_of(request);
    if params.len() > 0 {
        assert(params[0] == params[0]);
    }
    if params.len() > 1 {
        assert(params[1] == params[1]);
    }
    if params.len() > 2 {
        assert(params[2] == params[2]);
    }
    match request {
        Request::RegisterHotkey { name, title, sequence } => {
            assert(params[0] == types::param("name"@, ParamValue::Text(name)));
            assert(params[1] == types::param("title"@, ParamValue::Text(title)));
            assert(params[2] == types::param("sequence"@, ParamValue::Text(sequence)));
        },
        Request::Move { id, geometry } => {
            assert(params[1] == types::param("x"@, ParamValue::Number(geometry.x)));
            assert(params[2] == types::param("y"@, ParamValue::Number(geometry.y)));
        },
        Request::Resize { id, geometry } => {
            assert(params[1] == types::param("width"@, ParamValue::Number(geometry.width)));
            assert(params[2] == types::param("height"@, ParamValue::Number(geometry.height)));
        },
        _ => {},
    }
}

/// The window that has the focus is the one that is reported, and none where nothing is.
pub proof fn law_focus_is_the_reported_one(internal_id: Seq<char>)
    ensures
        internal_id.len() > 0 ==> types::focused(internal_id) == Some(internal_id),
        internal_id.len() == 0 ==> types::focused(internal_id) is None,
{
}

/// A message of the script is an error or a warning exactly where it is marked as one.
pub proof fn law_messages_matter_as_marked(level: Seq<char>)
    ensures
        types::severity_of(level) == Severity::Error <==> level == "ERR"@,
        types::severity_of(level) == Severity::Warning <==> level == "WRN"@,
{
    reveal_strlit("ERR");
    reveal_strlit("WRN");
    assert("ERR"@[0] != "WRN"@[0]);
}

/// Waiting for a response comes to the parameters of the response exactly where one came that
/// reports no failure; else it fails, and says why: with what the response reports, or by naming
/// the command of which none came.
pub proof fn law_waiting_comes_to_what_was_answered<P>(
    response: ResponseEnvelope<P>,
    command_type: Seq<char>,
    result: Result<P, BridgeError>,
)
    ensures
        bridge::outcome(Reply::Received(response), command_type, result) ==> match (
            response.exception_message,
            result,
        ) {
            (None, Ok(params)) => params == response.params,
            (Some(reported), Err(BridgeError::Failed { command_type: word, message })) => message
                == reported && word == response.cmd_type,
            _ => false,
        },
        bridge::outcome(Reply::<P>::Dropped, command_type, result) ==> match result {
            Err(BridgeError::WaiterDropped(word)) => word@ == command_type,
            _ => false,
        },
        bridge::outcome(Reply::<P>::TimedOut, command_type, result) ==> match result {
            Err(BridgeError::TimedOut(word)) => word@ == command_type,
            _ => false,
        },
{
}

/// A response that comes after its waiting was given up reaches nobody, and giving up changes
/// nothing for those who wait for others, nor for the commands.
pub proof fn law_late_response_reaches_nobody<W, P>(
    b: BridgeView<W>,
    id: u128,
    other: u128,
    response: ResponseEnvelope<P>,
)
    requires
        id != other,
    ensures
        ({
            let late = bridge::concluded(b, id, Reply::<P>::TimedOut);
            let dropped = bridge::concluded(b, id, Reply::<P>::Dropped);
            &&& bridge::resolved(late, id).0 is None
            &&& bridge::resolved(dropped, id).0 is None
            &&& bridge::resolved(late, other).0 == bridge::resolved(b, other).0
            &&& bridge::resolved(dropped, other).0 == bridge::resolved(b, other).0
            &&& late.queue == b.queue
            &&& late.last_enqueued == b.last_enqueued
            &&& dropped.queue == b.queue
            &&& dropped.last_enqueued == b.last_enqueued
        }),
        bridge::concluded(b, id, Reply::Received(response)) == b,
{
}

/// A response reaches nobody but who waits for it: one that nobody waits for reaches nobody, and
/// who waits for another one goes on waiting.
pub proof fn law_response_reaches_who_waits_for_it<W>(
    b: BridgeView<W>,
    id: u128,
    waiter: W,
    other: u128,
)
    requires
        id != other,
    ensures
        !b.waiters.contains_key(id) ==> bridge::resolved(b, id).0 is None,
        b.waiters.contains_key(id) ==> bridge::resolved(b, id).0 == Some(b.waiters[id]),
        bridge::resolved(bridge::with_waiter(b, id, waiter), other).0 == bridge::resolved(
            b,
            other,
        ).0,
        bridge::with_waiter(b, id, waiter).queue == b.queue,
        bridge::with_waiter(b, id, waiter).last_enqueued == b.last_enqueued,
        bridge::fetched(b).1.last_enqueued == b.last_enqueued,
{
}

/// A command that asks for nothing is due once ten seconds have gone by since the last command,
/// and not before.
pub proof fn law_script_is_left_alone_for_ten_seconds<W>(b: BridgeView<W>, now: u64)
    requires
        b.last_enqueued <= now,
    ensures
        bridge::silent(b, now) <==> now - b.last_enqueued >= 10_000_000_000,
{
}

/// A shortcut is this program's own exactly where it begins as all of its own do.
pub proof fn law_own_shortcuts_are_told_by_their_beginning(rest: Seq<char>, name: Seq<char>)
    ensures
        bridge::own_shortcut("plasma_drop_hotkey_"@ + rest),
        bridge::own_shortcut(name) ==> name.len() >= 19 && name == "plasma_drop_hotkey_"@
            + name.skip(19),
{
    reveal_strlit("plasma_drop_hotkey_");
    let own = "plasma_drop_hotkey_"@;
    assert((own + rest).take(own.len() as int) =~= own);
    if bridge::own_shortcut(name) {
        assert(name =~= own + name.skip(19));
    }
}

/// An error says to the user what failed and why.
pub proof fn law_errors_say_what_failed(word: String, reported: String)
    ensures
        bridge::message_of(BridgeError::WaiterDropped(word)) == "response waiter dropped for "@
            + word@,
        bridge::message_of(BridgeError::TimedOut(word))
            == "timed out waiting for KWin response to "@ + word@,
        bridge::message_of(BridgeError::Failed { command_type: word, message: reported })
            == "KWin command "@ + word@ + " failed: "@ + reported@,
{
}

} // verus!
