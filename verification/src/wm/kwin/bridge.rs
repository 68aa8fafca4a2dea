//! The bridge to the window manager's script: commands that wait to be fetched, and responses
//! that are waited for.

use crate::text;
use crate::toggle::stamps;
use crate::wm::kwin::types::ResponseEnvelope;
use crate::wm::HOTKEY_PREFIX;
use std::collections::{HashMap, VecDeque};
use vstd::prelude::*;
use vstd::string::*;

verus! {

broadcast use vstd::std_specs::hash::group_hash_axioms;

/// How long a response is waited for, in nanoseconds.
pub const COMMAND_TIMEOUT: u64 = 5_000_000_000;

/// How long the script is left without a command, in nanoseconds.
pub const KEEPALIVE_INTERVAL: u64 = 10_000_000_000;

/// The state of the bridge. What is told of a response is up to its user.
#[verifier::reject_recursive_types(W)]
pub struct BridgeState<W> {
    queue: VecDeque<String>,
    waiters: HashMap<u128, W>,
    last_enqueued: u64,
}

/// The state of the bridge: the commands in the order in which they came, who waits for which
/// response, and when the last command came.
pub struct BridgeView<W> {
    pub queue: Seq<String>,
    pub waiters: Map<u128, W>,
    pub last_enqueued: u64,
}

impl<W> View for BridgeState<W> {
    type V = BridgeView<W>;

    closed spec fn view(&self) -> BridgeView<W> {
        BridgeView {
            queue: self.queue@,
            waiters: self.waiters@,
            last_enqueued: self.last_enqueued,
        }
    }
}

/// What became of waiting for a response.
#[derive(Debug)]
pub enum Reply<P> {
    Received(ResponseEnvelope<P>),
    /// Nobody is left who could pass it on.
    Dropped,
    /// It did not come in time.
    TimedOut,
}

/// Why a command gives no result.
#[derive(Debug)]
pub enum BridgeError {
    /// The waiter for the response to a command of this type is gone.
    WaiterDropped(String),
    /// No response to a command of this type came in time.
    TimedOut(String),
    /// The script could not do what it was asked for.
    Failed { command_type: String, message: String },
}

/// What an error says to the user.
pub open spec fn message_of(e: BridgeError) -> Seq<char> {
    match e {
        BridgeError::WaiterDropped(word) => "response waiter dropped for "@ + word@,
        BridgeError::TimedOut(word) => "timed out waiting for KWin response to "@ + word@,
        BridgeError::Failed { command_type, message } => "KWin command "@ + command_type@
            + " failed: "@ + message@,
    }
}

impl BridgeError {
    /// The error as a sentence for the user.
    pub fn message(&self) -> (s: String)
        ensures
            s@ == message_of(*self),
    {
        match self {
            BridgeError::WaiterDropped(word) => "response waiter dropped for ".to_owned().concat(
                word.as_str(),
            ),
            BridgeError::TimedOut(word) =>
                "timed out waiting for KWin response to ".to_owned().concat(word.as_str()),
            BridgeError::Failed { command_type, message } => "KWin command ".to_owned().concat(
                command_type.as_str(),
            ).concat(" failed: ").concat(message.as_str()),
        }
    }
}

/// The bridge once a response is waited for.
pub open spec fn with_waiter<W>(b: BridgeView<W>, id: u128, waiter: W) -> BridgeView<W> {
    BridgeView { waiters: b.waiters.insert(id, waiter), ..b }
}

/// The bridge once a response is no longer waited for.
pub open spec fn without_waiter<W>(b: BridgeView<W>, id: u128) -> BridgeView<W> {
    BridgeView { waiters: b.waiters.remove(id), ..b }
}

/// The bridge once a command has come.
pub open spec fn with_command<W>(b: BridgeView<W>, payload: String, now: u64) -> BridgeView<W> {
    BridgeView { queue: b.queue.push(payload), last_enqueued: now, ..b }
}

/// The command that is fetched next, and the bridge afterwards.
pub open spec fn fetched<W>(b: BridgeView<W>) -> (Option<String>, BridgeView<W>) {
    if b.queue.len() == 0 {
        (None, b)
    } else {
        (Some(b.queue[0]), BridgeView { queue: b.queue.drop_first(), ..b })
    }
}

/// Who is told of a response, and the bridge afterwards.
pub open spec fn resolved<W>(b: BridgeView<W>, id: u128) -> (Option<W>, BridgeView<W>) {
    (
        if b.waiters.contains_key(id) {
            Some(b.waiters[id])
        } else {
            None
        },
        without_waiter(b, id),
    )
}

/// Whether the script has been left without a command for too long.
pub open spec fn silent<W>(b: BridgeView<W>, now: u64) -> bool {
    stamps::age(b.last_enqueued, now) >= KEEPALIVE_INTERVAL
}

/// The bridge once the waiting for a response is over. Who is told of a response has been taken
/// out already; nobody waits for one that did not come.
pub open spec fn concluded<W, P>(b: BridgeView<W>, id: u128, reply: Reply<P>) -> BridgeView<W> {
    match reply {
        Reply::Received(_) => b,
        _ => without_waiter(b, id),
    }
}

/// Whether a result is what waiting for a response comes to.
pub open spec fn outcome<P>(
    reply: Reply<P>,
    command_type: Seq<char>,
    result: Result<P, BridgeError>,
) -> bool {
    match (reply, result) {
        (Reply::Received(response), Ok(params)) => response.exception_message is None && params
            == response.params,
        (Reply::Received(response), Err(BridgeError::Failed { command_type, message })) =>
            response.exception_message == Some(message) && command_type == response.cmd_type,
        (Reply::Dropped, Err(BridgeError::WaiterDropped(word))) => word@ == command_type,
        (Reply::TimedOut, Err(BridgeError::TimedOut(word))) => word@ == command_type,
        _ => false,
    }
}

impl<W> BridgeState<W> {
    /// A bridge with no command and no waiter.
    pub fn new(now: u64) -> (b: BridgeState<W>)
        ensures
            b@ == (BridgeView::<W> {
                queue: Seq::empty(),
                waiters: Map::empty(),
                last_enqueued: now,
            }),
    {
        BridgeState { queue: VecDeque::new(), waiters: HashMap::new(), last_enqueued: now }
    }

    /// Notes who waits for the response with the given identifier.
    pub fn expect(&mut self, responder_id: u128, waiter: W)
        ensures
            final(self)@ == with_waiter(old(self)@, responder_id, waiter),
    {
        self.waiters.insert(responder_id, waiter);
    }

    /// Notes that nobody waits for the response with the given identifier any more.
    pub fn forget(&mut self, responder_id: u128)
        ensures
            final(self)@ == without_waiter(old(self)@, responder_id),
    {
        self.waiters.remove(&responder_id);
    }

    /// Puts a command behind those that wait to be fetched.
    pub fn enqueue(&mut self, payload: String, now: u64)
        ensures
            final(self)@ == with_command(old(self)@, payload, now),
    {
        self.queue.push_back(payload);
        self.last_enqueued = now;
    }

    /// Takes the command that has waited longest.
    pub fn next_command(&mut self) -> (command: Option<String>)
        ensures
            (command, final(self)@) == fetched(old(self)@),
    {
        let command = self.queue.pop_front();
        assert(command is Some ==> self.queue@ =~= old(self)@.queue.drop_first());
        command
    }

    /// Takes out who is to be told of the response with the given identifier.
    pub fn resolve_response(&mut self, responder_id: u128) -> (waiter: Option<W>)
        ensures
            (waiter, final(self)@) == resolved(old(self)@, responder_id),
    {
        let waiter = self.waiters.remove(&responder_id);
        assert(self@.waiters =~= old(self)@.waiters.remove(responder_id));
        waiter
    }

    /// Whether it is time for a command that asks for nothing.
    pub fn keepalive_due(&self, now: u64) -> (due: bool)
        ensures
            due == silent(self@, now),
    {
        now >= self.last_enqueued && now - self.last_enqueued >= KEEPALIVE_INTERVAL
    }

    /// Ends the waiting for a response: with its parameters, if it came and reports no failure.
    pub fn conclude<P>(&mut self, responder_id: u128, command_type: &str, reply: Reply<P>) -> (result:
        Result<P, BridgeError>)
        ensures
            final(self)@ == concluded(old(self)@, responder_id, reply),
            outcome(reply, command_type@, result),
    {
        match reply {
            Reply::Received(response) => match response.exception_message {
                None => Ok(response.params),
                Some(message) => Err(
                    BridgeError::Failed { command_type: response.cmd_type, message },
                ),
            },
            Reply::Dropped => {
                self.forget(responder_id);
                Err(BridgeError::WaiterDropped(command_type.to_owned()))
            },
            Reply::TimedOut => {
                self.forget(responder_id);
                Err(BridgeError::TimedOut(command_type.to_owned()))
            },
        }
    }
}

/// Whether a shortcut is one that this program registered, now or in an earlier run.
pub open spec fn own_shortcut(name: Seq<char>) -> bool {
    text::starts_with(name, HOTKEY_PREFIX@)
}

/// Whether a shortcut is one that this program registered.
pub fn is_own_shortcut(name: &str) -> (own: bool)
    ensures
        own == own_shortcut(name@),
{
    match text::strip_prefix(&text::chars_of(name), HOTKEY_PREFIX) {
        Some(_) => true,
        None => false,
    }
}

/// The shortcuts that are to be taken back: those of this program, in the order in which they
/// are listed.
pub fn stale_shortcuts(names: &Vec<String>) -> (stale: Vec<String>)
    ensures
        stale@ == names@.filter(|name: String| own_shortcut(name@)),
{
    let mut stale: Vec<String> = Vec::new();
    let mut i: usize = 0;
    proof {
        reveal(Seq::filter);
    }
    while i < names.len()
        invariant
            i <= names@.len(),
            stale@ == names@.take(i as int).filter(|name: String| own_shortcut(name@)),
        decreases names.len() - i,
    {
        proof {
            reveal(Seq::filter);
            assert(names@.take(i + 1).drop_last() == names@.take(i as int));
        }
        if is_own_shortcut(names[i].as_str()) {
            stale.push(names[i].clone());
        }
        i += 1;
    }
    assert(names@.take(names@.len() as int) == names@);
    stale
}

/// Commands are fetched in the order in which they came: a command that comes is fetched after
/// all that came before, and does not change which of those is next.
pub proof fn law_commands_keep_their_order<W>(b: BridgeView<W>, payload: String, now: u64)
    ensures
        b.queue.len() > 0 ==> fetched(with_command(b, payload, now)).0 == fetched(b).0,
        b.queue.len() > 0 ==> fetched(with_command(b, payload, now)).1 == with_command(
            fetched(b).1,
            payload,
            now,
        ),
        b.queue.len() == 0 ==> fetched(with_command(b, payload, now)).0 == Some(payload),
        b.queue.len() == 0 ==> fetched(with_command(b, payload, now)).1.queue.len() == 0,
{
    let after = with_command(b, payload, now);
    if b.queue.len() > 0 {
        assert(after.queue.drop_first() =~= b.queue.drop_first().push(payload));
    }
}

/// A response reaches who waits for it, once: when it comes again nobody is told.
pub proof fn law_response_is_delivered_once<W>(b: BridgeView<W>, id: u128, waiter: W)
    ensures
        resolved(with_waiter(b, id, waiter), id).0 == Some(waiter),
        resolved(resolved(with_waiter(b, id, waiter), id).1, id).0 is None,
{
}

/// A response that is no longer waited for reaches nobody, and none reaches who waits for another
/// one.
pub proof fn law_response_reaches_no_other<W>(b: BridgeView<W>, id: u128, other: u128)
    requires
        id != other,
    ensures
        resolved(without_waiter(b, id), id).0 is None,
        resolved(resolved(b, id).1, other).0 == resolved(b, other).0,
{
}

/// Fetching commands changes nothing for those who wait for responses, and the other way round.
pub proof fn law_commands_and_responses_are_apart<W>(
    b: BridgeView<W>,
    id: u128,
    payload: String,
    now: u64,
)
    ensures
        fetched(b).1.waiters == b.waiters,
        with_command(b, payload, now).waiters == b.waiters,
        resolved(b, id).1.queue == b.queue,
        resolved(b, id).1.last_enqueued == b.last_enqueued,
{
}

/// A command keeps the script from counting as silent for the whole interval, and no longer.
pub proof fn law_command_ends_the_silence<W>(
    b: BridgeView<W>,
    payload: String,
    now: u64,
    later: u64,
)
    requires
        now <= later,
    ensures
        silent(with_command(b, payload, now), later) == (later - now >= KEEPALIVE_INTERVAL),
{
}

} // verus!
