//! What is allowed only so often: pressing a hotkey, and starting an app.

use crate::toggle::stamps;
use crate::toggle::stamps::Stamps;
use vstd::prelude::*;

verus! {

/// How long after a press of a hotkey further presses of it are ignored, in nanoseconds.
pub const HOTKEY_DEBOUNCE_WINDOW: u64 = 400_000_000;

/// How long after an app was started it is not started again, in nanoseconds.
pub const SPAWN_GATE_TTL: u64 = 15_000_000_000;

/// Whether a press of a hotkey is a repetition of one that counted a moment ago.
pub open spec fn repeated(pressed: Map<Seq<char>, u64>, id: Seq<char>, now: u64) -> bool {
    pressed.contains_key(id) && stamps::age(pressed[id], now) <= HOTKEY_DEBOUNCE_WINDOW
}

/// The presses that are remembered after one more: the recent ones, and this one if it counts.
pub open spec fn after_press(pressed: Map<Seq<char>, u64>, id: Seq<char>, now: u64) -> Map<
    Seq<char>,
    u64,
> {
    let kept = stamps::recent(pressed, now, HOTKEY_DEBOUNCE_WINDOW as int);
    if repeated(pressed, id, now) {
        kept
    } else {
        kept.insert(id, now)
    }
}

/// Whether an app is being started.
pub open spec fn starting(pending: Map<Seq<char>, u64>, name: Seq<char>, now: u64) -> bool {
    pending.contains_key(name) && stamps::age(pending[name], now) < SPAWN_GATE_TTL
}

/// The starts that are remembered after an app has asked to be started: the recent ones, and
/// this one unless the app is being started already.
pub open spec fn after_claim(pending: Map<Seq<char>, u64>, name: Seq<char>, now: u64) -> Map<
    Seq<char>,
    u64,
> {
    let kept = stamps::recent(pending, now, SPAWN_GATE_TTL - 1);
    if starting(pending, name, now) {
        kept
    } else {
        kept.insert(name, now)
    }
}

/// Decides whether a press of a hotkey is to be ignored, and remembers it if not.
pub fn should_ignore_shortcut(recent_hotkeys: &mut Stamps, shortcut_id: &str, now: u64) -> (ignore:
    bool)
    ensures
        ignore == repeated(old(recent_hotkeys)@, shortcut_id@, now),
        final(recent_hotkeys)@ == after_press(old(recent_hotkeys)@, shortcut_id@, now),
{
    recent_hotkeys.drop_older(now, HOTKEY_DEBOUNCE_WINDOW);
    match recent_hotkeys.get(shortcut_id) {
        Some(_) => true,
        None => {
            recent_hotkeys.insert(shortcut_id, now);
            false
        },
    }
}

/// Asks to start an app, and remembers that it is being started if the answer is yes.
pub fn claim_spawn_gate(pending_spawns: &mut Stamps, app_name: &str, now: u64) -> (claimed: bool)
    ensures
        claimed == !starting(old(pending_spawns)@, app_name@, now),
        final(pending_spawns)@ == after_claim(old(pending_spawns)@, app_name@, now),
{
    pending_spawns.drop_older(now, SPAWN_GATE_TTL - 1);
    match pending_spawns.get(app_name) {
        Some(_) => false,
        None => {
            pending_spawns.insert(app_name, now);
            true
        },
    }
}

/// Notes that an app is no longer being started.
pub fn release_spawn_gate(pending_spawns: &mut Stamps, app_name: &str)
    ensures
        final(pending_spawns)@ == old(pending_spawns)@.remove(app_name@),
{
    pending_spawns.remove(app_name);
}

/// A hotkey that is pressed again within the window is ignored, whenever the first press
/// counted.
pub proof fn law_repeated_press_is_ignored(
    pressed: Map<Seq<char>, u64>,
    id: Seq<char>,
    first: u64,
    second: u64,
)
    requires
        !repeated(pressed, id, first),
        first <= second <= first + HOTKEY_DEBOUNCE_WINDOW,
    ensures
        repeated(after_press(pressed, id, first), id, second),
{
}

/// A hotkey that is pressed again after the window counts again.
pub proof fn law_later_press_counts(
    pressed: Map<Seq<char>, u64>,
    id: Seq<char>,
    first: u64,
    second: u64,
)
    requires
        !repeated(pressed, id, first),
        second > first + HOTKEY_DEBOUNCE_WINDOW,
    ensures
        !repeated(after_press(pressed, id, first), id, second),
{
}

/// An ignored press leaves the window where it is: holding a key down does not keep it from
/// counting for ever.
pub proof fn law_ignored_press_leaves_window(
    pressed: Map<Seq<char>, u64>,
    id: Seq<char>,
    now: u64,
    later: u64,
)
    requires
        repeated(pressed, id, now),
    ensures
        repeated(after_press(pressed, id, now), id, later) == repeated(pressed, id, later),
{
}

/// Pressing one hotkey changes nothing for another one.
pub proof fn law_presses_are_independent(
    pressed: Map<Seq<char>, u64>,
    id: Seq<char>,
    other: Seq<char>,
    now: u64,
    later: u64,
)
    requires
        id != other,
        now <= later,
    ensures
        repeated(after_press(pressed, id, now), other, later) == repeated(pressed, other, later),
{
}

/// An app that was allowed to start is not allowed to start again before the time is up, unless
/// it is released; then it is.
pub proof fn law_one_start_at_a_time(
    pending: Map<Seq<char>, u64>,
    name: Seq<char>,
    first: u64,
    second: u64,
)
    requires
        !starting(pending, name, first),
        first <= second,
    ensures
        starting(after_claim(pending, name, first), name, second) == (second - first
            < SPAWN_GATE_TTL),
        !starting(after_claim(pending, name, first).remove(name), name, second),
{
}

/// A refused start does not prolong the time for which the app counts as being started.
pub proof fn law_refused_start_prolongs_nothing(
    pending: Map<Seq<char>, u64>,
    name: Seq<char>,
    now: u64,
    later: u64,
)
    requires
        starting(pending, name, now),
    ensures
        starting(after_claim(pending, name, now), name, later) == starting(pending, name, later),
{
}

/// Starting one app changes nothing for another one.
pub proof fn law_starts_are_independent(
    pending: Map<Seq<char>, u64>,
    name: Seq<char>,
    other: Seq<char>,
    now: u64,
    later: u64,
)
    requires
        name != other,
        now <= later,
    ensures
        starting(after_claim(pending, name, now), other, later) == starting(pending, other, later),
        starting(pending.remove(name), other, later) == starting(pending, other, later),
{
}

/// A hotkey that counted is ignored for four tenths of a second from then on, the end included,
/// and counts again after that. One that was never pressed counts.
pub proof fn law_press_is_ignored_for_four_tenths_of_a_second(
    pressed: Map<Seq<char>, u64>,
    id: Seq<char>,
    first: u64,
    second: u64,
)
    requires
        first <= second,
    ensures
        !pressed.contains_key(id) ==> !repeated(pressed, id, first),
        !repeated(pressed, id, first) ==> (repeated(after_press(pressed, id, first), id, second)
            <==> second - first <= 400_000_000),
        pressed.contains_key(id) && pressed[id] <= first ==> (repeated(pressed, id, first) <==> first
            - pressed[id] <= 400_000_000),
{
}

/// An app that was allowed to start counts as being started for fifteen seconds from then on, the
/// end not included. One that was never started does not.
pub proof fn law_start_counts_for_fifteen_seconds(
    pending: Map<Seq<char>, u64>,
    name: Seq<char>,
    first: u64,
    second: u64,
)
    requires
        first <= second,
    ensures
        !pending.contains_key(name) ==> !starting(pending, name, first),
        !starting(pending, name, first) ==> (starting(
            after_claim(pending, name, first),
            name,
            second,
        ) <==> second - first < 15_000_000_000),
        pending.contains_key(name) && pending[name] <= first ==> (starting(pending, name, first)
            <==> first - pending[name] < 15_000_000_000),
{
}

} // verus!
