//! The Fn-key listener's decisions: which keyboard events it listens to, how
//! each event moves the Fn key's up/down state, reporting an edge only when
//! the state flips, and what the listener keeps across start and stop.
use vstd::prelude::*;

verus! {

pub const KEY_DOWN: u32 = 10;

pub const KEY_UP: u32 = 11;

pub const FLAGS_CHANGED: u32 = 12;

pub const TAP_DISABLED_TIMEOUT: u32 = 0xFFFF_FFFE;

pub const TAP_DISABLED_USER: u32 = 0xFFFF_FFFF;

/// Modifier flag of the Fn key.
pub const SECONDARY_FN: u64 = 0x0080_0000;

/// Virtual key code of the Fn key.
pub const KEYCODE_FN: i64 = 0x3F;

/// The event types the listener subscribes to: key down, key up and
/// modifier changes.
pub fn event_mask() -> (res: u64)
    ensures
        res == 0x1c00,
{
    let m = (1u64 << KEY_DOWN) | (1u64 << KEY_UP) | (1u64 << FLAGS_CHANGED);
    assert(((1u64 << 10u32) | (1u64 << 11u32) | (1u64 << 12u32)) == 0x1c00u64) by (bit_vector);
    m
}

/// What kind of event the listener received.
#[derive(Clone, Copy, Debug, PartialEq, Eq, Structural)]
pub enum TapEvent {
    /// The system disabled the listener (timeout or user input).
    Disabled,
    /// Modifier flags changed; the caller reads the flags.
    FlagsChanged,
    /// A key went down; the caller reads its key code.
    KeyDown,
    /// A key went up; the caller reads its key code.
    KeyUp,
    Other,
}

pub open spec fn tap_event_of(etype: u32) -> TapEvent {
    if etype == TAP_DISABLED_TIMEOUT || etype == TAP_DISABLED_USER {
        TapEvent::Disabled
    } else if etype == FLAGS_CHANGED {
        TapEvent::FlagsChanged
    } else if etype == KEY_DOWN {
        TapEvent::KeyDown
    } else if etype == KEY_UP {
        TapEvent::KeyUp
    } else {
        TapEvent::Other
    }
}

/// The kind of event of type `etype`.
pub fn classify_tap_event(etype: u32) -> (res: TapEvent)
    ensures
        res == tap_event_of(etype),
{
    if etype == TAP_DISABLED_TIMEOUT || etype == TAP_DISABLED_USER {
        TapEvent::Disabled
    } else if etype == FLAGS_CHANGED {
        TapEvent::FlagsChanged
    } else if etype == KEY_DOWN {
        TapEvent::KeyDown
    } else if etype == KEY_UP {
        TapEvent::KeyUp
    } else {
        TapEvent::Other
    }
}

/// The listener's response to one event.
#[derive(Clone, Copy, Debug)]
pub struct TapStep {
    /// Turn the listener back on.
    pub reenable: bool,
    /// Whether Fn is down after the event.
    pub fn_down: bool,
    /// The new state, when it differs from the old one.
    pub edge: Option<bool>,
}

/// Whether the event says where the Fn key is, and if so, where.
pub open spec fn fn_reading(event: TapEvent, flags: u64, keycode: i64) -> Option<bool> {
    match event {
        TapEvent::FlagsChanged => Some(flags & SECONDARY_FN != 0),
        TapEvent::KeyDown => if keycode == KEYCODE_FN {
            Some(true)
        } else {
            None
        },
        TapEvent::KeyUp => if keycode == KEYCODE_FN {
            Some(false)
        } else {
            None
        },
        _ => None,
    }
}

/// One event applied to the Fn state `fn_down`: a modifier change reads the
/// Fn flag; a key event for the Fn key code means down or up; anything else
/// leaves the state. A disabled listener is turned back on. An edge is
/// reported exactly when the state flips, so reported edges alternate.
/// (`flags` is read only for modifier changes, `keycode` only for key events.)
pub fn fn_tap_step(fn_down: bool, event: TapEvent, flags: u64, keycode: i64) -> (res: TapStep)
    ensures
        res.reenable == (event == TapEvent::Disabled),
        res.fn_down == (match fn_reading(event, flags, keycode) {
            Some(now) => now,
            None => fn_down,
        }),
        res.edge == (if res.fn_down != fn_down {
            Some(res.fn_down)
        } else {
            None
        }),
{
    let reading: Option<bool> = match event {
        TapEvent::FlagsChanged => Some(flags & SECONDARY_FN != 0),
        TapEvent::KeyDown => if keycode == KEYCODE_FN {
            Some(true)
        } else {
            None
        },
        TapEvent::KeyUp => if keycode == KEYCODE_FN {
            Some(false)
        } else {
            None
        },
        _ => None,
    };
    let now = match reading {
        Some(n) => n,
        None => fn_down,
    };
    TapStep {
        reenable: event == TapEvent::Disabled,
        fn_down: now,
        edge: if now != fn_down {
            Some(now)
        } else {
            None
        },
    }
}

/// Edges alternate: after an edge to `e`, the next edge goes the other way.
pub proof fn law_fn_edges_alternate(
    fn_down: bool,
    first: TapEvent,
    flags1: u64,
    keycode1: i64,
    second: TapEvent,
    flags2: u64,
    keycode2: i64,
    s1: TapStep,
    s2: TapStep,
)
    requires
        s1.fn_down == (match fn_reading(first, flags1, keycode1) {
            Some(now) => now,
            None => fn_down,
        }),
        s1.edge == (if s1.fn_down != fn_down {
            Some(s1.fn_down)
        } else {
            None
        }),
        s2.fn_down == (match fn_reading(second, flags2, keycode2) {
            Some(now) => now,
            None => s1.fn_down,
        }),
        s2.edge == (if s2.fn_down != s1.fn_down {
            Some(s2.fn_down)
        } else {
            None
        }),
        s1.edge is Some,
        s2.edge is Some,
    ensures
        s1.edge != s2.edge,
{
}

/// What the Fn listener keeps between events.
#[derive(Clone, Copy, Debug, PartialEq, Eq, Structural)]
pub struct FnListener {
    /// The event tap is installed and its run loop is running.
    pub running: bool,
    /// A callback is registered to receive edges.
    pub subscribed: bool,
    /// Whether Fn is down, as last seen.
    pub fn_down: bool,
}

/// The listener at rest: nothing installed, nobody subscribed, Fn up.
pub open spec fn idle_listener() -> FnListener {
    FnListener { running: false, subscribed: false, fn_down: false }
}

/// Starting failed: the event tap could not be installed.
pub const LISTEN_FAILED: &'static str = "Could not listen for Fn. Grant Input Monitoring in System Settings.";

impl FnListener {
    /// A listener at rest.
    pub fn new() -> (res: FnListener)
        ensures
            res == idle_listener(),
    {
        FnListener { running: false, subscribed: false, fn_down: false }
    }
}

/// Stops listening: the tap is marked stopped, the callback is dropped and
/// Fn is taken to be up. Stopping a listener that never started, or stopping
/// twice, is harmless.
pub fn stop(listener: &mut FnListener)
    ensures
        *final(listener) == idle_listener(),
{
    listener.running = false;
    listener.subscribed = false;
    listener.fn_down = false;
}

/// Begins a start: any previous listener is stopped, Fn is taken to be up,
/// and edges go to the new callback from now on. The tap is not running
/// until `tap_ready` reports it.
pub fn start(listener: &mut FnListener)
    ensures
        *final(listener) == (FnListener { running: false, subscribed: true, fn_down: false }),
{
    stop(listener);
    listener.subscribed = true;
}

/// The listener's thread reported whether the event tap was installed.
/// Success marks the tap running; failure leaves it stopped and gives the
/// message that asks for Input Monitoring.
pub fn tap_ready(listener: &mut FnListener, installed: bool) -> (res: Result<(), &'static str>)
    ensures
        *final(listener) == (FnListener { running: installed, ..*old(listener) }),
        res is Ok <==> installed,
        res matches Err(e) ==> e@ == LISTEN_FAILED@,
{
    listener.running = installed;
    if installed {
        Ok(())
    } else {
        Err(LISTEN_FAILED)
    }
}

/// Where Fn is after `event`, starting from `fn_down`.
pub open spec fn fn_after(fn_down: bool, event: TapEvent, flags: u64, keycode: i64) -> bool {
    match fn_reading(event, flags, keycode) {
        Some(now) => now,
        None => fn_down,
    }
}

/// One event applied to the listener: the listener's new state, and the
/// edge handed to the callback, if any.
pub open spec fn listener_after(l: FnListener, event: TapEvent, flags: u64, keycode: i64) -> (
    FnListener,
    Option<bool>,
) {
    let now = fn_after(l.fn_down, event, flags, keycode);
    (
        FnListener { fn_down: now, ..l },
        if l.subscribed && now != l.fn_down {
            Some(now)
        } else {
            None
        },
    )
}

/// Applies one event from the tap to the listener: Fn's state follows the
/// event (a disabled-tap notice leaves it), and an edge goes to the callback
/// exactly when Fn flipped and a callback is registered.
pub fn on_event(listener: &mut FnListener, event: TapEvent, flags: u64, keycode: i64) -> (res:
    Option<bool>)
    ensures
        (*final(listener), res) == listener_after(*old(listener), event, flags, keycode),
{
    let step = fn_tap_step(listener.fn_down, event, flags, keycode);
    listener.fn_down = step.fn_down;
    if listener.subscribed {
        step.edge
    } else {
        None
    }
}

/// A run of events from the tap (each event's kind, flags and key code)
/// applied in order: the listener's final state and the edges handed to the
/// callback, in order.
pub open spec fn run_events(l: FnListener, events: Seq<(TapEvent, u64, i64)>) -> (
    FnListener,
    Seq<bool>,
)
    decreases events.len(),
{
    if events.len() == 0 {
        (l, Seq::empty())
    } else {
        let before = run_events(l, events.drop_last());
        let e = events.last();
        let after = listener_after(before.0, e.0, e.1, e.2);
        (
            after.0,
            match after.1 {
                Some(b) => before.1.push(b),
                None => before.1,
            },
        )
    }
}

/// After `stop`, no run of events reaches a callback until the next
/// `start`, and the listener stays unsubscribed.
pub proof fn law_no_edges_after_stop(l: FnListener, events: Seq<(TapEvent, u64, i64)>)
    requires
        !l.subscribed,
    ensures
        run_events(l, events).1.len() == 0,
        !run_events(l, events).0.subscribed,
    decreases events.len(),
{
    if events.len() > 0 {
        law_no_edges_after_stop(l, events.drop_last());
    }
}

/// From a start (subscribed, Fn up), the edges handed to the callback over
/// any run of events alternate down, up, down, ...: the `k`-th edge is
/// "down" exactly when `k` is even, and Fn is down exactly when an odd
/// number of edges has been handed over.
pub proof fn law_edges_alternate_from_start(l: FnListener, events: Seq<(TapEvent, u64, i64)>)
    requires
        l.subscribed,
        !l.fn_down,
    ensures
        forall|k: int|
            0 <= k < run_events(l, events).1.len() ==> #[trigger] run_events(l, events).1[k] == (k
                % 2 == 0),
        run_events(l, events).0.subscribed,
        run_events(l, events).0.fn_down == (run_events(l, events).1.len() % 2 == 1),
    decreases events.len(),
{
    if events.len() > 0 {
        law_edges_alternate_from_start(l, events.drop_last());
        let before = run_events(l, events.drop_last());
        let e = events.last();
        let after = listener_after(before.0, e.0, e.1, e.2);
        if after.1 is Some {
            assert forall|k: int| 0 <= k < run_events(l, events).1.len() implies #[trigger] run_events(
                l,
                events,
            ).1[k] == (k % 2 == 0) by {
                if k < before.1.len() {
                    assert(run_events(l, events).1[k] == before.1[k]);
                }
            }
        }
    }
}

/// Edges handed to a subscribed callback alternate between down and up.
pub proof fn law_delivered_edges_alternate(
    l: FnListener,
    first: TapEvent,
    flags1: u64,
    keycode1: i64,
    second: TapEvent,
    flags2: u64,
    keycode2: i64,
)
    requires
        listener_after(l, first, flags1, keycode1).1 is Some,
        listener_after(listener_after(l, first, flags1, keycode1).0, second, flags2, keycode2).1 is Some,
    ensures
        listener_after(l, first, flags1, keycode1).1 != listener_after(
            listener_after(l, first, flags1, keycode1).0,
            second,
            flags2,
            keycode2,
        ).1,
{
}

/// A modifier change reads only the Fn bit (`0x80_0000`) of the flags:
/// with that bit set Fn is down afterwards, with it clear Fn is up,
/// whatever other modifier or device bits come with it, and whatever Fn
/// was before.
pub proof fn law_flags_read_only_the_fn_bit(fn_down: bool, flags: u64, keycode: i64)
    ensures
        flags & 0x0080_0000u64 != 0 ==> fn_after(fn_down, TapEvent::FlagsChanged, flags, keycode),
        flags & 0x0080_0000u64 == 0 ==> !fn_after(fn_down, TapEvent::FlagsChanged, flags, keycode),
{
}

/// Two modifier changes whose flags agree in the Fn bit leave Fn in the
/// same state and report the same edge, however their other bits differ.
pub proof fn law_flags_other_bits_ignored(
    fn_down: bool,
    flags1: u64,
    flags2: u64,
    keycode1: i64,
    keycode2: i64,
)
    requires
        flags1 & 0x0080_0000u64 == flags2 & 0x0080_0000u64,
    ensures
        fn_after(fn_down, TapEvent::FlagsChanged, flags1, keycode1) == fn_after(
            fn_down,
            TapEvent::FlagsChanged,
            flags2,
            keycode2,
        ),
{
}

} // verus!
