use vstd::prelude::*;

use crate::geometry::{normalize, normalize_spec, PixelPoint, Position, Size};

verus! {

/// An input or system signal taken from the platform's queue.
#[derive(Clone, Copy, Debug, PartialEq, Eq, Structural)]
pub enum Signal {
    /// The user asked to close the window.
    Close,
    /// The platform asks for the window to be redrawn.
    Paint,
    /// The primary pointer button went down at `at`, relative to the client
    /// area, whose size at that moment is `client`.
    PrimaryPress { at: PixelPoint, client: Size },
    /// Anything else.
    Other,
}

/// What becomes of one signal.
#[derive(Clone, Copy, Debug, PartialEq, Eq, Structural)]
pub enum Reaction {
    /// The close was recorded; nothing more is done with the signal.
    Closed,
    /// The paint request is acknowledged without drawing.
    AcknowledgePaint,
    /// The click handler receives this position; the signal is consumed.
    Click(Position),
    /// The press is consumed without reaching the click handler: the window
    /// is closed, the client area is empty, or the press lies outside it.
    Dropped,
    /// The signal goes to the platform's default handling, unchanged.
    Forward,
}

/// The reaction to signal `s` of a window whose closed flag is `closed`.
pub open spec fn reaction_of(closed: bool, s: Signal) -> Reaction {
    match s {
        Signal::Close => Reaction::Closed,
        Signal::Paint => Reaction::AcknowledgePaint,
        Signal::PrimaryPress { at, client } => {
            if !closed && client.is_drawable() && client.contains(at) {
                Reaction::Click(normalize_spec(at, client))
            } else {
                Reaction::Dropped
            }
        },
        Signal::Other => Reaction::Forward,
    }
}

/// The closed flag after signal `s`: only a close sets it, nothing clears it.
pub open spec fn closed_after(closed: bool, s: Signal) -> bool {
    closed || s is Close
}

/// The closed flag after the signals `signals`, in order, starting from `closed`.
pub open spec fn closed_through(closed: bool, signals: Seq<Signal>) -> bool
    decreases signals.len(),
{
    if signals.len() == 0 {
        closed
    } else {
        closed_after(closed_through(closed, signals.drop_last()), signals.last())
    }
}

/// The reaction to each of `signals`, each met with the closed flag that
/// the signals before it left.
pub open spec fn reactions(closed: bool, signals: Seq<Signal>) -> Seq<Reaction> {
    Seq::new(
        signals.len(),
        |j: int| reaction_of(closed_through(closed, signals.take(j)), signals[j]),
    )
}

/// Decides what becomes of signal `s` when the closed flag is `closed`.
pub fn react(closed: bool, s: Signal) -> (r: Reaction)
    ensures
        r == reaction_of(closed, s),
        closed ==> !(r is Click),
        r matches Reaction::Click(p) ==> p.wf(),
{
    match s {
        Signal::Close => Reaction::Closed,
        Signal::Paint => Reaction::AcknowledgePaint,
        Signal::PrimaryPress { at, client } => {
            if !closed && client.drawable() && client.holds(at) {
                Reaction::Click(normalize(at, client))
            } else {
                Reaction::Dropped
            }
        },
        Signal::Other => Reaction::Forward,
    }
}

/// The closed flag after one more signal is what that signal makes of the
/// flag before it.
pub proof fn lemma_closed_through_push(closed: bool, signals: Seq<Signal>, s: Signal)
    ensures
        closed_through(closed, signals.push(s)) == closed_after(closed_through(closed, signals), s),
{
    assert(signals.push(s).drop_last() =~= signals);
}

/// The closed flag never reverts, and so it goes from false to true at most
/// once along any sequence of signals.
pub proof fn lemma_closed_monotone(closed: bool, signals: Seq<Signal>, i: int, j: int)
    requires
        0 <= i <= j <= signals.len(),
    ensures
        closed_through(closed, signals.take(i)) ==> closed_through(closed, signals.take(j)),
        i < j && j < signals.len() ==> !(!closed_through(closed, signals.take(i))
            && closed_through(closed, signals.take(i + 1)) && !closed_through(
            closed,
            signals.take(j),
        ) && closed_through(closed, signals.take(j + 1))),
    decreases j - i,
{
    if i < j {
        lemma_closed_monotone(closed, signals, i + 1, j);
        assert(signals.take(i + 1).drop_last() =~= signals.take(i));
    }
}

/// No signal that follows a close, in the same sequence, reaches the click
/// handler.
pub proof fn lemma_no_click_after_close(closed: bool, signals: Seq<Signal>, k: int, j: int)
    requires
        0 <= k < j < signals.len(),
        signals[k] is Close,
    ensures
        !(reactions(closed, signals)[j] is Click),
{
    assert(signals.take(k + 1).drop_last() =~= signals.take(k));
    assert(signals.take(k + 1).last() == signals[k]);
    lemma_closed_monotone(closed, signals, k + 1, j);
}

} // verus!
